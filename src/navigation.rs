//! Which directory entries to try, and in what order, when stepping from the
//! image on show to the previous or next one.

use vstd::prelude::*;

verus! {

/// Whether `std::path::Path` takes two paths for the same one (it compares
/// them component by component).
pub uninterp spec fn same_path(a: Seq<char>, b: Seq<char>) -> bool;

/// Relies on `PartialEq` of `std::path::Path`.
#[verifier::external_body]
fn paths_equal(a: &str, b: &str) -> (r: bool)
    ensures
        r == same_path(a@, b@),
{
    std::path::Path::new(a) == std::path::Path::new(b)
}

/// The way through a directory listing.
#[derive(Clone, Copy, Debug, PartialEq, Eq, Structural)]
pub enum Direction {
    /// From the end of the listing to its start.
    Dec,
    /// From the start of the listing to its end.
    Inc,
}

/// The entry visited at step `k` of a walk through `n` entries.
pub open spec fn visit_index(n: nat, direction: Direction, k: int) -> int {
    match direction {
        Direction::Inc => k,
        Direction::Dec => n - 1 - k,
    }
}

/// Whether the entry visited at step `k` is the current path.
pub open spec fn is_current_at(
    entries: Seq<String>,
    current: Seq<char>,
    direction: Direction,
    k: int,
) -> bool {
    same_path(entries[visit_index(entries.len(), direction, k)]@, current)
}

/// The entries to try in turn after stepping off `current`: walking the
/// listing in `direction`, every entry visited after the first one that is
/// the current path. Nothing when the current path is not listed.
pub fn navigation_candidates(entries: &Vec<String>, current: &str, direction: Direction) -> (r: Vec<
    usize,
>)
    ensures
        (forall|k: int| 0 <= k < entries@.len() ==> !is_current_at(entries@, current@, direction, k))
            ==> r@.len() == 0,
        forall|k: int|
            0 <= k < entries@.len() && is_current_at(entries@, current@, direction, k) && (forall|
                j: int,
            |
                0 <= j < k ==> !is_current_at(entries@, current@, direction, j)) ==> r@.len()
                == entries@.len() - k - 1 && forall|j: int|
                0 <= j < r@.len() ==> r@[j] == visit_index(entries@.len(), direction, k + 1 + j),
{
    let n = entries.len();
    let mut found = false;
    let mut out: Vec<usize> = Vec::new();
    let ghost mut first: int = -1;
    let mut k: usize = 0;
    while k < n
        invariant
            n == entries@.len(),
            k <= n,
            found <==> first >= 0,
            !found ==> out@.len() == 0,
            !found ==> forall|j: int| 0 <= j < k ==> !is_current_at(entries@, current@, direction, j),
            found ==> 0 <= first < k && is_current_at(entries@, current@, direction, first)
                && (forall|j: int|
                0 <= j < first ==> !is_current_at(entries@, current@, direction, j)),
            found ==> out@.len() == k - first - 1,
            found ==> forall|j: int|
                0 <= j < out@.len() ==> out@[j] == visit_index(n as nat, direction, first + 1 + j),
        decreases n - k,
    {
        let index: usize = match direction {
            Direction::Inc => k,
            Direction::Dec => n - k - 1,
        };
        if found {
            out.push(index);
        } else if paths_equal(entries[index].as_str(), current) {
            found = true;
            proof {
                first = k as int;
            }
        }
        k = k + 1;
    }
    out
}

} // verus!
