//! The illustration board: which chart's illustration to show next.

use vstd::prelude::*;
use rand::Rng;

verus! {

/// The first position of a path equal to `target` among `paths`, if any.
pub open spec fn first_position(paths: Seq<String>, target: Seq<char>) -> Option<int>
    decreases paths.len(),
{
    if paths.len() == 0 {
        None
    } else {
        match first_position(paths.drop_last(), target) {
            Some(i) => Some(i),
            None => if paths.last()@ == target {
                Some(paths.len() - 1)
            } else {
                None
            },
        }
    }
}

/// The first position is a position of the target, and no earlier path equals it;
/// there is none exactly when no path equals the target.
pub proof fn first_position_is_first(paths: Seq<String>, target: Seq<char>)
    ensures
        first_position(paths, target) matches Some(i) ==> 0 <= i < paths.len() && paths[i]@
            == target && forall|k: int| 0 <= k < i ==> paths[k]@ != target,
        first_position(paths, target) is None ==> forall|k: int|
            0 <= k < paths.len() ==> paths[k]@ != target,
    decreases paths.len(),
{
    if paths.len() > 0 {
        first_position_is_first(paths.drop_last(), target);
        assert forall|k: int| 0 <= k < paths.len() - 1 implies paths[k] == paths.drop_last()[k] by {}
    }
}

/// A position found in a prefix stays the first position in the whole sequence.
proof fn first_position_of_prefix(paths: Seq<String>, target: Seq<char>, k: int)
    requires
        0 <= k <= paths.len(),
        first_position(paths.take(k), target) is Some,
    ensures
        first_position(paths, target) == first_position(paths.take(k), target),
    decreases paths.len(),
{
    if k == paths.len() {
        assert(paths.take(k) =~= paths);
    } else {
        assert(paths.drop_last().take(k) =~= paths.take(k));
        first_position_of_prefix(paths.drop_last(), target, k);
    }
}

/// Finds the first path equal to `target`.
pub fn position_of(paths: &Vec<String>, target: &String) -> (r: Option<usize>)
    ensures
        match r {
            Some(i) => first_position(paths@, target@) == Some(i as int),
            None => first_position(paths@, target@) is None,
        },
{
    let n = paths.len();
    let mut i: usize = 0;
    while i < n
        invariant
            n == paths@.len(),
            i <= n,
            first_position(paths@.take(i as int), target@) is None,
        decreases n - i,
    {
        assert(paths@.take(i + 1).drop_last() =~= paths@.take(i as int));
        if paths[i] == *target {
            proof {
                first_position_of_prefix(paths@, target@, i + 1);
            }
            return Some(i);
        }
        i = i + 1;
    }
    assert(paths@.take(n as int) =~= paths@);
    None
}

/// How many charts a new board is drawn from: all of them, but the one shown
/// last when it is among them.
pub open spec fn board_draws(count: int, last: Option<int>) -> int {
    match last {
        Some(_) => count - 1,
        None => count,
    }
}

/// The chart that draw number `draw` picks: the draws skip over the chart shown last.
pub open spec fn board_pick(last: Option<int>, draw: int) -> int {
    match last {
        Some(j) => if j <= draw {
            draw + 1
        } else {
            draw
        },
        None => draw,
    }
}

/// An optional index, as a mathematical integer.
pub open spec fn index_opt(o: Option<usize>) -> Option<int> {
    match o {
        Some(j) => Some(j as int),
        None => None,
    }
}

/// The chart that draw number `draw` picks among `count` charts.
pub fn board_pick_index(count: usize, last: Option<usize>, draw: usize) -> (i: usize)
    requires
        last matches Some(j) ==> j < count,
        0 <= draw < board_draws(count as int, index_opt(last)),
    ensures
        i == board_pick(index_opt(last), draw as int),
        i < count,
        last matches Some(j) ==> i != j,
{
    match last {
        Some(j) => if j <= draw {
            draw + 1
        } else {
            draw
        },
        None => draw,
    }
}

/// The draws pick each chart but the one shown last, and no chart twice.
pub proof fn board_picks_every_other_chart_once(
    count: int,
    last: Option<int>,
    target: int,
    d1: int,
    d2: int,
)
    requires
        last matches Some(j) ==> 0 <= j < count,
        0 <= target < count,
        last != Some(target),
        0 <= d1 < board_draws(count, last),
        0 <= d2 < board_draws(count, last),
    ensures
        exists|d: int| 0 <= d < board_draws(count, last) && #[trigger] board_pick(last, d) == target,
        d1 != d2 ==> board_pick(last, d1) != board_pick(last, d2),
        0 <= board_pick(last, d1) < count,
        last matches Some(j) ==> board_pick(last, d1) != j,
{
    let d = match last {
        Some(j) => if j < target {
            target - 1
        } else {
            target
        },
        None => target,
    };
    assert(0 <= d < board_draws(count, last) && board_pick(last, d) == target);
}

/// With distinct chart paths, the board never shows the same chart twice in a row:
/// after showing chart `shown`, any chart that the next choice may give (one in
/// range that is not the first position of the shown path) has another path.
pub proof fn board_never_repeats_a_chart(paths: Seq<String>, shown: int, next: int)
    requires
        forall|a: int, b: int|
            0 <= a < paths.len() && 0 <= b < paths.len() && a != b ==> paths[a]@ != paths[b]@,
        0 <= shown < paths.len(),
        0 <= next < paths.len(),
        first_position(paths, paths[shown]@) matches Some(j) ==> next != j,
    ensures
        paths[next]@ != paths[shown]@,
{
    first_position_is_first(paths, paths[shown]@);
}

/// A number drawn by `rand`'s thread-local generator with `gen_range(0..n)`: any
/// number below `n` (the crate panics on an empty range, which `requires` rules out).
#[verifier::external_body]
pub(crate) fn random_below(n: usize) -> (r: usize)
    requires
        n > 0,
    ensures
        r < n,
{
    rand::thread_rng().gen_range(0..n)
}

/// A random `bool` from `rand::random`; nothing is promised of its value.
#[verifier::external_body]
pub(crate) fn random_flag() -> bool {
    rand::random::<bool>()
}

} // verus!
