//! Identifiers for new todos: derived from a clock reading, and never one
//! that the collection already holds.

use crate::todo::{contains_id, has_id, todos_view, Todo, TodoView};
use vstd::prelude::*;

verus! {

/// The value `k` places after `stamp`, where zero follows the largest value.
pub open spec fn step_from(stamp: u64, k: int) -> u64 {
    ((stamp as int + k) % 0x1_0000_0000_0000_0000) as u64
}

/// How many places after `stamp` the search that has reached place `k` ends:
/// at the first value that no todo of `s` carries, and after `s.len()` places
/// at the latest.
pub open spec fn free_offset(s: Seq<TodoView>, stamp: u64, k: int) -> int
    decreases s.len() - k,
{
    if 0 <= k < s.len() && has_id(s, step_from(stamp, k)) {
        free_offset(s, stamp, k + 1)
    } else {
        k
    }
}

/// The first value at or after `stamp`, in the order of [`step_from`], that
/// no todo of `s` carries.
pub open spec fn first_free(s: Seq<TodoView>, stamp: u64) -> u64 {
    step_from(stamp, free_offset(s, stamp, 0))
}

/// The floor after `id` has been issued: one past it, and the largest value
/// where there is none past it.
pub open spec fn floor_after(id: u64) -> u64 {
    if id == u64::MAX {
        id
    } else {
        (id + 1) as u64
    }
}

/// The later of a clock reading and a floor.
pub open spec fn later_of(now: u64, floor: u64) -> u64 {
    if now >= floor {
        now
    } else {
        floor
    }
}

proof fn lemma_drop_last_keeps(s: Seq<TodoView>, v: u64)
    requires
        s.len() > 0,
        has_id(s, v),
        s.last().id != v,
    ensures
        has_id(s.drop_last(), v),
{
    let i = choose|i: int| 0 <= i < s.len() && (#[trigger] s[i]).id == v;
    assert(s.drop_last()[i].id == v);
}

/// Pigeonhole: `n` different values, each carried by a todo of `s`, are at
/// most `s.len()` values.
proof fn lemma_pigeonhole(s: Seq<TodoView>, f: spec_fn(int) -> u64, n: int)
    requires
        forall|j: int| 0 <= j < n ==> has_id(s, #[trigger] f(j)),
        forall|i: int, j: int| 0 <= i < j < n ==> #[trigger] f(i) != #[trigger] f(j),
    ensures
        n <= s.len(),
    decreases s.len(),
{
    if n > 0 {
        if s.len() == 0 {
            assert(has_id(s, f(0)));
        } else {
            let last = s.last().id;
            let rest = s.drop_last();
            if exists|j: int| 0 <= j < n && #[trigger] f(j) == last {
                let j0 = choose|j: int| 0 <= j < n && #[trigger] f(j) == last;
                let g = |j: int|
                    if j < j0 {
                        f(j)
                    } else {
                        f(j + 1)
                    };
                assert forall|j: int| 0 <= j < n - 1 implies has_id(rest, #[trigger] g(j)) by {
                    let j1 = if j < j0 {
                        j
                    } else {
                        j + 1
                    };
                    assert(g(j) == f(j1));
                    assert(has_id(s, f(j1)));
                    if j1 < j0 {
                        assert(f(j1) != f(j0));
                    } else {
                        assert(f(j0) != f(j1));
                    }
                    lemma_drop_last_keeps(s, f(j1));
                }
                assert forall|i: int, j: int| 0 <= i < j < n - 1 implies #[trigger] g(i)
                    != #[trigger] g(j) by {
                    let i1 = if i < j0 {
                        i
                    } else {
                        i + 1
                    };
                    let j1 = if j < j0 {
                        j
                    } else {
                        j + 1
                    };
                    assert(g(i) == f(i1) && g(j) == f(j1));
                    assert(f(i1) != f(j1));
                }
                lemma_pigeonhole(rest, g, n - 1);
            } else {
                assert forall|j: int| 0 <= j < n implies has_id(rest, #[trigger] f(j)) by {
                    assert(has_id(s, f(j)));
                    lemma_drop_last_keeps(s, f(j));
                }
                lemma_pigeonhole(rest, f, n);
            }
        }
    }
}

/// Where the search from place `k` ends, every place from `k` up to there is
/// taken, and the end is within `s.len()` places.
proof fn lemma_free_offset(s: Seq<TodoView>, stamp: u64, k: int)
    requires
        0 <= k <= s.len(),
    ensures
        k <= free_offset(s, stamp, k) <= s.len(),
        forall|j: int|
            k <= j < free_offset(s, stamp, k) ==> has_id(s, #[trigger] step_from(stamp, j)),
        free_offset(s, stamp, k) < s.len() ==> !has_id(
            s,
            step_from(stamp, free_offset(s, stamp, k)),
        ),
    decreases s.len() - k,
{
    if k < s.len() && has_id(s, step_from(stamp, k)) {
        lemma_free_offset(s, stamp, k + 1);
    }
}

/// The value that [`first_free`] names is carried by no todo of `s`, and every
/// value between the stamp and it is.
pub proof fn lemma_first_free(s: Seq<TodoView>, stamp: u64)
    requires
        s.len() < 0x1_0000_0000_0000_0000,
    ensures
        !has_id(s, first_free(s, stamp)),
        0 <= free_offset(s, stamp, 0) <= s.len(),
        forall|j: int|
            0 <= j < free_offset(s, stamp, 0) ==> has_id(s, #[trigger] step_from(stamp, j)),
        !has_id(s, stamp) ==> first_free(s, stamp) == stamp,
{
    lemma_free_offset(s, stamp, 0);
    let k = free_offset(s, stamp, 0);
    if k == s.len() && has_id(s, step_from(stamp, k)) {
        let f = |j: int| step_from(stamp, j);
        assert forall|j: int| 0 <= j < k + 1 implies has_id(s, #[trigger] f(j)) by {
            assert(f(j) == step_from(stamp, j));
        }
        assert forall|i: int, j: int| 0 <= i < j < k + 1 implies #[trigger] f(i)
            != #[trigger] f(j) by {
            assert(f(i) == step_from(stamp, i) && f(j) == step_from(stamp, j));
        }
        lemma_pigeonhole(s, f, k + 1);
    }
    if !has_id(s, stamp) {
        assert(step_from(stamp, 0) == stamp);
    }
}

/// The first value at or after `stamp` that no todo of `todos` carries; after
/// the largest value the search goes on from zero.
pub fn fresh_id(todos: &Vec<Todo>, stamp: u64) -> (id: u64)
    ensures
        id == first_free(todos_view(todos@), stamp),
        !has_id(todos_view(todos@), id),
        !has_id(todos_view(todos@), stamp) ==> id == stamp,
{
    let ghost s = todos_view(todos@);
    let mut candidate: u64 = stamp;
    let mut k: usize = 0;
    proof {
        assert(s.len() == todos.len() <= usize::MAX);
        lemma_first_free(s, stamp);
    }
    while k < todos.len() && contains_id(todos, candidate)
        invariant
            k <= todos.len(),
            s == todos_view(todos@),
            candidate == step_from(stamp, k as int),
            free_offset(s, stamp, k as int) == free_offset(s, stamp, 0),
        decreases todos.len() - k,
    {
        candidate = if candidate == u64::MAX {
            0
        } else {
            candidate + 1
        };
        k += 1;
    }
    candidate
}

/// The current time as milliseconds since the Unix epoch, as an unsigned
/// number.
///
/// Calls `chrono::Utc::now` and `DateTime::timestamp_millis`. Nothing is
/// claimed of the reading: it depends on the machine's clock. `Utc::now`
/// panics on a machine whose clock stands before the Unix epoch; a reading
/// before it cannot come back.
#[verifier::external_body]
pub(crate) fn clock_millis() -> (now: u64) {
    chrono::Utc::now().timestamp_millis() as u64
}

} // verus!
