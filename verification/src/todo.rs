//! The todo entity and the operations on a collection of todos.

use vstd::prelude::*;

verus! {

/// One entry of the persisted collection.
#[derive(Debug, PartialEq, Eq)]
pub struct Todo {
    pub id: u64,
    pub text: String,
    pub done: bool,
}

/// The mathematical value of a [`Todo`].
pub ghost struct TodoView {
    pub id: u64,
    pub text: Seq<char>,
    pub done: bool,
}

impl View for Todo {
    type V = TodoView;

    open spec fn view(&self) -> TodoView {
        TodoView { id: self.id, text: self.text@, done: self.done }
    }
}

/// The values of a collection of todos, in order.
pub open spec fn todos_view(s: Seq<Todo>) -> Seq<TodoView> {
    s.map_values(|t: Todo| t@)
}

impl Todo {
    /// A todo with the same value.
    pub fn duplicate(&self) -> (r: Todo)
        ensures
            r@ == self@,
    {
        Todo { id: self.id, text: self.text.clone(), done: self.done }
    }
}

/// Some todo of `s` carries `id`.
pub open spec fn has_id(s: Seq<TodoView>, id: u64) -> bool {
    exists|i: int| 0 <= i < s.len() && (#[trigger] s[i]).id == id
}

/// No two todos of `s` carry the same id.
pub open spec fn unique_ids(s: Seq<TodoView>) -> bool {
    forall|i: int, j: int| 0 <= i < j < s.len() ==> (#[trigger] s[i]).id != (#[trigger] s[j]).id
}

/// `s` without every todo that carries `id`; the others keep their order.
pub open spec fn without_id(s: Seq<TodoView>, id: u64) -> Seq<TodoView> {
    s.filter(|t: TodoView| t.id != id)
}

/// `i` is the position of the first todo of `s` that carries `id`.
pub open spec fn is_first_with_id(s: Seq<TodoView>, id: u64, i: int) -> bool {
    &&& 0 <= i < s.len()
    &&& s[i].id == id
    &&& forall|j: int| 0 <= j < i ==> (#[trigger] s[j]).id != id
}

/// The position of the first todo of `s` that carries `id`, if there is one.
pub open spec fn first_index(s: Seq<TodoView>, id: u64) -> Option<int> {
    if has_id(s, id) {
        Some(choose|i: int| is_first_with_id(s, id, i))
    } else {
        None
    }
}

/// `s` with the first todo that carries the id of `t` replaced by `t`;
/// `s` itself where no todo carries that id.
pub open spec fn replaced(s: Seq<TodoView>, t: TodoView) -> Seq<TodoView> {
    match first_index(s, t.id) {
        Some(i) => s.update(i, t),
        None => s,
    }
}

/// A first position is the only first position.
pub proof fn lemma_first_index_is(s: Seq<TodoView>, id: u64, i: int)
    requires
        is_first_with_id(s, id, i),
    ensures
        first_index(s, id) == Some(i),
{
    assert(has_id(s, id));
    let c = choose|k: int| is_first_with_id(s, id, k);
    assert(is_first_with_id(s, id, c));
    if c < i {
        assert(s[c].id != id);
    }
    if i < c {
        assert(s[i].id != id);
    }
}

/// Whether some todo of `todos` carries `id`.
pub fn contains_id(todos: &Vec<Todo>, id: u64) -> (found: bool)
    ensures
        found == has_id(todos_view(todos@), id),
{
    position_of(todos, id).is_some()
}

/// The position of the first todo of `todos` that carries `id`.
pub fn position_of(todos: &Vec<Todo>, id: u64) -> (r: Option<usize>)
    ensures
        match r {
            Some(i) => i < todos.len() && first_index(todos_view(todos@), id) == Some(i as int),
            None => !has_id(todos_view(todos@), id),
        },
{
    let ghost s = todos_view(todos@);
    let mut i: usize = 0;
    while i < todos.len()
        invariant
            i <= todos.len(),
            s == todos_view(todos@),
            forall|j: int| 0 <= j < i ==> (#[trigger] s[j]).id != id,
        decreases todos.len() - i,
    {
        if todos[i].id == id {
            proof {
                lemma_first_index_is(s, id, i as int);
            }
            return Some(i);
        }
        i += 1;
    }
    None
}

/// Drops every todo that carries `id` and keeps the others in their order.
pub fn remove_by_id(todos: Vec<Todo>, id: u64) -> (kept: Vec<Todo>)
    ensures
        todos_view(kept@) == without_id(todos_view(todos@), id),
{
    let ghost s = todos_view(todos@);
    let ghost pred = |t: TodoView| t.id != id;
    let mut kept: Vec<Todo> = Vec::new();
    let mut i: usize = 0;
    proof {
        reveal(Seq::filter);
        assert(s.take(0).filter(pred) =~= Seq::<TodoView>::empty());
    }
    while i < todos.len()
        invariant
            i <= todos.len(),
            s == todos_view(todos@),
            pred == (|t: TodoView| t.id != id),
            todos_view(kept@) == s.take(i as int).filter(pred),
        decreases todos.len() - i,
    {
        let ghost before = todos_view(kept@);
        proof {
            reveal(Seq::filter);
            assert(s.take(i + 1).drop_last() =~= s.take(i as int));
            assert(s.take(i + 1).last() == s[i as int]);
        }
        if todos[i].id != id {
            kept.push(todos[i].duplicate());
            assert(todos_view(kept@) =~= before.push(s[i as int]));
        }
        i += 1;
    }
    assert(s.take(todos.len() as int) =~= s);
    kept
}

/// Puts `todo` in place of the first todo that carries its id. Returns the
/// collection and whether a todo was replaced.
pub fn replace_first(todos: Vec<Todo>, todo: Todo) -> (r: (Vec<Todo>, bool))
    ensures
        todos_view(r.0@) == replaced(todos_view(todos@), todo@),
        r.1 == has_id(todos_view(todos@), todo.id),
{
    let ghost s = todos_view(todos@);
    let mut todos = todos;
    match position_of(&todos, todo.id) {
        Some(i) => {
            todos.set(i, todo);
            assert(todos_view(todos@) =~= s.update(i as int, todo@));
            (todos, true)
        },
        None => (todos, false),
    }
}

/// A collection with one todo more carries the ids it carried and the id of
/// that todo.
pub proof fn lemma_has_id_push(s: Seq<TodoView>, t: TodoView, v: u64)
    ensures
        has_id(s.push(t), v) <==> has_id(s, v) || t.id == v,
{
    if has_id(s, v) {
        let i = choose|i: int| 0 <= i < s.len() && (#[trigger] s[i]).id == v;
        assert(s.push(t)[i].id == v);
    }
    if t.id == v {
        assert(s.push(t)[s.len() as int].id == v);
    }
    if has_id(s.push(t), v) {
        let i = choose|i: int| 0 <= i < s.push(t).len() && (#[trigger] s.push(t)[i]).id == v;
        if i < s.len() {
            assert(s[i].id == v);
        }
    }
}

/// Appending a todo whose id is new keeps the ids unique.
pub proof fn lemma_unique_push(s: Seq<TodoView>, t: TodoView)
    requires
        unique_ids(s),
        !has_id(s, t.id),
    ensures
        unique_ids(s.push(t)),
{
    assert forall|i: int, j: int| 0 <= i < j < s.push(t).len() implies (#[trigger] s.push(t)[i]).id
        != (#[trigger] s.push(t)[j]).id by {
        if j < s.len() {
            assert(s[i].id != s[j].id);
        } else {
            assert(s[i].id != t.id);
        }
    }
}

/// What removal by id does: the id is gone, every other id stays, a
/// collection without the id stays as it is, unique ids stay unique, and no
/// todo is added.
pub proof fn lemma_without_id(s: Seq<TodoView>, id: u64)
    ensures
        !has_id(without_id(s, id), id),
        forall|v: u64| v != id ==> (has_id(without_id(s, id), v) <==> has_id(s, v)),
        !has_id(s, id) ==> without_id(s, id) == s,
        unique_ids(s) ==> unique_ids(without_id(s, id)),
        without_id(s, id).len() <= s.len(),
    decreases s.len(),
{
    reveal(Seq::filter);
    if s.len() == 0 {
        assert(without_id(s, id) =~= s);
    } else {
        let rest = s.drop_last();
        let last = s.last();
        let kept = without_id(rest, id);
        lemma_without_id(rest, id);
        assert(s =~= rest.push(last));
        assert forall|v: u64| has_id(s, v) <==> has_id(rest, v) || last.id == v by {
            lemma_has_id_push(rest, last, v);
        }
        if last.id != id {
            assert(without_id(s, id) == kept.push(last));
            assert forall|v: u64| has_id(kept.push(last), v) <==> has_id(kept, v) || last.id
                == v by {
                lemma_has_id_push(kept, last, v);
            }
            if unique_ids(s) {
                assert(unique_ids(rest)) by {
                    assert forall|i: int, j: int| 0 <= i < j < rest.len() implies (
                    #[trigger] rest[i]).id != (#[trigger] rest[j]).id by {
                        assert(s[i].id != s[j].id);
                    }
                }
                if has_id(rest, last.id) {
                    let i = choose|i: int| 0 <= i < rest.len() && (#[trigger] rest[i]).id
                        == last.id;
                    assert(s[i].id != s[s.len() - 1].id);
                }
                lemma_unique_push(kept, last);
            }
        } else {
            assert(without_id(s, id) == kept);
            if unique_ids(s) {
                assert forall|i: int, j: int| 0 <= i < j < rest.len() implies (
                #[trigger] rest[i]).id != (#[trigger] rest[j]).id by {
                    assert(s[i].id != s[j].id);
                }
            }
        }
    }
}

/// An id that the collection carries has a first position.
pub proof fn lemma_first_exists(s: Seq<TodoView>, id: u64, k: int)
    requires
        0 <= k < s.len(),
        s[k].id == id,
    ensures
        exists|i: int| is_first_with_id(s, id, i),
    decreases k,
{
    if exists|j: int| 0 <= j < k && (#[trigger] s[j]).id == id {
        let j = choose|j: int| 0 <= j < k && (#[trigger] s[j]).id == id;
        lemma_first_exists(s, id, j);
    } else {
        assert(is_first_with_id(s, id, k));
    }
}

/// What replacement by id does: every position keeps its id, so the length
/// and the ids stay and unique ids stay unique; a collection without the id
/// stays as it is.
pub proof fn lemma_replaced(s: Seq<TodoView>, t: TodoView)
    ensures
        replaced(s, t).len() == s.len(),
        forall|i: int| 0 <= i < s.len() ==> (#[trigger] replaced(s, t)[i]).id == s[i].id,
        forall|v: u64| has_id(replaced(s, t), v) <==> has_id(s, v),
        unique_ids(s) ==> unique_ids(replaced(s, t)),
        !has_id(s, t.id) ==> replaced(s, t) == s,
{
    let r = replaced(s, t);
    if has_id(s, t.id) {
        let k = choose|k: int| 0 <= k < s.len() && (#[trigger] s[k]).id == t.id;
        lemma_first_exists(s, t.id, k);
        let i = choose|i: int| is_first_with_id(s, t.id, i);
        assert(r == s.update(i, t));
    }
    assert(r.len() == s.len());
    assert forall|i: int| 0 <= i < s.len() implies (#[trigger] r[i]).id == s[i].id by {}
    assert forall|v: u64| has_id(r, v) <==> has_id(s, v) by {
        if has_id(r, v) {
            let i = choose|i: int| 0 <= i < r.len() && (#[trigger] r[i]).id == v;
            assert(s[i].id == v);
        }
        if has_id(s, v) {
            let i = choose|i: int| 0 <= i < s.len() && (#[trigger] s[i]).id == v;
            assert(r[i].id == v);
        }
    }
    if unique_ids(s) {
        assert forall|i: int, j: int| 0 <= i < j < r.len() implies (#[trigger] r[i]).id != (
        #[trigger] r[j]).id by {
            assert(s[i].id != s[j].id);
        }
    }
}

} // verus!
