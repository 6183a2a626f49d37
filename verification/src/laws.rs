//! What holds of whole units: requests served one after another against a
//! store that gives back what was last saved.

use crate::args::{reading, ArgKind, ArgView, Members};
use crate::catalog::{descriptor_of, first_violation, lemma_names_registered, tool_named, ToolId};
use crate::error::ToolErrorView;
use crate::ident::{floor_after, free_offset, later_of, lemma_first_free, step_from};
use crate::router::{
    busy_message, created, empty_reply, on_loaded, on_request, on_saved, route, CallView,
    ContentView, LoadedView, PhaseView, RouterView, StepView,
};
use crate::todo::{
    has_id, lemma_replaced, lemma_unique_push, lemma_without_id, replaced, unique_ids,
    without_id, TodoView,
};
use vstd::prelude::*;

verus! {

/// A request with the clock reading at which it is carried out.
pub ghost struct Request {
    pub name: Seq<char>,
    pub members: Members,
    pub now: u64,
}

/// The store and the router between two units. `stored` is what the store
/// holds under the key of the todos, if anything.
pub ghost struct World {
    pub stored: Option<Seq<TodoView>>,
    pub router: RouterView,
}

/// The todos that a store holds.
pub open spec fn todos_of(stored: Option<Seq<TodoView>>) -> Seq<TodoView> {
    match stored {
        Some(s) => s,
        None => Seq::empty(),
    }
}

/// What reading the store gives.
pub open spec fn read_store(stored: Option<Seq<TodoView>>) -> LoadedView {
    match stored {
        Some(s) => LoadedView::Todos(s),
        None => LoadedView::Missing,
    }
}

/// What the store holds after a step has been carried out on it.
pub open spec fn written(stored: Option<Seq<TodoView>>, step: StepView) -> Option<Seq<TodoView>> {
    match step {
        StepView::Save { set: Some(s) } => Some(s),
        _ => stored,
    }
}

/// The reply of a step that ends a unit.
pub open spec fn reply_of(step: StepView) -> Result<Seq<ContentView>, ToolErrorView> {
    match step {
        StepView::Reply(reply) => reply,
        _ => Err(ToolErrorView::ExecutionError(Seq::empty())),
    }
}

/// One whole unit: the request is taken, the store is read and handed to the
/// router, what the router asks to be written is written and saved without
/// fail, and the reply is taken.
pub open spec fn serve(w: World, req: Request) -> (World, Result<Seq<ContentView>, ToolErrorView>) {
    let (r1, s1) = on_request(w.router, req.name, req.members);
    if s1 is Load {
        let (r2, s2) = on_loaded(r1, read_store(w.stored), req.now);
        if s2 is Save {
            let (r3, s3) = on_saved(r2, Ok(()));
            (World { stored: written(w.stored, s2), router: r3 }, reply_of(s3))
        } else {
            (World { stored: w.stored, router: r2 }, reply_of(s2))
        }
    } else {
        (World { stored: w.stored, router: r1 }, reply_of(s1))
    }
}

/// The world after the requests have been served in order.
pub open spec fn serve_all(w: World, reqs: Seq<Request>) -> World
    decreases reqs.len(),
{
    if reqs.len() == 0 {
        w
    } else {
        serve(serve_all(w, reqs.drop_last()), reqs.last()).0
    }
}

/// The todos and the floor that one request leaves behind: a request that is
/// refused, and one that only lists, changes nothing.
pub open spec fn effect(s: Seq<TodoView>, floor: u64, req: Request) -> (Seq<TodoView>, u64) {
    match route(req.name, req.members) {
        Ok(CallView::AddTodo { text }) => {
            let todo = created(s, floor, text, req.now);
            (s.push(todo), floor_after(todo.id))
        },
        Ok(CallView::RemoveTodo { id }) => (without_id(s, id), floor),
        Ok(CallView::UpdateTodo { todo }) => (replaced(s, todo), floor),
        _ => (s, floor),
    }
}

/// The todos and the floor that the requests leave behind, applied in order.
pub open spec fn net_effect(s: Seq<TodoView>, floor: u64, reqs: Seq<Request>) -> (
    Seq<TodoView>,
    u64,
)
    decreases reqs.len(),
{
    if reqs.len() == 0 {
        (s, floor)
    } else {
        let (s1, f1) = net_effect(s, floor, reqs.drop_last());
        effect(s1, f1, reqs.last())
    }
}

/// A request that lists the todos.
pub open spec fn listing(members: Members, now: u64) -> Request {
    Request { name: "get_todos"@, members, now }
}

/// A request that adds a todo with `text`.
pub open spec fn adding(text: Seq<char>, now: u64) -> Request {
    Request { name: "add_todo"@, members: map!["text"@ => ArgView::Text(text)], now }
}

/// A request that removes the todos with `id`.
pub open spec fn removing(id: u64, now: u64) -> Request {
    Request { name: "remove_todo"@, members: map!["id"@ => ArgView::Unsigned(id)], now }
}

/// A request that updates the todo with the id of `todo`.
pub open spec fn updating(todo: TodoView, now: u64) -> Request {
    Request {
        name: "update_todo"@,
        members: map![
            "id"@ => ArgView::Unsigned(todo.id),
            "text"@ => ArgView::Text(todo.text),
            "done"@ => ArgView::Flag(todo.done),
        ],
        now,
    }
}

/// The requests of [`listing`], [`adding`], [`removing`] and [`updating`]
/// pass the checks and come to the calls they are named after.
pub proof fn lemma_requests_route(text: Seq<char>, id: u64, todo: TodoView, members: Members, now: u64)
    ensures
        route(listing(members, now).name, members) == Ok::<CallView, ToolErrorView>(
            CallView::GetTodos,
        ),
        route(adding(text, now).name, adding(text, now).members) == Ok::<CallView, ToolErrorView>(
            CallView::AddTodo { text },
        ),
        route(removing(id, now).name, removing(id, now).members) == Ok::<CallView, ToolErrorView>(
            CallView::RemoveTodo { id },
        ),
        route(updating(todo, now).name, updating(todo, now).members) == Ok::<
            CallView,
            ToolErrorView,
        >(CallView::UpdateTodo { todo }),
{
    lemma_names_registered();
    reveal_with_fuel(first_violation, 4);
    reveal_strlit("id");
    reveal_strlit("text");
    reveal_strlit("done");
    assert("id"@.len() != "text"@.len());
    assert("text"@[0] != "done"@[0]);
    assert(tool_named("get_todos"@) == Some(ToolId::GetTodos));
    assert(tool_named("add_todo"@) == Some(ToolId::AddTodo)) by {
        assert(descriptor_of(ToolId::AddTodo).name == "add_todo"@);
    }
    assert(tool_named("remove_todo"@) == Some(ToolId::RemoveTodo)) by {
        assert(descriptor_of(ToolId::RemoveTodo).name == "remove_todo"@);
    }
    assert(tool_named("update_todo"@) == Some(ToolId::UpdateTodo)) by {
        assert(descriptor_of(ToolId::UpdateTodo).name == "update_todo"@);
    }
    assert(descriptor_of(ToolId::GetTodos).fields.len() == 0);
    let m = updating(todo, now).members;
    assert(m["id"@] == ArgView::Unsigned(todo.id));
    assert(m["text"@] == ArgView::Text(todo.text));
    assert(m["done"@] == ArgView::Flag(todo.done));
}

/// One unit on a router at rest leaves the router at rest and the store and
/// the floor as [`effect`] says.
pub proof fn lemma_serve(w: World, req: Request)
    requires
        w.router.phase == PhaseView::Idle,
    ensures
        serve(w, req).0.router.phase == PhaseView::Idle,
        (todos_of(serve(w, req).0.stored), serve(w, req).0.router.floor) == effect(
            todos_of(w.stored),
            w.router.floor,
            req,
        ),
{
    let s = todos_of(w.stored);
    match route(req.name, req.members) {
        Ok(CallView::UpdateTodo { todo }) => {
            lemma_replaced(s, todo);
        },
        _ => {},
    }
}

/// Requests served one after another leave exactly their net effect, in the
/// order in which they were served: no update is lost. A listing that
/// follows gives the todos of that net effect.
pub proof fn law_serialized_calls(w: World, reqs: Seq<Request>, members: Members, now: u64)
    requires
        w.router.phase == PhaseView::Idle,
    ensures
        serve_all(w, reqs).router.phase == PhaseView::Idle,
        (todos_of(serve_all(w, reqs).stored), serve_all(w, reqs).router.floor) == net_effect(
            todos_of(w.stored),
            w.router.floor,
            reqs,
        ),
        serve(serve_all(w, reqs), listing(members, now)).1 == Ok::<
            Seq<ContentView>,
            ToolErrorView,
        >(seq![ContentView::Todos(net_effect(todos_of(w.stored), w.router.floor, reqs).0)]),
    decreases reqs.len(),
{
    if reqs.len() > 0 {
        law_serialized_calls(w, reqs.drop_last(), members, now);
        lemma_serve(serve_all(w, reqs.drop_last()), reqs.last());
    }
    let after = serve_all(w, reqs);
    lemma_requests_route(Seq::empty(), 0, arbitrary(), members, now);
    match after.stored {
        Some(s) => {},
        None => {},
    }
}

/// The todo that is created carries an id that no todo of the collection
/// carries, the given text, and is not done; where the clock reading is not
/// taken and not below the floor, its id is the clock reading.
pub proof fn law_created_is_new(s: Seq<TodoView>, floor: u64, text: Seq<char>, now: u64)
    requires
        s.len() <= usize::MAX,
    ensures
        !has_id(s, created(s, floor, text, now).id),
        created(s, floor, text, now).text == text,
        !created(s, floor, text, now).done,
        now >= floor && !has_id(s, now) ==> created(s, floor, text, now).id == now,
        unique_ids(s) ==> unique_ids(s.push(created(s, floor, text, now))),
{
    lemma_first_free(s, later_of(now, floor));
    if unique_ids(s) {
        lemma_unique_push(s, created(s, floor, text, now));
    }
}

/// Where the largest value is not taken, the id of a created todo is neither
/// below the floor nor below the clock reading, and the floor moves past
/// every id but the largest: the ids that one router issues go up.
pub proof fn law_ids_go_up(s: Seq<TodoView>, floor: u64, text: Seq<char>, now: u64)
    requires
        s.len() <= usize::MAX,
        !has_id(s, u64::MAX),
    ensures
        created(s, floor, text, now).id >= floor,
        created(s, floor, text, now).id >= now,
        created(s, floor, text, now).id < u64::MAX ==> floor_after(
            created(s, floor, text, now).id,
        ) > created(s, floor, text, now).id,
{
    let stamp = later_of(now, floor);
    lemma_first_free(s, stamp);
    let k = free_offset(s, stamp, 0);
    let to_max = u64::MAX - stamp;
    if k > to_max {
        assert(step_from(stamp, to_max) == u64::MAX);
    }
    assert(created(s, floor, text, now).id == step_from(stamp, k));
}

/// Adding a todo succeeds with the created todo as the reply, and a listing
/// that follows gives the collection with that todo at its end: carried by
/// no todo before, with the given text, not done. On an empty store the
/// listing holds exactly that one todo.
pub proof fn law_add_then_list(w: World, text: Seq<char>, now: u64, members: Members, later: u64)
    requires
        w.router.phase == PhaseView::Idle,
        todos_of(w.stored).len() <= usize::MAX,
    ensures
        ({
            let todo = created(todos_of(w.stored), w.router.floor, text, now);
            let (w1, reply) = serve(w, adding(text, now));
            &&& reply == Ok::<Seq<ContentView>, ToolErrorView>(seq![ContentView::Todo(todo)])
            &&& serve(w1, listing(members, later)).1 == Ok::<Seq<ContentView>, ToolErrorView>(
                seq![ContentView::Todos(todos_of(w.stored).push(todo))],
            )
            &&& !has_id(todos_of(w.stored), todo.id)
            &&& todo.text == text
            &&& !todo.done
            &&& todos_of(w.stored).len() == 0 ==> todos_of(w.stored).push(todo) == seq![todo]
        }),
{
    lemma_requests_route(text, 0, arbitrary(), members, later);
    law_created_is_new(todos_of(w.stored), w.router.floor, text, now);
    let todo = created(todos_of(w.stored), w.router.floor, text, now);
    match w.stored {
        Some(s) => {},
        None => {},
    }
    if todos_of(w.stored).len() == 0 {
        assert(todos_of(w.stored).push(todo) =~= seq![todo]);
    }
}

/// Removing by id succeeds with an empty text as the reply, whether or not a
/// todo carries the id, and a listing that follows holds no todo with that
/// id. Where no todo carried the id, the listing is the collection as it was.
pub proof fn law_remove_then_list(w: World, id: u64, now: u64, members: Members, later: u64)
    requires
        w.router.phase == PhaseView::Idle,
    ensures
        ({
            let (w1, reply) = serve(w, removing(id, now));
            &&& reply == Ok::<Seq<ContentView>, ToolErrorView>(empty_reply())
            &&& serve(w1, listing(members, later)).1 == Ok::<Seq<ContentView>, ToolErrorView>(
                seq![ContentView::Todos(without_id(todos_of(w.stored), id))],
            )
            &&& !has_id(without_id(todos_of(w.stored), id), id)
            &&& !has_id(todos_of(w.stored), id) ==> without_id(todos_of(w.stored), id)
                == todos_of(w.stored)
        }),
{
    lemma_requests_route(Seq::empty(), id, arbitrary(), members, later);
    lemma_without_id(todos_of(w.stored), id);
    match w.stored {
        Some(s) => {},
        None => {},
    }
}

/// Updating a todo whose id no todo carries succeeds with an empty text as
/// the reply and leaves the store as it was.
pub proof fn law_update_unknown(w: World, todo: TodoView, now: u64)
    requires
        w.router.phase == PhaseView::Idle,
        !has_id(todos_of(w.stored), todo.id),
    ensures
        serve(w, updating(todo, now)).1 == Ok::<Seq<ContentView>, ToolErrorView>(empty_reply()),
        serve(w, updating(todo, now)).0 == w,
{
    lemma_requests_route(Seq::empty(), 0, todo, Map::empty(), now);
    match w.stored {
        Some(s) => {},
        None => {},
    }
}

/// Updating a todo whose id is known puts it in place of the first todo with
/// that id; every other todo and the order stay.
pub proof fn law_update_known(w: World, todo: TodoView, now: u64)
    requires
        w.router.phase == PhaseView::Idle,
        has_id(todos_of(w.stored), todo.id),
    ensures
        serve(w, updating(todo, now)).1 == Ok::<Seq<ContentView>, ToolErrorView>(empty_reply()),
        serve(w, updating(todo, now)).0.stored == Some(replaced(todos_of(w.stored), todo)),
{
    lemma_requests_route(Seq::empty(), 0, todo, Map::empty(), now);
    match w.stored {
        Some(s) => {},
        None => {},
    }
}

/// A name under which no tool is registered is answered with `NotFound` and
/// the name, and nothing changes.
pub proof fn law_unknown_tool(w: World, req: Request)
    requires
        w.router.phase == PhaseView::Idle,
        tool_named(req.name) is None,
    ensures
        serve(w, req) == (w, Err::<Seq<ContentView>, ToolErrorView>(ToolErrorView::NotFound(req.name))),
{
}

/// Adding a todo without a text that is a string is answered with
/// `InvalidParameters` and the field's name, and nothing changes.
pub proof fn law_add_needs_text(w: World, members: Members, now: u64)
    requires
        w.router.phase == PhaseView::Idle,
        reading(members, "text"@, ArgKind::Text) is None,
    ensures
        serve(w, Request { name: "add_todo"@, members, now }) == (
            w,
            Err::<Seq<ContentView>, ToolErrorView>(ToolErrorView::InvalidParameters("text"@)),
        ),
{
    lemma_requests_route(Seq::empty(), 0, arbitrary(), members, now);
    reveal_with_fuel(first_violation, 2);
}

/// A router with a unit under way answers a request with an execution error
/// and stays as it is: no two units overlap on one router.
pub proof fn law_busy_router_refuses(r: RouterView, name: Seq<char>, members: Members)
    requires
        r.phase != PhaseView::Idle,
    ensures
        on_request(r, name, members) == (
            r,
            StepView::Reply(Err(ToolErrorView::ExecutionError(busy_message()))),
        ),
{
}

/// Whatever the request, a collection with unique ids has unique ids after
/// it.
pub proof fn law_ids_stay_unique(s: Seq<TodoView>, floor: u64, req: Request)
    requires
        s.len() <= usize::MAX,
        unique_ids(s),
    ensures
        unique_ids(effect(s, floor, req).0),
{
    match route(req.name, req.members) {
        Ok(CallView::AddTodo { text }) => {
            law_created_is_new(s, floor, text, req.now);
        },
        Ok(CallView::RemoveTodo { id }) => {
            lemma_without_id(s, id);
        },
        Ok(CallView::UpdateTodo { todo }) => {
            lemma_replaced(s, todo);
        },
        _ => {},
    }
}

/// The requests that add the given texts at the given clock readings.
pub open spec fn adds(texts: Seq<Seq<char>>, nows: Seq<u64>) -> Seq<Request> {
    Seq::new(texts.len(), |i: int| adding(texts[i], nows[i]))
}

/// As many todos as were added, one after another and whatever the clock
/// readings, are in the collection afterwards, each under an id of its own.
pub proof fn law_adds_all_kept(s: Seq<TodoView>, floor: u64, texts: Seq<Seq<char>>, nows: Seq<u64>)
    requires
        unique_ids(s),
        texts.len() == nows.len(),
        s.len() + texts.len() <= usize::MAX,
    ensures
        net_effect(s, floor, adds(texts, nows)).0.len() == s.len() + texts.len(),
        unique_ids(net_effect(s, floor, adds(texts, nows)).0),
    decreases texts.len(),
{
    let reqs = adds(texts, nows);
    if texts.len() > 0 {
        let n = texts.len() - 1;
        assert(reqs.drop_last() =~= adds(texts.drop_last(), nows.drop_last()));
        law_adds_all_kept(s, floor, texts.drop_last(), nows.drop_last());
        let (s1, f1) = net_effect(s, floor, reqs.drop_last());
        lemma_requests_route(texts[n], 0, arbitrary(), Map::empty(), nows[n]);
        assert(reqs.last() == adding(texts[n], nows[n]));
        law_ids_stay_unique(s1, f1, reqs.last());
    }
}

} // verus!
