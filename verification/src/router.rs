//! The router: the server's identity, its catalog, and the handling of one
//! tool call at a time.
//!
//! A call that touches the store is a unit of three steps. [`TodoRouter::call_tool`]
//! checks the request and asks for the stored todos ([`Step::Load`]);
//! [`TodoRouter::loaded`] takes them and asks for the new collection to be
//! written ([`Step::Save`]); [`TodoRouter::saved`] takes the outcome and gives
//! the reply. The caller does the reading and writing. While a unit is under
//! way the router refuses to begin another, so that no two units overlap on
//! one router.

use crate::args::{reading, ArgKind, ArgValue, ArgView, Arguments, Members, Supplied, json_members};
use crate::catalog::{
    descriptor_of, find_tool, first_violation, list_tools, tool_named, tools_view, catalog,
    ToolDescriptor, ToolId,
};
use crate::error::{PromptError, ResourceError, ToolError, ToolErrorView};
use crate::ident::{clock_millis, first_free, floor_after, fresh_id, later_of};
use crate::todo::{
    has_id, remove_by_id, replace_first, replaced, todos_view, without_id, Todo, TodoView,
};
use vstd::prelude::*;

verus! {

/// `mcp_spec::resource::Resource`, an entry of the resource list.
#[verifier::external_type_specification]
#[verifier::external_body]
pub struct ExResource(mcp_spec::resource::Resource);

/// `mcp_spec::prompt::Prompt`, an entry of the prompt list.
#[verifier::external_type_specification]
#[verifier::external_body]
pub struct ExPrompt(mcp_spec::prompt::Prompt);

/// What the server tells the peer of itself at the start of a session. The
/// flags are reported as they stand; they do not switch handlers on or off.
#[derive(Clone, Copy, Debug, PartialEq, Eq, Structural)]
pub struct Capabilities {
    pub tools: bool,
    pub resource_read: bool,
    pub resource_list: bool,
    pub prompts: bool,
}

/// A request that has passed the checks: a tool of the catalog with the
/// arguments it needs.
#[derive(Debug, PartialEq, Eq)]
pub enum Call {
    GetTodos,
    AddTodo { text: String },
    RemoveTodo { id: u64 },
    UpdateTodo { todo: Todo },
}

/// The mathematical value of a [`Call`].
pub ghost enum CallView {
    GetTodos,
    AddTodo { text: Seq<char> },
    RemoveTodo { id: u64 },
    UpdateTodo { todo: TodoView },
}

impl View for Call {
    type V = CallView;

    open spec fn view(&self) -> CallView {
        match self {
            Call::GetTodos => CallView::GetTodos,
            Call::AddTodo { text } => CallView::AddTodo { text: text@ },
            Call::RemoveTodo { id } => CallView::RemoveTodo { id: *id },
            Call::UpdateTodo { todo } => CallView::UpdateTodo { todo: todo@ },
        }
    }
}

/// One piece of a reply. Todos are handed on as values; the transport writes
/// them as JSON text.
#[derive(Debug, PartialEq, Eq)]
pub enum Content {
    Text(String),
    Todo(Todo),
    Todos(Vec<Todo>),
}

/// The mathematical value of a [`Content`].
pub ghost enum ContentView {
    Text(Seq<char>),
    Todo(TodoView),
    Todos(Seq<TodoView>),
}

impl View for Content {
    type V = ContentView;

    open spec fn view(&self) -> ContentView {
        match self {
            Content::Text(s) => ContentView::Text(s@),
            Content::Todo(t) => ContentView::Todo(t@),
            Content::Todos(v) => ContentView::Todos(todos_view(v@)),
        }
    }
}

/// The values of a reply's pieces, in order.
pub open spec fn contents_view(s: Seq<Content>) -> Seq<ContentView> {
    s.map_values(|c: Content| c@)
}

/// What reading the store gave.
#[derive(Debug, PartialEq, Eq)]
pub enum Loaded {
    /// The store could not be opened or reloaded; holds the store's message.
    Unavailable(String),
    /// The store holds nothing under the key.
    Missing,
    /// What the store holds under the key is no list of todos.
    Malformed,
    /// The stored todos.
    Todos(Vec<Todo>),
}

/// The mathematical value of a [`Loaded`].
pub ghost enum LoadedView {
    Unavailable(Seq<char>),
    Missing,
    Malformed,
    Todos(Seq<TodoView>),
}

impl View for Loaded {
    type V = LoadedView;

    open spec fn view(&self) -> LoadedView {
        match self {
            Loaded::Unavailable(s) => LoadedView::Unavailable(s@),
            Loaded::Missing => LoadedView::Missing,
            Loaded::Malformed => LoadedView::Malformed,
            Loaded::Todos(v) => LoadedView::Todos(todos_view(v@)),
        }
    }
}

/// What the caller is to do next.
#[derive(Debug, PartialEq, Eq)]
pub enum Step {
    /// Open the store, reload it, read the todos and hand them to
    /// [`TodoRouter::loaded`].
    Load,
    /// Where `set` holds a collection, put it in the store; then save the
    /// store and hand the outcome to [`TodoRouter::saved`].
    Save { set: Option<Vec<Todo>> },
    /// Answer the request; the unit is over.
    Reply(Result<Vec<Content>, ToolError>),
}

/// The mathematical value of a [`Step`].
pub ghost enum StepView {
    Load,
    Save { set: Option<Seq<TodoView>> },
    Reply(Result<Seq<ContentView>, ToolErrorView>),
}

impl View for Step {
    type V = StepView;

    open spec fn view(&self) -> StepView {
        match self {
            Step::Load => StepView::Load,
            Step::Save { set } => StepView::Save {
                set: match set {
                    Some(v) => Some(todos_view(v@)),
                    None => None,
                },
            },
            Step::Reply(r) => StepView::Reply(
                match r {
                    Ok(v) => Ok(contents_view(v@)),
                    Err(e) => Err(e@),
                },
            ),
        }
    }
}

/// Where a router stands in a unit.
enum Phase {
    Idle,
    Loading(Call),
    Saving(Vec<Content>),
}

/// The mathematical value of a router's phase.
pub ghost enum PhaseView {
    /// No unit is under way.
    Idle,
    /// The call waits for the stored todos.
    Loading(CallView),
    /// The reply waits for the store to be saved.
    Saving(Seq<ContentView>),
}

/// The mathematical value of a [`TodoRouter`].
pub ghost struct RouterView {
    /// No identifier below the floor is issued.
    pub floor: u64,
    pub phase: PhaseView,
}

/// The router of the todo server.
pub struct TodoRouter {
    floor: u64,
    phase: Phase,
}

impl View for TodoRouter {
    type V = RouterView;

    closed spec fn view(&self) -> RouterView {
        RouterView {
            floor: self.floor,
            phase: match self.phase {
                Phase::Idle => PhaseView::Idle,
                Phase::Loading(call) => PhaseView::Loading(call@),
                Phase::Saving(reply) => PhaseView::Saving(contents_view(reply@)),
            },
        }
    }
}

/// The text of member `name`, where it is text.
pub open spec fn text_at(m: Members, name: Seq<char>) -> Seq<char> {
    match m[name] {
        ArgView::Text(s) => s,
        _ => Seq::empty(),
    }
}

/// The number of member `name`, where it is an unsigned number.
pub open spec fn unsigned_at(m: Members, name: Seq<char>) -> u64 {
    match m[name] {
        ArgView::Unsigned(n) => n,
        _ => 0,
    }
}

/// The value of member `name`, where it is a flag.
pub open spec fn flag_at(m: Members, name: Seq<char>) -> bool {
    match m[name] {
        ArgView::Flag(b) => b,
        _ => false,
    }
}

/// The call that tool `id` makes of arguments that meet its schema.
pub open spec fn call_of(id: ToolId, m: Members) -> CallView {
    match id {
        ToolId::GetTodos => CallView::GetTodos,
        ToolId::AddTodo => CallView::AddTodo { text: text_at(m, "text"@) },
        ToolId::RemoveTodo => CallView::RemoveTodo { id: unsigned_at(m, "id"@) },
        ToolId::UpdateTodo => CallView::UpdateTodo {
            todo: TodoView {
                id: unsigned_at(m, "id"@),
                text: text_at(m, "text"@),
                done: flag_at(m, "done"@),
            },
        },
    }
}

/// What a request comes to: `NotFound` with the name where no tool is
/// registered under it; `InvalidParameters` with the first required field
/// of the tool's schema that the arguments do not hold with a value of the
/// declared kind; the call otherwise.
pub open spec fn route(name: Seq<char>, m: Members) -> Result<CallView, ToolErrorView> {
    match tool_named(name) {
        None => Err(ToolErrorView::NotFound(name)),
        Some(id) => match first_violation(m, descriptor_of(id).fields, 0) {
            Some(i) => Err(ToolErrorView::InvalidParameters(descriptor_of(id).fields[i].name)),
            None => Ok(call_of(id, m)),
        },
    }
}

/// The message of the error that answers a request made while a unit is under
/// way.
pub open spec fn busy_message() -> Seq<char> {
    "a call is already in progress"@
}

/// The message of the error that answers an event that no unit waits for.
pub open spec fn stray_message() -> Seq<char> {
    "no call is waiting for this"@
}

/// The router at rest, with its floor kept.
pub open spec fn at_rest(r: RouterView) -> RouterView {
    RouterView { floor: r.floor, phase: PhaseView::Idle }
}

/// The router and the step after a request.
pub open spec fn on_request(r: RouterView, name: Seq<char>, m: Members) -> (RouterView, StepView) {
    if r.phase != PhaseView::Idle {
        (r, StepView::Reply(Err(ToolErrorView::ExecutionError(busy_message()))))
    } else {
        match route(name, m) {
            Ok(call) => (RouterView { floor: r.floor, phase: PhaseView::Loading(call) }, StepView::Load),
            Err(e) => (r, StepView::Reply(Err(e))),
        }
    }
}

/// The collection that a reading of the store stands for: the stored todos;
/// none where the store holds nothing or something else under the key; an
/// execution error with the store's message where it could not be read.
pub open spec fn current(loaded: LoadedView) -> Result<Seq<TodoView>, ToolErrorView> {
    match loaded {
        LoadedView::Unavailable(msg) => Err(ToolErrorView::ExecutionError(msg)),
        LoadedView::Missing => Ok(Seq::empty()),
        LoadedView::Malformed => Ok(Seq::empty()),
        LoadedView::Todos(s) => Ok(s),
    }
}

/// The todo that a router with floor `floor` creates at clock reading `now`
/// for a collection `s`.
pub open spec fn created(s: Seq<TodoView>, floor: u64, text: Seq<char>, now: u64) -> TodoView {
    TodoView { id: first_free(s, later_of(now, floor)), text, done: false }
}

/// The collection that an update leaves to be stored: the collection with
/// the todo replaced where its id is known, and nothing to store otherwise.
pub open spec fn updated(s: Seq<TodoView>, todo: TodoView) -> Option<Seq<TodoView>> {
    if has_id(s, todo.id) {
        Some(replaced(s, todo))
    } else {
        None
    }
}

/// The reply that holds one empty text.
pub open spec fn empty_reply() -> Seq<ContentView> {
    seq![ContentView::Text(Seq::empty())]
}

/// The router and the step after `call` has been given the todos `s` at
/// clock reading `now`.
pub open spec fn perform(r: RouterView, call: CallView, s: Seq<TodoView>, now: u64) -> (
    RouterView,
    StepView,
) {
    match call {
        CallView::GetTodos => (at_rest(r), StepView::Reply(Ok(seq![ContentView::Todos(s)]))),
        CallView::AddTodo { text } => {
            let todo = created(s, r.floor, text, now);
            (
                RouterView {
                    floor: floor_after(todo.id),
                    phase: PhaseView::Saving(seq![ContentView::Todo(todo)]),
                },
                StepView::Save { set: Some(s.push(todo)) },
            )
        },
        CallView::RemoveTodo { id } => (
            RouterView { floor: r.floor, phase: PhaseView::Saving(empty_reply()) },
            StepView::Save { set: Some(without_id(s, id)) },
        ),
        CallView::UpdateTodo { todo } => (
            RouterView { floor: r.floor, phase: PhaseView::Saving(empty_reply()) },
            StepView::Save { set: updated(s, todo) },
        ),
    }
}

/// The router and the step after the store has been read, at clock reading
/// `now`.
pub open spec fn on_loaded(r: RouterView, loaded: LoadedView, now: u64) -> (RouterView, StepView) {
    match r.phase {
        PhaseView::Loading(call) => match current(loaded) {
            Err(e) => (at_rest(r), StepView::Reply(Err(e))),
            Ok(s) => perform(r, call, s, now),
        },
        _ => (r, StepView::Reply(Err(ToolErrorView::ExecutionError(stray_message())))),
    }
}

/// The outcome of saving the store, with the store's message as a value.
pub open spec fn saved_view(saved: Result<(), String>) -> Result<(), Seq<char>> {
    match saved {
        Ok(_) => Ok(()),
        Err(msg) => Err(msg@),
    }
}

/// The router and the step after the store has been saved, or could not be.
pub open spec fn on_saved(r: RouterView, saved: Result<(), Seq<char>>) -> (RouterView, StepView) {
    match r.phase {
        PhaseView::Saving(reply) => (
            at_rest(r),
            StepView::Reply(
                match saved {
                    Ok(_) => Ok(reply),
                    Err(msg) => Err(ToolErrorView::ExecutionError(msg)),
                },
            ),
        ),
        _ => (r, StepView::Reply(Err(ToolErrorView::ExecutionError(stray_message())))),
    }
}

/// The name under which the server presents itself.
pub open spec fn server_name() -> Seq<char> {
    "todo"@
}

/// The instructions that the server gives its peer.
pub open spec fn server_instructions() -> Seq<char> {
    "This server allows you to manage todos with persistent storage. You can retrieve the current list of todos using `get_todos`, add a new todo with `add_todo`, remove a specific todo by its ID using `remove_todo`, and update an existing todo with `update_todo`."@
}

/// The view of a checked request or the error that refused it.
pub open spec fn planned_view(r: Result<Call, ToolError>) -> Result<CallView, ToolErrorView> {
    match r {
        Ok(call) => Ok(call@),
        Err(e) => Err(e@),
    }
}

/// The view of a collection or the error that stands in its place.
pub open spec fn listed_view(r: Result<Vec<Todo>, ToolError>) -> Result<
    Seq<TodoView>,
    ToolErrorView,
> {
    match r {
        Ok(v) => Ok(todos_view(v@)),
        Err(e) => Err(e@),
    }
}

fn take_text(supplied: &Supplied, name: &str) -> (s: String)
    requires
        reading(supplied.members(), name@, ArgKind::Text) is Some,
    ensures
        s@ == text_at(supplied.members(), name@),
{
    match supplied.read(name, ArgKind::Text) {
        Some(ArgValue::Text(s)) => s,
        _ => vstd::pervasive::unreached(),
    }
}

fn take_unsigned(supplied: &Supplied, name: &str) -> (n: u64)
    requires
        reading(supplied.members(), name@, ArgKind::Unsigned) is Some,
    ensures
        n == unsigned_at(supplied.members(), name@),
{
    match supplied.read(name, ArgKind::Unsigned) {
        Some(ArgValue::Unsigned(n)) => n,
        _ => vstd::pervasive::unreached(),
    }
}

fn take_flag(supplied: &Supplied, name: &str) -> (b: bool)
    requires
        reading(supplied.members(), name@, ArgKind::Flag) is Some,
    ensures
        b == flag_at(supplied.members(), name@),
{
    match supplied.read(name, ArgKind::Flag) {
        Some(ArgValue::Flag(b)) => b,
        _ => vstd::pervasive::unreached(),
    }
}

fn single(content: Content) -> (r: Vec<Content>)
    ensures
        contents_view(r@) == seq![content@],
{
    let mut r: Vec<Content> = Vec::new();
    r.push(content);
    assert(contents_view(r@) =~= seq![content@]);
    r
}

fn empty_text() -> (r: Vec<Content>)
    ensures
        contents_view(r@) == empty_reply(),
{
    single(Content::Text(String::new()))
}

/// The file in which the store keeps its document.
pub fn store_path() -> (r: String)
    ensures
        r@ == "store.json"@,
{
    "store.json".to_owned()
}

/// The key of the document under which the todos stand.
pub fn todos_key() -> (r: String)
    ensures
        r@ == "todos"@,
{
    "todos".to_owned()
}

impl TodoRouter {
    /// A router at rest that has issued no identifier.
    pub fn new() -> (r: TodoRouter)
        ensures
            r@ == (RouterView { floor: 0, phase: PhaseView::Idle }),
    {
        TodoRouter { floor: 0, phase: Phase::Idle }
    }

    /// The name under which the server presents itself.
    pub fn name(&self) -> (r: String)
        ensures
            r@ == server_name(),
    {
        "todo".to_owned()
    }

    /// The instructions that the server gives its peer.
    pub fn instructions(&self) -> (r: String)
        ensures
            r@ == server_instructions(),
    {
        "This server allows you to manage todos with persistent storage. You can retrieve the current list of todos using `get_todos`, add a new todo with `add_todo`, remove a specific todo by its ID using `remove_todo`, and update an existing todo with `update_todo`.".to_owned()
    }

    /// What the server tells the peer of itself: every flag is off.
    pub fn capabilities(&self) -> (r: Capabilities)
        ensures
            r == (Capabilities {
                tools: false,
                resource_read: false,
                resource_list: false,
                prompts: false,
            }),
    {
        Capabilities { tools: false, resource_read: false, resource_list: false, prompts: false }
    }

    /// The tool catalog.
    pub fn list_tools(&self) -> (r: Vec<ToolDescriptor>)
        ensures
            tools_view(r@) == catalog(),
    {
        list_tools()
    }

    /// The resources on offer: none.
    pub fn list_resources(&self) -> (r: Vec<mcp_spec::resource::Resource>)
        ensures
            r@.len() == 0,
    {
        Vec::new()
    }

    /// Reads a resource: there is none, whatever the URI.
    pub fn read_resource(&self, uri: &str) -> (r: Result<String, ResourceError>)
        ensures
            r matches Err(ResourceError::NotFound(u)) && u@ == uri@,
    {
        Err(ResourceError::NotFound(uri.to_owned()))
    }

    /// The prompts on offer: none.
    pub fn list_prompts(&self) -> (r: Vec<mcp_spec::prompt::Prompt>)
        ensures
            r@.len() == 0,
    {
        Vec::new()
    }

    /// Gets a prompt: there is none, whatever the name.
    pub fn get_prompt(&self, prompt_name: &str) -> (r: Result<String, PromptError>)
        ensures
            r matches Err(PromptError::NotFound(n)) && n@ == prompt_name@,
    {
        Err(PromptError::NotFound(prompt_name.to_owned()))
    }

    /// Whether no unit is under way.
    pub fn is_idle(&self) -> (r: bool)
        ensures
            r == (self@.phase == PhaseView::Idle),
    {
        match &self.phase {
            Phase::Idle => true,
            _ => false,
        }
    }

    /// Checks a request against the catalog: the tool has to be registered
    /// and every required field of its schema supplied with the declared
    /// kind.
    pub fn plan(tool_name: &str, supplied: &Supplied) -> (r: Result<Call, ToolError>)
        ensures
            planned_view(r) == route(tool_name@, supplied.members()),
    {
        let id = match find_tool(tool_name) {
            Some(id) => id,
            None => {
                return Err(ToolError::NotFound(tool_name.to_owned()));
            },
        };
        let descriptor = id.describe();
        let ghost m = supplied.members();
        let ghost fields = descriptor_of(id).fields;
        match descriptor.check(supplied) {
            Some(i) => {
                assert(fields[i as int].name == descriptor.fields@[i as int].name@);
                Err(ToolError::InvalidParameters(descriptor.fields[i].name.clone()))
            },
            None => {
                proof {
                    reveal_with_fuel(first_violation, 4);
                }
                let call = match id {
                    ToolId::GetTodos => Call::GetTodos,
                    ToolId::AddTodo => {
                        assert(fields[0].name == "text"@);
                        Call::AddTodo { text: take_text(supplied, "text") }
                    },
                    ToolId::RemoveTodo => {
                        assert(fields[0].name == "id"@);
                        Call::RemoveTodo { id: take_unsigned(supplied, "id") }
                    },
                    ToolId::UpdateTodo => {
                        assert(fields[0].name == "id"@);
                        assert(fields[1].name == "text"@);
                        assert(fields[2].name == "done"@);
                        let id = take_unsigned(supplied, "id");
                        let text = take_text(supplied, "text");
                        let done = take_flag(supplied, "done");
                        Call::UpdateTodo { todo: Todo { id, text, done } }
                    },
                };
                Ok(call)
            },
        }
    }

    fn begin(&mut self, tool_name: &str, supplied: &Supplied) -> (step: Step)
        ensures
            (final(self)@, step@) == on_request(old(self)@, tool_name@, supplied.members()),
    {
        if !self.is_idle() {
            return Step::Reply(
                Err(ToolError::ExecutionError("a call is already in progress".to_owned())),
            );
        }
        match Self::plan(tool_name, supplied) {
            Ok(call) => {
                self.phase = Phase::Loading(call);
                Step::Load
            },
            Err(e) => Step::Reply(Err(e)),
        }
    }

    /// Takes a request with the arguments as they arrive from the peer.
    /// Where the router is at rest and the request passes the checks of
    /// [`TodoRouter::plan`], the unit begins and the store is to be read;
    /// otherwise the reply is the error and the router stays as it is.
    pub fn call_tool(&mut self, tool_name: &str, arguments: &serde_json::Value) -> (step: Step)
        ensures
            (final(self)@, step@) == on_request(old(self)@, tool_name@, json_members(*arguments)),
    {
        self.begin(tool_name, &Supplied::Json(arguments))
    }

    /// Takes a request with the arguments written out member by member; in
    /// all else as [`TodoRouter::call_tool`].
    pub fn call_tool_with(&mut self, tool_name: &str, arguments: &Arguments) -> (step: Step)
        ensures
            (final(self)@, step@) == on_request(old(self)@, tool_name@, arguments@),
    {
        self.begin(tool_name, &Supplied::Plain(arguments))
    }

    /// The collection that a reading of the store stands for.
    pub fn get_todos(loaded: Loaded) -> (r: Result<Vec<Todo>, ToolError>)
        ensures
            listed_view(r) == current(loaded@),
    {
        match loaded {
            Loaded::Unavailable(msg) => Err(ToolError::ExecutionError(msg)),
            Loaded::Missing => {
                let v: Vec<Todo> = Vec::new();
                assert(todos_view(v@) =~= Seq::<TodoView>::empty());
                Ok(v)
            },
            Loaded::Malformed => {
                let v: Vec<Todo> = Vec::new();
                assert(todos_view(v@) =~= Seq::<TodoView>::empty());
                Ok(v)
            },
            Loaded::Todos(v) => Ok(v),
        }
    }

    /// Appends a new todo that is not done and carries `text`. Its id is the
    /// first one free in `todos` at or after the later of `now` and the
    /// router's floor; the floor moves past it.
    pub fn add_todo(&mut self, todos: Vec<Todo>, text: String, now: u64) -> (r: (Vec<Todo>, Todo))
        ensures
            r.1@ == created(todos_view(todos@), old(self)@.floor, text@, now),
            todos_view(r.0@) == todos_view(todos@).push(r.1@),
            !has_id(todos_view(todos@), r.1.id),
            final(self)@ == (RouterView {
                floor: floor_after(r.1.id),
                phase: old(self)@.phase,
            }),
    {
        let stamp = if now >= self.floor {
            now
        } else {
            self.floor
        };
        let id = fresh_id(&todos, stamp);
        let todo = Todo { id, text, done: false };
        let mut todos = todos;
        let ghost before = todos_view(todos@);
        todos.push(todo.duplicate());
        assert(todos_view(todos@) =~= before.push(todo@));
        self.floor = if id == u64::MAX {
            id
        } else {
            id + 1
        };
        (todos, todo)
    }

    /// Drops every todo that carries `id`.
    pub fn remove_todo(todos: Vec<Todo>, id: u64) -> (r: Vec<Todo>)
        ensures
            todos_view(r@) == without_id(todos_view(todos@), id),
    {
        remove_by_id(todos, id)
    }

    /// Puts `todo` in place of the first todo that carries its id. Gives the
    /// collection to store, and nothing where no todo carries that id.
    pub fn update_todo(todos: Vec<Todo>, todo: Todo) -> (r: Option<Vec<Todo>>)
        ensures
            match r {
                Some(v) => updated(todos_view(todos@), todo@) == Some(todos_view(v@)),
                None => updated(todos_view(todos@), todo@) is None,
            },
    {
        let (todos, found) = replace_first(todos, todo);
        if found {
            Some(todos)
        } else {
            None
        }
    }

    /// Whether the unit under way will read the clock when the store has
    /// been read.
    fn stamps_next(&self) -> (r: bool)
        ensures
            r == (self@.phase matches PhaseView::Loading(CallView::AddTodo { .. })),
    {
        match &self.phase {
            Phase::Loading(Call::AddTodo { .. }) => true,
            _ => false,
        }
    }

    /// Takes the reading of the store, with the clock reading `now` for the
    /// call that needs one. The call is carried out on the collection that
    /// the reading stands for.
    pub fn loaded_at(&mut self, event: Loaded, now: u64) -> (step: Step)
        ensures
            (final(self)@, step@) == on_loaded(old(self)@, event@, now),
    {
        let mut phase = Phase::Idle;
        core::mem::swap(&mut self.phase, &mut phase);
        let call = match phase {
            Phase::Loading(call) => call,
            other => {
                self.phase = other;
                return Step::Reply(
                    Err(ToolError::ExecutionError("no call is waiting for this".to_owned())),
                );
            },
        };
        let todos = match Self::get_todos(event) {
            Ok(todos) => todos,
            Err(e) => {
                return Step::Reply(Err(e));
            },
        };
        match call {
            Call::GetTodos => Step::Reply(Ok(single(Content::Todos(todos)))),
            Call::AddTodo { text } => {
                let (todos, todo) = self.add_todo(todos, text, now);
                self.phase = Phase::Saving(single(Content::Todo(todo)));
                Step::Save { set: Some(todos) }
            },
            Call::RemoveTodo { id } => {
                let todos = Self::remove_todo(todos, id);
                self.phase = Phase::Saving(empty_text());
                Step::Save { set: Some(todos) }
            },
            Call::UpdateTodo { todo } => {
                let set = Self::update_todo(todos, todo);
                self.phase = Phase::Saving(empty_text());
                Step::Save { set }
            },
        }
    }

    /// Takes the reading of the store and reads the clock where the call
    /// creates a todo; in all else as [`TodoRouter::loaded_at`].
    pub fn loaded(&mut self, event: Loaded) -> (step: Step)
        ensures
            exists|now: u64| (final(self)@, step@) == #[trigger] on_loaded(old(self)@, event@, now),
    {
        let now = if self.stamps_next() {
            clock_millis()
        } else {
            0
        };
        let ghost before = self@;
        let ghost event_view = event@;
        let step = self.loaded_at(event, now);
        assert((self@, step@) == on_loaded(before, event_view, now));
        step
    }

    /// Takes the outcome of saving the store. The reply that waited is given
    /// where the store was saved, and an execution error with the store's
    /// message where it was not. The router is at rest again.
    pub fn saved(&mut self, event: Result<(), String>) -> (step: Step)
        ensures
            (final(self)@, step@) == on_saved(old(self)@, saved_view(event)),
    {
        let mut phase = Phase::Idle;
        core::mem::swap(&mut self.phase, &mut phase);
        match phase {
            Phase::Saving(reply) => match event {
                Ok(_) => Step::Reply(Ok(reply)),
                Err(msg) => Step::Reply(Err(ToolError::ExecutionError(msg))),
            },
            other => {
                self.phase = other;
                Step::Reply(Err(ToolError::ExecutionError("no call is waiting for this".to_owned())))
            },
        }
    }
}

} // verus!
