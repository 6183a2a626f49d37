use serde_json::Value;
use todo_mcp::args::{ArgValue, Arguments, Supplied};
use todo_mcp::error::{PromptError, ResourceError, ToolError};
use todo_mcp::router::{
    store_path, todos_key, Call, Capabilities, Content, Loaded, Step, TodoRouter,
};
use todo_mcp::todo::Todo;

fn json(text: &str) -> Value {
    serde_json::from_str(text).unwrap()
}

fn todo(id: u64, text: &str, done: bool) -> Todo {
    Todo { id, text: text.to_string(), done }
}

fn copy(todos: &Vec<Todo>) -> Vec<Todo> {
    todos.iter().map(|t| t.duplicate()).collect()
}

/// Serves one request against `store` as a driver would: the store gives
/// back what was last written and saving succeeds.
fn serve(
    router: &mut TodoRouter,
    store: &mut Option<Vec<Todo>>,
    name: &str,
    arguments: &str,
    now: u64,
) -> Result<Vec<Content>, ToolError> {
    let mut step = router.call_tool(name, &json(arguments));
    loop {
        step = match step {
            Step::Load => {
                let event = match store {
                    Some(todos) => Loaded::Todos(copy(todos)),
                    None => Loaded::Missing,
                };
                router.loaded_at(event, now)
            }
            Step::Save { set } => {
                if let Some(todos) = set {
                    *store = Some(todos);
                }
                router.saved(Ok(()))
            }
            Step::Reply(reply) => return reply,
        };
    }
}

fn listed(router: &mut TodoRouter, store: &mut Option<Vec<Todo>>) -> Vec<Todo> {
    match serve(router, store, "get_todos", "{}", 0) {
        Ok(mut reply) => match reply.pop() {
            Some(Content::Todos(todos)) if reply.is_empty() => todos,
            other => panic!("unexpected reply {:?}", other),
        },
        Err(e) => panic!("unexpected error {:?}", e),
    }
}

#[test]
fn server_presents_itself() {
    let router = TodoRouter::new();
    assert_eq!(router.name(), "todo");
    assert_eq!(
        router.instructions(),
        "This server allows you to manage todos with persistent storage. You can retrieve the current list of todos using `get_todos`, add a new todo with `add_todo`, remove a specific todo by its ID using `remove_todo`, and update an existing todo with `update_todo`."
    );
    assert_eq!(
        router.capabilities(),
        Capabilities { tools: false, resource_read: false, resource_list: false, prompts: false }
    );
    assert_eq!(router.list_tools(), todo_mcp::catalog::list_tools());
    assert_eq!(router.list_tools().len(), 4);
    assert!(router.is_idle());
}

#[test]
fn store_is_named() {
    assert_eq!(store_path(), "store.json");
    assert_eq!(todos_key(), "todos");
}

#[test]
fn resources_and_prompts_are_not_on_offer() {
    let router = TodoRouter::new();
    assert!(router.list_resources().is_empty());
    assert!(router.list_prompts().is_empty());
    assert_eq!(
        router.read_resource("file:///x"),
        Err(ResourceError::NotFound("file:///x".to_string()))
    );
    assert_eq!(router.get_prompt("greet"), Err(PromptError::NotFound("greet".to_string())));
}

#[test]
fn unregistered_tool_is_not_found() {
    let mut router = TodoRouter::new();
    let step = router.call_tool("drop_all", &json("{}"));
    assert_eq!(step, Step::Reply(Err(ToolError::NotFound("drop_all".to_string()))));
    assert!(router.is_idle());
}

#[test]
fn add_todo_with_non_string_text_is_invalid() {
    let mut router = TodoRouter::new();
    for arguments in [r#"{"text": 5}"#, r#"{"text": null}"#, r#"{"text": ["a"]}"#, "{}", "null", r#"{"Text": "a"}"#] {
        let step = router.call_tool("add_todo", &json(arguments));
        assert_eq!(step, Step::Reply(Err(ToolError::InvalidParameters("text".to_string()))));
        assert!(router.is_idle());
    }
}

#[test]
fn remove_todo_needs_an_unsigned_id() {
    let mut router = TodoRouter::new();
    for arguments in [r#"{"id": -3}"#, r#"{"id": 1.0}"#, r#"{"id": "1"}"#, "{}"] {
        let step = router.call_tool("remove_todo", &json(arguments));
        assert_eq!(step, Step::Reply(Err(ToolError::InvalidParameters("id".to_string()))));
    }
}

#[test]
fn update_todo_names_the_first_field_that_is_wrong() {
    let mut router = TodoRouter::new();
    let cases = [
        (r#"{"text": "a", "done": true}"#, "id"),
        (r#"{"id": 1, "done": true}"#, "text"),
        (r#"{"id": 1, "text": "a"}"#, "done"),
        (r#"{"id": 1, "text": "a", "done": "yes"}"#, "done"),
        (r#"{"id": "x", "text": 1, "done": 2}"#, "id"),
    ];
    for (arguments, field) in cases {
        let step = router.call_tool("update_todo", &json(arguments));
        assert_eq!(step, Step::Reply(Err(ToolError::InvalidParameters(field.to_string()))));
    }
}

#[test]
fn plan_gives_the_call_with_its_arguments() {
    let v = json(r#"{"id": 4, "text": "t", "done": true, "extra": []}"#);
    let s = Supplied::Json(&v);
    assert_eq!(TodoRouter::plan("get_todos", &s), Ok(Call::GetTodos));
    assert_eq!(TodoRouter::plan("add_todo", &s), Ok(Call::AddTodo { text: "t".to_string() }));
    assert_eq!(TodoRouter::plan("remove_todo", &s), Ok(Call::RemoveTodo { id: 4 }));
    assert_eq!(TodoRouter::plan("update_todo", &s), Ok(Call::UpdateTodo { todo: todo(4, "t", true) }));
    assert_eq!(TodoRouter::plan("other", &s), Err(ToolError::NotFound("other".to_string())));
    let a = Arguments::new().with("id", ArgValue::Unsigned(4));
    assert_eq!(TodoRouter::plan("remove_todo", &Supplied::Plain(&a)), Ok(Call::RemoveTodo { id: 4 }));
    assert_eq!(
        TodoRouter::plan("add_todo", &Supplied::Plain(&a)),
        Err(ToolError::InvalidParameters("text".to_string()))
    );
}

#[test]
fn call_tool_with_takes_written_out_arguments() {
    let mut router = TodoRouter::new();
    let a = Arguments::new().with("text", ArgValue::Text("x".to_string()));
    assert_eq!(router.call_tool_with("add_todo", &a), Step::Load);
    assert!(!router.is_idle());
    let step = router.loaded_at(Loaded::Missing, 10);
    assert_eq!(step, Step::Save { set: Some(vec![todo(10, "x", false)]) });
    assert_eq!(router.saved(Ok(())), Step::Reply(Ok(vec![Content::Todo(todo(10, "x", false))])));
    assert!(router.is_idle());
}

#[test]
fn get_todos_stands_for_what_the_store_gave() {
    assert_eq!(TodoRouter::get_todos(Loaded::Missing), Ok(vec![]));
    assert_eq!(TodoRouter::get_todos(Loaded::Malformed), Ok(vec![]));
    assert_eq!(
        TodoRouter::get_todos(Loaded::Todos(vec![todo(1, "a", true)])),
        Ok(vec![todo(1, "a", true)])
    );
    assert_eq!(
        TodoRouter::get_todos(Loaded::Unavailable("disk gone".to_string())),
        Err(ToolError::ExecutionError("disk gone".to_string()))
    );
}

#[test]
fn listing_replies_with_the_stored_todos_and_saves_nothing() {
    let mut router = TodoRouter::new();
    assert_eq!(router.call_tool("get_todos", &json("{}")), Step::Load);
    let step = router.loaded_at(Loaded::Todos(vec![todo(2, "b", false), todo(1, "a", true)]), 0);
    assert_eq!(
        step,
        Step::Reply(Ok(vec![Content::Todos(vec![todo(2, "b", false), todo(1, "a", true)])]))
    );
    assert!(router.is_idle());
}

#[test]
fn listing_ignores_arguments() {
    let mut router = TodoRouter::new();
    assert_eq!(router.call_tool("get_todos", &json("null")), Step::Load);
    assert_eq!(router.loaded_at(Loaded::Malformed, 0), Step::Reply(Ok(vec![Content::Todos(vec![])])));
}

#[test]
fn unreadable_store_ends_the_unit_with_an_execution_error() {
    for (name, arguments) in [
        ("get_todos", "{}"),
        ("add_todo", r#"{"text": "a"}"#),
        ("remove_todo", r#"{"id": 1}"#),
        ("update_todo", r#"{"id": 1, "text": "a", "done": false}"#),
    ] {
        let mut router = TodoRouter::new();
        assert_eq!(router.call_tool(name, &json(arguments)), Step::Load);
        let step = router.loaded_at(Loaded::Unavailable("cannot open".to_string()), 5);
        assert_eq!(step, Step::Reply(Err(ToolError::ExecutionError("cannot open".to_string()))));
        assert!(router.is_idle());
    }
}

#[test]
fn failed_save_is_an_execution_error() {
    let mut router = TodoRouter::new();
    assert_eq!(router.call_tool("remove_todo", &json(r#"{"id": 1}"#)), Step::Load);
    assert_eq!(
        router.loaded_at(Loaded::Todos(vec![todo(1, "a", false)]), 0),
        Step::Save { set: Some(vec![]) }
    );
    assert_eq!(
        router.saved(Err("disk full".to_string())),
        Step::Reply(Err(ToolError::ExecutionError("disk full".to_string())))
    );
    assert!(router.is_idle());
}

#[test]
fn add_todo_appends_and_replies_with_the_created_todo() {
    let mut router = TodoRouter::new();
    let mut store = Some(vec![todo(1, "old", true)]);
    let reply = serve(&mut router, &mut store, "add_todo", r#"{"text": "x"}"#, 1_700_000_000_000);
    assert_eq!(reply, Ok(vec![Content::Todo(todo(1_700_000_000_000, "x", false))]));
    assert_eq!(store, Some(vec![todo(1, "old", true), todo(1_700_000_000_000, "x", false)]));
}

#[test]
fn add_then_list_on_an_empty_store_holds_exactly_that_todo() {
    let mut router = TodoRouter::new();
    let mut store = None;
    assert!(serve(&mut router, &mut store, "add_todo", r#"{"text": "x"}"#, 77).is_ok());
    let todos = listed(&mut router, &mut store);
    assert_eq!(todos.len(), 1);
    assert_eq!(todos[0].text, "x");
    assert!(!todos[0].done);
    assert_eq!(todos[0].id, 77);
}

#[test]
fn add_todo_never_reuses_a_present_id() {
    let mut router = TodoRouter::new();
    let mut store = Some(vec![todo(100, "a", false), todo(101, "b", false)]);
    let reply = serve(&mut router, &mut store, "add_todo", r#"{"text": "c"}"#, 100);
    assert_eq!(reply, Ok(vec![Content::Todo(todo(102, "c", false))]));
}

#[test]
fn ids_of_one_router_go_up_when_the_clock_stands_or_goes_back() {
    let mut router = TodoRouter::new();
    let (todos, first) = router.add_todo(vec![], "a".to_string(), 500);
    assert_eq!(first.id, 500);
    let (todos, second) = router.add_todo(todos, "b".to_string(), 500);
    assert_eq!(second.id, 501);
    let (todos, third) = router.add_todo(todos, "c".to_string(), 20);
    assert_eq!(third.id, 502);
    let (todos, fourth) = router.add_todo(todos, "d".to_string(), 900);
    assert_eq!(fourth.id, 900);
    assert_eq!(
        todos,
        vec![todo(500, "a", false), todo(501, "b", false), todo(502, "c", false), todo(900, "d", false)]
    );
    let (_, fifth) = router.add_todo(vec![], "e".to_string(), 0);
    assert_eq!(fifth.id, 901);
}

#[test]
fn id_after_the_largest_value_starts_again_at_zero() {
    let mut router = TodoRouter::new();
    let (todos, first) = router.add_todo(vec![], "a".to_string(), u64::MAX);
    assert_eq!(first.id, u64::MAX);
    let (_, second) = router.add_todo(todos, "b".to_string(), 3);
    assert_eq!(second.id, 0);
}

#[test]
fn remove_todo_drops_the_id_and_replies_with_an_empty_text() {
    let mut router = TodoRouter::new();
    let mut store = Some(vec![todo(1, "a", false), todo(2, "b", false), todo(1, "c", false)]);
    let reply = serve(&mut router, &mut store, "remove_todo", r#"{"id": 1}"#, 0);
    assert_eq!(reply, Ok(vec![Content::Text(String::new())]));
    assert_eq!(listed(&mut router, &mut store), vec![todo(2, "b", false)]);
}

#[test]
fn remove_todo_of_unknown_id_succeeds_and_still_writes() {
    let mut router = TodoRouter::new();
    assert_eq!(router.call_tool("remove_todo", &json(r#"{"id": 9}"#)), Step::Load);
    assert_eq!(
        router.loaded_at(Loaded::Todos(vec![todo(1, "a", false)]), 0),
        Step::Save { set: Some(vec![todo(1, "a", false)]) }
    );
    assert_eq!(router.saved(Ok(())), Step::Reply(Ok(vec![Content::Text(String::new())])));
}

#[test]
fn update_todo_replaces_the_known_todo() {
    let mut router = TodoRouter::new();
    let mut store = Some(vec![todo(1, "a", false), todo(2, "b", false)]);
    let reply = serve(&mut router, &mut store, "update_todo", r#"{"id": 2, "text": "B", "done": true}"#, 0);
    assert_eq!(reply, Ok(vec![Content::Text(String::new())]));
    assert_eq!(store, Some(vec![todo(1, "a", false), todo(2, "B", true)]));
}

#[test]
fn update_todo_of_unknown_id_succeeds_saves_and_changes_nothing() {
    let mut router = TodoRouter::new();
    assert_eq!(
        router.call_tool("update_todo", &json(r#"{"id": 7, "text": "z", "done": true}"#)),
        Step::Load
    );
    assert_eq!(router.loaded_at(Loaded::Todos(vec![todo(1, "a", false)]), 0), Step::Save { set: None });
    assert_eq!(router.saved(Ok(())), Step::Reply(Ok(vec![Content::Text(String::new())])));
    let mut store = None;
    let mut router = TodoRouter::new();
    assert!(serve(&mut router, &mut store, "update_todo", r#"{"id": 7, "text": "z", "done": true}"#, 0).is_ok());
    assert_eq!(store, None);
    assert_eq!(listed(&mut router, &mut store), vec![]);
}

#[test]
fn update_todo_helpers_tell_known_from_unknown() {
    assert_eq!(
        TodoRouter::update_todo(vec![todo(1, "a", false)], todo(1, "b", true)),
        Some(vec![todo(1, "b", true)])
    );
    assert_eq!(TodoRouter::update_todo(vec![todo(1, "a", false)], todo(2, "b", true)), None);
    assert_eq!(TodoRouter::remove_todo(vec![todo(1, "a", false)], 1), vec![]);
}

#[test]
fn busy_router_refuses_a_second_request() {
    let mut router = TodoRouter::new();
    assert_eq!(router.call_tool("add_todo", &json(r#"{"text": "a"}"#)), Step::Load);
    let busy = Step::Reply(Err(ToolError::ExecutionError("a call is already in progress".to_string())));
    assert_eq!(router.call_tool("get_todos", &json("{}")), busy);
    assert_eq!(router.call_tool("nope", &json("{}")), busy);
    let step = router.loaded_at(Loaded::Missing, 1);
    assert_eq!(step, Step::Save { set: Some(vec![todo(1, "a", false)]) });
    assert_eq!(router.call_tool("get_todos", &json("{}")), busy);
    assert_eq!(router.saved(Ok(())), Step::Reply(Ok(vec![Content::Todo(todo(1, "a", false))])));
    assert_eq!(router.call_tool("get_todos", &json("{}")), Step::Load);
}

#[test]
fn events_that_no_unit_waits_for_are_refused() {
    let stray = Step::Reply(Err(ToolError::ExecutionError("no call is waiting for this".to_string())));
    let mut router = TodoRouter::new();
    assert_eq!(router.loaded_at(Loaded::Missing, 0), stray);
    assert_eq!(router.saved(Ok(())), stray);
    assert!(router.is_idle());
    assert_eq!(router.call_tool("remove_todo", &json(r#"{"id": 1}"#)), Step::Load);
    assert_eq!(router.saved(Ok(())), stray);
    assert_eq!(router.loaded_at(Loaded::Missing, 0), Step::Save { set: Some(vec![]) });
    assert_eq!(router.loaded_at(Loaded::Missing, 0), stray);
    assert_eq!(router.saved(Ok(())), Step::Reply(Ok(vec![Content::Text(String::new())])));
}

#[test]
fn serialized_calls_leave_their_net_effect_in_order() {
    let mut router = TodoRouter::new();
    let mut store = None;
    assert!(serve(&mut router, &mut store, "add_todo", r#"{"text": "a"}"#, 10).is_ok());
    assert!(serve(&mut router, &mut store, "add_todo", r#"{"text": "b"}"#, 10).is_ok());
    assert!(serve(&mut router, &mut store, "add_todo", r#"{"text": "c"}"#, 30).is_ok());
    assert!(serve(&mut router, &mut store, "update_todo", r#"{"id": 11, "text": "B", "done": true}"#, 31).is_ok());
    assert!(serve(&mut router, &mut store, "remove_todo", r#"{"id": 10}"#, 32).is_ok());
    assert!(serve(&mut router, &mut store, "remove_todo", r#"{"id": 99}"#, 33).is_ok());
    assert!(serve(&mut router, &mut store, "update_todo", r#"{"id": 10, "text": "gone", "done": true}"#, 34).is_ok());
    assert!(serve(&mut router, &mut store, "add_todo", r#"{"text": 1}"#, 35).is_err());
    assert!(serve(&mut router, &mut store, "unknown", "{}", 36).is_err());
    assert!(serve(&mut router, &mut store, "add_todo", r#"{"text": "d"}"#, 5).is_ok());
    assert_eq!(
        listed(&mut router, &mut store),
        vec![todo(11, "B", true), todo(30, "c", false), todo(31, "d", false)]
    );
}

#[test]
fn many_adds_at_one_clock_reading_are_all_kept_under_ids_of_their_own() {
    let mut router = TodoRouter::new();
    let mut store = None;
    let n = 200;
    for _ in 0..n {
        assert!(serve(&mut router, &mut store, "add_todo", r#"{"text": "same"}"#, 1_000).is_ok());
    }
    let todos = listed(&mut router, &mut store);
    assert_eq!(todos.len(), n);
    let mut ids: Vec<u64> = todos.iter().map(|t| t.id).collect();
    ids.sort();
    ids.dedup();
    assert_eq!(ids.len(), n);
}

#[test]
fn adds_by_routers_that_share_a_store_never_collide() {
    let mut first = TodoRouter::new();
    let mut second = TodoRouter::new();
    let mut store = None;
    for _ in 0..20 {
        assert!(serve(&mut first, &mut store, "add_todo", r#"{"text": "a"}"#, 7).is_ok());
        assert!(serve(&mut second, &mut store, "add_todo", r#"{"text": "b"}"#, 7).is_ok());
    }
    let todos = listed(&mut first, &mut store);
    let mut ids: Vec<u64> = todos.iter().map(|t| t.id).collect();
    ids.sort();
    ids.dedup();
    assert_eq!(ids.len(), 40);
}

#[test]
fn loaded_reads_the_clock_for_a_new_todo() {
    let mut router = TodoRouter::new();
    assert_eq!(router.call_tool("add_todo", &json(r#"{"text": "now"}"#)), Step::Load);
    let created = match router.loaded(Loaded::Missing) {
        Step::Save { set: Some(mut todos) } => {
            assert_eq!(todos.len(), 1);
            todos.pop().unwrap()
        }
        other => panic!("unexpected step {:?}", other),
    };
    assert_eq!(created.text, "now");
    assert!(!created.done);
    // after the year 2020 and before the year 2200, in milliseconds
    assert!(created.id > 1_577_836_800_000);
    assert!(created.id < 7_258_118_400_000);
    assert_eq!(router.saved(Ok(())), Step::Reply(Ok(vec![Content::Todo(created)])));
}

#[test]
fn loaded_needs_no_clock_for_the_other_calls() {
    let mut router = TodoRouter::new();
    assert_eq!(router.call_tool("get_todos", &json("{}")), Step::Load);
    assert_eq!(
        router.loaded(Loaded::Todos(vec![todo(1, "a", false)])),
        Step::Reply(Ok(vec![Content::Todos(vec![todo(1, "a", false)])]))
    );
    assert_eq!(
        router.loaded(Loaded::Missing),
        Step::Reply(Err(ToolError::ExecutionError("no call is waiting for this".to_string())))
    );
}
