use serde_json::Value;
use todo_mcp::args::{read_argument, ArgKind, ArgValue, Arguments, Supplied};
use todo_mcp::catalog::{find_tool, list_tools, FieldSpec, ToolDescriptor, ToolId};

fn json(text: &str) -> Value {
    serde_json::from_str(text).unwrap()
}

#[test]
fn read_argument_reads_a_string_as_text() {
    let v = json(r#"{"text": "buy milk", "n": 3}"#);
    assert_eq!(read_argument(&v, "text", ArgKind::Text), Some(ArgValue::Text("buy milk".to_string())));
    assert_eq!(read_argument(&v, "n", ArgKind::Text), None);
    assert_eq!(read_argument(&v, "absent", ArgKind::Text), None);
}

#[test]
fn read_argument_reads_a_non_negative_integer_as_unsigned() {
    let v = json(r#"{"id": 42, "big": 18446744073709551615, "neg": -1, "frac": 1.5, "s": "42", "zero": 0}"#);
    assert_eq!(read_argument(&v, "id", ArgKind::Unsigned), Some(ArgValue::Unsigned(42)));
    assert_eq!(read_argument(&v, "big", ArgKind::Unsigned), Some(ArgValue::Unsigned(u64::MAX)));
    assert_eq!(read_argument(&v, "zero", ArgKind::Unsigned), Some(ArgValue::Unsigned(0)));
    assert_eq!(read_argument(&v, "neg", ArgKind::Unsigned), None);
    assert_eq!(read_argument(&v, "frac", ArgKind::Unsigned), None);
    assert_eq!(read_argument(&v, "s", ArgKind::Unsigned), None);
    assert_eq!(read_argument(&v, "absent", ArgKind::Unsigned), None);
}

#[test]
fn read_argument_reads_a_boolean_as_flag() {
    let v = json(r#"{"done": true, "open": false, "n": 1, "none": null}"#);
    assert_eq!(read_argument(&v, "done", ArgKind::Flag), Some(ArgValue::Flag(true)));
    assert_eq!(read_argument(&v, "open", ArgKind::Flag), Some(ArgValue::Flag(false)));
    assert_eq!(read_argument(&v, "n", ArgKind::Flag), None);
    assert_eq!(read_argument(&v, "none", ArgKind::Flag), None);
}

#[test]
fn read_argument_tells_an_object_from_other_values() {
    let v = json(r#"{"o": {"a": 1}, "l": [1, 2], "s": "x"}"#);
    assert_eq!(read_argument(&v, "o", ArgKind::Object), Some(ArgValue::Object));
    assert_eq!(read_argument(&v, "l", ArgKind::Object), None);
    assert_eq!(read_argument(&v, "s", ArgKind::Object), None);
    assert_eq!(read_argument(&v, "absent", ArgKind::Object), None);
}

#[test]
fn read_argument_finds_nothing_in_a_value_that_is_no_object() {
    for text in ["null", "[1, 2]", "\"text\"", "7", "true"] {
        let v = json(text);
        assert_eq!(read_argument(&v, "text", ArgKind::Text), None);
        assert_eq!(read_argument(&v, "id", ArgKind::Unsigned), None);
        assert_eq!(read_argument(&v, "done", ArgKind::Flag), None);
        assert_eq!(read_argument(&v, "o", ArgKind::Object), None);
    }
}

#[test]
fn arguments_get_gives_the_latest_member_of_a_name() {
    let a = Arguments::new()
        .with("text", ArgValue::Text("first".to_string()))
        .with("id", ArgValue::Unsigned(1))
        .with("text", ArgValue::Text("second".to_string()));
    assert_eq!(a.get("text"), Some(&ArgValue::Text("second".to_string())));
    assert_eq!(a.get("id"), Some(&ArgValue::Unsigned(1)));
    assert_eq!(a.get("done"), None);
    assert_eq!(Arguments::new().get("text"), None);
}

#[test]
fn arguments_read_asks_for_the_kind() {
    let a = Arguments::new()
        .with("text", ArgValue::Text("x".to_string()))
        .with("id", ArgValue::Unsigned(9))
        .with("done", ArgValue::Flag(true))
        .with("o", ArgValue::Object)
        .with("odd", ArgValue::Other);
    assert_eq!(a.read("text", ArgKind::Text), Some(ArgValue::Text("x".to_string())));
    assert_eq!(a.read("text", ArgKind::Unsigned), None);
    assert_eq!(a.read("id", ArgKind::Unsigned), Some(ArgValue::Unsigned(9)));
    assert_eq!(a.read("done", ArgKind::Flag), Some(ArgValue::Flag(true)));
    assert_eq!(a.read("o", ArgKind::Object), Some(ArgValue::Object));
    assert_eq!(a.read("odd", ArgKind::Text), None);
    assert_eq!(a.read("odd", ArgKind::Object), None);
    assert_eq!(a.read("absent", ArgKind::Flag), None);
}

#[test]
fn supplied_reads_either_form_alike() {
    let v = json(r#"{"id": 3}"#);
    let a = Arguments::new().with("id", ArgValue::Unsigned(3));
    assert_eq!(Supplied::Json(&v).read("id", ArgKind::Unsigned), Some(ArgValue::Unsigned(3)));
    assert_eq!(Supplied::Plain(&a).read("id", ArgKind::Unsigned), Some(ArgValue::Unsigned(3)));
    assert_eq!(Supplied::Json(&v).read("id", ArgKind::Text), None);
    assert_eq!(Supplied::Plain(&a).read("id", ArgKind::Text), None);
}

#[test]
fn arg_value_is_of_and_duplicate() {
    let t = ArgValue::Text("x".to_string());
    assert!(t.is_of(ArgKind::Text));
    assert!(!t.is_of(ArgKind::Flag));
    assert!(ArgValue::Unsigned(1).is_of(ArgKind::Unsigned));
    assert!(ArgValue::Flag(false).is_of(ArgKind::Flag));
    assert!(ArgValue::Object.is_of(ArgKind::Object));
    assert!(!ArgValue::Other.is_of(ArgKind::Object));
    assert_eq!(t.duplicate(), t);
    assert_eq!(ArgValue::Unsigned(4).duplicate(), ArgValue::Unsigned(4));
}

#[test]
fn kinds_have_their_schema_names() {
    assert_eq!(ArgKind::Text.schema_name(), "string");
    assert_eq!(ArgKind::Unsigned.schema_name(), "integer");
    assert_eq!(ArgKind::Flag.schema_name(), "boolean");
    assert_eq!(ArgKind::Object.schema_name(), "object");
}

fn field(name: &str, kind: ArgKind) -> FieldSpec {
    FieldSpec { name: name.to_string(), kind, required: true }
}

#[test]
fn catalog_lists_the_four_tools_with_their_schemas() {
    let expected = vec![
        ToolDescriptor { name: "get_todos".to_string(), description: "Get Todos".to_string(), fields: vec![] },
        ToolDescriptor {
            name: "add_todo".to_string(),
            description: "Add Todo".to_string(),
            fields: vec![field("text", ArgKind::Text)],
        },
        ToolDescriptor {
            name: "remove_todo".to_string(),
            description: "Remove Todo".to_string(),
            fields: vec![field("id", ArgKind::Unsigned)],
        },
        ToolDescriptor {
            name: "update_todo".to_string(),
            description: "Update Todo".to_string(),
            fields: vec![
                field("id", ArgKind::Unsigned),
                field("text", ArgKind::Text),
                field("done", ArgKind::Flag),
            ],
        },
    ];
    assert_eq!(list_tools(), expected);
}

#[test]
fn find_tool_knows_the_catalog_names_only() {
    assert_eq!(find_tool("get_todos"), Some(ToolId::GetTodos));
    assert_eq!(find_tool("add_todo"), Some(ToolId::AddTodo));
    assert_eq!(find_tool("remove_todo"), Some(ToolId::RemoveTodo));
    assert_eq!(find_tool("update_todo"), Some(ToolId::UpdateTodo));
    assert_eq!(find_tool("Get_Todos"), None);
    assert_eq!(find_tool(""), None);
    for tool in list_tools() {
        assert_eq!(find_tool(&tool.name).map(|id| id.describe()), Some(tool));
    }
}

#[test]
fn required_names_keep_schema_order_and_skip_optional_fields() {
    assert_eq!(ToolId::UpdateTodo.describe().required_names(), vec!["id", "text", "done"]);
    assert_eq!(ToolId::GetTodos.describe().required_names(), Vec::<String>::new());
    let d = ToolDescriptor {
        name: "t".to_string(),
        description: "d".to_string(),
        fields: vec![
            FieldSpec { name: "a".to_string(), kind: ArgKind::Text, required: false },
            field("b", ArgKind::Flag),
        ],
    };
    assert_eq!(d.required_names(), vec!["b"]);
}

#[test]
fn check_gives_the_first_required_field_that_is_wrong() {
    let d = ToolId::UpdateTodo.describe();
    let all = json(r#"{"id": 1, "text": "x", "done": false}"#);
    assert_eq!(d.check(&Supplied::Json(&all)), None);
    let no_text_no_done = json(r#"{"id": 1, "text": 5}"#);
    assert_eq!(d.check(&Supplied::Json(&no_text_no_done)), Some(1));
    let bad_id = json(r#"{"id": "1"}"#);
    assert_eq!(d.check(&Supplied::Json(&bad_id)), Some(0));
    let no_done = Arguments::new().with("id", ArgValue::Unsigned(1)).with("text", ArgValue::Text("x".to_string()));
    assert_eq!(d.check(&Supplied::Plain(&no_done)), Some(2));
    let optional = ToolDescriptor {
        name: "t".to_string(),
        description: "d".to_string(),
        fields: vec![FieldSpec { name: "a".to_string(), kind: ArgKind::Text, required: false }],
    };
    assert_eq!(optional.check(&Supplied::Json(&json("{}"))), None);
}
