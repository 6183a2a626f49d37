//! The tool catalog: which tools the server offers and what arguments each
//! expects.

use crate::args::{reading, ArgKind, Members, Supplied};
use vstd::prelude::*;

verus! {

/// One field of a tool's argument schema.
#[derive(Debug, PartialEq, Eq)]
pub struct FieldSpec {
    pub name: String,
    pub kind: ArgKind,
    /// Whether a call has to supply the field.
    pub required: bool,
}

/// The mathematical value of a [`FieldSpec`].
pub ghost struct FieldView {
    pub name: Seq<char>,
    pub kind: ArgKind,
    pub required: bool,
}

impl View for FieldSpec {
    type V = FieldView;

    open spec fn view(&self) -> FieldView {
        FieldView { name: self.name@, kind: self.kind, required: self.required }
    }
}

/// The values of a list of fields, in order.
pub open spec fn fields_view(s: Seq<FieldSpec>) -> Seq<FieldView> {
    s.map_values(|f: FieldSpec| f@)
}

/// What the catalog says of one tool. The argument schema is an object with
/// one property for each field.
#[derive(Debug, PartialEq, Eq)]
pub struct ToolDescriptor {
    pub name: String,
    pub description: String,
    pub fields: Vec<FieldSpec>,
}

/// The mathematical value of a [`ToolDescriptor`].
pub ghost struct ToolView {
    pub name: Seq<char>,
    pub description: Seq<char>,
    pub fields: Seq<FieldView>,
}

impl View for ToolDescriptor {
    type V = ToolView;

    open spec fn view(&self) -> ToolView {
        ToolView {
            name: self.name@,
            description: self.description@,
            fields: fields_view(self.fields@),
        }
    }
}

/// The values of a list of descriptors, in order.
pub open spec fn tools_view(s: Seq<ToolDescriptor>) -> Seq<ToolView> {
    s.map_values(|t: ToolDescriptor| t@)
}

/// The tools of the catalog.
#[derive(Clone, Copy, Debug, PartialEq, Eq, Structural)]
pub enum ToolId {
    GetTodos,
    AddTodo,
    RemoveTodo,
    UpdateTodo,
}

/// A required field of the given name and kind.
pub open spec fn required_field(name: Seq<char>, kind: ArgKind) -> FieldView {
    FieldView { name, kind, required: true }
}

/// The catalog's entry for a tool.
pub open spec fn descriptor_of(id: ToolId) -> ToolView {
    match id {
        ToolId::GetTodos => ToolView {
            name: "get_todos"@,
            description: "Get Todos"@,
            fields: seq![],
        },
        ToolId::AddTodo => ToolView {
            name: "add_todo"@,
            description: "Add Todo"@,
            fields: seq![required_field("text"@, ArgKind::Text)],
        },
        ToolId::RemoveTodo => ToolView {
            name: "remove_todo"@,
            description: "Remove Todo"@,
            fields: seq![required_field("id"@, ArgKind::Unsigned)],
        },
        ToolId::UpdateTodo => ToolView {
            name: "update_todo"@,
            description: "Update Todo"@,
            fields: seq![
                required_field("id"@, ArgKind::Unsigned),
                required_field("text"@, ArgKind::Text),
                required_field("done"@, ArgKind::Flag),
            ],
        },
    }
}

/// The whole catalog, in the order in which it is listed.
pub open spec fn catalog() -> Seq<ToolView> {
    seq![
        descriptor_of(ToolId::GetTodos),
        descriptor_of(ToolId::AddTodo),
        descriptor_of(ToolId::RemoveTodo),
        descriptor_of(ToolId::UpdateTodo),
    ]
}

/// The tool registered under `name`, if there is one.
pub open spec fn tool_named(name: Seq<char>) -> Option<ToolId> {
    if name == "get_todos"@ {
        Some(ToolId::GetTodos)
    } else if name == "add_todo"@ {
        Some(ToolId::AddTodo)
    } else if name == "remove_todo"@ {
        Some(ToolId::RemoveTodo)
    } else if name == "update_todo"@ {
        Some(ToolId::UpdateTodo)
    } else {
        None
    }
}

/// The position of the first required field, at or after `from`, that `m`
/// does not supply with a value of the declared kind.
pub open spec fn first_violation(m: Members, fields: Seq<FieldView>, from: int) -> Option<int>
    decreases fields.len() - from,
{
    if from < 0 || from >= fields.len() {
        None
    } else if fields[from].required && reading(m, fields[from].name, fields[from].kind) is None {
        Some(from)
    } else {
        first_violation(m, fields, from + 1)
    }
}

fn field(name: &str, kind: ArgKind) -> (r: FieldSpec)
    ensures
        r@ == required_field(name@, kind),
{
    FieldSpec { name: name.to_owned(), kind, required: true }
}

impl ToolId {
    /// The catalog's entry for the tool.
    pub fn describe(&self) -> (r: ToolDescriptor)
        ensures
            r@ == descriptor_of(*self),
    {
        let mut fields: Vec<FieldSpec> = Vec::new();
        let r = match self {
            ToolId::GetTodos => {
                ToolDescriptor {
                    name: "get_todos".to_owned(),
                    description: "Get Todos".to_owned(),
                    fields,
                }
            },
            ToolId::AddTodo => {
                fields.push(field("text", ArgKind::Text));
                ToolDescriptor {
                    name: "add_todo".to_owned(),
                    description: "Add Todo".to_owned(),
                    fields,
                }
            },
            ToolId::RemoveTodo => {
                fields.push(field("id", ArgKind::Unsigned));
                ToolDescriptor {
                    name: "remove_todo".to_owned(),
                    description: "Remove Todo".to_owned(),
                    fields,
                }
            },
            ToolId::UpdateTodo => {
                fields.push(field("id", ArgKind::Unsigned));
                fields.push(field("text", ArgKind::Text));
                fields.push(field("done", ArgKind::Flag));
                ToolDescriptor {
                    name: "update_todo".to_owned(),
                    description: "Update Todo".to_owned(),
                    fields,
                }
            },
        };
        assert(r@.fields =~= descriptor_of(*self).fields);
        r
    }
}

impl ToolDescriptor {
    /// The names of the fields that a call has to supply, in schema order.
    pub fn required_names(&self) -> (r: Vec<String>)
        ensures
            r@.map_values(|s: String| s@) == fields_view(self.fields@).filter(
                |f: FieldView| f.required,
            ).map_values(|f: FieldView| f.name),
    {
        let ghost all = fields_view(self.fields@);
        let ghost pred = |f: FieldView| f.required;
        let ghost name = |f: FieldView| f.name;
        let ghost text = |s: String| s@;
        let mut r: Vec<String> = Vec::new();
        let mut i: usize = 0;
        proof {
            reveal(Seq::filter);
            assert(all.take(0).filter(pred) =~= Seq::<FieldView>::empty());
            assert(r@.map_values(text) =~= all.take(0).filter(pred).map_values(name));
        }
        while i < self.fields.len()
            invariant
                i <= self.fields.len(),
                all == fields_view(self.fields@),
                pred == (|f: FieldView| f.required),
                name == (|f: FieldView| f.name),
                text == (|s: String| s@),
                r@.map_values(text) == all.take(i as int).filter(pred).map_values(name),
            decreases self.fields.len() - i,
        {
            let ghost before = r@.map_values(text);
            proof {
                reveal(Seq::filter);
                assert(all.take(i + 1).drop_last() =~= all.take(i as int));
                assert(all.take(i + 1).last() == all[i as int]);
            }
            if self.fields[i].required {
                r.push(self.fields[i].name.clone());
                assert(r@.map_values(text) =~= before.push(all[i as int].name));
                assert(all.take(i + 1).filter(pred).map_values(name) =~= all.take(
                    i as int,
                ).filter(pred).map_values(name).push(all[i as int].name));
            }
            i += 1;
        }
        assert(all.take(self.fields.len() as int) =~= all);
        r
    }

    /// The first required field that `supplied` does not hold with a value of
    /// the declared kind.
    pub fn check(&self, supplied: &Supplied) -> (r: Option<usize>)
        ensures
            match r {
                Some(i) => i < self.fields.len() && first_violation(
                    supplied.members(),
                    self@.fields,
                    0,
                ) == Some(i as int),
                None => first_violation(supplied.members(), self@.fields, 0) is None,
            },
    {
        let ghost m = supplied.members();
        let ghost fields = self@.fields;
        let mut i: usize = 0;
        while i < self.fields.len()
            invariant
                i <= self.fields.len(),
                m == supplied.members(),
                fields == fields_view(self.fields@),
                first_violation(m, fields, i as int) == first_violation(m, fields, 0),
            decreases self.fields.len() - i,
        {
            assert(fields[i as int] == self.fields@[i as int]@);
            if self.fields[i].required {
                let found = supplied.read(self.fields[i].name.as_str(), self.fields[i].kind);
                if found.is_none() {
                    return Some(i);
                }
            }
            i += 1;
        }
        None
    }
}

/// The catalog: every tool's descriptor, in a fixed order.
pub fn list_tools() -> (r: Vec<ToolDescriptor>)
    ensures
        tools_view(r@) == catalog(),
{
    let mut r: Vec<ToolDescriptor> = Vec::new();
    r.push(ToolId::GetTodos.describe());
    r.push(ToolId::AddTodo.describe());
    r.push(ToolId::RemoveTodo.describe());
    r.push(ToolId::UpdateTodo.describe());
    assert(tools_view(r@) =~= catalog());
    r
}

/// The tool registered under `name`.
pub fn find_tool(name: &str) -> (r: Option<ToolId>)
    ensures
        r == tool_named(name@),
{
    let name = name.to_owned();
    if name == "get_todos".to_owned() {
        Some(ToolId::GetTodos)
    } else if name == "add_todo".to_owned() {
        Some(ToolId::AddTodo)
    } else if name == "remove_todo".to_owned() {
        Some(ToolId::RemoveTodo)
    } else if name == "update_todo".to_owned() {
        Some(ToolId::UpdateTodo)
    } else {
        None
    }
}

/// Every tool of the catalog is registered under its own name, and a
/// registered name is the name of its tool.
pub proof fn lemma_names_registered()
    ensures
        forall|id: ToolId| #[trigger] tool_named(descriptor_of(id).name) == Some(id),
        forall|name: Seq<char>|
            (#[trigger] tool_named(name)) matches Some(id) ==> descriptor_of(id).name == name,
{
    reveal_strlit("get_todos");
    reveal_strlit("add_todo");
    reveal_strlit("remove_todo");
    reveal_strlit("update_todo");
    assert("remove_todo"@[0] != "update_todo"@[0]);
    assert("get_todos"@.len() != "add_todo"@.len());
    assert("get_todos"@.len() != "remove_todo"@.len());
    assert("add_todo"@.len() != "remove_todo"@.len());
}

} // verus!
