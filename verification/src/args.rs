//! Tool arguments: the kinds a schema declares, the values a call supplies,
//! and how a supplied JSON object is read.

use vstd::prelude::*;

verus! {

/// The kind of value that a schema declares for a field.
#[derive(Clone, Copy, Debug, PartialEq, Eq, Structural)]
pub enum ArgKind {
    /// A JSON string.
    Text,
    /// A JSON number that is a non-negative integer of at most 64 bits.
    Unsigned,
    /// A JSON boolean.
    Flag,
    /// A JSON object.
    Object,
}

/// A value supplied for one field, as far as the library reads it.
#[derive(Debug, PartialEq, Eq)]
pub enum ArgValue {
    Text(String),
    Unsigned(u64),
    Flag(bool),
    /// An object; its members are not read.
    Object,
    /// Anything else: null, an array, a negative or fractional number.
    Other,
}

/// The mathematical value of an [`ArgValue`].
pub ghost enum ArgView {
    Text(Seq<char>),
    Unsigned(u64),
    Flag(bool),
    Object,
    Other,
}

impl View for ArgValue {
    type V = ArgView;

    open spec fn view(&self) -> ArgView {
        match self {
            ArgValue::Text(s) => ArgView::Text(s@),
            ArgValue::Unsigned(n) => ArgView::Unsigned(*n),
            ArgValue::Flag(b) => ArgView::Flag(*b),
            ArgValue::Object => ArgView::Object,
            ArgValue::Other => ArgView::Other,
        }
    }
}

/// The members of an argument object: field name to supplied value.
pub type Members = Map<Seq<char>, ArgView>;

/// The kind that a supplied value has, if it has one.
pub open spec fn kind_of(v: ArgView) -> Option<ArgKind> {
    match v {
        ArgView::Text(_) => Some(ArgKind::Text),
        ArgView::Unsigned(_) => Some(ArgKind::Unsigned),
        ArgView::Flag(_) => Some(ArgKind::Flag),
        ArgView::Object => Some(ArgKind::Object),
        ArgView::Other => None,
    }
}

/// What reading field `name` as a `kind` gives: the member of that name where
/// it is present and of that kind, and nothing otherwise.
pub open spec fn reading(m: Members, name: Seq<char>, kind: ArgKind) -> Option<ArgView> {
    if m.contains_key(name) && kind_of(m[name]) == Some(kind) {
        Some(m[name])
    } else {
        None
    }
}

/// The view of an optional value.
pub open spec fn value_view(v: Option<ArgValue>) -> Option<ArgView> {
    match v {
        Some(v) => Some(v@),
        None => None,
    }
}

impl ArgValue {
    /// A value with the same content.
    pub fn duplicate(&self) -> (r: ArgValue)
        ensures
            r@ == self@,
    {
        match self {
            ArgValue::Text(s) => ArgValue::Text(s.clone()),
            ArgValue::Unsigned(n) => ArgValue::Unsigned(*n),
            ArgValue::Flag(b) => ArgValue::Flag(*b),
            ArgValue::Object => ArgValue::Object,
            ArgValue::Other => ArgValue::Other,
        }
    }

    /// Whether the value is of `kind`.
    pub fn is_of(&self, kind: ArgKind) -> (r: bool)
        ensures
            r == (kind_of(self@) == Some(kind)),
    {
        match (self, kind) {
            (ArgValue::Text(_), ArgKind::Text) => true,
            (ArgValue::Unsigned(_), ArgKind::Unsigned) => true,
            (ArgValue::Flag(_), ArgKind::Flag) => true,
            (ArgValue::Object, ArgKind::Object) => true,
            _ => false,
        }
    }
}

impl ArgKind {
    /// The name of the kind in a JSON schema.
    pub fn schema_name(&self) -> (r: String)
        ensures
            r@ == self.kind_name(),
    {
        match self {
            ArgKind::Text => "string".to_owned(),
            ArgKind::Unsigned => "integer".to_owned(),
            ArgKind::Flag => "boolean".to_owned(),
            ArgKind::Object => "object".to_owned(),
        }
    }

    /// The name of the kind in a JSON schema.
    pub open spec fn kind_name(&self) -> Seq<char> {
        match self {
            ArgKind::Text => "string"@,
            ArgKind::Unsigned => "integer"@,
            ArgKind::Flag => "boolean"@,
            ArgKind::Object => "object"@,
        }
    }
}

/// `serde_json::Value`, the form in which a call's arguments arrive.
#[verifier::external_type_specification]
#[verifier::external_body]
pub struct ExJsonValue(serde_json::Value);

/// The members that a JSON value holds. For an object: under each of its
/// keys the member's value, a string as text, a number stored as a
/// non-negative integer as unsigned, a boolean as flag, an object as object,
/// and anything else as other. A value that is no object holds no member.
pub uninterp spec fn json_members(v: serde_json::Value) -> Members;

/// The string under `key`.
///
/// Indexes the value by `key` and calls `Value::as_str` on what is there.
/// The index gives the member where the value is an object that has the key,
/// and JSON null otherwise; `as_str` gives the text of a JSON string and
/// nothing for any other value.
#[verifier::external_body]
fn member_text(arguments: &serde_json::Value, key: &str) -> (r: Option<String>)
    ensures
        match r {
            Some(s) => reading(json_members(*arguments), key@, ArgKind::Text) == Some(
                ArgView::Text(s@),
            ),
            None => reading(json_members(*arguments), key@, ArgKind::Text) is None,
        },
{
    arguments[key].as_str().map(str::to_owned)
}

/// The unsigned integer under `key`.
///
/// Indexes the value by `key` and calls `Value::as_u64` on what is there,
/// which gives the number where it is stored as a non-negative integer and
/// nothing for any other value.
#[verifier::external_body]
fn member_unsigned(arguments: &serde_json::Value, key: &str) -> (r: Option<u64>)
    ensures
        match r {
            Some(n) => reading(json_members(*arguments), key@, ArgKind::Unsigned) == Some(
                ArgView::Unsigned(n),
            ),
            None => reading(json_members(*arguments), key@, ArgKind::Unsigned) is None,
        },
{
    arguments[key].as_u64()
}

/// The boolean under `key`.
///
/// Indexes the value by `key` and calls `Value::as_bool` on what is there,
/// which gives the value of a JSON boolean and nothing for any other value.
#[verifier::external_body]
fn member_flag(arguments: &serde_json::Value, key: &str) -> (r: Option<bool>)
    ensures
        match r {
            Some(b) => reading(json_members(*arguments), key@, ArgKind::Flag) == Some(
                ArgView::Flag(b),
            ),
            None => reading(json_members(*arguments), key@, ArgKind::Flag) is None,
        },
{
    arguments[key].as_bool()
}

/// Whether an object stands under `key`.
///
/// Indexes the value by `key` and calls `Value::is_object` on what is there.
#[verifier::external_body]
fn member_is_object(arguments: &serde_json::Value, key: &str) -> (r: bool)
    ensures
        r == (reading(json_members(*arguments), key@, ArgKind::Object) == Some(ArgView::Object)),
{
    arguments[key].is_object()
}

/// Reads member `name` of a JSON value as a `kind`: the value where the
/// member is present and of that kind.
pub fn read_argument(arguments: &serde_json::Value, name: &str, kind: ArgKind) -> (r: Option<
    ArgValue,
>)
    ensures
        value_view(r) == reading(json_members(*arguments), name@, kind),
{
    match kind {
        ArgKind::Text => match member_text(arguments, name) {
            Some(s) => Some(ArgValue::Text(s)),
            None => None,
        },
        ArgKind::Unsigned => match member_unsigned(arguments, name) {
            Some(n) => Some(ArgValue::Unsigned(n)),
            None => None,
        },
        ArgKind::Flag => match member_flag(arguments, name) {
            Some(b) => Some(ArgValue::Flag(b)),
            None => None,
        },
        ArgKind::Object => if member_is_object(arguments, name) {
            Some(ArgValue::Object)
        } else {
            None
        },
    }
}

/// An argument object written out member by member. A later member of the
/// same name takes the place of an earlier one.
#[derive(Debug)]
pub struct Arguments {
    entries: Vec<(String, ArgValue)>,
}

/// The members that a list of entries stands for.
pub open spec fn entries_members(s: Seq<(String, ArgValue)>) -> Members
    decreases s.len(),
{
    if s.len() == 0 {
        Map::empty()
    } else {
        entries_members(s.drop_last()).insert(s.last().0@, s.last().1@)
    }
}

proof fn lemma_entries_absent(s: Seq<(String, ArgValue)>, name: Seq<char>)
    requires
        forall|j: int| 0 <= j < s.len() ==> (#[trigger] s[j]).0@ != name,
    ensures
        !entries_members(s).contains_key(name),
    decreases s.len(),
{
    if s.len() > 0 {
        assert(s.last() == s[s.len() - 1]);
        assert forall|j: int| 0 <= j < s.drop_last().len() implies (#[trigger] s.drop_last()[j]).0@
            != name by {
            assert(s.drop_last()[j] == s[j]);
        }
        lemma_entries_absent(s.drop_last(), name);
    }
}

proof fn lemma_entries_found(s: Seq<(String, ArgValue)>, name: Seq<char>, i: int)
    requires
        0 <= i < s.len(),
        s[i].0@ == name,
        forall|j: int| i < j < s.len() ==> (#[trigger] s[j]).0@ != name,
    ensures
        entries_members(s).contains_key(name),
        entries_members(s)[name] == s[i].1@,
    decreases s.len(),
{
    assert(s.last() == s[s.len() - 1]);
    if i < s.len() - 1 {
        assert forall|j: int| i < j < s.drop_last().len() implies (#[trigger] s.drop_last()[j]).0@
            != name by {
            assert(s.drop_last()[j] == s[j]);
        }
        assert(s.drop_last()[i] == s[i]);
        lemma_entries_found(s.drop_last(), name, i);
    }
}

impl View for Arguments {
    type V = Members;

    closed spec fn view(&self) -> Members {
        entries_members(self.entries@)
    }
}

impl Arguments {
    /// The object without members.
    pub fn new() -> (r: Arguments)
        ensures
            r@ == Map::<Seq<char>, ArgView>::empty(),
    {
        Arguments { entries: Vec::new() }
    }

    /// The object with member `name` set to `value`.
    pub fn with(self, name: &str, value: ArgValue) -> (r: Arguments)
        ensures
            r@ == self@.insert(name@, value@),
    {
        let mut entries = self.entries;
        let ghost before = entries@;
        let key = name.to_owned();
        entries.push((key, value));
        proof {
            assert(entries@.drop_last() =~= before);
        }
        Arguments { entries }
    }

    /// The value of member `name`, if the object has one.
    pub fn get(&self, name: &str) -> (r: Option<&ArgValue>)
        ensures
            match r {
                Some(v) => self@.contains_key(name@) && self@[name@] == v@,
                None => !self@.contains_key(name@),
            },
    {
        let key = name.to_owned();
        let mut i: usize = self.entries.len();
        while i > 0
            invariant
                i <= self.entries.len(),
                key@ == name@,
                forall|j: int| i <= j < self.entries.len() ==> (#[trigger] self.entries@[j]).0@ != name@,
            decreases i,
        {
            i -= 1;
            if self.entries[i].0 == key {
                proof {
                    lemma_entries_found(self.entries@, name@, i as int);
                }
                return Some(&self.entries[i].1);
            }
        }
        proof {
            lemma_entries_absent(self.entries@, name@);
        }
        None
    }

    /// Reads member `name` as a `kind`: the value where the member is present
    /// and of that kind.
    pub fn read(&self, name: &str, kind: ArgKind) -> (r: Option<ArgValue>)
        ensures
            value_view(r) == reading(self@, name@, kind),
    {
        match self.get(name) {
            Some(v) => if v.is_of(kind) {
                Some(v.duplicate())
            } else {
                None
            },
            None => None,
        }
    }
}

/// The arguments of a call, in either form.
pub enum Supplied<'a> {
    /// As they arrive from the peer.
    Json(&'a serde_json::Value),
    /// Written out member by member.
    Plain(&'a Arguments),
}

impl<'a> Supplied<'a> {
    /// The members that the arguments hold.
    pub open spec fn members(&self) -> Members {
        match self {
            Supplied::Json(v) => json_members(**v),
            Supplied::Plain(a) => a@,
        }
    }

    /// Reads member `name` as a `kind`: the value where the member is present
    /// and of that kind.
    pub fn read(&self, name: &str, kind: ArgKind) -> (r: Option<ArgValue>)
        ensures
            value_view(r) == reading(self.members(), name@, kind),
    {
        match self {
            Supplied::Json(v) => read_argument(v, name, kind),
            Supplied::Plain(a) => a.read(name, kind),
        }
    }
}

} // verus!
