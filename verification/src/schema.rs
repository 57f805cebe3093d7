//! Structured values and the schemas that describe a tool's parameters.

use vstd::prelude::*;

verus! {

/// One value inside a structured payload.
#[derive(Clone, Debug, PartialEq, Eq)]
pub enum Value {
    Int(i64),
    Text(String),
}

/// A named value. A structured payload is a list of fields.
#[derive(Clone, Debug, PartialEq, Eq)]
pub struct Field {
    pub name: String,
    pub value: Value,
}

/// What a schema asks of one field's value.
#[derive(Clone, Debug, PartialEq, Eq)]
pub enum ParamKind {
    /// A signed integer that fits in 32 bits.
    Integer,
    /// Any text.
    Text,
    /// One of the listed texts.
    Choice(Vec<String>),
}

/// One field of a schema: its name and what its value must be.
#[derive(Clone, Debug, PartialEq, Eq)]
pub struct ParamSpec {
    pub name: String,
    pub kind: ParamKind,
}

/// A tool as clients discover it.
#[derive(Clone, Debug, PartialEq, Eq)]
pub struct ToolDescriptor {
    pub name: String,
    pub description: String,
    pub input_schema: Vec<ParamSpec>,
    pub result_schema: Vec<ParamSpec>,
}

/// Whether `text` is one of `options`.
pub open spec fn listed(options: Seq<String>, text: Seq<char>) -> bool {
    exists|k: int| 0 <= k < options.len() && (#[trigger] options[k])@ == text
}

/// Tests whether `text` is one of `options`.
pub fn is_listed(options: &Vec<String>, text: &String) -> (found: bool)
    ensures
        found == listed(options@, text@),
{
    let mut k: usize = 0;
    while k < options.len()
        invariant
            k <= options@.len(),
            forall|j: int| 0 <= j < k ==> (#[trigger] options@[j])@ != text@,
        decreases options@.len() - k,
    {
        if options[k] == *text {
            assert(options@[k as int]@ == text@);
            return true;
        }
        k += 1;
    }
    false
}

impl ParamKind {
    /// Whether a value is of this kind.
    pub open spec fn accepts(self, v: Value) -> bool {
        match self {
            ParamKind::Integer => v matches Value::Int(n) && i32::MIN <= n <= i32::MAX,
            ParamKind::Text => v is Text,
            ParamKind::Choice(options) => v matches Value::Text(s) && listed(options@, s@),
        }
    }

    /// Tests a value against this kind.
    pub fn check(&self, v: &Value) -> (ok: bool)
        ensures
            ok == self.accepts(*v),
    {
        match self {
            ParamKind::Integer => match v {
                Value::Int(n) => -2147483648 <= *n && *n <= 2147483647,
                Value::Text(_) => false,
            },
            ParamKind::Text => match v {
                Value::Int(_) => false,
                Value::Text(_) => true,
            },
            ParamKind::Choice(options) => match v {
                Value::Int(_) => false,
                Value::Text(s) => is_listed(options, s),
            },
        }
    }
}

/// Whether a field carries the name and a value that `spec` asks for.
pub open spec fn field_fits(spec: ParamSpec, field: Field) -> bool {
    field.name@ == spec.name@ && spec.kind.accepts(field.value)
}

/// Whether some field of a payload carries the name and a value that `spec`
/// asks for.
pub open spec fn fitted(spec: ParamSpec, params: Seq<Field>) -> bool {
    exists|j: int| 0 <= j < params.len() && field_fits(spec, #[trigger] params[j])
}

/// Whether a payload fits a schema: it has as many fields as the schema, and
/// for each field of the schema one of that name with a value of the right
/// kind. The order of the fields does not matter.
pub open spec fn conforms(schema: Seq<ParamSpec>, params: Seq<Field>) -> bool {
    params.len() == schema.len() && forall|i: int|
        0 <= i < schema.len() ==> fitted(#[trigger] schema[i], params)
}

/// The value of the first field of that name in a payload.
pub open spec fn lookup(params: Seq<Field>, name: Seq<char>) -> Option<Value>
    decreases params.len(),
{
    if params.len() == 0 {
        None
    } else if params[0].name@ == name {
        Some(params[0].value)
    } else {
        lookup(params.skip(1), name)
    }
}

/// Finds the value of the first field of that name in a payload.
pub fn get_field<'a>(params: &'a Vec<Field>, name: &String) -> (value: Option<&'a Value>)
    ensures
        match value {
            Some(v) => lookup(params@, name@) == Some(*v),
            None => lookup(params@, name@).is_none(),
        },
{
    let mut i: usize = 0;
    assert(params@.skip(0) =~= params@);
    while i < params.len()
        invariant
            i <= params@.len(),
            lookup(params@, name@) == lookup(params@.skip(i as int), name@),
        decreases params@.len() - i,
    {
        assert(params@.skip(i as int)[0] == params@[i as int]);
        if params[i].name == *name {
            return Some(&params[i].value);
        }
        assert(params@.skip(i as int).skip(1) =~= params@.skip(i + 1));
        i += 1;
    }
    assert(params@.skip(i as int).len() == 0);
    None
}

/// Tests whether some field of a payload fits one field of a schema.
pub fn is_fitted(spec: &ParamSpec, params: &Vec<Field>) -> (found: bool)
    ensures
        found == fitted(*spec, params@),
{
    let mut j: usize = 0;
    while j < params.len()
        invariant
            j <= params@.len(),
            forall|k: int| 0 <= k < j ==> !field_fits(*spec, #[trigger] params@[k]),
        decreases params@.len() - j,
    {
        if params[j].name == spec.name && spec.kind.check(&params[j].value) {
            assert(field_fits(*spec, params@[j as int]));
            return true;
        }
        j += 1;
    }
    false
}

/// Validates a payload against a schema.
pub fn validate(schema: &Vec<ParamSpec>, params: &Vec<Field>) -> (ok: bool)
    ensures
        ok == conforms(schema@, params@),
{
    if params.len() != schema.len() {
        return false;
    }
    let mut i: usize = 0;
    while i < schema.len()
        invariant
            i <= schema@.len(),
            params@.len() == schema@.len(),
            forall|k: int| 0 <= k < i ==> fitted(#[trigger] schema@[k], params@),
        decreases schema@.len() - i,
    {
        if !is_fitted(&schema[i], params) {
            assert(!fitted(schema@[i as int], params@));
            return false;
        }
        i += 1;
    }
    true
}

} // verus!
