//! The data the plan compiler consumes and produces: field declarations
//! with their semantic type tags and rule lists, runtime values, and the
//! two classes of errors.

use vstd::prelude::*;

verus! {

/// The semantic type tag a field is declared with. Rule compatibility is
/// decided against this tag at generation time, never by a runtime type
/// check.
#[derive(Debug, Clone, Copy, PartialEq, Eq, Structural)]
pub enum FieldType {
    /// A text value.
    Text,
    /// An optional text value.
    OptionalText,
    /// A signed 64-bit integer value.
    Integer,
    /// An optional integer value.
    OptionalInteger,
}

/// A runtime field value; [`value_has_type`] aligns it with the
/// [`FieldType`] its field was declared with.
#[derive(Debug, Clone)]
pub enum Value {
    Text(String),
    OptionalText(Option<String>),
    Integer(i64),
    OptionalInteger(Option<i64>),
}

/// Whether `v` is a value of the declared type `t`.
pub open spec fn value_has_type(v: Value, t: FieldType) -> bool {
    match t {
        FieldType::Text => v is Text,
        FieldType::OptionalText => v is OptionalText,
        FieldType::Integer => v is Integer,
        FieldType::OptionalInteger => v is OptionalInteger,
    }
}

/// True iff `v` is a value of the declared type `t`.
pub fn has_type(v: &Value, t: FieldType) -> (b: bool)
    ensures
        b == value_has_type(*v, t),
{
    match (v, t) {
        (Value::Text(_), FieldType::Text) => true,
        (Value::OptionalText(_), FieldType::OptionalText) => true,
        (Value::Integer(_), FieldType::Integer) => true,
        (Value::OptionalInteger(_), FieldType::OptionalInteger) => true,
        _ => false,
    }
}

/// A literal argument of a rule, as the front end hands it over.
#[derive(Debug, Clone)]
pub enum Literal {
    Int(i64),
    Text(String),
}

/// A requested rule: a rule name plus its literal arguments. It exists
/// only at generation time and is consumed to produce a bound check.
#[derive(Debug, Clone)]
pub struct RuleSpec {
    pub name: String,
    pub args: Vec<Literal>,
}

/// One field of a record's static schema: its name, its declared type,
/// and the ordered list of rules attached to it.
#[derive(Debug, Clone)]
pub struct FieldDeclaration {
    pub name: String,
    pub ty: FieldType,
    pub rules: Vec<RuleSpec>,
}

/// A generation-time diagnostic: the schema cannot be compiled into a
/// plan. Each variant carries the name of the offending rule.
#[derive(Debug, Clone, PartialEq, Eq)]
pub enum GenError {
    /// The rule name is none of `required`, `email`, `min`.
    UnknownRule(String),
    /// The rule does not apply to the field's declared type.
    Incompatible(String, FieldType),
    /// The rule's argument list is malformed: wrong arity, a non-integer
    /// where an integer is expected, or a text-length bound that cannot
    /// be read as a non-negative length.
    BadArgument(String),
}

/// A validation-time error: which rule failed and, where relevant, on
/// which field.
#[derive(Debug, Clone, PartialEq, Eq)]
pub enum ValidationError {
    /// A `required` rule failed on the named field.
    Missing(String),
    /// An `email` rule failed.
    Email,
    /// A `min` rule failed on the named field.
    Min(String),
}

} // verus!
