//! The rule resolver: decides at generation time whether a requested rule
//! applies to a field's declared type, binds the rule's arguments, and
//! produces the type-specialized check — or the generation error.

use crate::schema::{FieldType, GenError, Literal, RuleSpec};
use vstd::prelude::*;

verus! {

/// A resolved, type-specialized check, closed over its arguments. Created
/// once per (field, rule) pair at generation time; never mutated.
#[derive(Debug, Clone, Copy, PartialEq, Eq, Structural)]
pub enum CheckKind {
    /// `required` on a text field: the text must not be blank.
    RequiredText,
    /// `required` on an optional field: the value must be present.
    RequiredPresent,
    /// `email` on a text field: the text must match the email grammar.
    EmailText,
    /// `min` on an integer field: the value must be at least the bound.
    MinInteger(i64),
    /// `min` on a text field: the character count must be at least the
    /// bound.
    MinLength(usize),
}

/// Which declared field types a resolved check may be bound to.
pub open spec fn kind_fits(k: CheckKind, t: FieldType) -> bool {
    match k {
        CheckKind::RequiredText => t == FieldType::Text,
        CheckKind::RequiredPresent => t == FieldType::OptionalText || t
            == FieldType::OptionalInteger,
        CheckKind::EmailText => t == FieldType::Text,
        CheckKind::MinInteger(_) => t == FieldType::Integer,
        CheckKind::MinLength(_) => t == FieldType::Text,
    }
}

/// What resolving the rule `r` against the declared type `t` yields: the
/// bound check, or the generation error. An unknown rule name is reported
/// before anything else; then a malformed argument list; then an
/// incompatible field type; a text-length bound outside `0..=usize::MAX`
/// counts as a malformed argument.
pub open spec fn resolve_spec(t: FieldType, r: RuleSpec) -> Result<CheckKind, GenError> {
    if r.name@ == "required"@ {
        if r.args@.len() != 0 {
            Err(GenError::BadArgument(r.name))
        } else {
            match t {
                FieldType::Text => Ok(CheckKind::RequiredText),
                FieldType::OptionalText => Ok(CheckKind::RequiredPresent),
                FieldType::OptionalInteger => Ok(CheckKind::RequiredPresent),
                FieldType::Integer => Err(GenError::Incompatible(r.name, t)),
            }
        }
    } else if r.name@ == "email"@ {
        if r.args@.len() != 0 {
            Err(GenError::BadArgument(r.name))
        } else if t == FieldType::Text {
            Ok(CheckKind::EmailText)
        } else {
            Err(GenError::Incompatible(r.name, t))
        }
    } else if r.name@ == "min"@ {
        if r.args@.len() != 1 || !(r.args@[0] is Int) {
            Err(GenError::BadArgument(r.name))
        } else {
            let b = r.args@[0]->Int_0;
            match t {
                FieldType::Integer => Ok(CheckKind::MinInteger(b)),
                FieldType::Text => if 0 <= b && b <= usize::MAX as int {
                    Ok(CheckKind::MinLength(b as usize))
                } else {
                    Err(GenError::BadArgument(r.name))
                },
                FieldType::OptionalText => Err(GenError::Incompatible(r.name, t)),
                FieldType::OptionalInteger => Err(GenError::Incompatible(r.name, t)),
            }
        }
    } else {
        Err(GenError::UnknownRule(r.name))
    }
}

/// `email` applies to text alone: requesting it for a field of any other
/// declared type fails generation — never silently, never as a no-op —
/// and, when the rule is written without arguments (its well-formed
/// shape), with the incompatibility diagnostic naming the rule and the
/// type.
pub proof fn lemma_email_needs_text(t: FieldType, r: RuleSpec)
    requires
        r.name@ == "email"@,
        t != FieldType::Text,
    ensures
        resolve_spec(t, r) is Err,
        r.args@.len() == 0 ==> resolve_spec(t, r) == Err::<CheckKind, GenError>(
            GenError::Incompatible(r.name, t),
        ),
{
    reveal_strlit("email");
    reveal_strlit("required");
    reveal_strlit("min");
    assert(("email"@).len() == 5);
    assert(("required"@).len() == 8);
    assert(("min"@).len() == 3);
}

/// Resolves one requested rule against a field's declared type: exactly
/// the check or the diagnostic that [`resolve_spec`] names. An
/// unresolved rule never degrades to a no-op.
pub fn resolve(t: FieldType, r: &RuleSpec) -> (res: Result<CheckKind, GenError>)
    ensures
        res == resolve_spec(t, *r),
{
    let required: String = "required".to_owned();
    let email: String = "email".to_owned();
    let min: String = "min".to_owned();
    if r.name == required {
        if r.args.len() != 0 {
            Err(GenError::BadArgument(r.name.clone()))
        } else {
            match t {
                FieldType::Text => Ok(CheckKind::RequiredText),
                FieldType::OptionalText => Ok(CheckKind::RequiredPresent),
                FieldType::OptionalInteger => Ok(CheckKind::RequiredPresent),
                FieldType::Integer => Err(GenError::Incompatible(r.name.clone(), t)),
            }
        }
    } else if r.name == email {
        if r.args.len() != 0 {
            Err(GenError::BadArgument(r.name.clone()))
        } else if matches!(t, FieldType::Text) {
            Ok(CheckKind::EmailText)
        } else {
            Err(GenError::Incompatible(r.name.clone(), t))
        }
    } else if r.name == min {
        if r.args.len() != 1 {
            Err(GenError::BadArgument(r.name.clone()))
        } else {
            match &r.args[0] {
                Literal::Text(_) => Err(GenError::BadArgument(r.name.clone())),
                Literal::Int(b) => {
                    match t {
                        FieldType::Integer => Ok(CheckKind::MinInteger(*b)),
                        FieldType::Text => {
                            if *b >= 0 && *b as u64 <= usize::MAX as u64 {
                                Ok(CheckKind::MinLength(*b as usize))
                            } else {
                                Err(GenError::BadArgument(r.name.clone()))
                            }
                        },
                        FieldType::OptionalText => Err(
                            GenError::Incompatible(r.name.clone(), t),
                        ),
                        FieldType::OptionalInteger => Err(
                            GenError::Incompatible(r.name.clone(), t),
                        ),
                    }
                },
            }
        }
    } else {
        Err(GenError::UnknownRule(r.name.clone()))
    }
}

} // verus!
