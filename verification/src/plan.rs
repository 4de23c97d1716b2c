//! The plan assembler and the validation executor.
//!
//! [`compile_plan`] resolves every (field, rule) pair of a schema, in
//! field-declaration order and rule-declaration order within a field,
//! into an ordered [`ValidationPlan`] — or reports the first generation
//! error in that same order. [`ValidationPlan::validate`] runs the plan's
//! checks in order against a record and returns the first failure.

use crate::resolve::{kind_fits, resolve, resolve_spec, CheckKind};
use crate::schema::{
    has_type, value_has_type, FieldDeclaration, FieldType, GenError, ValidationError, Value,
};
use crate::text::{blank, email_matches};
use crate::validator::{Email, Min, Required, Validator};
use vstd::prelude::*;

verus! {

/// One entry of a plan: the index and name of the field it reads, and
/// the resolved check to run on that field's value.
#[derive(Debug, Clone)]
pub struct BoundCheck {
    pub field_index: usize,
    pub field_name: String,
    pub kind: CheckKind,
}

/// The checks that the first `k` rules of the field `f` (standing at
/// index `idx` of its record) contribute, in rule-declaration order, or
/// the error of the first rule that fails to resolve.
pub open spec fn field_checks_prefix(f: FieldDeclaration, idx: usize, k: int) -> Result<
    Seq<BoundCheck>,
    GenError,
>
    decreases k,
{
    if k <= 0 {
        Ok(Seq::empty())
    } else {
        match field_checks_prefix(f, idx, k - 1) {
            Ok(cs) => match resolve_spec(f.ty, f.rules@[k - 1]) {
                Ok(kind) => Ok(
                    cs.push(BoundCheck { field_index: idx, field_name: f.name, kind }),
                ),
                Err(e) => Err(e),
            },
            Err(e) => Err(e),
        }
    }
}

/// The checks the whole rule list of `f` contributes.
pub open spec fn field_checks(f: FieldDeclaration, idx: usize) -> Result<
    Seq<BoundCheck>,
    GenError,
> {
    field_checks_prefix(f, idx, f.rules@.len() as int)
}

/// The checks that the first `k` fields of a schema contribute, each
/// field's checks in order, fields in declaration order, or the first
/// error in that same order.
pub open spec fn plan_checks_prefix(fields: Seq<FieldDeclaration>, k: int) -> Result<
    Seq<BoundCheck>,
    GenError,
>
    decreases k,
{
    if k <= 0 {
        Ok(Seq::empty())
    } else {
        match plan_checks_prefix(fields, k - 1) {
            Ok(cs) => match field_checks(fields[k - 1], (k - 1) as usize) {
                Ok(fcs) => Ok(cs + fcs),
                Err(e) => Err(e),
            },
            Err(e) => Err(e),
        }
    }
}

/// What compiling a schema yields: every (field, rule) pair resolved, in
/// field-declaration order then rule-declaration order, or the first
/// generation error in that order.
pub open spec fn plan_checks(fields: Seq<FieldDeclaration>) -> Result<Seq<BoundCheck>, GenError> {
    plan_checks_prefix(fields, fields.len() as int)
}

/// Whether one resolved check accepts the value it reads. On a record
/// that conforms to the plan's types, a check only ever meets a value of
/// the type it was bound to; any other pairing counts as passing so that
/// the function is total.
pub open spec fn check_passes(k: CheckKind, v: Value) -> bool {
    match (k, v) {
        (CheckKind::RequiredText, Value::Text(s)) => !blank(s@),
        (CheckKind::RequiredPresent, Value::OptionalText(o)) => o is Some,
        (CheckKind::RequiredPresent, Value::OptionalInteger(o)) => o is Some,
        (CheckKind::EmailText, Value::Text(s)) => email_matches(s@),
        (CheckKind::MinInteger(b), Value::Integer(x)) => x >= b,
        (CheckKind::MinLength(b), Value::Text(s)) => s@.len() >= b,
        _ => true,
    }
}

/// The error a failing check reports: `required` reports the field as
/// missing, `email` the text as no email, `min` the field as under its
/// bound.
pub open spec fn check_error(c: BoundCheck) -> ValidationError {
    match c.kind {
        CheckKind::RequiredText => ValidationError::Missing(c.field_name),
        CheckKind::RequiredPresent => ValidationError::Missing(c.field_name),
        CheckKind::EmailText => ValidationError::Email,
        CheckKind::MinInteger(_) => ValidationError::Min(c.field_name),
        CheckKind::MinLength(_) => ValidationError::Min(c.field_name),
    }
}

/// Fail-fast execution: `Ok(())` if every check of `checks`, taken in
/// order, accepts the value it reads from `record`, else the error of
/// the first check that refuses — later checks are never consulted.
pub open spec fn run_plan(checks: Seq<BoundCheck>, record: Seq<Value>) -> Result<
    (),
    ValidationError,
>
    decreases checks.len(),
{
    if checks.len() == 0 {
        Ok(())
    } else if check_passes(checks[0].kind, record[checks[0].field_index as int]) {
        run_plan(checks.drop_first(), record)
    } else {
        Err(check_error(checks[0]))
    }
}

/// Every check of the plan accepts the value it reads.
pub open spec fn all_checks_pass(checks: Seq<BoundCheck>, record: Seq<Value>) -> bool {
    forall|i: int|
        0 <= i < checks.len() ==> check_passes(
            (#[trigger] checks[i]).kind,
            record[checks[i].field_index as int],
        )
}

/// Success is all-or-nothing: running a plan yields `Ok` iff every one
/// of its checks passes.
pub proof fn lemma_run_plan_ok(checks: Seq<BoundCheck>, record: Seq<Value>)
    ensures
        run_plan(checks, record) is Ok <==> all_checks_pass(checks, record),
    decreases checks.len(),
{
    if checks.len() == 0 {
    } else {
        lemma_run_plan_ok(checks.drop_first(), record);
        assert forall|i: int| 0 <= i < checks.drop_first().len() implies checks.drop_first()[i]
            == checks[i + 1] by {}
        if check_passes(checks[0].kind, record[checks[0].field_index as int]) {
            if all_checks_pass(checks.drop_first(), record) {
                assert forall|i: int| 0 <= i < checks.len() implies check_passes(
                    (#[trigger] checks[i]).kind,
                    record[checks[i].field_index as int],
                ) by {
                    if i > 0 {
                        assert(checks.drop_first()[i - 1] == checks[i]);
                    }
                }
            } else {
                let j = choose|j: int|
                    0 <= j < checks.drop_first().len() && !check_passes(
                        (#[trigger] checks.drop_first()[j]).kind,
                        record[checks.drop_first()[j].field_index as int],
                    );
                assert(checks[j + 1] == checks.drop_first()[j]);
                assert(!all_checks_pass(checks, record));
            }
        } else {
            assert(!all_checks_pass(checks, record));
        }
    }
}

/// Fail-fast across the whole plan: if every check before position `i`
/// passes and the check at `i` fails, running the plan reports exactly
/// the check at `i`, whatever stands after it.
pub proof fn lemma_run_plan_fail_fast(checks: Seq<BoundCheck>, record: Seq<Value>, i: int)
    requires
        0 <= i < checks.len(),
        !check_passes(checks[i].kind, record[checks[i].field_index as int]),
        forall|j: int|
            0 <= j < i ==> check_passes(
                (#[trigger] checks[j]).kind,
                record[checks[j].field_index as int],
            ),
    ensures
        run_plan(checks, record) == Err::<(), ValidationError>(check_error(checks[i])),
    decreases i,
{
    if i == 0 {
    } else {
        assert(check_passes(checks[0].kind, record[checks[0].field_index as int]));
        assert forall|j: int| 0 <= j < i - 1 implies check_passes(
            (#[trigger] checks.drop_first()[j]).kind,
            record[checks.drop_first()[j].field_index as int],
        ) by {
            assert(checks.drop_first()[j] == checks[j + 1]);
        }
        assert(checks.drop_first()[i - 1] == checks[i]);
        lemma_run_plan_fail_fast(checks.drop_first(), record, i - 1);
    }
}

/// Every check of `cs` reads a field below `k` and fits that field's
/// declared type.
pub open spec fn checks_fit(cs: Seq<BoundCheck>, fields: Seq<FieldDeclaration>, k: int) -> bool {
    forall|i: int|
        0 <= i < cs.len() ==> (#[trigger] cs[i]).field_index < k && kind_fits(
            cs[i].kind,
            fields[cs[i].field_index as int].ty,
        )
}

/// A check that resolution produced fits the type it was resolved
/// against.
proof fn lemma_resolve_fits(t: FieldType, r: crate::schema::RuleSpec)
    requires
        resolve_spec(t, r) is Ok,
    ensures
        kind_fits(resolve_spec(t, r)->Ok_0, t),
{
}

/// The checks of one field all read that field and fit its type.
proof fn lemma_field_checks_fit(f: FieldDeclaration, idx: usize, k: int)
    requires
        field_checks_prefix(f, idx, k) is Ok,
    ensures
        forall|i: int|
            0 <= i < field_checks_prefix(f, idx, k)->Ok_0.len() ==> (#[trigger] field_checks_prefix(
                f,
                idx,
                k,
            )->Ok_0[i]).field_index == idx && kind_fits(
                field_checks_prefix(f, idx, k)->Ok_0[i].kind,
                f.ty,
            ),
    decreases k,
{
    if k <= 0 {
    } else {
        lemma_field_checks_fit(f, idx, k - 1);
        lemma_resolve_fits(f.ty, f.rules@[k - 1]);
    }
}

/// The checks of a compiled prefix of a schema all fit the schema.
proof fn lemma_plan_checks_fit(fields: Seq<FieldDeclaration>, k: int)
    requires
        k <= usize::MAX,
        plan_checks_prefix(fields, k) is Ok,
    ensures
        checks_fit(plan_checks_prefix(fields, k)->Ok_0, fields, k),
    decreases k,
{
    if k <= 0 {
    } else {
        lemma_plan_checks_fit(fields, k - 1);
        lemma_field_checks_fit(fields[k - 1], (k - 1) as usize, fields[k - 1].rules@.len() as int);
        let cs = plan_checks_prefix(fields, k - 1)->Ok_0;
        let fcs = field_checks(fields[k - 1], (k - 1) as usize)->Ok_0;
        assert forall|i: int| 0 <= i < (cs + fcs).len() implies ((#[trigger] (cs + fcs)[i]).field_index
            < k && kind_fits((cs + fcs)[i].kind, fields[(cs + fcs)[i].field_index as int].ty)) by {
            if i < cs.len() {
                assert((cs + fcs)[i] == cs[i]);
            } else {
                assert((cs + fcs)[i] == fcs[i - cs.len()]);
            }
        }
    }
}

/// Once a prefix of a field's rules fails to resolve, every longer
/// prefix reports that same first error.
proof fn lemma_field_prefix_err(f: FieldDeclaration, idx: usize, k1: int, k2: int)
    requires
        0 <= k1 <= k2,
        field_checks_prefix(f, idx, k1) is Err,
    ensures
        field_checks_prefix(f, idx, k2) == field_checks_prefix(f, idx, k1),
    decreases k2 - k1,
{
    if k1 < k2 {
        lemma_field_prefix_err(f, idx, k1, k2 - 1);
    }
}

/// Once a prefix of a schema fails to compile, every longer prefix
/// reports that same first error.
proof fn lemma_plan_prefix_err(fields: Seq<FieldDeclaration>, k1: int, k2: int)
    requires
        0 <= k1 <= k2,
        plan_checks_prefix(fields, k1) is Err,
    ensures
        plan_checks_prefix(fields, k2) == plan_checks_prefix(fields, k1),
    decreases k2 - k1,
{
    if k1 < k2 {
        lemma_plan_prefix_err(fields, k1, k2 - 1);
    }
}

/// An ordered validation plan for one record type: one resolved check
/// per (field, rule) occurrence, fixed after construction and shared
/// read-only by every [`ValidationPlan::validate`] call.
#[derive(Debug)]
pub struct ValidationPlan {
    checks: Vec<BoundCheck>,
    types: Vec<FieldType>,
}

impl ValidationPlan {
    /// The resolved checks, in field-declaration order, then
    /// rule-declaration order within a field.
    pub closed spec fn checks(&self) -> Seq<BoundCheck> {
        self.checks@
    }

    /// The declared type of each field, in declaration order.
    pub closed spec fn types(&self) -> Seq<FieldType> {
        self.types@
    }

    #[verifier::type_invariant]
    spec fn wf(&self) -> bool {
        forall|i: int|
            0 <= i < self.checks@.len() ==> (#[trigger] self.checks@[i]).field_index
                < self.types@.len() && kind_fits(
                self.checks@[i].kind,
                self.types@[self.checks@[i].field_index as int],
            )
    }

    /// True iff `record` is an instance of the record type this plan was
    /// compiled for: one value per declared field, each of its declared
    /// type.
    pub fn conforms(&self, record: &Vec<Value>) -> (r: bool)
        ensures
            r == (record@.len() == self.types().len() && forall|i: int|
                0 <= i < record@.len() ==> value_has_type(#[trigger] record@[i], self.types()[i])),
    {
        if record.len() != self.types.len() {
            return false;
        }
        let n = record.len();
        for i in 0..n
            invariant
                n == record@.len(),
                n == self.types@.len(),
                forall|j: int| 0 <= j < i ==> value_has_type(#[trigger] record@[j], self.types@[j]),
        {
            if !has_type(&record[i], self.types[i]) {
                return false;
            }
        }
        true
    }

    /// Runs the plan's checks in order against `record`, reading each
    /// check's field; returns at the first failure, `Ok(())` iff every
    /// check passes. `record` must be a fully constructed instance of
    /// the record type the plan was compiled for. The record is never
    /// changed.
    pub fn validate(&self, record: &Vec<Value>) -> (r: Result<(), ValidationError>)
        requires
            record@.len() == self.types().len(),
            forall|i: int|
                0 <= i < record@.len() ==> value_has_type(#[trigger] record@[i], self.types()[i]),
        ensures
            r == run_plan(self.checks(), record@),
            r is Ok <==> all_checks_pass(self.checks(), record@),
    {
        proof {
            use_type_invariant(self);
            assert(self.checks@.skip(0) =~= self.checks@);
        }
        let n = self.checks.len();
        for idx in 0..n
            invariant
                self.wf(),
                n == self.checks@.len(),
                record@.len() == self.types@.len(),
                run_plan(self.checks@, record@) == run_plan(
                    self.checks@.skip(idx as int),
                    record@,
                ),
                forall|j: int|
                    0 <= j < idx ==> check_passes(
                        (#[trigger] self.checks@[j]).kind,
                        record@[self.checks@[j].field_index as int],
                    ),
        {
            let c = &self.checks[idx];
            let passed = run_check(&c.kind, &record[c.field_index]);
            proof {
                assert(self.checks@.skip(idx as int)[0] == self.checks@[idx as int]);
            }
            if !passed {
                proof {
                    lemma_run_plan_ok(self.checks@, record@);
                }
                return Err(check_error_of(c));
            }
            proof {
                assert(self.checks@.skip(idx as int).drop_first() =~= self.checks@.skip(
                    idx as int + 1,
                ));
            }
        }
        proof {
            assert(self.checks@.skip(n as int) =~= Seq::<BoundCheck>::empty());
            lemma_run_plan_ok(self.checks@, record@);
        }
        Ok(())
    }
}

/// Runs one resolved check against one value, through the rule library's
/// validators.
fn run_check(kind: &CheckKind, v: &Value) -> (b: bool)
    ensures
        b == check_passes(*kind, *v),
{
    match (kind, v) {
        (CheckKind::RequiredText, Value::Text(s)) => Required.validate(s).is_ok(),
        (CheckKind::RequiredPresent, Value::OptionalText(o)) => Required.validate(o).is_ok(),
        (CheckKind::RequiredPresent, Value::OptionalInteger(o)) => Required.validate(o).is_ok(),
        (CheckKind::EmailText, Value::Text(s)) => Email.validate(s).is_ok(),
        (CheckKind::MinInteger(b), Value::Integer(x)) => Min::new(*b).validate(x).is_ok(),
        (CheckKind::MinLength(b), Value::Text(s)) => Min::new(*b).validate(s).is_ok(),
        _ => true,
    }
}

/// The error a failing check reports, carrying its field's name.
fn check_error_of(c: &BoundCheck) -> (e: ValidationError)
    ensures
        e == check_error(*c),
{
    match c.kind {
        CheckKind::RequiredText => ValidationError::Missing(c.field_name.clone()),
        CheckKind::RequiredPresent => ValidationError::Missing(c.field_name.clone()),
        CheckKind::EmailText => ValidationError::Email,
        CheckKind::MinInteger(_) => ValidationError::Min(c.field_name.clone()),
        CheckKind::MinLength(_) => ValidationError::Min(c.field_name.clone()),
    }
}

/// Compiles a record's field declarations into a validation plan:
/// resolves every (field, rule) pair in declaration order, or fails with
/// the first generation error in that order, so that no plan exists for
/// a schema that does not compile.
pub fn compile_plan(fields: &Vec<FieldDeclaration>) -> (r: Result<ValidationPlan, GenError>)
    ensures
        match r {
            Ok(plan) => {
                &&& plan_checks(fields@) == Ok::<Seq<BoundCheck>, GenError>(plan.checks())
                &&& plan.types().len() == fields@.len()
                &&& forall|i: int| 0 <= i < fields@.len() ==> plan.types()[i] == (#[trigger] fields@[i]).ty
            },
            Err(e) => plan_checks(fields@) == Err::<Seq<BoundCheck>, GenError>(e),
        },
{
    let mut checks: Vec<BoundCheck> = Vec::new();
    let mut types: Vec<FieldType> = Vec::new();
    let n = fields.len();
    for i in 0..n
        invariant
            n == fields@.len(),
            plan_checks_prefix(fields@, i as int) == Ok::<Seq<BoundCheck>, GenError>(checks@),
            types@.len() == i,
            forall|j: int| 0 <= j < i ==> types@[j] == (#[trigger] fields@[j]).ty,
    {
        let f = &fields[i];
        let m = f.rules.len();
        let ghost base = checks@;
        for k in 0..m
            invariant
                n == fields@.len(),
                i < n,
                *f == fields@[i as int],
                m == f.rules@.len(),
                plan_checks_prefix(fields@, i as int) == Ok::<Seq<BoundCheck>, GenError>(base),
                field_checks_prefix(*f, i, k as int) matches Ok(fcs) && checks@ == base + fcs,
        {
            match resolve(f.ty, &f.rules[k]) {
                Ok(kind) => {
                    let bc = BoundCheck {
                        field_index: i,
                        field_name: f.name.clone(),
                        kind,
                    };
                    proof {
                        let fcs = field_checks_prefix(*f, i, k as int)->Ok_0;
                        assert((base + fcs).push(bc) =~= base + fcs.push(bc));
                    }
                    checks.push(bc);
                },
                Err(e) => {
                    proof {
                        lemma_field_prefix_err(*f, i, k as int + 1, m as int);
                        lemma_plan_prefix_err(fields@, i as int + 1, n as int);
                    }
                    return Err(e);
                },
            }
        }
        types.push(f.ty);
    }
    proof {
        lemma_plan_checks_fit(fields@, n as int);
    }
    Ok(ValidationPlan { checks, types })
}

} // verus!
