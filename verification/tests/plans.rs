use valid8::plan::compile_plan;
use valid8::schema::{FieldDeclaration, FieldType, GenError, Literal, RuleSpec, ValidationError, Value};

fn rule(name: &str) -> RuleSpec {
    RuleSpec { name: name.to_string(), args: Vec::new() }
}

fn min_rule(bound: i64) -> RuleSpec {
    RuleSpec { name: "min".to_string(), args: vec![Literal::Int(bound)] }
}

fn text_field(name: &str, rules: Vec<RuleSpec>) -> FieldDeclaration {
    FieldDeclaration { name: name.to_string(), ty: FieldType::Text, rules }
}

#[test]
fn simple_test() {
    let fields = vec![
        text_field("username", vec![rule("required")]),
        text_field("email", vec![rule("required"), rule("email")]),
        text_field("password", vec![rule("required")]),
    ];
    let plan = compile_plan(&fields).unwrap();
    let user = vec![
        Value::Text(String::from("Hello World")),
        Value::Text(String::from("a@b.c")),
        Value::Text(String::from("1234")),
    ];
    assert!(plan.conforms(&user));
    plan.validate(&user).unwrap();
}

#[test]
fn test_min_str() {
    let fields = vec![text_field("password", vec![min_rule(5), rule("required")])];
    let plan = compile_plan(&fields).unwrap();

    let user = vec![Value::Text(String::from("1234"))];
    assert!(plan.conforms(&user));
    assert!(matches!(plan.validate(&user), Err(ValidationError::Min(_))));

    let user = vec![Value::Text(String::from("12345"))];
    plan.validate(&user).unwrap();
}

#[test]
fn min_then_required_reports_min_with_field_name() {
    let fields = vec![text_field("password", vec![min_rule(5), rule("required")])];
    let plan = compile_plan(&fields).unwrap();
    let record = vec![Value::Text(String::from("1234"))];
    assert_eq!(
        plan.validate(&record),
        Err(ValidationError::Min(String::from("password")))
    );
}

#[test]
fn required_before_min_reports_missing_on_empty() {
    let fields = vec![text_field("password", vec![rule("required"), min_rule(5)])];
    let plan = compile_plan(&fields).unwrap();
    let record = vec![Value::Text(String::from(""))];
    assert_eq!(
        plan.validate(&record),
        Err(ValidationError::Missing(String::from("password")))
    );
}

#[test]
fn required_after_min_still_falls_through_on_nonempty() {
    let fields = vec![text_field("password", vec![rule("required"), min_rule(5)])];
    let plan = compile_plan(&fields).unwrap();
    let record = vec![Value::Text(String::from("1234"))];
    assert_eq!(
        plan.validate(&record),
        Err(ValidationError::Min(String::from("password")))
    );
}

#[test]
fn fail_fast_reports_first_declared_field_only() {
    let fields = vec![
        text_field("first", vec![rule("required")]),
        text_field("second", vec![rule("required")]),
    ];
    let plan = compile_plan(&fields).unwrap();
    let record = vec![Value::Text(String::from("   ")), Value::Text(String::from(""))];
    assert_eq!(
        plan.validate(&record),
        Err(ValidationError::Missing(String::from("first")))
    );
}

#[test]
fn later_field_failure_reported_when_earlier_pass() {
    let fields = vec![
        text_field("first", vec![rule("required")]),
        text_field("second", vec![rule("email")]),
    ];
    let plan = compile_plan(&fields).unwrap();
    let record = vec![
        Value::Text(String::from("ok")),
        Value::Text(String::from("not an email")),
    ];
    assert_eq!(plan.validate(&record), Err(ValidationError::Email));
}

#[test]
fn required_on_optional_fields() {
    let fields = vec![
        FieldDeclaration {
            name: "nickname".to_string(),
            ty: FieldType::OptionalText,
            rules: vec![rule("required")],
        },
        FieldDeclaration {
            name: "age".to_string(),
            ty: FieldType::OptionalInteger,
            rules: vec![rule("required")],
        },
    ];
    let plan = compile_plan(&fields).unwrap();

    // Present values pass, even an empty inner text.
    let record = vec![
        Value::OptionalText(Some(String::from(""))),
        Value::OptionalInteger(Some(0)),
    ];
    plan.validate(&record).unwrap();

    // An absent first value is reported as missing.
    let record = vec![Value::OptionalText(None), Value::OptionalInteger(Some(1))];
    assert_eq!(
        plan.validate(&record),
        Err(ValidationError::Missing(String::from("nickname")))
    );

    // An absent second value is reported as missing.
    let record = vec![
        Value::OptionalText(Some(String::from("x"))),
        Value::OptionalInteger(None),
    ];
    assert_eq!(
        plan.validate(&record),
        Err(ValidationError::Missing(String::from("age")))
    );
}

#[test]
fn min_on_integer_field() {
    let fields = vec![FieldDeclaration {
        name: "age".to_string(),
        ty: FieldType::Integer,
        rules: vec![min_rule(18)],
    }];
    let plan = compile_plan(&fields).unwrap();

    assert_eq!(
        plan.validate(&vec![Value::Integer(17)]),
        Err(ValidationError::Min(String::from("age")))
    );
    plan.validate(&vec![Value::Integer(18)]).unwrap();
    plan.validate(&vec![Value::Integer(19)]).unwrap();

    // A negative bound is fine for integers.
    let fields = vec![FieldDeclaration {
        name: "delta".to_string(),
        ty: FieldType::Integer,
        rules: vec![min_rule(-5)],
    }];
    let plan = compile_plan(&fields).unwrap();
    plan.validate(&vec![Value::Integer(-5)]).unwrap();
    assert_eq!(
        plan.validate(&vec![Value::Integer(-6)]),
        Err(ValidationError::Min(String::from("delta")))
    );
}

#[test]
fn min_zero_accepts_empty_text() {
    let fields = vec![text_field("any", vec![min_rule(0)])];
    let plan = compile_plan(&fields).unwrap();
    plan.validate(&vec![Value::Text(String::from(""))]).unwrap();
}

#[test]
fn email_on_integer_field_fails_generation() {
    let fields = vec![FieldDeclaration {
        name: "age".to_string(),
        ty: FieldType::Integer,
        rules: vec![rule("email")],
    }];
    assert_eq!(
        compile_plan(&fields).unwrap_err(),
        GenError::Incompatible("email".to_string(), FieldType::Integer)
    );
}

#[test]
fn unknown_rule_fails_generation() {
    let fields = vec![text_field("name", vec![rule("frobnicate")])];
    assert_eq!(
        compile_plan(&fields).unwrap_err(),
        GenError::UnknownRule("frobnicate".to_string())
    );
}

#[test]
fn malformed_min_arguments_fail_generation() {
    // No argument at all.
    let fields = vec![text_field("name", vec![rule("min")])];
    assert_eq!(compile_plan(&fields).unwrap_err(), GenError::BadArgument("min".to_string()));

    // A text literal where an integer is expected.
    let fields = vec![text_field(
        "name",
        vec![RuleSpec {
            name: "min".to_string(),
            args: vec![Literal::Text("five".to_string())],
        }],
    )];
    assert_eq!(compile_plan(&fields).unwrap_err(), GenError::BadArgument("min".to_string()));

    // A negative bound cannot be read as a length.
    let fields = vec![text_field("name", vec![min_rule(-1)])];
    assert_eq!(compile_plan(&fields).unwrap_err(), GenError::BadArgument("min".to_string()));
}

#[test]
fn min_on_optional_field_fails_generation() {
    let fields = vec![FieldDeclaration {
        name: "nickname".to_string(),
        ty: FieldType::OptionalText,
        rules: vec![min_rule(3)],
    }];
    assert_eq!(
        compile_plan(&fields).unwrap_err(),
        GenError::Incompatible("min".to_string(), FieldType::OptionalText)
    );
}

#[test]
fn first_generation_error_in_declaration_order_wins() {
    let fields = vec![
        text_field("a", vec![rule("bogus")]),
        text_field("b", vec![rule("alsobogus")]),
    ];
    assert_eq!(
        compile_plan(&fields).unwrap_err(),
        GenError::UnknownRule("bogus".to_string())
    );

    // Within one field, the earlier rule's error wins too.
    let fields = vec![text_field("a", vec![rule("bogus"), rule("min")])];
    assert_eq!(
        compile_plan(&fields).unwrap_err(),
        GenError::UnknownRule("bogus".to_string())
    );
}

#[test]
fn conforms_checks_shape_and_types() {
    let fields = vec![
        text_field("name", vec![rule("required")]),
        FieldDeclaration {
            name: "age".to_string(),
            ty: FieldType::Integer,
            rules: vec![],
        },
    ];
    let plan = compile_plan(&fields).unwrap();

    assert!(plan.conforms(&vec![
        Value::Text(String::from("x")),
        Value::Integer(1),
    ]));
    // Wrong length.
    assert!(!plan.conforms(&vec![Value::Text(String::from("x"))]));
    // Wrong type in the second slot.
    assert!(!plan.conforms(&vec![
        Value::Text(String::from("x")),
        Value::Text(String::from("1")),
    ]));
}

#[test]
fn empty_schema_validates_empty_record() {
    let fields: Vec<FieldDeclaration> = Vec::new();
    let plan = compile_plan(&fields).unwrap();
    plan.validate(&Vec::new()).unwrap();
}
