use llm_contracts::{evaluate, JsonNumber, JsonValue, RunError, Verdict, VerdictStatus};

fn s(text: &str) -> JsonValue {
    JsonValue::String(text.to_string())
}

fn num(n: u64) -> JsonValue {
    JsonValue::Number(JsonNumber::PosInt(n))
}

fn arr(items: Vec<JsonValue>) -> JsonValue {
    JsonValue::Array(items)
}

fn obj(entries: Vec<(&str, JsonValue)>) -> JsonValue {
    JsonValue::Object(entries.into_iter().map(|(k, v)| (k.to_string(), v)).collect())
}

fn contract_doc(output_type: &str, rules: Vec<JsonValue>) -> JsonValue {
    obj(vec![
        ("inputs", arr(vec![s("prompt")])),
        ("output_type", s(output_type)),
        ("rules", arr(rules)),
    ])
}

fn run_values(contract: &JsonValue, output: &JsonValue) -> Verdict {
    evaluate(contract, output).expect("verifier should run")
}

#[test]
fn validates_contract_successfully() {
    let contract = contract_doc(
        "array",
        vec![
            obj(vec![("rule", s("required_field")), ("field", s("id"))]),
            obj(vec![
                ("rule", s("field_type")),
                ("field", s("id")),
                ("expected", s("number")),
            ]),
            obj(vec![("rule", s("no_empty_rows"))]),
        ],
    );
    let output = arr(vec![
        obj(vec![("id", num(1)), ("name", s("Alice"))]),
        obj(vec![("id", num(2)), ("name", s("Bob"))]),
    ]);

    let verdict = run_values(&contract, &output);

    assert_eq!(verdict.status, VerdictStatus::Pass);
    assert!(verdict.violations.is_empty());
}

#[test]
fn reports_missing_required_field_violation() {
    let contract = contract_doc(
        "array",
        vec![obj(vec![("rule", s("required_field")), ("field", s("id"))])],
    );
    let output = arr(vec![obj(vec![("name", s("Alice"))])]);

    let verdict = run_values(&contract, &output);

    assert_eq!(verdict.status, VerdictStatus::Fail);
    assert!(verdict
        .violations
        .iter()
        .any(|v| v.rule_name == "RequiredField"));
}

#[test]
fn reports_empty_row_violation() {
    let contract = contract_doc("array", vec![obj(vec![("rule", s("no_empty_rows"))])]);
    let output = arr(vec![obj(vec![("id", num(1))]), obj(vec![])]);

    let verdict = run_values(&contract, &output);

    assert_eq!(verdict.status, VerdictStatus::Fail);
    assert!(verdict
        .violations
        .iter()
        .any(|v| v.rule_name == "NoEmptyRows"));
}

#[test]
fn returns_invalid_contract_error_for_bad_contract_json() {
    let contract = obj(vec![
        ("inputs", arr(vec![s("prompt")])),
        ("output_type", s("array")),
    ]);
    let output = arr(vec![]);

    let err = evaluate(&contract, &output).expect_err("contract should be invalid");
    assert!(matches!(err, RunError::InvalidContract(_)));
}

#[test]
fn missing_field_violation_names_row_zero() {
    let contract = contract_doc(
        "array",
        vec![
            obj(vec![("rule", s("required_field")), ("field", s("id"))]),
            obj(vec![
                ("rule", s("field_type")),
                ("field", s("id")),
                ("expected", s("number")),
            ]),
            obj(vec![("rule", s("no_empty_rows"))]),
        ],
    );
    let output = arr(vec![obj(vec![("name", s("Alice"))])]);

    let verdict = run_values(&contract, &output);

    assert_eq!(verdict.status, VerdictStatus::Fail);
    let first = &verdict.violations[0];
    assert_eq!(first.rule_name, "RequiredField");
    assert_eq!(first.detail, "Row 0 is missing required field 'id'.");
    assert_eq!(verdict.violations[1].detail, "Row 0 is missing field 'id' for type check.");
    assert_eq!(verdict.violations.len(), 2);
}
