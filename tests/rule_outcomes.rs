use llm_contracts::{
    evaluate, exit_code, failure_verdict, json_equal, parse_contract, parse_rule,
    to_public_verdict, validate_contract, value_type_label, verify, Contract, ContractError,
    JsonNumber, JsonValue, OutputType, Rule, RunError, ValueType, Verdict, VerdictStatus,
};

fn text(t: &str) -> JsonValue {
    JsonValue::String(t.to_string())
}

fn num(n: u64) -> JsonValue {
    JsonValue::Number(JsonNumber::PosInt(n))
}

fn list(items: Vec<JsonValue>) -> JsonValue {
    JsonValue::Array(items)
}

fn record(entries: Vec<(&str, JsonValue)>) -> JsonValue {
    JsonValue::Object(entries.into_iter().map(|(k, v)| (k.to_string(), v)).collect())
}

fn contract(output_type: OutputType, rules: Vec<Rule>) -> Contract {
    Contract {
        name: None,
        version: None,
        inputs: vec!["prompt".to_string()],
        output_type,
        rules,
    }
}

fn required(field: &str) -> Rule {
    Rule::RequiredField { field: field.to_string() }
}

fn check(c: &Contract, output: &JsonValue) -> Verdict {
    assert!(validate_contract(c).is_ok());
    verify(c, output)
}

fn details(v: &Verdict) -> Vec<String> {
    v.violations.iter().map(|x| x.detail.clone()).collect()
}

#[test]
fn satisfied_object_contract_passes() {
    let c = contract(
        OutputType::Object,
        vec![
            required("id"),
            Rule::FieldType { field: "id".to_string(), expected: ValueType::Number },
            Rule::AllowedValues { field: "status".to_string(), values: vec![text("ok")] },
            Rule::Regex { field: "code".to_string(), pattern: "^[A-Z]{3}$".to_string() },
        ],
    );
    let output = record(vec![("code", text("ABC")), ("id", num(7)), ("status", text("ok"))]);
    let v = check(&c, &output);
    assert_eq!(v.status, VerdictStatus::Pass);
    assert!(v.violations.is_empty());
}

#[test]
fn empty_rule_list_checks_shape_only() {
    let c = contract(OutputType::Array, vec![]);
    assert_eq!(check(&c, &list(vec![])).status, VerdictStatus::Pass);
    let v = check(&c, &record(vec![]));
    assert_eq!(v.violations.len(), 1);
    assert_eq!(v.violations[0].rule_name, "OutputType");
    assert_eq!(v.violations[0].detail, "Expected top-level JSON array.");
}

#[test]
fn shape_mismatch_reported_once_and_rules_still_run() {
    let c = contract(OutputType::Object, vec![required("id"), Rule::MinItems { value: 1 }]);
    let output = list(vec![record(vec![("id", num(1))])]);
    let v = check(&c, &output);
    assert_eq!(v.status, VerdictStatus::Fail);
    let shape: Vec<_> = v.violations.iter().filter(|x| x.rule_name == "OutputType").collect();
    assert_eq!(shape.len(), 1);
    assert_eq!(v.violations.len(), 1);
    assert_eq!(v.violations[0].detail, "Expected top-level JSON object.");
}

#[test]
fn required_field_rows_indexed_in_order() {
    let c = contract(OutputType::Array, vec![required("id")]);
    let output = list(vec![
        record(vec![("id", num(1))]),
        record(vec![("name", text("x"))]),
        num(5),
        record(vec![]),
    ]);
    let v = check(&c, &output);
    assert_eq!(
        details(&v),
        vec![
            "Row 1 is missing required field 'id'.".to_string(),
            "Row 2 is not an object.".to_string(),
            "Row 3 is missing required field 'id'.".to_string(),
        ]
    );
    assert_eq!(v.violations[0].field.as_deref(), Some("id"));
    assert_eq!(v.violations[0].rule.as_deref(), Some("required_field"));
    assert_eq!(v.violations[1].rule, None);
}

#[test]
fn row_index_uses_all_digits() {
    let c = contract(OutputType::Array, vec![required("id")]);
    let mut rows = Vec::new();
    for _ in 0..12 {
        rows.push(record(vec![("id", num(0))]));
    }
    rows.push(record(vec![]));
    let v = check(&c, &list(rows));
    assert_eq!(details(&v), vec!["Row 12 is missing required field 'id'.".to_string()]);
}

#[test]
fn required_field_on_single_object_and_scalar() {
    let c = contract(OutputType::Object, vec![required("id")]);
    let v = check(&c, &record(vec![]));
    assert_eq!(details(&v), vec!["Missing required field 'id'.".to_string()]);
    let v = check(&c, &text("plain"));
    assert_eq!(
        details(&v),
        vec![
            "Expected top-level JSON object.".to_string(),
            "Output must be an object or an array of objects.".to_string(),
        ]
    );
}

#[test]
fn field_type_missing_differs_from_wrong_kind() {
    let c = contract(
        OutputType::Array,
        vec![Rule::FieldType { field: "id".to_string(), expected: ValueType::Number }],
    );
    let output = list(vec![record(vec![("name", text("a"))]), record(vec![("id", text("7"))])]);
    let v = check(&c, &output);
    assert_eq!(
        details(&v),
        vec![
            "Row 0 is missing field 'id' for type check.".to_string(),
            "Row 1 field 'id' expected type 'number', got 'string'.".to_string(),
        ]
    );
    assert!(v.violations[0].actual.is_none());
    assert!(json_equal(v.violations[1].expected.as_ref().unwrap(), &text("number")));
    assert!(json_equal(v.violations[1].actual.as_ref().unwrap(), &text("string")));
}

#[test]
fn field_type_on_object_names_kinds() {
    let c = contract(
        OutputType::Object,
        vec![Rule::FieldType { field: "tags".to_string(), expected: ValueType::Array }],
    );
    let v = check(&c, &record(vec![("tags", JsonValue::Null)]));
    assert_eq!(details(&v), vec!["Field 'tags' expected type 'array', got 'null'.".to_string()]);
    let v = check(&c, &record(vec![]));
    assert_eq!(details(&v), vec!["Object is missing field 'tags' for type check.".to_string()]);
}

#[test]
fn allowed_values_absent_present_and_invalid() {
    let rule = Rule::AllowedValues {
        field: "status".to_string(),
        values: vec![text("ok"), text("accepted")],
    };
    let c = contract(OutputType::Array, vec![rule]);
    let output = list(vec![
        record(vec![]),
        record(vec![("status", text("ok"))]),
        record(vec![("status", text("rejected"))]),
    ]);
    let v = check(&c, &output);
    assert_eq!(details(&v), vec!["Row 2 field 'status' has a disallowed value.".to_string()]);
    let x = &v.violations[0];
    assert_eq!(x.rule.as_deref(), Some("allowed_values"));
    assert!(json_equal(
        x.expected.as_ref().unwrap(),
        &list(vec![text("ok"), text("accepted")])
    ));
    assert!(json_equal(x.actual.as_ref().unwrap(), &text("rejected")));
}

#[test]
fn allowed_values_compare_deeply() {
    let rule = Rule::AllowedValues {
        field: "v".to_string(),
        values: vec![record(vec![("a", list(vec![num(1), JsonValue::Null]))]), num(3)],
    };
    let c = contract(OutputType::Object, vec![rule]);
    let same = record(vec![("v", record(vec![("a", list(vec![num(1), JsonValue::Null]))]))]);
    assert_eq!(check(&c, &same).status, VerdictStatus::Pass);
    let other = record(vec![("v", record(vec![("a", list(vec![num(1)]))]))]);
    assert_eq!(check(&c, &other).status, VerdictStatus::Fail);
    let as_text = record(vec![("v", text("3"))]);
    assert_eq!(check(&c, &as_text).status, VerdictStatus::Fail);
}

#[test]
fn float_zeros_are_equal_values() {
    let pos = JsonValue::Number(JsonNumber::Float(0.0f64.to_bits()));
    let neg = JsonValue::Number(JsonNumber::Float((-0.0f64).to_bits()));
    assert!(json_equal(&pos, &neg));
    let half = JsonValue::Number(JsonNumber::Float(0.5f64.to_bits()));
    assert!(!json_equal(&pos, &half));
    assert!(!json_equal(&num(0), &pos));
}

#[test]
fn regex_absent_non_string_and_mismatch() {
    let rule = Rule::Regex { field: "code".to_string(), pattern: "^[a-z]+$".to_string() };
    let c = contract(OutputType::Array, vec![rule]);
    let output = list(vec![
        record(vec![]),
        record(vec![("code", text("abc"))]),
        record(vec![("code", text("ABC"))]),
        record(vec![("code", num(4))]),
    ]);
    let v = check(&c, &output);
    assert_eq!(
        details(&v),
        vec![
            "Row 2 field 'code' does not match regex pattern.".to_string(),
            "Row 3 field 'code' must be a string for regex rule.".to_string(),
        ]
    );
    assert!(json_equal(v.violations[0].expected.as_ref().unwrap(), &text("^[a-z]+$")));
    assert!(json_equal(v.violations[1].actual.as_ref().unwrap(), &num(4)));
}

#[test]
fn regex_is_not_anchored() {
    let rule = Rule::Regex { field: "s".to_string(), pattern: "b+".to_string() };
    let c = contract(OutputType::Object, vec![rule]);
    assert_eq!(check(&c, &record(vec![("s", text("abbbc"))])).status, VerdictStatus::Pass);
    assert_eq!(check(&c, &record(vec![("s", text("ac"))])).status, VerdictStatus::Fail);
}

#[test]
fn min_items_bounds() {
    let c = contract(OutputType::Array, vec![Rule::MinItems { value: 2 }]);
    let v = check(&c, &list(vec![num(1)]));
    assert_eq!(
        details(&v),
        vec!["Top-level array must contain at least 2 items, found 1.".to_string()]
    );
    assert!(json_equal(v.violations[0].expected.as_ref().unwrap(), &num(2)));
    assert!(json_equal(v.violations[0].actual.as_ref().unwrap(), &num(1)));
    assert_eq!(v.violations[0].field.as_deref(), Some("$"));
    assert_eq!(check(&c, &list(vec![num(1), num(2)])).status, VerdictStatus::Pass);
    let c0 = contract(OutputType::Array, vec![Rule::MinItems { value: 0 }]);
    assert_eq!(check(&c0, &list(vec![])).status, VerdictStatus::Pass);
}

#[test]
fn min_items_on_non_array() {
    let c = contract(OutputType::Object, vec![Rule::MinItems { value: 0 }]);
    let v = check(&c, &record(vec![]));
    assert_eq!(details(&v), vec!["MinItems requires top-level array output.".to_string()]);
    assert!(json_equal(v.violations[0].actual.as_ref().unwrap(), &text("object")));
}

#[test]
fn no_empty_rows_emptiness() {
    let c = contract(OutputType::Array, vec![Rule::NoEmptyRows]);
    let empty_rows = vec![
        record(vec![]),
        record(vec![("a", JsonValue::Null)]),
        record(vec![("a", text(""))]),
        record(vec![("a", text(" "))]),
        record(vec![("a", text("\t\n\u{3000}"))]),
        record(vec![("a", list(vec![])), ("b", record(vec![]))]),
    ];
    for row in empty_rows {
        let v = check(&c, &list(vec![row]));
        assert_eq!(details(&v), vec!["Row 0 is empty.".to_string()]);
    }
    let full_rows = vec![
        record(vec![("a", num(0))]),
        record(vec![("a", JsonValue::Bool(false))]),
        record(vec![("a", text(" x "))]),
        record(vec![("a", JsonValue::Null), ("b", list(vec![JsonValue::Null]))]),
    ];
    for row in full_rows {
        assert_eq!(check(&c, &list(vec![row])).status, VerdictStatus::Pass);
    }
}

#[test]
fn no_empty_rows_needs_array() {
    let c = contract(OutputType::Array, vec![Rule::NoEmptyRows]);
    let v = check(&c, &list(vec![num(1)]));
    assert_eq!(details(&v), vec!["Row 0 is not an object.".to_string()]);
    let v = check(&c, &record(vec![("a", num(1))]));
    assert_eq!(
        details(&v),
        vec![
            "Expected top-level JSON array.".to_string(),
            "NoEmptyRows requires top-level array output.".to_string(),
        ]
    );
}

#[test]
fn evaluation_is_repeatable() {
    let c = contract(
        OutputType::Array,
        vec![required("id"), Rule::MinItems { value: 3 }, Rule::NoEmptyRows],
    );
    let output = list(vec![record(vec![("name", text("a"))]), record(vec![])]);
    let first = format!("{:?}", to_public_verdict(&check(&c, &output)));
    let second = format!("{:?}", to_public_verdict(&check(&c, &output)));
    assert_eq!(first, second);
}

#[test]
fn scenario_allowed_values_wire_form() {
    let doc = record(vec![
        ("inputs", list(vec![])),
        ("output_type", text("array")),
        (
            "rules",
            list(vec![record(vec![
                ("rule", text("allowed_values")),
                ("field", text("status")),
                ("values", list(vec![text("ok"), text("accepted")])),
            ])]),
        ),
    ]);
    let output = list(vec![record(vec![("status", text("rejected"))])]);
    let result = evaluate(&doc, &output);
    assert_eq!(exit_code(&result), 1);
    let verdict = result.unwrap();
    assert_eq!(verdict.status, VerdictStatus::Fail);
    let x = &verdict.violations[0];
    assert!(json_equal(x.expected.as_ref().unwrap(), &list(vec![text("ok"), text("accepted")])));
    assert!(json_equal(x.actual.as_ref().unwrap(), &text("rejected")));
    let wire = to_public_verdict(&verdict);
    let expected_wire = record(vec![
        ("status", text("fail")),
        (
            "violations",
            list(vec![record(vec![
                ("actual", text("rejected")),
                ("expected", list(vec![text("ok"), text("accepted")])),
                ("field", text("status")),
                ("message", text("Row 0 field 'status' has a disallowed value.")),
                ("rule", text("allowed_values")),
            ])]),
        ),
    ]);
    assert!(json_equal(&wire, &expected_wire));
}

#[test]
fn wire_form_falls_back_to_rule_name() {
    let verdict = failure_verdict("Runtime", "I/O error: gone".to_string());
    let wire = to_public_verdict(&verdict);
    let expected_wire = record(vec![
        ("status", text("fail")),
        (
            "violations",
            list(vec![record(vec![
                ("field", text("")),
                ("message", text("I/O error: gone")),
                ("rule", text("Runtime")),
            ])]),
        ),
    ]);
    assert!(json_equal(&wire, &expected_wire));
}

#[test]
fn missing_rules_key_is_contract_error_exit_two() {
    let doc = record(vec![("inputs", list(vec![])), ("output_type", text("array"))]);
    let result = evaluate(&doc, &list(vec![]));
    assert_eq!(exit_code(&result), 2);
    match result {
        Err(RunError::InvalidContract(ContractError::MissingField(k))) => assert_eq!(k, "rules"),
        other => panic!("unexpected {:?}", other),
    }
}

#[test]
fn malformed_output_is_input_error_exit_three() {
    let result: Result<Verdict, RunError> =
        Err(RunError::InvalidOutput("expected value at line 1 column 2".to_string()));
    assert_eq!(exit_code(&result), 3);
    assert_eq!(exit_code(&Err(RunError::Io("missing".to_string()))), 3);
}

#[test]
fn contract_decoding_refusals() {
    let base = |extra: Vec<(&str, JsonValue)>| {
        let mut entries = vec![
            ("inputs", list(vec![text("prompt")])),
            ("output_type", text("object")),
            ("rules", list(vec![])),
        ];
        entries.extend(extra);
        record(entries)
    };
    assert!(matches!(parse_contract(&base(vec![])), Ok(_)));
    match parse_contract(&base(vec![("extra", num(1))])) {
        Err(ContractError::UnknownField(k)) => assert_eq!(k, "extra"),
        other => panic!("unexpected {:?}", other),
    }
    match parse_contract(&base(vec![("version", text("1"))])) {
        Err(ContractError::WrongKind(k)) => assert_eq!(k, "version"),
        other => panic!("unexpected {:?}", other),
    }
    assert!(matches!(parse_contract(&list(vec![])), Err(ContractError::NotAnObject(_))));
    let named = base(vec![("name", text("demo")), ("version", num(3))]);
    let c = parse_contract(&named).unwrap();
    assert_eq!(c.name.as_deref(), Some("demo"));
    assert_eq!(c.version, Some(3));
    assert_eq!(c.output_type, OutputType::Object);
    assert_eq!(c.inputs, vec!["prompt".to_string()]);
}

#[test]
fn rule_decoding_refusals() {
    match parse_rule(&record(vec![("rule", text("max_items")), ("value", num(1))])) {
        Err(ContractError::UnknownRule(t)) => assert_eq!(t, "max_items"),
        other => panic!("unexpected {:?}", other),
    }
    match parse_rule(&record(vec![("rule", text("no_empty_rows")), ("field", text("a"))])) {
        Err(ContractError::UnknownField(k)) => assert_eq!(k, "field"),
        other => panic!("unexpected {:?}", other),
    }
    match parse_rule(&record(vec![("rule", text("regex")), ("field", text("a"))])) {
        Err(ContractError::MissingField(k)) => assert_eq!(k, "pattern"),
        other => panic!("unexpected {:?}", other),
    }
    match parse_rule(&record(vec![
        ("rule", text("field_type")),
        ("field", text("a")),
        ("expected", text("integer")),
    ])) {
        Err(ContractError::WrongKind(k)) => assert_eq!(k, "expected"),
        other => panic!("unexpected {:?}", other),
    }
    assert!(matches!(parse_rule(&num(1)), Err(ContractError::NotAnObject(_))));
    match parse_rule(&record(vec![("rule", text("min_items")), ("value", num(4))])) {
        Ok(Rule::MinItems { value }) => assert_eq!(value, 4),
        other => panic!("unexpected {:?}", other),
    }
}

#[test]
fn invalid_pattern_refused_before_evaluation() {
    let c = contract(
        OutputType::Array,
        vec![
            Rule::Regex { field: "a".to_string(), pattern: "ok".to_string() },
            Rule::Regex { field: "b".to_string(), pattern: "foo(bar".to_string() },
        ],
    );
    let result = validate_contract(&c);
    match &result {
        Err(RunError::InvalidContractRegex { pattern, .. }) => assert_eq!(pattern, "foo(bar"),
        other => panic!("unexpected {:?}", other),
    }
    let doc = record(vec![
        ("inputs", list(vec![])),
        ("output_type", text("array")),
        (
            "rules",
            list(vec![record(vec![
                ("rule", text("regex")),
                ("field", text("a")),
                ("pattern", text("(")),
            ])]),
        ),
    ]);
    let result = evaluate(&doc, &list(vec![]));
    assert!(matches!(result, Err(RunError::InvalidContractRegex { .. })));
    assert_eq!(exit_code(&result), 2);
}

#[test]
fn labels_of_kinds() {
    let kinds = [
        (ValueType::String, "string"),
        (ValueType::Number, "number"),
        (ValueType::Boolean, "boolean"),
        (ValueType::Object, "object"),
        (ValueType::Array, "array"),
        (ValueType::Null, "null"),
    ];
    for (kind, label) in kinds {
        assert_eq!(value_type_label(&kind), label);
    }
}
