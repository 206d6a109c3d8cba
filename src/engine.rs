//! The rule engine: the model of a verdict, the evaluators that meet it,
//! and the verdict document.
use vstd::prelude::*;

use crate::contract::{
    contract_decodes, contract_fault, parse_contract, Contract, ContractError, OutputType, Rule,
};
use crate::json::{
    contains_value, copy_items, detected_value_type, entries_view, get, is_empty_object,
    is_empty_row, items_view, kind_of, label_of, lookup, matches_value_type, value_type_label,
    Json, JsonNumber, JsonValue, ValueType,
};
use crate::pattern::{regex_compiles, regex_finds, CompiledPattern};

verus! {

/// Pass when a verdict holds no violation, else fail.
#[derive(Debug, Clone, Copy, PartialEq, Eq, Structural)]
pub enum VerdictStatus {
    Pass,
    Fail,
}

/// One failure of a rule at one place of the output.
#[derive(Debug)]
pub struct Violation {
    pub rule_name: String,
    pub detail: String,
    pub field: Option<String>,
    pub rule: Option<String>,
    pub expected: Option<JsonValue>,
    pub actual: Option<JsonValue>,
}

/// The outcome of checking one output against one contract.
#[derive(Debug)]
pub struct Verdict {
    pub status: VerdictStatus,
    pub violations: Vec<Violation>,
}

/// The model of a violation.
pub struct ViolationView {
    pub rule_name: Seq<char>,
    pub detail: Seq<char>,
    pub field: Option<Seq<char>>,
    pub rule: Option<Seq<char>>,
    pub expected: Option<Json>,
    pub actual: Option<Json>,
}

/// The model of a verdict.
pub struct VerdictView {
    pub status: VerdictStatus,
    pub violations: Seq<ViolationView>,
}

pub open spec fn text_model(o: Option<String>) -> Option<Seq<char>> {
    match o {
        Some(s) => Some(s@),
        None => None,
    }
}

pub open spec fn json_model(o: Option<JsonValue>) -> Option<Json> {
    match o {
        Some(v) => Some(v@),
        None => None,
    }
}

impl View for Violation {
    type V = ViolationView;

    open spec fn view(&self) -> ViolationView {
        ViolationView {
            rule_name: self.rule_name@,
            detail: self.detail@,
            field: text_model(self.field),
            rule: text_model(self.rule),
            expected: json_model(self.expected),
            actual: json_model(self.actual),
        }
    }
}

pub open spec fn views(vs: Seq<Violation>) -> Seq<ViolationView> {
    vs.map_values(|v: Violation| v@)
}

impl View for Verdict {
    type V = VerdictView;

    open spec fn view(&self) -> VerdictView {
        VerdictView { status: self.status, violations: views(self.violations@) }
    }
}

pub open spec fn digit_char(d: nat) -> char {
    seq!['0', '1', '2', '3', '4', '5', '6', '7', '8', '9'][d as int]
}

/// The decimal digits of a number, without leading zeros.
pub open spec fn decimal(n: nat) -> Seq<char>
    decreases n,
{
    if n < 10 {
        seq![digit_char(n)]
    } else {
        decimal(n / 10).push(digit_char(n % 10))
    }
}

/// Relies on `to_string` of `u64`, whose `Display` writes the number in
/// decimal without leading zeros.
#[verifier::external_body]
fn decimal_text(n: u64) -> (r: String)
    ensures
        r@ == decimal(n as nat),
{
    n.to_string()
}

pub open spec fn row_index(idx: Option<usize>) -> Option<nat> {
    match idx {
        Some(i) => Some(i as nat),
        None => None,
    }
}

pub open spec fn quoted(s: Seq<char>) -> Seq<char> {
    "'"@ + s + "'"@
}

pub open spec fn row_label(i: nat) -> Seq<char> {
    "Row "@ + decimal(i)
}

/// "Field 'f'", or "Row i field 'f'" for a row.
pub open spec fn field_location(field: Seq<char>, idx: Option<nat>) -> Seq<char> {
    match idx {
        Some(i) => row_label(i) + " field "@ + quoted(field),
        None => "Field "@ + quoted(field),
    }
}

pub open spec fn missing_required_text(field: Seq<char>, idx: Option<nat>) -> Seq<char> {
    match idx {
        Some(i) => row_label(i) + " is missing required field "@ + quoted(field) + "."@,
        None => "Missing required field "@ + quoted(field) + "."@,
    }
}

pub open spec fn wrong_type_text(
    field: Seq<char>,
    idx: Option<nat>,
    expected: ValueType,
    found: ValueType,
) -> Seq<char> {
    field_location(field, idx) + " expected type "@ + quoted(label_of(expected)) + ", got "@
        + quoted(label_of(found)) + "."@
}

pub open spec fn missing_for_type_text(field: Seq<char>, idx: Option<nat>) -> Seq<char> {
    let place = match idx {
        Some(i) => row_label(i),
        None => "Object"@,
    };
    place + " is missing field "@ + quoted(field) + " for type check."@
}

pub open spec fn disallowed_text(field: Seq<char>, idx: Option<nat>) -> Seq<char> {
    field_location(field, idx) + " has a disallowed value."@
}

pub open spec fn no_match_text(field: Seq<char>, idx: Option<nat>) -> Seq<char> {
    field_location(field, idx) + " does not match regex pattern."@
}

pub open spec fn not_string_text(field: Seq<char>, idx: Option<nat>) -> Seq<char> {
    field_location(field, idx) + " must be a string for regex rule."@
}

pub open spec fn not_object_text(i: nat) -> Seq<char> {
    row_label(i) + " is not an object."@
}

pub open spec fn empty_row_text(i: nat) -> Seq<char> {
    row_label(i) + " is empty."@
}

pub open spec fn too_few_text(value: nat, found: nat) -> Seq<char> {
    "Top-level array must contain at least "@ + decimal(value) + " items, found "@ + decimal(found)
        + "."@
}

fn row_label_text(i: usize) -> (r: String)
    ensures
        r@ == row_label(i as nat),
{
    let mut s = String::from_str("Row ");
    let digits = decimal_text(i as u64);
    s.append(digits.as_str());
    s
}

fn append_quoted(s: &mut String, text: &str)
    ensures
        final(s)@ == old(s)@ + quoted(text@),
{
    let ghost start = s@;
    s.append("'");
    s.append(text);
    s.append("'");
    assert(s@ =~= start + quoted(text@));
}

fn field_location_text(field: &String, idx: Option<usize>) -> (r: String)
    ensures
        r@ == field_location(field@, row_index(idx)),
{
    match idx {
        Some(i) => {
            let mut s = row_label_text(i);
            s.append(" field ");
            append_quoted(&mut s, field.as_str());
            s
        },
        None => {
            let mut s = String::from_str("Field ");
            append_quoted(&mut s, field.as_str());
            s
        },
    }
}

fn missing_required_detail(field: &String, idx: Option<usize>) -> (r: String)
    ensures
        r@ == missing_required_text(field@, row_index(idx)),
{
    let mut s = match idx {
        Some(i) => {
            let mut s = row_label_text(i);
            s.append(" is missing required field ");
            s
        },
        None => String::from_str("Missing required field "),
    };
    append_quoted(&mut s, field.as_str());
    s.append(".");
    s
}

fn wrong_type_detail(field: &String, idx: Option<usize>, expected: &ValueType, found: &str) -> (r:
    String)
    requires
        exists|t: ValueType| found@ == label_of(t),
    ensures
        forall|t: ValueType|
            found@ == label_of(t) ==> r@ == wrong_type_text(field@, row_index(idx), *expected, t),
{
    let mut s = field_location_text(field, idx);
    s.append(" expected type ");
    append_quoted(&mut s, value_type_label(expected));
    s.append(", got ");
    append_quoted(&mut s, found);
    s.append(".");
    s
}

fn missing_for_type_detail(field: &String, idx: Option<usize>) -> (r: String)
    ensures
        r@ == missing_for_type_text(field@, row_index(idx)),
{
    let mut s = match idx {
        Some(i) => row_label_text(i),
        None => String::from_str("Object"),
    };
    s.append(" is missing field ");
    append_quoted(&mut s, field.as_str());
    s.append(" for type check.");
    s
}

fn field_location_detail(field: &String, idx: Option<usize>, tail: &str) -> (r: String)
    ensures
        r@ == field_location(field@, row_index(idx)) + tail@,
{
    let mut s = field_location_text(field, idx);
    s.append(tail);
    s
}

fn row_detail(i: usize, tail: &str) -> (r: String)
    ensures
        r@ == row_label(i as nat) + tail@,
{
    let mut s = row_label_text(i);
    s.append(tail);
    s
}

fn too_few_detail(value: u64, found: u64) -> (r: String)
    ensures
        r@ == too_few_text(value as nat, found as nat),
{
    let mut s = String::from_str("Top-level array must contain at least ");
    let v = decimal_text(value);
    s.append(v.as_str());
    s.append(" items, found ");
    let f = decimal_text(found);
    s.append(f.as_str());
    s.append(".");
    s
}

pub open spec fn simple_view(rule_name: Seq<char>, detail: Seq<char>) -> ViolationView {
    ViolationView {
        rule_name,
        detail,
        field: None,
        rule: None,
        expected: None,
        actual: None,
    }
}

pub open spec fn field_view(
    rule_name: Seq<char>,
    tag: Seq<char>,
    field: Seq<char>,
    detail: Seq<char>,
    expected: Option<Json>,
    actual: Option<Json>,
) -> ViolationView {
    ViolationView { rule_name, detail, field: Some(field), rule: Some(tag), expected, actual }
}

/// The name under which a rule reports its violations.
pub open spec fn rule_name_of(rule: Rule) -> Seq<char> {
    match rule {
        Rule::RequiredField { .. } => "RequiredField"@,
        Rule::FieldType { .. } => "FieldType"@,
        Rule::AllowedValues { .. } => "AllowedValues"@,
        Rule::Regex { .. } => "Regex"@,
        Rule::MinItems { .. } => "MinItems"@,
        Rule::NoEmptyRows => "NoEmptyRows"@,
    }
}

pub open spec fn not_container_text() -> Seq<char> {
    "Output must be an object or an array of objects."@
}

/// What a field rule reports on one object (`idx` is the row, if any).
pub open spec fn field_violations(
    rule: Rule,
    entries: Seq<(Seq<char>, Json)>,
    idx: Option<nat>,
) -> Seq<ViolationView> {
    match rule {
        Rule::RequiredField { field } => if lookup(entries, field@) is Some {
            seq![]
        } else {
            seq![
                field_view(
                    "RequiredField"@,
                    "required_field"@,
                    field@,
                    missing_required_text(field@, idx),
                    None,
                    None,
                ),
            ]
        },
        Rule::FieldType { field, expected } => match lookup(entries, field@) {
            Some(v) => if kind_of(v) == expected {
                seq![]
            } else {
                seq![
                    field_view(
                        "FieldType"@,
                        "field_type"@,
                        field@,
                        wrong_type_text(field@, idx, expected, kind_of(v)),
                        Some(Json::Str(label_of(expected))),
                        Some(Json::Str(label_of(kind_of(v)))),
                    ),
                ]
            },
            None => seq![
                field_view(
                    "FieldType"@,
                    "field_type"@,
                    field@,
                    missing_for_type_text(field@, idx),
                    Some(Json::Str(label_of(expected))),
                    None,
                ),
            ],
        },
        Rule::AllowedValues { field, values } => match lookup(entries, field@) {
            Some(v) => if items_view(values).contains(v) {
                seq![]
            } else {
                seq![
                    field_view(
                        "AllowedValues"@,
                        "allowed_values"@,
                        field@,
                        disallowed_text(field@, idx),
                        Some(Json::Array(items_view(values))),
                        Some(v),
                    ),
                ]
            },
            None => seq![],
        },
        Rule::Regex { field, pattern } => match lookup(entries, field@) {
            Some(v) => match v {
                Json::Str(text) => if regex_finds(pattern@, text) {
                    seq![]
                } else {
                    seq![
                        field_view(
                            "Regex"@,
                            "regex"@,
                            field@,
                            no_match_text(field@, idx),
                            Some(Json::Str(pattern@)),
                            Some(v),
                        ),
                    ]
                },
                _ => seq![
                    field_view(
                        "Regex"@,
                        "regex"@,
                        field@,
                        not_string_text(field@, idx),
                        Some(Json::Str(pattern@)),
                        Some(v),
                    ),
                ],
            },
            None => seq![],
        },
        _ => seq![],
    }
}

/// What a row rule reports on row `i` of an array output.
pub open spec fn row_violations(rule: Rule, row: Json, i: nat) -> Seq<ViolationView> {
    match row {
        Json::Object(entries) => if rule is NoEmptyRows {
            if is_empty_row(entries) {
                seq![simple_view("NoEmptyRows"@, empty_row_text(i))]
            } else {
                seq![]
            }
        } else {
            field_violations(rule, entries, Some(i))
        },
        _ => seq![simple_view(rule_name_of(rule), not_object_text(i))],
    }
}

/// What a row rule reports on the rows of an array output, in row order.
pub open spec fn rows_violations(rule: Rule, rows: Seq<Json>) -> Seq<ViolationView>
    decreases rows.len(),
{
    if rows.len() == 0 {
        seq![]
    } else {
        rows_violations(rule, rows.drop_last()) + row_violations(
            rule,
            rows.last(),
            (rows.len() - 1) as nat,
        )
    }
}

pub open spec fn min_items_view(value: u64, detail: Seq<char>, actual: Json) -> ViolationView {
    field_view(
        "MinItems"@,
        "min_items"@,
        "$"@,
        detail,
        Some(Json::Number(JsonNumber::PosInt(value))),
        Some(actual),
    )
}

/// What one rule reports on the whole output.
pub open spec fn rule_violations(rule: Rule, out: Json) -> Seq<ViolationView> {
    match rule {
        Rule::MinItems { value } => match out {
            Json::Array(items) => if items.len() < value {
                seq![
                    min_items_view(
                        value,
                        too_few_text(value as nat, items.len()),
                        Json::Number(JsonNumber::PosInt(items.len() as u64)),
                    ),
                ]
            } else {
                seq![]
            },
            _ => seq![
                min_items_view(
                    value,
                    "MinItems requires top-level array output."@,
                    Json::Str(label_of(kind_of(out))),
                ),
            ],
        },
        Rule::NoEmptyRows => match out {
            Json::Array(rows) => rows_violations(rule, rows),
            _ => seq![
                simple_view("NoEmptyRows"@, "NoEmptyRows requires top-level array output."@),
            ],
        },
        _ => match out {
            Json::Object(entries) => field_violations(rule, entries, None),
            Json::Array(rows) => rows_violations(rule, rows),
            _ => seq![simple_view(rule_name_of(rule), not_container_text())],
        },
    }
}

/// What the rules report, in declaration order.
pub open spec fn rules_violations(rules: Seq<Rule>, out: Json) -> Seq<ViolationView>
    decreases rules.len(),
{
    if rules.len() == 0 {
        seq![]
    } else {
        rules_violations(rules.drop_last(), out) + rule_violations(rules.last(), out)
    }
}

/// The top-level shape check.
pub open spec fn shape_violations(output_type: OutputType, out: Json) -> Seq<ViolationView> {
    match output_type {
        OutputType::Object => if out is Object {
            seq![]
        } else {
            seq![simple_view("OutputType"@, "Expected top-level JSON object."@)]
        },
        OutputType::Array => if out is Array {
            seq![]
        } else {
            seq![simple_view("OutputType"@, "Expected top-level JSON array."@)]
        },
    }
}

/// All violations of a contract by an output, in order.
pub open spec fn contract_violations(contract: Contract, out: Json) -> Seq<ViolationView> {
    shape_violations(contract.output_type, out) + rules_violations(contract.rules@, out)
}

pub open spec fn status_of(violations: Seq<ViolationView>) -> VerdictStatus {
    if violations.len() == 0 {
        VerdictStatus::Pass
    } else {
        VerdictStatus::Fail
    }
}

/// The verdict on an output.
pub open spec fn verdict_of(contract: Contract, out: Json) -> VerdictView {
    VerdictView {
        status: status_of(contract_violations(contract, out)),
        violations: contract_violations(contract, out),
    }
}

/// A rule whose pattern, if it has one, compiles.
pub open spec fn pattern_compiles(rule: Rule) -> bool {
    match rule {
        Rule::Regex { pattern, .. } => regex_compiles(pattern@),
        _ => true,
    }
}

/// Every pattern of the rules compiles.
pub open spec fn patterns_compile(rules: Seq<Rule>) -> bool {
    forall|i: int| 0 <= i < rules.len() ==> #[trigger] pattern_compiles(rules[i])
}

fn push_violation(vs: &mut Vec<Violation>, v: Violation)
    ensures
        views(final(vs)@) == views(old(vs)@).push(v@),
{
    let ghost before = vs@;
    vs.push(v);
    assert(views(vs@) =~= views(before).push(v@));
}

fn simple_violation(rule_name: &str, detail: String) -> (r: Violation)
    ensures
        r@ == simple_view(rule_name@, detail@),
{
    Violation {
        rule_name: String::from_str(rule_name),
        detail,
        field: None,
        rule: None,
        expected: None,
        actual: None,
    }
}

fn field_violation(
    rule_name: &str,
    tag: &str,
    field: &String,
    detail: String,
    expected: Option<JsonValue>,
    actual: Option<JsonValue>,
) -> (r: Violation)
    ensures
        r@ == field_view(
            rule_name@,
            tag@,
            field@,
            detail@,
            json_model(expected),
            json_model(actual),
        ),
{
    Violation {
        rule_name: String::from_str(rule_name),
        detail,
        field: Some(field.clone()),
        rule: Some(String::from_str(tag)),
        expected,
        actual,
    }
}

fn label_value(t: &ValueType) -> (r: JsonValue)
    ensures
        r@ == Json::Str(label_of(*t)),
{
    JsonValue::String(String::from_str(value_type_label(t)))
}

fn rule_name(rule: &Rule) -> (r: &'static str)
    ensures
        r@ == rule_name_of(*rule),
{
    match rule {
        Rule::RequiredField { .. } => "RequiredField",
        Rule::FieldType { .. } => "FieldType",
        Rule::AllowedValues { .. } => "AllowedValues",
        Rule::Regex { .. } => "Regex",
        Rule::MinItems { .. } => "MinItems",
        Rule::NoEmptyRows => "NoEmptyRows",
    }
}

pub open spec fn pattern_ready(rule: Rule, compiled: Option<&CompiledPattern>) -> bool {
    match rule {
        Rule::Regex { pattern, .. } => compiled is Some && compiled->Some_0.source() == pattern@,
        _ => true,
    }
}

fn check_required_field_in_map(
    field: &String,
    entries: &Vec<(String, JsonValue)>,
    idx: Option<usize>,
    violations: &mut Vec<Violation>,
)
    ensures
        views(final(violations)@) == views(old(violations)@) + field_violations(
            Rule::RequiredField { field: *field },
            entries_view(*entries),
            row_index(idx),
        ),
{
    let ghost before = views(violations@);
    if get(entries, field).is_none() {
        let detail = missing_required_detail(field, idx);
        let v = field_violation("RequiredField", "required_field", field, detail, None, None);
        let ghost vv = v@;
        push_violation(violations, v);
        assert(views(violations@) =~= before + seq![vv]);
    } else {
        assert(views(violations@) =~= before + seq![]);
    }
}

fn check_field_type_in_map(
    field: &String,
    expected: &ValueType,
    entries: &Vec<(String, JsonValue)>,
    idx: Option<usize>,
    violations: &mut Vec<Violation>,
)
    ensures
        views(final(violations)@) == views(old(violations)@) + field_violations(
            Rule::FieldType { field: *field, expected: *expected },
            entries_view(*entries),
            row_index(idx),
        ),
{
    let ghost before = views(violations@);
    match get(entries, field) {
        Some(value) => {
            if !matches_value_type(value, expected) {
                let found = detected_value_type(value);
                let detail = wrong_type_detail(field, idx, expected, found);
                let v = field_violation(
                    "FieldType",
                    "field_type",
                    field,
                    detail,
                    Some(label_value(expected)),
                    Some(JsonValue::String(String::from_str(found))),
                );
                let ghost vv = v@;
                push_violation(violations, v);
                assert(views(violations@) =~= before + seq![vv]);
            } else {
                assert(views(violations@) =~= before + seq![]);
            }
        },
        None => {
            let detail = missing_for_type_detail(field, idx);
            let v = field_violation(
                "FieldType",
                "field_type",
                field,
                detail,
                Some(label_value(expected)),
                None,
            );
            let ghost vv = v@;
            push_violation(violations, v);
            assert(views(violations@) =~= before + seq![vv]);
        },
    }
}

fn check_allowed_values_in_map(
    field: &String,
    values: &Vec<JsonValue>,
    entries: &Vec<(String, JsonValue)>,
    idx: Option<usize>,
    violations: &mut Vec<Violation>,
)
    ensures
        views(final(violations)@) == views(old(violations)@) + field_violations(
            Rule::AllowedValues { field: *field, values: *values },
            entries_view(*entries),
            row_index(idx),
        ),
{
    let ghost before = views(violations@);
    match get(entries, field) {
        Some(actual) => {
            if !contains_value(values, actual) {
                let detail = field_location_detail(field, idx, " has a disallowed value.");
                let v = field_violation(
                    "AllowedValues",
                    "allowed_values",
                    field,
                    detail,
                    Some(JsonValue::Array(copy_items(values))),
                    Some(actual.deep_copy()),
                );
                let ghost vv = v@;
                push_violation(violations, v);
                assert(views(violations@) =~= before + seq![vv]);
            } else {
                assert(views(violations@) =~= before + seq![]);
            }
        },
        None => {
            assert(views(violations@) =~= before + seq![]);
        },
    }
}

fn check_regex_in_map(
    field: &String,
    pattern: &String,
    compiled: &CompiledPattern,
    entries: &Vec<(String, JsonValue)>,
    idx: Option<usize>,
    violations: &mut Vec<Violation>,
)
    requires
        compiled.source() == pattern@,
    ensures
        views(final(violations)@) == views(old(violations)@) + field_violations(
            Rule::Regex { field: *field, pattern: *pattern },
            entries_view(*entries),
            row_index(idx),
        ),
{
    let ghost before = views(violations@);
    match get(entries, field) {
        Some(actual) => {
            let detail = match actual {
                JsonValue::String(text) => {
                    if compiled.is_match(text.as_str()) {
                        assert(views(violations@) =~= before + seq![]);
                        return ;
                    }
                    field_location_detail(field, idx, " does not match regex pattern.")
                },
                _ => field_location_detail(field, idx, " must be a string for regex rule."),
            };
            let v = field_violation(
                "Regex",
                "regex",
                field,
                detail,
                Some(JsonValue::String(pattern.clone())),
                Some(actual.deep_copy()),
            );
            let ghost vv = v@;
            push_violation(violations, v);
            assert(views(violations@) =~= before + seq![vv]);
        },
        None => {
            assert(views(violations@) =~= before + seq![]);
        },
    }
}

/// Applies a field rule to one object.
fn check_in_map(
    rule: &Rule,
    compiled: Option<&CompiledPattern>,
    entries: &Vec<(String, JsonValue)>,
    idx: Option<usize>,
    violations: &mut Vec<Violation>,
)
    requires
        pattern_ready(*rule, compiled),
    ensures
        views(final(violations)@) == views(old(violations)@) + field_violations(
            *rule,
            entries_view(*entries),
            row_index(idx),
        ),
{
    match rule {
        Rule::RequiredField { field } => check_required_field_in_map(field, entries, idx, violations),
        Rule::FieldType { field, expected } => check_field_type_in_map(
            field,
            expected,
            entries,
            idx,
            violations,
        ),
        Rule::AllowedValues { field, values } => check_allowed_values_in_map(
            field,
            values,
            entries,
            idx,
            violations,
        ),
        Rule::Regex { field, pattern } => {
            let c = compiled.unwrap();
            check_regex_in_map(field, pattern, c, entries, idx, violations)
        },
        _ => {
            assert(views(violations@) =~= views(old(violations)@) + seq![]);
        },
    }
}

/// Applies a row rule to row `i` of an array output.
fn check_row(
    rule: &Rule,
    compiled: Option<&CompiledPattern>,
    row: &JsonValue,
    i: usize,
    violations: &mut Vec<Violation>,
)
    requires
        pattern_ready(*rule, compiled),
    ensures
        views(final(violations)@) == views(old(violations)@) + row_violations(
            *rule,
            row@,
            i as nat,
        ),
{
    let ghost before = views(violations@);
    match row {
        JsonValue::Object(entries) => {
            if matches!(rule, Rule::NoEmptyRows) {
                if is_empty_object(entries) {
                    let v = simple_violation("NoEmptyRows", row_detail(i, " is empty."));
                    let ghost vv = v@;
                    push_violation(violations, v);
                    assert(views(violations@) =~= before + seq![vv]);
                } else {
                    assert(views(violations@) =~= before + seq![]);
                }
            } else {
                check_in_map(rule, compiled, entries, Some(i), violations);
            }
        },
        _ => {
            let v = simple_violation(rule_name(rule), row_detail(i, " is not an object."));
            let ghost vv = v@;
            push_violation(violations, v);
            assert(views(violations@) =~= before + seq![vv]);
        },
    }
}

/// Applies a row rule to each row of an array output, in order.
fn check_rows(
    rule: &Rule,
    compiled: Option<&CompiledPattern>,
    rows: &Vec<JsonValue>,
    violations: &mut Vec<Violation>,
)
    requires
        pattern_ready(*rule, compiled),
    ensures
        views(final(violations)@) == views(old(violations)@) + rows_violations(
            *rule,
            items_view(*rows),
        ),
{
    let ghost before = views(violations@);
    let ghost rv = items_view(*rows);
    assert(rv.take(0) =~= seq![]);
    assert(before + seq![] =~= before);
    let mut i: usize = 0;
    while i < rows.len()
        invariant
            0 <= i <= rows.len(),
            rv == items_view(*rows),
            pattern_ready(*rule, compiled),
            views(violations@) == before + rows_violations(*rule, rv.take(i as int)),
        decreases rows.len() - i,
    {
        check_row(rule, compiled, &rows[i], i, violations);
        proof {
            let next = rv.take(i + 1);
            assert(next.drop_last() =~= rv.take(i as int));
            assert(next.last() == rows[i as int]@);
            assert(views(violations@) =~= before + rows_violations(*rule, next));
        }
        i += 1;
    }
    assert(rv.take(rows.len() as int) =~= rv);
}

/// Applies a field or row rule to the output: once to an object, once per
/// row to an array.
fn check_field_rule(
    rule: &Rule,
    compiled: Option<&CompiledPattern>,
    output: &JsonValue,
    violations: &mut Vec<Violation>,
)
    requires
        pattern_ready(*rule, compiled),
        !(rule is MinItems),
    ensures
        views(final(violations)@) == views(old(violations)@) + rule_violations(*rule, output@),
{
    let ghost before = views(violations@);
    match output {
        JsonValue::Array(rows) => check_rows(rule, compiled, rows, violations),
        JsonValue::Object(entries) => {
            if matches!(rule, Rule::NoEmptyRows) {
                let v = simple_violation(
                    "NoEmptyRows",
                    String::from_str("NoEmptyRows requires top-level array output."),
                );
                let ghost vv = v@;
                push_violation(violations, v);
                assert(views(violations@) =~= before + seq![vv]);
            } else {
                check_in_map(rule, compiled, entries, None, violations);
            }
        },
        _ => {
            let v = if matches!(rule, Rule::NoEmptyRows) {
                simple_violation(
                    "NoEmptyRows",
                    String::from_str("NoEmptyRows requires top-level array output."),
                )
            } else {
                simple_violation(
                    rule_name(rule),
                    String::from_str("Output must be an object or an array of objects."),
                )
            };
            let ghost vv = v@;
            push_violation(violations, v);
            assert(views(violations@) =~= before + seq![vv]);
        },
    }
}

fn check_min_items(value: u64, output: &JsonValue, violations: &mut Vec<Violation>)
    ensures
        views(final(violations)@) == views(old(violations)@) + rule_violations(
            Rule::MinItems { value },
            output@,
        ),
{
    let ghost before = views(violations@);
    match output {
        JsonValue::Array(items) => {
            let found = items.len() as u64;
            assert(items_view(*items).len() == found);
            if found < value {
                let v = field_violation(
                    "MinItems",
                    "min_items",
                    &String::from_str("$"),
                    too_few_detail(value, found),
                    Some(JsonValue::Number(JsonNumber::PosInt(value))),
                    Some(JsonValue::Number(JsonNumber::PosInt(found))),
                );
                let ghost vv = v@;
                push_violation(violations, v);
                assert(views(violations@) =~= before + seq![vv]);
            } else {
                assert(views(violations@) =~= before + seq![]);
            }
        },
        _ => {
            let v = field_violation(
                "MinItems",
                "min_items",
                &String::from_str("$"),
                String::from_str("MinItems requires top-level array output."),
                Some(JsonValue::Number(JsonNumber::PosInt(value))),
                Some(JsonValue::String(String::from_str(detected_value_type(output)))),
            );
            let ghost vv = v@;
            push_violation(violations, v);
            assert(views(violations@) =~= before + seq![vv]);
        },
    }
}

/// Applies one rule to the whole output.
fn check_rule(rule: &Rule, output: &JsonValue, violations: &mut Vec<Violation>)
    requires
        pattern_compiles(*rule),
    ensures
        views(final(violations)@) == views(old(violations)@) + rule_violations(*rule, output@),
{
    match rule {
        Rule::MinItems { value } => check_min_items(*value, output, violations),
        Rule::Regex { pattern, .. } => {
            match CompiledPattern::compile(pattern) {
                Ok(compiled) => check_field_rule(rule, Some(&compiled), output, violations),
                Err(_) => {
                    assert(false);
                },
            }
        },
        _ => check_field_rule(rule, None, output, violations),
    }
}

fn check_output_type(output_type: OutputType, output: &JsonValue, violations: &mut Vec<Violation>)
    ensures
        views(final(violations)@) == views(old(violations)@) + shape_violations(
            output_type,
            output@,
        ),
{
    let ghost before = views(violations@);
    match output_type {
        OutputType::Object => {
            if !matches!(output, JsonValue::Object(_)) {
                let v = simple_violation(
                    "OutputType",
                    String::from_str("Expected top-level JSON object."),
                );
                let ghost vv = v@;
                push_violation(violations, v);
                assert(views(violations@) =~= before + seq![vv]);
                return ;
            }
        },
        OutputType::Array => {
            if !matches!(output, JsonValue::Array(_)) {
                let v = simple_violation(
                    "OutputType",
                    String::from_str("Expected top-level JSON array."),
                );
                let ghost vv = v@;
                push_violation(violations, v);
                assert(views(violations@) =~= before + seq![vv]);
                return ;
            }
        },
    }
    assert(views(violations@) =~= before + seq![]);
}

/// Checks an output against a contract whose patterns all compile: the
/// shape check first, then each rule in declaration order.
pub fn verify(contract: &Contract, output: &JsonValue) -> (r: Verdict)
    requires
        patterns_compile(contract.rules@),
    ensures
        r@ == verdict_of(*contract, output@),
{
    let mut violations: Vec<Violation> = Vec::new();
    check_output_type(contract.output_type, output, &mut violations);
    let ghost shape = views(violations@);
    assert(shape =~= shape_violations(contract.output_type, output@));
    let ghost rules = contract.rules@;
    assert(rules.take(0) =~= seq![]);
    assert(shape + seq![] =~= shape);
    let mut i: usize = 0;
    while i < contract.rules.len()
        invariant
            0 <= i <= contract.rules.len(),
            rules == contract.rules@,
            patterns_compile(rules),
            views(violations@) == shape + rules_violations(rules.take(i as int), output@),
        decreases contract.rules.len() - i,
    {
        assert(pattern_compiles(rules[i as int]));
        check_rule(&contract.rules[i], output, &mut violations);
        proof {
            let next = rules.take(i + 1);
            assert(next.drop_last() =~= rules.take(i as int));
            assert(views(violations@) =~= shape + rules_violations(next, output@));
        }
        i += 1;
    }
    assert(rules.take(rules.len() as int) =~= rules);
    let status = if violations.len() == 0 {
        VerdictStatus::Pass
    } else {
        VerdictStatus::Fail
    };
    Verdict { status, violations }
}

/// Why a run produced no verdict.
#[derive(Debug)]
pub enum RunError {
    /// A source could not be read.
    Io(String),
    /// The contract document is malformed.
    InvalidContract(ContractError),
    /// A `Regex` rule's pattern does not compile.
    InvalidContractRegex { pattern: String, error: regex::Error },
    /// The output document is not well-formed JSON.
    InvalidOutput(String),
}

pub open spec fn pattern_of(rule: Rule) -> Seq<char> {
    match rule {
        Rule::Regex { pattern, .. } => pattern@,
        _ => Seq::empty(),
    }
}

/// Checks, before any output is examined, that every pattern of the
/// contract compiles; refuses the contract with the first one that does not.
pub fn validate_contract(contract: &Contract) -> (r: Result<(), RunError>)
    ensures
        r is Ok <==> patterns_compile(contract.rules@),
        r is Err ==> r->Err_0 is InvalidContractRegex && exists|i: int|
            0 <= i < contract.rules.len() && !pattern_compiles(#[trigger] contract.rules@[i])
                && (forall|j: int| 0 <= j < i ==> pattern_compiles(contract.rules@[j]))
                && r->Err_0->InvalidContractRegex_pattern@ == pattern_of(contract.rules@[i]),
{
    let mut i: usize = 0;
    while i < contract.rules.len()
        invariant
            0 <= i <= contract.rules.len(),
            forall|j: int| 0 <= j < i ==> pattern_compiles(#[trigger] contract.rules@[j]),
        decreases contract.rules.len() - i,
    {
        if let Rule::Regex { pattern, .. } = &contract.rules[i] {
            match CompiledPattern::compile(pattern) {
                Ok(_) => {},
                Err(error) => {
                    assert(!pattern_compiles(contract.rules@[i as int]));
                    return Err(RunError::InvalidContractRegex { pattern: pattern.clone(), error });
                },
            }
        }
        i += 1;
    }
    Ok(())
}

/// Decodes a contract document, checks its patterns, then checks the
/// output against it.
pub fn evaluate(contract_doc: &JsonValue, output: &JsonValue) -> (r: Result<Verdict, RunError>)
    ensures
        contract_fault(contract_doc@) is Some ==> r is Err && r->Err_0 is InvalidContract
            && r->Err_0->InvalidContract_0@ == contract_fault(contract_doc@)->Some_0,
        contract_fault(contract_doc@) is None ==> exists|c: Contract|
            #[trigger] contract_decodes(contract_doc@, c) && if patterns_compile(c.rules@) {
                r is Ok && r->Ok_0@ == verdict_of(c, output@)
            } else {
                r is Err && r->Err_0 is InvalidContractRegex
            },
{
    let contract = match parse_contract(contract_doc) {
        Ok(c) => c,
        Err(e) => {
            return Err(RunError::InvalidContract(e));
        },
    };
    match validate_contract(&contract) {
        Ok(()) => {
            let verdict = verify(&contract, output);
            assert(contract_decodes(contract_doc@, contract));
            Ok(verdict)
        },
        Err(e) => {
            assert(contract_decodes(contract_doc@, contract));
            Err(e)
        },
    }
}

/// A verdict that reports one failure that stopped the run.
pub fn failure_verdict(rule_name: &str, detail: String) -> (r: Verdict)
    ensures
        r@ == (VerdictView {
            status: VerdictStatus::Fail,
            violations: seq![simple_view(rule_name@, detail@)],
        }),
{
    let mut violations: Vec<Violation> = Vec::new();
    let v = simple_violation(rule_name, detail);
    let ghost vv = v@;
    push_violation(&mut violations, v);
    assert(views(violations@) =~= seq![vv]);
    Verdict { status: VerdictStatus::Fail, violations }
}

/// The process status for a run: 0 pass, 1 violations, 2 invalid
/// contract, 3 any other failure.
pub fn exit_code(result: &Result<Verdict, RunError>) -> (r: i32)
    ensures
        r == match result {
            Ok(v) => if v.status == VerdictStatus::Pass {
                0i32
            } else {
                1i32
            },
            Err(RunError::InvalidContract(_)) => 2i32,
            Err(RunError::InvalidContractRegex { .. }) => 2i32,
            Err(_) => 3i32,
        },
{
    match result {
        Ok(v) => if v.status == VerdictStatus::Pass {
            0
        } else {
            1
        },
        Err(RunError::InvalidContract(_)) => 2,
        Err(RunError::InvalidContractRegex { .. }) => 2,
        Err(_) => 3,
    }
}

/// A violation as the verdict document shows it: `rule` is the rule's tag,
/// else its name; `field` is empty where there is none.
pub open spec fn public_violation(v: ViolationView) -> Json {
    let actual: Seq<(Seq<char>, Json)> = match v.actual {
        Some(a) => seq![("actual"@, a)],
        None => seq![],
    };
    let expected: Seq<(Seq<char>, Json)> = match v.expected {
        Some(e) => seq![("expected"@, e)],
        None => seq![],
    };
    let field = match v.field {
        Some(f) => f,
        None => Seq::empty(),
    };
    let rule = match v.rule {
        Some(t) => t,
        None => v.rule_name,
    };
    Json::Object(
        actual + expected + seq![
            ("field"@, Json::Str(field)),
            ("message"@, Json::Str(v.detail)),
            ("rule"@, Json::Str(rule)),
        ],
    )
}

/// The verdict document: its status and its violations.
pub open spec fn public_verdict(v: VerdictView) -> Json {
    Json::Object(
        seq![
            ("status"@, Json::Str(if v.status == VerdictStatus::Pass { "pass"@ } else { "fail"@ })),
            ("violations"@, Json::Array(v.violations.map_values(|x: ViolationView| public_violation(x)))),
        ],
    )
}

fn copy_text(o: &Option<String>, fallback: &String) -> (r: String)
    ensures
        r@ == match *o {
            Some(s) => s@,
            None => fallback@,
        },
{
    match o {
        Some(s) => s.clone(),
        None => fallback.clone(),
    }
}

/// The verdict document's form of a violation.
pub fn to_public_violation(v: &Violation) -> (r: JsonValue)
    ensures
        r@ == public_violation(v@),
{
    let mut entries: Vec<(String, JsonValue)> = Vec::new();
    if let Some(a) = &v.actual {
        entries.push((String::from_str("actual"), a.deep_copy()));
    }
    if let Some(e) = &v.expected {
        entries.push((String::from_str("expected"), e.deep_copy()));
    }
    let empty = String::new();
    entries.push((String::from_str("field"), JsonValue::String(copy_text(&v.field, &empty))));
    entries.push((String::from_str("message"), JsonValue::String(v.detail.clone())));
    entries.push((String::from_str("rule"), JsonValue::String(copy_text(&v.rule, &v.rule_name))));
    let r = JsonValue::Object(entries);
    assert(entries_view(entries) =~= public_violation(v@)->Object_0);
    r
}

/// The verdict document.
pub fn to_public_verdict(verdict: &Verdict) -> (r: JsonValue)
    ensures
        r@ == public_verdict(verdict@),
{
    let mut items: Vec<JsonValue> = Vec::new();
    let mut i: usize = 0;
    while i < verdict.violations.len()
        invariant
            0 <= i <= verdict.violations.len(),
            items.len() == i,
            forall|k: int|
                0 <= k < i ==> (#[trigger] items[k])@ == public_violation(
                    verdict.violations@[k]@,
                ),
        decreases verdict.violations.len() - i,
    {
        items.push(to_public_violation(&verdict.violations[i]));
        i += 1;
    }
    assert(items_view(items) =~= views(verdict.violations@).map_values(
        |x: ViolationView| public_violation(x),
    ));
    let status = if verdict.status == VerdictStatus::Pass {
        String::from_str("pass")
    } else {
        String::from_str("fail")
    };
    let mut entries: Vec<(String, JsonValue)> = Vec::new();
    entries.push((String::from_str("status"), JsonValue::String(status)));
    entries.push((String::from_str("violations"), JsonValue::Array(items)));
    let r = JsonValue::Object(entries);
    assert(entries_view(entries) =~= public_verdict(verdict@)->Object_0);
    r
}

} // verus!
