//! Properties of the verdict that hold for every contract and output.
use vstd::prelude::*;

use crate::contract::{Contract, OutputType, Rule};
use crate::engine::{
    contract_violations, field_view, field_violations, missing_for_type_text,
    missing_required_text, not_object_text, public_verdict, row_violations, rows_violations,
    rule_name_of, rule_violations, rules_violations, simple_view, verdict_of, VerdictStatus,
    VerdictView,
};
use crate::json::{items_view, kind_of, label_of, lookup, Json, JsonNumber, JsonValue, ValueType};
use crate::pattern::regex_finds;

verus! {

/// The output has the shape the contract asks for.
pub open spec fn shape_fits(output_type: OutputType, out: Json) -> bool {
    match output_type {
        OutputType::Object => out is Object,
        OutputType::Array => out is Array,
    }
}

proof fn lemma_rules_silent(rules: Seq<Rule>, out: Json)
    requires
        forall|i: int| 0 <= i < rules.len() ==> (#[trigger] rule_violations(rules[i], out)).len()
            == 0,
    ensures
        rules_violations(rules, out).len() == 0,
    decreases rules.len(),
{
    if rules.len() > 0 {
        let init = rules.drop_last();
        assert forall|i: int| 0 <= i < init.len() implies (#[trigger] rule_violations(
            init[i],
            out,
        )).len() == 0 by {
            assert(init[i] == rules[i]);
        }
        lemma_rules_silent(init, out);
        assert(rule_violations(rules[rules.len() - 1], out).len() == 0);
    }
}

/// An output of the required shape on which no rule reports anything
/// passes, with no violations.
pub proof fn lemma_satisfied_contract_passes(contract: Contract, out: Json)
    requires
        shape_fits(contract.output_type, out),
        forall|i: int|
            0 <= i < contract.rules.len() ==> (#[trigger] rule_violations(
                contract.rules@[i],
                out,
            )).len() == 0,
    ensures
        verdict_of(contract, out).status == VerdictStatus::Pass,
        verdict_of(contract, out).violations.len() == 0,
{
    lemma_rules_silent(contract.rules@, out);
}

proof fn lemma_rows_named(rule: Rule, rows: Seq<Json>)
    ensures
        forall|k: int|
            0 <= k < rows_violations(rule, rows).len() ==> (#[trigger] rows_violations(
                rule,
                rows,
            )[k]).rule_name == rule_name_of(rule),
    decreases rows.len(),
{
    if rows.len() > 0 {
        lemma_rows_named(rule, rows.drop_last());
        let a = rows_violations(rule, rows.drop_last());
        let b = row_violations(rule, rows.last(), (rows.len() - 1) as nat);
        assert forall|k: int| 0 <= k < (a + b).len() implies (#[trigger] (a + b)[k]).rule_name
            == rule_name_of(rule) by {
            if k >= a.len() {
                assert((a + b)[k] == b[k - a.len()]);
            }
        }
    }
}

/// Every violation a rule reports carries that rule's name.
pub proof fn lemma_rule_violations_named(rule: Rule, out: Json)
    ensures
        forall|k: int|
            0 <= k < rule_violations(rule, out).len() ==> (#[trigger] rule_violations(
                rule,
                out,
            )[k]).rule_name == rule_name_of(rule),
{
    match out {
        Json::Array(rows) => lemma_rows_named(rule, rows),
        _ => {},
    }
}

proof fn lemma_rules_named(rules: Seq<Rule>, out: Json)
    ensures
        forall|k: int|
            0 <= k < rules_violations(rules, out).len() ==> exists|i: int|
                0 <= i < rules.len() && (#[trigger] rules_violations(rules, out)[k]).rule_name
                    == rule_name_of(#[trigger] rules[i]),
    decreases rules.len(),
{
    if rules.len() > 0 {
        let init = rules.drop_last();
        lemma_rules_named(init, out);
        lemma_rule_violations_named(rules.last(), out);
        let a = rules_violations(init, out);
        let b = rule_violations(rules.last(), out);
        assert forall|k: int| 0 <= k < (a + b).len() implies exists|i: int|
            0 <= i < rules.len() && (#[trigger] (a + b)[k]).rule_name == rule_name_of(
                #[trigger] rules[i],
            ) by {
            if k < a.len() {
                let i = choose|i: int|
                    0 <= i < init.len() && (#[trigger] a[k]).rule_name == rule_name_of(
                        #[trigger] init[i],
                    );
                assert(init[i] == rules[i]);
            } else {
                assert((a + b)[k] == b[k - a.len()]);
                assert(rules.last() == rules[rules.len() - 1]);
            }
        }
    }
}

proof fn lemma_rule_name_not_output_type(rule: Rule)
    ensures
        rule_name_of(rule) != "OutputType"@,
{
    reveal_strlit("OutputType");
    reveal_strlit("RequiredField");
    reveal_strlit("FieldType");
    reveal_strlit("AllowedValues");
    reveal_strlit("Regex");
    reveal_strlit("MinItems");
    reveal_strlit("NoEmptyRows");
    assert(rule_name_of(rule)[0] != "OutputType"@[0] || rule_name_of(rule).len() != "OutputType"@.len());
}

/// A top-level shape mismatch adds exactly one `OutputType` violation, in
/// first place, and leaves what the rules report unchanged.
pub proof fn lemma_shape_mismatch_reported_once(contract: Contract, out: Json)
    requires
        !shape_fits(contract.output_type, out),
    ensures
        contract_violations(contract, out).len() == 1 + rules_violations(contract.rules@, out).len(),
        contract_violations(contract, out)[0].rule_name == "OutputType"@,
        contract_violations(contract, out).drop_first() == rules_violations(contract.rules@, out),
        forall|k: int|
            0 < k < contract_violations(contract, out).len() ==> (#[trigger] contract_violations(
                contract,
                out,
            )[k]).rule_name != "OutputType"@,
{
    let rv = rules_violations(contract.rules@, out);
    let all = contract_violations(contract, out);
    assert(all.drop_first() =~= rv);
    lemma_rules_named(contract.rules@, out);
    assert forall|k: int| 0 < k < all.len() implies (#[trigger] all[k]).rule_name
        != "OutputType"@ by {
        assert(all[k] == rv[k - 1]);
        let i = choose|i: int|
            0 <= i < contract.rules.len() && (#[trigger] rv[k - 1]).rule_name == rule_name_of(
                #[trigger] contract.rules@[i],
            );
        lemma_rule_name_not_output_type(contract.rules@[i]);
    }
}

/// Whether row `row` of an array output fails `RequiredField` on `field`.
pub open spec fn lacks_field(row: Json, field: Seq<char>) -> bool {
    !(row is Object) || lookup(row->Object_0, field) is None
}

/// The number of rows that fail `RequiredField` on `field`.
pub open spec fn rows_lacking(rows: Seq<Json>, field: Seq<char>) -> nat
    decreases rows.len(),
{
    if rows.len() == 0 {
        0
    } else {
        rows_lacking(rows.drop_last(), field) + if lacks_field(rows.last(), field) {
            1nat
        } else {
            0nat
        }
    }
}

proof fn lemma_required_field_count(field: String, rows: Seq<Json>)
    ensures
        rows_violations(Rule::RequiredField { field }, rows).len() == rows_lacking(rows, field@),
    decreases rows.len(),
{
    if rows.len() > 0 {
        lemma_required_field_count(field, rows.drop_last());
    }
}

/// `RequiredField` on an array output: rows are reported in order, one
/// violation for each row that is not an object or lacks the field, and
/// row `i`'s violation names row `i`.
pub proof fn lemma_required_field_rows(field: String, rows: Seq<Json>, i: int)
    requires
        0 <= i < rows.len(),
    ensures
        rule_violations(Rule::RequiredField { field }, Json::Array(rows)).len() == rows_lacking(
            rows,
            field@,
        ),
        rows_violations(Rule::RequiredField { field }, rows.take(i + 1)) == rows_violations(
            Rule::RequiredField { field },
            rows.take(i),
        ) + row_violations(Rule::RequiredField { field }, rows[i], i as nat),
        !(rows[i] is Object) ==> row_violations(Rule::RequiredField { field }, rows[i], i as nat)
            == seq![simple_view("RequiredField"@, not_object_text(i as nat))],
        rows[i] is Object && lookup(rows[i]->Object_0, field@) is None ==> row_violations(
            Rule::RequiredField { field },
            rows[i],
            i as nat,
        ) == seq![
            field_view(
                "RequiredField"@,
                "required_field"@,
                field@,
                missing_required_text(field@, Some(i as nat)),
                None,
                None,
            ),
        ],
        !lacks_field(rows[i], field@) ==> row_violations(
            Rule::RequiredField { field },
            rows[i],
            i as nat,
        ).len() == 0,
{
    lemma_required_field_count(field, rows);
    assert(rows.take(i + 1).drop_last() =~= rows.take(i));
}

/// `FieldType` on one object: an absent field gives one "missing field"
/// violation, with no actual value; a field of another kind gives one
/// violation naming the expected and the detected kind; a field of the
/// expected kind gives none.
pub proof fn lemma_field_type_outcomes(
    field: String,
    expected: ValueType,
    entries: Seq<(Seq<char>, Json)>,
    idx: Option<nat>,
)
    ensures
        lookup(entries, field@) is None ==> field_violations(
            Rule::FieldType { field, expected },
            entries,
            idx,
        ) == seq![
            field_view(
                "FieldType"@,
                "field_type"@,
                field@,
                missing_for_type_text(field@, idx),
                Some(Json::Str(label_of(expected))),
                None,
            ),
        ],
        lookup(entries, field@) is Some && kind_of(lookup(entries, field@)->Some_0) != expected
            ==> {
            let found = kind_of(lookup(entries, field@)->Some_0);
            let vs = field_violations(
                Rule::FieldType { field, expected },
                entries,
                idx,
            );
            &&& vs.len() == 1
            &&& vs[0].expected == Some(Json::Str(label_of(expected)))
            &&& vs[0].actual == Some(Json::Str(label_of(found)))
        },
        lookup(entries, field@) is Some && kind_of(lookup(entries, field@)->Some_0) == expected
            ==> field_violations(
            Rule::FieldType { field, expected },
            entries,
            idx,
        ).len() == 0,
{
}

/// `AllowedValues` on one object: an absent field gives no violation; a
/// present value equal to none of the allowed ones gives one, with the
/// allowed values as `expected` and the value as `actual`.
pub proof fn lemma_allowed_values_outcomes(
    field: String,
    values: Vec<JsonValue>,
    entries: Seq<(Seq<char>, Json)>,
    idx: Option<nat>,
)
    ensures
        lookup(entries, field@) is None ==> field_violations(
            Rule::AllowedValues { field, values },
            entries,
            idx,
        ).len() == 0,
        lookup(entries, field@) is Some && !items_view(values).contains(
            lookup(entries, field@)->Some_0,
        ) ==> {
            let vs = field_violations(
                Rule::AllowedValues { field, values },
                entries,
                idx,
            );
            &&& vs.len() == 1
            &&& vs[0].expected == Some(Json::Array(items_view(values)))
            &&& vs[0].actual == lookup(entries, field@)
        },
        lookup(entries, field@) is Some && items_view(values).contains(
            lookup(entries, field@)->Some_0,
        ) ==> field_violations(
            Rule::AllowedValues { field, values },
            entries,
            idx,
        ).len() == 0,
{
}

/// `Regex` on one object: an absent field gives no violation; a present
/// value that is not a string, or a string in which the pattern finds no
/// match, gives one, with the pattern as `expected` and the value as
/// `actual`; a matching string gives none.
pub proof fn lemma_regex_outcomes(
    field: String,
    pattern: String,
    entries: Seq<(Seq<char>, Json)>,
    idx: Option<nat>,
)
    ensures
        lookup(entries, field@) is None ==> field_violations(
            Rule::Regex { field, pattern },
            entries,
            idx,
        ).len() == 0,
        lookup(entries, field@) is Some && !(lookup(entries, field@)->Some_0 is Str
            && regex_finds(pattern@, lookup(entries, field@)->Some_0->Str_0)) ==> {
            let vs = field_violations(Rule::Regex { field, pattern }, entries, idx);
            &&& vs.len() == 1
            &&& vs[0].expected == Some(Json::Str(pattern@))
            &&& vs[0].actual == lookup(entries, field@)
        },
        lookup(entries, field@) is Some && lookup(entries, field@)->Some_0 is Str && regex_finds(
            pattern@,
            lookup(entries, field@)->Some_0->Str_0,
        ) ==> field_violations(Rule::Regex { field, pattern }, entries, idx).len()
            == 0,
{
}

/// `MinItems`: an output that is not an array always gives one violation;
/// an array gives one exactly when it is shorter than `value`, with
/// `expected` the bound and `actual` the length.
pub proof fn lemma_min_items_outcomes(value: u64, out: Json)
    ensures
        !(out is Array) ==> rule_violations(Rule::MinItems { value }, out).len() == 1,
        out is Array ==> (rule_violations(Rule::MinItems { value }, out).len() == 1 <==> out->Array_0.len()
            < value),
        out is Array ==> rule_violations(Rule::MinItems { value }, out).len() <= 1,
        out is Array && out->Array_0.len() < value ==> {
            let v = rule_violations(Rule::MinItems { value }, out)[0];
            &&& v.expected == Some(Json::Number(JsonNumber::PosInt(value)))
            &&& v.actual == Some(Json::Number(JsonNumber::PosInt(out->Array_0.len() as u64)))
        },
{
}

/// Evaluation is a function of the contract and the output: two
/// evaluations of one pair give the same verdict and the same verdict
/// document.
pub proof fn lemma_verdict_deterministic(
    contract: Contract,
    out: Json,
    first: VerdictView,
    second: VerdictView,
)
    requires
        first == verdict_of(contract, out),
        second == verdict_of(contract, out),
    ensures
        first == second,
        public_verdict(first) == public_verdict(second),
{
}

} // verus!
