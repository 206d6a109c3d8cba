//! The contract model and its strict decoding from a JSON document.
use vstd::prelude::*;

use crate::json::{copy_items, entries_view, get, items_view, lookup, Json, JsonNumber, JsonValue, ValueType};

verus! {

/// The required shape of the top-level output value.
#[derive(Debug, Clone, Copy, PartialEq, Eq, Structural)]
pub enum OutputType {
    Object,
    Array,
}

/// One check of a contract.
#[derive(Debug)]
pub enum Rule {
    /// The object (or each row) holds the field.
    RequiredField { field: String },
    /// The field is present and of the given kind.
    FieldType { field: String, expected: ValueType },
    /// Where present, the field's value equals one of `values`.
    AllowedValues { field: String, values: Vec<JsonValue> },
    /// Where present, the field is a string in which `pattern` finds a match.
    Regex { field: String, pattern: String },
    /// The output is an array of at least `value` items.
    MinItems { value: u64 },
    /// The output is an array none of whose rows is an empty object.
    NoEmptyRows,
}

/// A contract: its declared inputs (informational), the required shape of
/// the output and the rules, in the order they are evaluated.
#[derive(Debug)]
pub struct Contract {
    pub name: Option<String>,
    pub version: Option<u32>,
    pub inputs: Vec<String>,
    pub output_type: OutputType,
    pub rules: Vec<Rule>,
}

/// Why a contract document was refused.
#[derive(Debug)]
pub enum ContractError {
    /// The text is not well-formed JSON.
    Syntax(String),
    /// The document, or a rule, is not an object.
    NotAnObject(String),
    /// A key that this place of the document does not recognise.
    UnknownField(String),
    /// A required key is absent.
    MissingField(String),
    /// The value under this key has the wrong kind.
    WrongKind(String),
    /// A rule tag that names no rule.
    UnknownRule(String),
}

/// The model of a `ContractError`.
pub enum ContractFault {
    Syntax(Seq<char>),
    NotAnObject(Seq<char>),
    UnknownField(Seq<char>),
    MissingField(Seq<char>),
    WrongKind(Seq<char>),
    UnknownRule(Seq<char>),
}

impl View for ContractError {
    type V = ContractFault;

    open spec fn view(&self) -> ContractFault {
        match self {
            ContractError::Syntax(s) => ContractFault::Syntax(s@),
            ContractError::NotAnObject(s) => ContractFault::NotAnObject(s@),
            ContractError::UnknownField(s) => ContractFault::UnknownField(s@),
            ContractError::MissingField(s) => ContractFault::MissingField(s@),
            ContractError::WrongKind(s) => ContractFault::WrongKind(s@),
            ContractError::UnknownRule(s) => ContractFault::UnknownRule(s@),
        }
    }
}

/// The kinds of rule, as the `rule` tag names them.
#[derive(Clone, Copy, PartialEq, Eq, Structural)]
pub enum RuleTag {
    RequiredField,
    FieldType,
    AllowedValues,
    Regex,
    MinItems,
    NoEmptyRows,
}

pub open spec fn tag_named(s: Seq<char>) -> Option<RuleTag> {
    if s == "required_field"@ {
        Some(RuleTag::RequiredField)
    } else if s == "field_type"@ {
        Some(RuleTag::FieldType)
    } else if s == "allowed_values"@ {
        Some(RuleTag::AllowedValues)
    } else if s == "regex"@ {
        Some(RuleTag::Regex)
    } else if s == "min_items"@ {
        Some(RuleTag::MinItems)
    } else if s == "no_empty_rows"@ {
        Some(RuleTag::NoEmptyRows)
    } else {
        None
    }
}

pub open spec fn type_named(s: Seq<char>) -> Option<ValueType> {
    if s == "string"@ {
        Some(ValueType::String)
    } else if s == "number"@ {
        Some(ValueType::Number)
    } else if s == "boolean"@ {
        Some(ValueType::Boolean)
    } else if s == "object"@ {
        Some(ValueType::Object)
    } else if s == "array"@ {
        Some(ValueType::Array)
    } else if s == "null"@ {
        Some(ValueType::Null)
    } else {
        None
    }
}

pub open spec fn output_type_named(s: Seq<char>) -> Option<OutputType> {
    if s == "object"@ {
        Some(OutputType::Object)
    } else if s == "array"@ {
        Some(OutputType::Array)
    } else {
        None
    }
}

/// The keys a contract document may hold (`tag` None), or a rule of kind
/// `tag` may hold.
pub open spec fn known_key(tag: Option<RuleTag>, k: Seq<char>) -> bool {
    match tag {
        None => k == "name"@ || k == "version"@ || k == "inputs"@ || k == "output_type"@ || k
            == "rules"@,
        Some(t) => k == "rule"@ || match t {
            RuleTag::RequiredField => k == "field"@,
            RuleTag::FieldType => k == "field"@ || k == "expected"@,
            RuleTag::AllowedValues => k == "field"@ || k == "values"@,
            RuleTag::Regex => k == "field"@ || k == "pattern"@,
            RuleTag::MinItems => k == "value"@,
            RuleTag::NoEmptyRows => false,
        },
    }
}

/// The first key of the entries that is not known.
pub open spec fn first_unknown(entries: Seq<(Seq<char>, Json)>, tag: Option<RuleTag>) -> Option<
    Seq<char>,
>
    decreases entries.len(),
{
    if entries.len() == 0 {
        None
    } else if !known_key(tag, entries[0].0) {
        Some(entries[0].0)
    } else {
        first_unknown(entries.drop_first(), tag)
    }
}

/// Where a rule keeps a required string.
pub open spec fn string_fault(entries: Seq<(Seq<char>, Json)>, key: Seq<char>) -> Option<
    ContractFault,
> {
    match lookup(entries, key) {
        None => Some(ContractFault::MissingField(key)),
        Some(Json::Str(_)) => None,
        Some(_) => Some(ContractFault::WrongKind(key)),
    }
}

/// What is wrong with a rule's parameters, once its tag is known.
pub open spec fn params_fault(tag: RuleTag, es: Seq<(Seq<char>, Json)>) -> Option<ContractFault> {
    match tag {
        RuleTag::RequiredField => string_fault(es, "field"@),
        RuleTag::FieldType => if string_fault(es, "field"@) is Some {
            string_fault(es, "field"@)
        } else {
            match lookup(es, "expected"@) {
                None => Some(ContractFault::MissingField("expected"@)),
                Some(Json::Str(s)) => if type_named(s) is Some {
                    None
                } else {
                    Some(ContractFault::WrongKind("expected"@))
                },
                Some(_) => Some(ContractFault::WrongKind("expected"@)),
            }
        },
        RuleTag::AllowedValues => if string_fault(es, "field"@) is Some {
            string_fault(es, "field"@)
        } else {
            match lookup(es, "values"@) {
                None => Some(ContractFault::MissingField("values"@)),
                Some(Json::Array(_)) => None,
                Some(_) => Some(ContractFault::WrongKind("values"@)),
            }
        },
        RuleTag::Regex => if string_fault(es, "field"@) is Some {
            string_fault(es, "field"@)
        } else {
            string_fault(es, "pattern"@)
        },
        RuleTag::MinItems => match lookup(es, "value"@) {
            None => Some(ContractFault::MissingField("value"@)),
            Some(Json::Number(JsonNumber::PosInt(_))) => None,
            Some(_) => Some(ContractFault::WrongKind("value"@)),
        },
        RuleTag::NoEmptyRows => None,
    }
}

/// What is wrong with a rule document, if anything: checked in this order,
/// the kind of the document, its tag, its keys, its parameters.
pub open spec fn rule_fault(j: Json) -> Option<ContractFault> {
    match j {
        Json::Object(es) => match lookup(es, "rule"@) {
            None => Some(ContractFault::MissingField("rule"@)),
            Some(Json::Str(t)) => match tag_named(t) {
                None => Some(ContractFault::UnknownRule(t)),
                Some(tag) => match first_unknown(es, Some(tag)) {
                    Some(k) => Some(ContractFault::UnknownField(k)),
                    None => params_fault(tag, es),
                },
            },
            Some(_) => Some(ContractFault::WrongKind("rule"@)),
        },
        _ => Some(ContractFault::NotAnObject("rule"@)),
    }
}

/// The fault of the first faulty rule.
pub open spec fn rules_fault(rules: Seq<Json>) -> Option<ContractFault>
    decreases rules.len(),
{
    if rules.len() == 0 {
        None
    } else if rules_fault(rules.drop_last()) is Some {
        rules_fault(rules.drop_last())
    } else {
        rule_fault(rules.last())
    }
}

pub open spec fn name_fits(v: Option<Json>) -> bool {
    match v {
        None => true,
        Some(Json::Null) => true,
        Some(Json::Str(_)) => true,
        _ => false,
    }
}

pub open spec fn version_fits(v: Option<Json>) -> bool {
    match v {
        None => true,
        Some(Json::Null) => true,
        Some(Json::Number(JsonNumber::PosInt(n))) => n <= u32::MAX,
        _ => false,
    }
}

pub open spec fn all_strings(items: Seq<Json>) -> bool {
    forall|i: int| 0 <= i < items.len() ==> #[trigger] items[i] is Str
}

/// What is wrong with a contract document, if anything: checked in this
/// order, its kind, its keys, then each key's value, the rules last.
pub open spec fn contract_fault(doc: Json) -> Option<ContractFault> {
    match doc {
        Json::Object(es) => if first_unknown(es, None) is Some {
            Some(ContractFault::UnknownField(first_unknown(es, None)->Some_0))
        } else if !name_fits(lookup(es, "name"@)) {
            Some(ContractFault::WrongKind("name"@))
        } else if !version_fits(lookup(es, "version"@)) {
            Some(ContractFault::WrongKind("version"@))
        } else {
            match lookup(es, "inputs"@) {
                None => Some(ContractFault::MissingField("inputs"@)),
                Some(inputs) => if !(inputs is Array && all_strings(inputs->Array_0)) {
                    Some(ContractFault::WrongKind("inputs"@))
                } else {
                    match lookup(es, "output_type"@) {
                        None => Some(ContractFault::MissingField("output_type"@)),
                        Some(t) => if !(t is Str && output_type_named(t->Str_0) is Some) {
                            Some(ContractFault::WrongKind("output_type"@))
                        } else {
                            match lookup(es, "rules"@) {
                                None => Some(ContractFault::MissingField("rules"@)),
                                Some(Json::Array(rules)) => rules_fault(rules),
                                Some(_) => Some(ContractFault::WrongKind("rules"@)),
                            }
                        },
                    }
                },
            }
        },
        _ => Some(ContractFault::NotAnObject("contract"@)),
    }
}

/// A rule as a document that has no fault describes it.
pub open spec fn rule_decodes(j: Json, rule: Rule) -> bool {
    &&& j is Object
    &&& {
        let es = j->Object_0;
        match rule {
            Rule::RequiredField { field } => lookup(es, "rule"@) == Some(
                Json::Str("required_field"@),
            ) && lookup(es, "field"@) == Some(Json::Str(field@)),
            Rule::FieldType { field, expected } => lookup(es, "rule"@) == Some(
                Json::Str("field_type"@),
            ) && lookup(es, "field"@) == Some(Json::Str(field@)) && lookup(es, "expected"@) is Some
                && lookup(es, "expected"@)->Some_0 is Str && type_named(
                lookup(es, "expected"@)->Some_0->Str_0,
            ) == Some(expected),
            Rule::AllowedValues { field, values } => lookup(es, "rule"@) == Some(
                Json::Str("allowed_values"@),
            ) && lookup(es, "field"@) == Some(Json::Str(field@)) && lookup(es, "values"@) == Some(
                Json::Array(items_view(values)),
            ),
            Rule::Regex { field, pattern } => lookup(es, "rule"@) == Some(Json::Str("regex"@))
                && lookup(es, "field"@) == Some(Json::Str(field@)) && lookup(es, "pattern"@)
                == Some(Json::Str(pattern@)),
            Rule::MinItems { value } => lookup(es, "rule"@) == Some(Json::Str("min_items"@))
                && lookup(es, "value"@) == Some(Json::Number(JsonNumber::PosInt(value))),
            Rule::NoEmptyRows => lookup(es, "rule"@) == Some(Json::Str("no_empty_rows"@)),
        }
    }
}

pub open spec fn strings_model(items: Seq<String>) -> Seq<Json> {
    items.map_values(|s: String| Json::Str(s@))
}

/// A contract as a document that has no fault describes it (an absent or
/// null `name` or `version` is none).
pub open spec fn contract_decodes(doc: Json, c: Contract) -> bool {
    &&& doc is Object
    &&& {
        let es = doc->Object_0;
        &&& match lookup(es, "name"@) {
            Some(Json::Str(s)) => c.name is Some && c.name->Some_0@ == s,
            _ => c.name is None,
        }
        &&& match lookup(es, "version"@) {
            Some(Json::Number(JsonNumber::PosInt(n))) => c.version == Some(n as u32),
            _ => c.version is None,
        }
        &&& lookup(es, "inputs"@) == Some(Json::Array(strings_model(c.inputs@)))
        &&& lookup(es, "output_type"@) is Some
        &&& lookup(es, "output_type"@)->Some_0 is Str
        &&& output_type_named(lookup(es, "output_type"@)->Some_0->Str_0) == Some(c.output_type)
        &&& lookup(es, "rules"@) is Some
        &&& lookup(es, "rules"@)->Some_0 is Array
        &&& lookup(es, "rules"@)->Some_0->Array_0.len() == c.rules.len()
        &&& forall|i: int|
            0 <= i < c.rules.len() ==> #[trigger] rule_decodes(
                lookup(es, "rules"@)->Some_0->Array_0[i],
                c.rules@[i],
            )
    }
}

fn tag_of(t: &String) -> (r: Option<RuleTag>)
    ensures
        r == tag_named(t@),
{
    if *t == String::from_str("required_field") {
        Some(RuleTag::RequiredField)
    } else if *t == String::from_str("field_type") {
        Some(RuleTag::FieldType)
    } else if *t == String::from_str("allowed_values") {
        Some(RuleTag::AllowedValues)
    } else if *t == String::from_str("regex") {
        Some(RuleTag::Regex)
    } else if *t == String::from_str("min_items") {
        Some(RuleTag::MinItems)
    } else if *t == String::from_str("no_empty_rows") {
        Some(RuleTag::NoEmptyRows)
    } else {
        None
    }
}

/// The kind that a contract names, if it names one.
pub fn value_type_named(s: &String) -> (r: Option<ValueType>)
    ensures
        r == type_named(s@),
{
    if *s == String::from_str("string") {
        Some(ValueType::String)
    } else if *s == String::from_str("number") {
        Some(ValueType::Number)
    } else if *s == String::from_str("boolean") {
        Some(ValueType::Boolean)
    } else if *s == String::from_str("object") {
        Some(ValueType::Object)
    } else if *s == String::from_str("array") {
        Some(ValueType::Array)
    } else if *s == String::from_str("null") {
        Some(ValueType::Null)
    } else {
        None
    }
}

fn output_type_of(s: &String) -> (r: Option<OutputType>)
    ensures
        r == output_type_named(s@),
{
    if *s == String::from_str("object") {
        Some(OutputType::Object)
    } else if *s == String::from_str("array") {
        Some(OutputType::Array)
    } else {
        None
    }
}

fn is_key(k: &String, name: &str) -> (r: bool)
    ensures
        r == (k@ == name@),
{
    *k == String::from_str(name)
}

fn is_known_key(tag: Option<RuleTag>, k: &String) -> (r: bool)
    ensures
        r == known_key(tag, k@),
{
    match tag {
        None => is_key(k, "name") || is_key(k, "version") || is_key(k, "inputs") || is_key(
            k,
            "output_type",
        ) || is_key(k, "rules"),
        Some(t) => is_key(k, "rule") || match t {
            RuleTag::RequiredField => is_key(k, "field"),
            RuleTag::FieldType => is_key(k, "field") || is_key(k, "expected"),
            RuleTag::AllowedValues => is_key(k, "field") || is_key(k, "values"),
            RuleTag::Regex => is_key(k, "field") || is_key(k, "pattern"),
            RuleTag::MinItems => is_key(k, "value"),
            RuleTag::NoEmptyRows => false,
        },
    }
}

proof fn lemma_first_unknown_step(
    entries: Seq<(Seq<char>, Json)>,
    tag: Option<RuleTag>,
    i: int,
)
    requires
        0 <= i < entries.len(),
    ensures
        first_unknown(entries.subrange(i, entries.len() as int), tag) == if !known_key(
            tag,
            entries[i].0,
        ) {
            Some(entries[i].0)
        } else {
            first_unknown(entries.subrange(i + 1, entries.len() as int), tag)
        },
{
    let rest = entries.subrange(i, entries.len() as int);
    assert(rest.drop_first() =~= entries.subrange(i + 1, entries.len() as int));
}

fn first_unknown_key<'a>(entries: &'a Vec<(String, JsonValue)>, tag: Option<RuleTag>) -> (r:
    Option<&'a String>)
    ensures
        r is Some <==> first_unknown(entries_view(*entries), tag) is Some,
        r is Some ==> first_unknown(entries_view(*entries), tag) == Some(r->Some_0@),
{
    let ghost ev = entries_view(*entries);
    assert(ev.subrange(0, ev.len() as int) =~= ev);
    let mut i: usize = 0;
    while i < entries.len()
        invariant
            0 <= i <= entries.len(),
            ev == entries_view(*entries),
            first_unknown(ev, tag) == first_unknown(ev.subrange(i as int, ev.len() as int), tag),
        decreases entries.len() - i,
    {
        proof {
            lemma_first_unknown_step(ev, tag, i as int);
        }
        if !is_known_key(tag, &entries[i].0) {
            return Some(&entries[i].0);
        }
        i += 1;
    }
    assert(ev.subrange(i as int, ev.len() as int).len() == 0);
    None
}

/// The value under `key`.
fn entry<'a>(entries: &'a Vec<(String, JsonValue)>, key: &str) -> (r: Option<&'a JsonValue>)
    ensures
        r is Some <==> lookup(entries_view(*entries), key@) is Some,
        r is Some ==> lookup(entries_view(*entries), key@) == Some(r->Some_0@),
{
    get(entries, &String::from_str(key))
}

fn required_string<'a>(entries: &'a Vec<(String, JsonValue)>, key: &str) -> (r: Result<
    &'a String,
    ContractError,
>)
    ensures
        match r {
            Ok(s) => string_fault(entries_view(*entries), key@) is None && lookup(
                entries_view(*entries),
                key@,
            ) == Some(Json::Str(s@)),
            Err(e) => string_fault(entries_view(*entries), key@) == Some(e@),
        },
{
    match entry(entries, key) {
        None => Err(ContractError::MissingField(String::from_str(key))),
        Some(JsonValue::String(s)) => Ok(s),
        Some(_) => Err(ContractError::WrongKind(String::from_str(key))),
    }
}

/// Decodes the parameters of a rule of a known kind.
fn parse_params(tag: RuleTag, es: &Vec<(String, JsonValue)>) -> (r: Result<Rule, ContractError>)
    requires
        lookup(entries_view(*es), "rule"@) is Some,
        lookup(entries_view(*es), "rule"@)->Some_0 is Str,
        tag_named(lookup(entries_view(*es), "rule"@)->Some_0->Str_0) == Some(tag),
    ensures
        match r {
            Ok(rule) => params_fault(tag, entries_view(*es)) is None && rule_decodes(
                Json::Object(entries_view(*es)),
                rule,
            ),
            Err(e) => params_fault(tag, entries_view(*es)) == Some(e@),
        },
{
    let ghost ev = entries_view(*es);
    match tag {
        RuleTag::RequiredField => {
            let field = required_string(es, "field")?;
            Ok(Rule::RequiredField { field: field.clone() })
        },
        RuleTag::FieldType => {
            let field = required_string(es, "field")?;
            let expected = match entry(es, "expected") {
                None => {
                    return Err(ContractError::MissingField(String::from_str("expected")));
                },
                Some(JsonValue::String(s)) => match value_type_named(s) {
                    Some(t) => t,
                    None => {
                        return Err(ContractError::WrongKind(String::from_str("expected")));
                    },
                },
                Some(_) => {
                    return Err(ContractError::WrongKind(String::from_str("expected")));
                },
            };
            Ok(Rule::FieldType { field: field.clone(), expected })
        },
        RuleTag::AllowedValues => {
            let field = required_string(es, "field")?;
            let values = match entry(es, "values") {
                None => {
                    return Err(ContractError::MissingField(String::from_str("values")));
                },
                Some(JsonValue::Array(items)) => copy_items(items),
                Some(_) => {
                    return Err(ContractError::WrongKind(String::from_str("values")));
                },
            };
            Ok(Rule::AllowedValues { field: field.clone(), values })
        },
        RuleTag::Regex => {
            let field = required_string(es, "field")?;
            let pattern = required_string(es, "pattern")?;
            Ok(Rule::Regex { field: field.clone(), pattern: pattern.clone() })
        },
        RuleTag::MinItems => {
            match entry(es, "value") {
                None => Err(ContractError::MissingField(String::from_str("value"))),
                Some(JsonValue::Number(JsonNumber::PosInt(n))) => Ok(Rule::MinItems { value: *n }),
                Some(_) => Err(ContractError::WrongKind(String::from_str("value"))),
            }
        },
        RuleTag::NoEmptyRows => Ok(Rule::NoEmptyRows),
    }
}

/// Decodes one rule document.
pub fn parse_rule(j: &JsonValue) -> (r: Result<Rule, ContractError>)
    ensures
        match r {
            Ok(rule) => rule_fault(j@) is None && rule_decodes(j@, rule),
            Err(e) => rule_fault(j@) == Some(e@),
        },
{
    let es = match j {
        JsonValue::Object(es) => es,
        _ => {
            return Err(ContractError::NotAnObject(String::from_str("rule")));
        },
    };
    let tag = match entry(es, "rule") {
        None => {
            return Err(ContractError::MissingField(String::from_str("rule")));
        },
        Some(JsonValue::String(t)) => match tag_of(t) {
            Some(tag) => tag,
            None => {
                return Err(ContractError::UnknownRule(t.clone()));
            },
        },
        Some(_) => {
            return Err(ContractError::WrongKind(String::from_str("rule")));
        },
    };
    if let Some(k) = first_unknown_key(es, Some(tag)) {
        return Err(ContractError::UnknownField(k.clone()));
    }
    parse_params(tag, es)
}

fn parse_rules(rules: &Vec<JsonValue>) -> (r: Result<Vec<Rule>, ContractError>)
    ensures
        match r {
            Ok(rs) => rules_fault(items_view(*rules)) is None && rs.len() == rules.len() && forall|
                i: int,
            | 0 <= i < rs.len() ==> #[trigger] rule_decodes(items_view(*rules)[i], rs@[i]),
            Err(e) => rules_fault(items_view(*rules)) == Some(e@),
        },
{
    let ghost iv = items_view(*rules);
    let mut out: Vec<Rule> = Vec::new();
    let mut i: usize = 0;
    assert(iv.take(0) =~= seq![]);
    while i < rules.len()
        invariant
            0 <= i <= rules.len(),
            iv == items_view(*rules),
            out.len() == i,
            rules_fault(iv.take(i as int)) is None,
            forall|k: int| 0 <= k < i ==> #[trigger] rule_decodes(iv[k], out@[k]),
        decreases rules.len() - i,
    {
        let ghost next = iv.take(i + 1);
        assert(next.drop_last() =~= iv.take(i as int));
        assert(next.last() == rules[i as int]@);
        match parse_rule(&rules[i]) {
            Ok(rule) => {
                out.push(rule);
            },
            Err(e) => {
                proof {
                    let k = i as int;
                    assert(iv.take(rules.len() as int) =~= iv);
                    lemma_rules_fault_prefix(iv, k + 1);
                }
                return Err(e);
            },
        }
        i += 1;
    }
    assert(iv.take(rules.len() as int) =~= iv);
    Ok(out)
}

/// A fault in a prefix is the fault of the whole sequence.
proof fn lemma_rules_fault_prefix(rules: Seq<Json>, n: int)
    requires
        0 <= n <= rules.len(),
        rules_fault(rules.take(n)) is Some,
    ensures
        rules_fault(rules) == rules_fault(rules.take(n)),
    decreases rules.len() - n,
{
    if n < rules.len() {
        let next = rules.take(n + 1);
        assert(next.drop_last() =~= rules.take(n));
        lemma_rules_fault_prefix(rules, n + 1);
    } else {
        assert(rules.take(n) =~= rules);
    }
}

fn parse_inputs(items: &Vec<JsonValue>) -> (r: Option<Vec<String>>)
    ensures
        r is Some <==> all_strings(items_view(*items)),
        r is Some ==> strings_model(r->Some_0@) == items_view(*items),
{
    let ghost iv = items_view(*items);
    let mut out: Vec<String> = Vec::new();
    let mut i: usize = 0;
    while i < items.len()
        invariant
            0 <= i <= items.len(),
            iv == items_view(*items),
            out.len() == i,
            forall|k: int| 0 <= k < i ==> iv[k] == Json::Str(#[trigger] out@[k]@),
        decreases items.len() - i,
    {
        match &items[i] {
            JsonValue::String(s) => {
                out.push(s.clone());
            },
            _ => {
                assert(!(iv[i as int] is Str));
                return None;
            },
        }
        i += 1;
    }
    assert(strings_model(out@) =~= iv);
    Some(out)
}

/// Decodes a contract document. Refuses, with the first fault found, a
/// document that is not an object, holds a key it does not recognise, lacks
/// `inputs`, `output_type` or `rules`, has a value of the wrong kind, or a
/// rule that is not well formed.
pub fn parse_contract(doc: &JsonValue) -> (r: Result<Contract, ContractError>)
    ensures
        match r {
            Ok(c) => contract_fault(doc@) is None && contract_decodes(doc@, c),
            Err(e) => contract_fault(doc@) == Some(e@),
        },
{
    let es = match doc {
        JsonValue::Object(es) => es,
        _ => {
            return Err(ContractError::NotAnObject(String::from_str("contract")));
        },
    };
    if let Some(k) = first_unknown_key(es, None) {
        return Err(ContractError::UnknownField(k.clone()));
    }
    let name = match entry(es, "name") {
        None => None,
        Some(JsonValue::Null) => None,
        Some(JsonValue::String(s)) => Some(s.clone()),
        Some(_) => {
            return Err(ContractError::WrongKind(String::from_str("name")));
        },
    };
    let version = match entry(es, "version") {
        None => None,
        Some(JsonValue::Null) => None,
        Some(JsonValue::Number(JsonNumber::PosInt(n))) => {
            if *n <= 0xffff_ffff {
                Some(*n as u32)
            } else {
                return Err(ContractError::WrongKind(String::from_str("version")));
            }
        },
        Some(_) => {
            return Err(ContractError::WrongKind(String::from_str("version")));
        },
    };
    let inputs = match entry(es, "inputs") {
        None => {
            return Err(ContractError::MissingField(String::from_str("inputs")));
        },
        Some(JsonValue::Array(items)) => match parse_inputs(items) {
            Some(v) => v,
            None => {
                return Err(ContractError::WrongKind(String::from_str("inputs")));
            },
        },
        Some(_) => {
            return Err(ContractError::WrongKind(String::from_str("inputs")));
        },
    };
    let output_type = match entry(es, "output_type") {
        None => {
            return Err(ContractError::MissingField(String::from_str("output_type")));
        },
        Some(JsonValue::String(s)) => match output_type_of(s) {
            Some(t) => t,
            None => {
                return Err(ContractError::WrongKind(String::from_str("output_type")));
            },
        },
        Some(_) => {
            return Err(ContractError::WrongKind(String::from_str("output_type")));
        },
    };
    let rules = match entry(es, "rules") {
        None => {
            return Err(ContractError::MissingField(String::from_str("rules")));
        },
        Some(JsonValue::Array(items)) => parse_rules(items)?,
        Some(_) => {
            return Err(ContractError::WrongKind(String::from_str("rules")));
        },
    };
    Ok(Contract { name, version, inputs, output_type, rules })
}

} // verus!
