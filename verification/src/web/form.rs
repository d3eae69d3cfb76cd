//! The form built from a template configuration.
use vstd::prelude::*;

use crate::config::types::Type;
use crate::json::{clone_json, pretty_json, pretty_text, Json, JsonValue};
use crate::error::Result;
use crate::json::JsonMap;
use crate::renderer::TemplateRenderer;
use crate::text::{
    chars_of, has_prefix, lemma_string_views_push, lowercase, str_eq, string_views, string_of, to_lowercase, trim_start_white, trim_white, trim_white_exec,
};

verus! {

/// The kind of input a form field is.
#[derive(Debug, Clone, Copy, PartialEq, Eq, Structural)]
pub enum FieldType {
    /// A line of text.
    Text,
    /// A checkbox.
    Bool,
    /// One of several choices.
    Select,
    /// Any of several choices.
    MultiSelect,
    /// JSON text.
    Json,
    /// YAML text.
    Yaml,
}

/// The form-field descriptor used to build the UI
#[derive(Debug)]
pub struct FormField {
    /// The answer's key.
    pub key: String,
    /// The help text.
    pub help: String,
    /// The kind of input.
    pub field_type: FieldType,
    /// The default answer.
    pub default: JsonValue,
    /// For Select / MultiSelect
    pub choices: Vec<String>,
    /// Jinja2 condition that must evaluate to `true` before the field is shown.
    /// Empty string = always shown.
    pub ask_if: String,
}

/// Parsed baker configuration ready to drive the form UI
#[derive(Debug)]
pub struct BakerConfig {
    /// Suffix of the files that are templates.
    pub template_suffix: String,
    /// The fields, in the order of the questions.
    pub fields: Vec<FormField>,
}

/// The value a field starts with: a checkbox starts with the boolean
/// default (else unchecked), a multi-select with the default list (else
/// nothing selected), any other field with the default.
pub open spec fn initial_json(t: FieldType, default: Json) -> Json {
    match t {
        FieldType::Bool => Json::Bool(
            match default {
                Json::Bool(b) => b,
                _ => false,
            },
        ),
        FieldType::MultiSelect => if default is Array {
            default
        } else {
            Json::Array(Seq::empty())
        },
        _ => default,
    }
}

/// The kind of field for a question of type `t`.
pub open spec fn field_type_of(t: Type, has_choices: bool, multiselect: bool) -> FieldType {
    match t {
        Type::Str => if has_choices {
            if multiselect {
                FieldType::MultiSelect
            } else {
                FieldType::Select
            }
        } else {
            FieldType::Text
        },
        Type::Bool => FieldType::Bool,
        Type::Json => FieldType::Json,
        Type::Yaml => FieldType::Yaml,
    }
}

impl FieldType {
    /// The value the field starts with, from the question's default.
    pub fn initial_value(&self, default: &JsonValue) -> (r: JsonValue)
        ensures
            r@ == initial_json(*self, default@),
    {
        match self {
            FieldType::Bool => JsonValue::Bool(
                match default.as_bool() {
                    Some(b) => b,
                    None => false,
                },
            ),
            FieldType::MultiSelect => {
                if default.is_array() {
                    clone_json(default)
                } else {
                    let r = JsonValue::Array(Vec::new());
                    assert(r@->Array_0 =~= Seq::<Json>::empty());
                    r
                }
            },
            _ => clone_json(default),
        }
    }

    /// The kind of field for a question of type `t`, with or without
    /// choices, allowing several or one.
    pub fn for_question(t: Type, has_choices: bool, multiselect: bool) -> (r: FieldType)
        ensures
            r == field_type_of(t, has_choices, multiselect),
    {
        match t {
            Type::Str => if has_choices {
                if multiselect {
                    FieldType::MultiSelect
                } else {
                    FieldType::Select
                }
            } else {
                FieldType::Text
            },
            Type::Bool => FieldType::Bool,
            Type::Json => FieldType::Json,
            Type::Yaml => FieldType::Yaml,
        }
    }
}

impl FormField {
    /// The field of the question `key` of type `t`.
    pub fn from_question(
        key: String,
        help: String,
        t: Type,
        default: JsonValue,
        choices: Vec<String>,
        multiselect: bool,
        ask_if: String,
    ) -> (r: FormField)
        ensures
            r.key == key,
            r.help == help,
            r.field_type == field_type_of(t, choices@.len() > 0, multiselect),
            r.default == default,
            r.choices == choices,
            r.ask_if == ask_if,
    {
        let field_type = FieldType::for_question(t, choices.len() > 0, multiselect);
        FormField { key, help, field_type, default, choices, ask_if }
    }
}

impl FormField {
    /// The value the field shows: the value entered for its key, else its
    /// initial value.
    pub fn current_value(&self, values: &JsonMap) -> (r: JsonValue)
        ensures
            r@ == if values.map().contains_key(self.key@) {
                values.map()[self.key@]
            } else {
                initial_json(self.field_type, self.default@)
            },
    {
        match values.get(self.key.as_str()) {
            Some(v) => clone_json(v),
            None => self.field_type.initial_value(&self.default),
        }
    }
}

/// Whether a checkbox with this value is checked.
pub fn is_checked(value: &JsonValue) -> (r: bool)
    ensures
        r == match value@ {
            Json::Bool(b) => b,
            _ => false,
        },
{
    match value.as_bool() {
        Some(b) => b,
        None => false,
    }
}

/// The text a text field or a single-choice field shows for this value:
/// the string, or nothing for any other value.
pub fn shown_text(value: &JsonValue) -> (r: String)
    ensures
        r@ == match value@ {
            Json::Str(s) => s,
            _ => Seq::empty(),
        },
{
    match value {
        JsonValue::String(s) => s.clone(),
        _ => String::new(),
    }
}

/// The text a JSON or YAML field's text area shows for this value: the
/// string itself, or the value pretty-printed by `serde_json`.
pub fn textarea_text(value: &JsonValue) -> (r: String)
    ensures
        r@ == match value@ {
            Json::Str(s) => s,
            _ => pretty_text(value@),
        },
{
    match value {
        JsonValue::String(s) => s.clone(),
        _ => pretty_json(value),
    }
}

/// The strings among a list of values, in order.
pub open spec fn string_items(items: Seq<Json>) -> Seq<Seq<char>>
    decreases items.len(),
{
    if items.len() == 0 {
        Seq::empty()
    } else {
        let rest = string_items(items.drop_last());
        match items.last() {
            Json::Str(s) => rest.push(s),
            _ => rest,
        }
    }
}

/// The choices a multi-select with this value has selected: the strings of
/// the list, nothing for any other value.
pub fn selected_choices(value: &JsonValue) -> (r: Vec<String>)
    ensures
        string_views(r@) == match value@ {
            Json::Array(items) => string_items(items),
            _ => Seq::empty(),
        },
{
    let mut out: Vec<String> = Vec::new();
    match value {
        JsonValue::Array(items) => {
            let ghost iv = value@->Array_0;
            let mut i: usize = 0;
            while i < items.len()
                invariant
                    i <= items@.len(),
                    iv.len() == items@.len(),
                    forall|k: int| 0 <= k < items@.len() ==> iv[k] == #[trigger] items@[k]@,
                    string_views(out@) == string_items(iv.take(i as int)),
                decreases items@.len() - i,
            {
                proof {
                    assert(iv.take(i + 1).drop_last() =~= iv.take(i as int));
                    assert(iv.take(i + 1).last() == items@[i as int]@);
                }
                match &items[i] {
                    JsonValue::String(s) => {
                        let ghost before = out@;
                        let c = s.clone();
                        out.push(c);
                        proof {
                            lemma_string_views_push(before, c);
                        }
                    },
                    _ => {},
                }
                i += 1;
            }
            proof {
                assert(iv.take(iv.len() as int) =~= iv);
            }
        },
        _ => {
            assert(string_views(out@) =~= Seq::<Seq<char>>::empty());
        },
    }
    out
}

/// The list without any occurrence of `c`.
pub open spec fn without(s: Seq<Seq<char>>, c: Seq<char>) -> Seq<Seq<char>>
    decreases s.len(),
{
    if s.len() == 0 {
        Seq::empty()
    } else if s.last() == c {
        without(s.drop_last(), c)
    } else {
        without(s.drop_last(), c).push(s.last())
    }
}

/// The selection after clicking `c`: a selected choice is removed, any
/// other is added at the end.
pub open spec fn toggled(selected: Seq<Seq<char>>, c: Seq<char>) -> Seq<Seq<char>> {
    if selected.contains(c) {
        without(selected, c)
    } else {
        selected.push(c)
    }
}

/// Removing a missing item changes nothing.
proof fn lemma_without_missing(s: Seq<Seq<char>>, c: Seq<char>)
    requires
        !s.contains(c),
    ensures
        without(s, c) == s,
    decreases s.len(),
{
    if s.len() > 0 {
        assert(!s.drop_last().contains(c)) by {
            if s.drop_last().contains(c) {
                let w = choose|w: int| 0 <= w < s.drop_last().len() && s.drop_last()[w] == c;
                assert(s[w] == c);
            }
        }
        lemma_without_missing(s.drop_last(), c);
        assert(s.last() != c) by {
            if s.last() == c {
                assert(s[s.len() - 1] == c);
            }
        }
        assert(s.drop_last().push(s.last()) =~= s);
    }
}

/// Clicking a choice twice gives the selection back, for a choice that was
/// not selected.
pub proof fn law_toggle_twice_restores(selected: Seq<Seq<char>>, c: Seq<char>)
    requires
        !selected.contains(c),
    ensures
        toggled(toggled(selected, c), c) == selected,
{
    let once = selected.push(c);
    assert(once[selected.len() as int] == c);
    assert(once.contains(c));
    assert(once.drop_last() =~= selected);
    lemma_without_missing(selected, c);
}

/// A list with one more item contains what the list contains, and the item.
proof fn lemma_contains_push(s: Seq<Seq<char>>, x: Seq<char>, c: Seq<char>)
    ensures
        s.push(x).contains(c) == (s.contains(c) || x == c),
{
    if s.contains(c) {
        let w = choose|w: int| 0 <= w < s.len() && s[w] == c;
        assert(s.push(x)[w] == c);
    }
    if x == c {
        assert(s.push(x)[s.len() as int] == c);
    }
    if s.push(x).contains(c) {
        let w = choose|w: int| 0 <= w < s.push(x).len() && s.push(x)[w] == c;
        if w < s.len() {
            assert(s[w] == c);
        }
    }
}

/// The value of a multi-select after clicking the choice `choice`.
pub fn toggle_choice(selected: &Vec<String>, choice: &str) -> (r: JsonValue)
    ensures
        r@ == Json::Array(toggled(string_views(selected@), choice@).map_values(|t: Seq<char>| Json::Str(t))),
{
    let ghost sv = string_views(selected@);
    let mut present = false;
    let mut i: usize = 0;
    while i < selected.len()
        invariant
            i <= selected@.len(),
            sv == string_views(selected@),
            present == sv.take(i as int).contains(choice@),
        decreases selected@.len() - i,
    {
        proof {
            assert(sv.take(i + 1) =~= sv.take(i as int).push(sv[i as int]));
            assert(sv[i as int] == selected@[i as int]@);
            lemma_contains_push(sv.take(i as int), sv[i as int], choice@);
        }
        if str_eq(selected[i].as_str(), choice) {
            present = true;
        }
        i += 1;
    }
    proof {
        assert(sv.take(sv.len() as int) =~= sv);
    }
    let mut next: Vec<String> = Vec::new();
    let mut k: usize = 0;
    while k < selected.len()
        invariant
            k <= selected@.len(),
            sv == string_views(selected@),
            present == sv.contains(choice@),
            string_views(next@) == if present {
                without(sv.take(k as int), choice@)
            } else {
                sv.take(k as int)
            },
        decreases selected@.len() - k,
    {
        proof {
            assert(sv.take(k + 1).drop_last() =~= sv.take(k as int));
            assert(sv.take(k + 1).last() == selected@[k as int]@);
        }
        if !present || !str_eq(selected[k].as_str(), choice) {
            let ghost before = next@;
            let c = selected[k].clone();
            next.push(c);
            proof {
                lemma_string_views_push(before, c);
            }
        }
        k += 1;
    }
    proof {
        assert(sv.take(sv.len() as int) =~= sv);
    }
    if !present {
        let ghost before = next@;
        let c = String::from_str(choice);
        next.push(c);
        proof {
            lemma_string_views_push(before, c);
        }
    }
    let ghost names = string_views(next@);
    assert(names == toggled(sv, choice@));
    let mut items: Vec<JsonValue> = Vec::new();
    let mut j: usize = 0;
    while j < next.len()
        invariant
            j <= next@.len(),
            names == string_views(next@),
            items@.len() == j,
            forall|m: int| 0 <= m < j ==> (#[trigger] items@[m])@ == Json::Str(names[m]),
        decreases next@.len() - j,
    {
        items.push(JsonValue::String(next[j].clone()));
        j += 1;
    }
    let r = JsonValue::Array(items);
    proof {
        let x = r@->Array_0;
        let y = names.map_values(|t: Seq<char>| Json::Str(t));
        assert(x.len() == y.len());
        assert forall|m: int| 0 <= m < x.len() implies x[m] == y[m] by {
            assert(x[m] == items@[m]@);
        }
        assert(x =~= y);
    }
    r
}

/// A question of a configuration file, as the form reads it.
#[derive(Debug)]
pub struct RawQuestion {
    /// The help text.
    pub help: String,
    /// The question's type.
    pub question_type: Type,
    /// The default answer.
    pub default: JsonValue,
    /// The choices offered, if any.
    pub choices: Vec<String>,
    /// Whether several choices may be taken.
    pub multiselect: bool,
    /// The condition under which the question is asked.
    pub ask_if: String,
}

/// The field built from the question `key`.
pub open spec fn field_for(f: FormField, key: String, q: RawQuestion) -> bool {
    &&& f.key == key
    &&& f.help == q.help
    &&& f.field_type == field_type_of(q.question_type, q.choices@.len() > 0, q.multiselect)
    &&& f.default == q.default
    &&& f.choices == q.choices
    &&& f.ask_if == q.ask_if
}

/// The form configuration of a parsed configuration file: its template
/// suffix (`.baker.j2` where it names none) and one field per question, in
/// the order of the questions.
pub fn parse_config(template_suffix: Option<String>, questions: Vec<(String, RawQuestion)>) -> (r:
    BakerConfig)
    ensures
        r.template_suffix@ == match template_suffix {
            Some(s) => s@,
            None => ".baker.j2"@,
        },
        r.fields@.len() == questions@.len(),
        forall|i: int|
            0 <= i < questions@.len() ==> field_for(
                #[trigger] r.fields@[i],
                questions@[i].0,
                questions@[i].1,
            ),
{
    let suffix = match template_suffix {
        Some(s) => s,
        None => default_suffix(),
    };
    let mut fields: Vec<FormField> = Vec::new();
    let mut rest = questions;
    let ghost all = rest@;
    let total = rest.len();
    assert(all.len() == total);
    let mut i: usize = 0;
    while rest.len() > 0
        invariant
            i + rest@.len() == all.len(),
            all.len() <= usize::MAX,
            rest@ == all.subrange(i as int, all.len() as int),
            fields@.len() == i,
            forall|k: int| 0 <= k < i ==> field_for(#[trigger] fields@[k], all[k].0, all[k].1),
        decreases rest@.len(),
    {
        let (key, q) = rest.remove(0);
        proof {
            assert(all[i as int] == (key, q));
            assert(rest@ =~= all.subrange(i + 1, all.len() as int));
        }
        let RawQuestion { help, question_type, default, choices, multiselect, ask_if } = q;
        let f = FormField::from_question(key, help, question_type, default, choices, multiselect, ask_if);
        fields.push(f);
        i += 1;
    }
    BakerConfig { template_suffix: suffix, fields }
}

/// The template suffix of a configuration that does not name one.
pub fn default_suffix() -> (r: String)
    ensures
        r@ == ".baker.j2"@,
{
    String::from_str(".baker.j2")
}

/// A configuration text is read as JSON when its first non-blank character
/// is `{`, else as YAML.
pub open spec fn is_json_text(src: Seq<char>) -> bool {
    has_prefix(trim_start_white(src), seq!['{'])
}

/// Whether a configuration text is read as JSON (else as YAML).
pub fn looks_like_json(src: &str) -> (r: bool)
    ensures
        r == is_json_text(src@),
{
    let cs = chars_of(src);
    let mut i: usize = 0;
    while i < cs.len() && crate::text::is_white_exec(cs[i])
        invariant
            cs@ == src@,
            i <= cs@.len(),
            forall|k: int| 0 <= k < i ==> crate::text::is_white(#[trigger] cs@[k]),
        decreases cs@.len() - i,
    {
        i += 1;
    }
    proof {
        crate::text::lemma_trim_start_white(cs@, i as int);
        let t = cs@.subrange(i as int, cs@.len() as int);
        assert(trim_start_white(src@) == t);
        if t.len() > 0 {
            assert(t[0] == cs@[i as int]);
            if cs@[i as int] == '{' {
                assert(t.subrange(0, 1) =~= seq!['{']);
            } else {
                assert(t.subrange(0, 1)[0] != seq!['{'][0]);
            }
        }
    }
    i < cs.len() && cs[i] == '{'
}

/// A checkbox always starts with a boolean and a multi-select with a list,
/// whatever the configured default.
pub proof fn law_initial_values_fit_the_field(default: Json)
    ensures
        initial_json(FieldType::Bool, default) is Bool,
        initial_json(FieldType::MultiSelect, default) is Array,
        default is Array ==> initial_json(FieldType::MultiSelect, default) == default,
{
}

/// A rendered condition that reads as false: `false`, `0`, `no`, `none`
/// (in any letter case) or nothing, once trimmed.
pub open spec fn reads_false(rendered: Seq<char>) -> bool {
    let t = lowercase(trim_white(rendered));
    t == "false"@ || t == "0"@ || t == ""@ || t == "no"@ || t == "none"@
}

/// Whether a field with a condition is shown, given the condition's
/// rendering: hidden only when it rendered to a false-looking text.
pub open spec fn shown_for(rendered: Result<String>) -> bool {
    match rendered {
        Ok(s) => !reads_false(s@),
        Err(_) => true,
    }
}

/// Whether a rendered condition shows its field.
pub fn shows(rendered: Result<String>) -> (r: bool)
    ensures
        r == shown_for(rendered),
{
    match rendered {
        Err(_) => true,
        Ok(s) => {
            let cs = chars_of(s.as_str());
            let t = string_of(&trim_white_exec(&cs));
            let lower = chars_of(to_lowercase(t.as_str()).as_str());
            proof {
                reveal_strlit("false");
                reveal_strlit("0");
                reveal_strlit("");
                reveal_strlit("no");
                reveal_strlit("none");
            }
            let is_false = crate::text::chars_eq(&lower, &chars_of("false")) || crate::text::chars_eq(
                &lower,
                &chars_of("0"),
            ) || lower.len() == 0 || crate::text::chars_eq(&lower, &chars_of("no"))
                || crate::text::chars_eq(&lower, &chars_of("none"));
            proof {
                if lower@.len() == 0 {
                    assert(lower@ =~= ""@);
                }
            }
            !is_false
        },
    }
}

/// Whether a form field is shown, given the values entered so far: a field
/// without condition always is; otherwise its condition is rendered
/// against the values and judged by `shows`.
pub fn should_show<E: TemplateRenderer>(engine: &E, field: &FormField, values: &JsonMap) -> (r: bool)
    ensures
        r == if field.ask_if@.len() == 0 {
            true
        } else {
            shown_for(engine.rendered(field.ask_if@, Json::Object(values.entries()), None))
        },
{
    if field.ask_if.as_str().is_empty() {
        return true;
    }
    let context = JsonValue::Object(crate::json::clone_map(values));
    shows(engine.render(field.ask_if.as_str(), &context, None))
}

} // verus!
