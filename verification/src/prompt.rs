//! Asking a question: the prompt configuration built from the question and
//! its default, and the answer built from what the prompt returned.
use vstd::prelude::*;

/// Interfaces of the prompts.
pub mod interface;

use crate::config::question::Question;
use crate::config::types::QuestionType;
use crate::error::{Error, Result};
use crate::json::{clone_json, compact_json, compact_text, Json, JsonValue};
use crate::prompt::interface::{
    ConfirmationConfig, MultipleChoiceConfig, PromptProvider, SecretConfig, SingleChoiceConfig,
    StructuredDataConfig, TextPromptConfig,
};
use crate::text::{chars_of, str_eq, string_views, trim_white, trim_white_exec};

verus! {

/// The position of the default among the choices: the first choice equal
/// to the default text, or the first choice when there is none.
pub open spec fn default_position(choices: Seq<Seq<char>>, default: Json) -> int {
    match default {
        Json::Str(s) => if exists|k: int| 0 <= k < choices.len() && choices[k] == s {
            choose|k: int|
                0 <= k < choices.len() && choices[k] == s && forall|j: int|
                    0 <= j < k ==> choices[j] != s
        } else {
            0
        },
        _ => 0,
    }
}

/// The default is a list holding the text `c`.
pub open spec fn default_lists(default: Json, c: Seq<char>) -> bool {
    match default {
        Json::Array(items) => exists|j: int| 0 <= j < items.len() && items[j] == Json::Str(c),
        _ => false,
    }
}

/// The message of the error for a selection outside the choices.
pub open spec fn bad_selection_message() -> Seq<char> {
    "selection is not one of the choices"@
}

/// The text a default is offered as: a string as it is, nothing for
/// `null`, other values as their JSON text.
pub fn default_string(value: &JsonValue) -> (r: String)
    ensures
        value@ matches Json::Str(s) ==> r@ == s,
        value@ is Null ==> r@ == Seq::<char>::empty(),
        !(value@ is Str || value@ is Null) ==> r@ == compact_text(value@),
{
    match value {
        JsonValue::String(s) => s.clone(),
        JsonValue::Null => String::new(),
        _ => compact_json(value),
    }
}

/// The index of the first choice equal to `s`, if any.
fn position_of(choices: &Vec<String>, s: &str) -> (r: Option<usize>)
    ensures
        match r {
            Some(k) => k < choices@.len() && choices@[k as int]@ == s@ && forall|j: int|
                0 <= j < k ==> choices@[j]@ != s@,
            None => forall|j: int| 0 <= j < choices@.len() ==> choices@[j]@ != s@,
        },
{
    let mut i: usize = 0;
    while i < choices.len()
        invariant
            i <= choices@.len(),
            forall|j: int| 0 <= j < i ==> choices@[j]@ != s@,
        decreases choices@.len() - i,
    {
        if str_eq(choices[i].as_str(), s) {
            return Some(i);
        }
        i += 1;
    }
    None
}

/// The configuration of a single-choice prompt: the choices of the
/// question, with the default's position selected.
pub fn single_choice_config(choices: &Vec<String>, default: &JsonValue, help: &str) -> (r:
    SingleChoiceConfig)
    ensures
        r.prompt@ == help@,
        r.choices@ == choices@,
        r.default_index == Some(default_position(string_views(choices@), default@) as usize),
{
    let index = match default.as_str() {
        Some(s) => match position_of(choices, s) {
            Some(k) => {
                proof {
                    let cs = string_views(choices@);
                    assert(cs[k as int] == s@);
                    assert(forall|j: int| 0 <= j < k ==> cs[j] == choices@[j]@);
                    let w = choose|m: int|
                        0 <= m < cs.len() && cs[m] == s@ && forall|j: int| 0 <= j < m ==> cs[j] != s@;
                    if w < k {
                        assert(cs[w] == choices@[w]@);
                    }
                    if k < w {
                        assert(cs[k as int] != s@);
                    }
                }
                k
            },
            None => {
                proof {
                    let cs = string_views(choices@);
                    assert forall|m: int| 0 <= m < cs.len() implies cs[m] != s@ by {
                        assert(cs[m] == choices@[m]@);
                    }
                }
                0
            },
        },
        None => 0,
    };
    SingleChoiceConfig { prompt: String::from_str(help), choices: clone_strings(choices), default_index: Some(index) }
}

/// A copy of a list of strings.
fn clone_strings(v: &Vec<String>) -> (r: Vec<String>)
    ensures
        r@ == v@,
{
    let mut out: Vec<String> = Vec::new();
    let mut i: usize = 0;
    while i < v.len()
        invariant
            i <= v@.len(),
            out@ == v@.subrange(0, i as int),
        decreases v@.len() - i,
    {
        out.push(v[i].clone());
        i += 1;
    }
    assert(v@.subrange(0, v@.len() as int) =~= v@);
    out
}

/// Whether the default is a list holding the text `c`.
fn lists(default: &JsonValue, c: &str) -> (r: bool)
    ensures
        r == default_lists(default@, c@),
{
    match default {
        JsonValue::Array(items) => {
            let ghost es = default@->Array_0;
            proof {
                assert(es.len() == items@.len());
                assert(forall|k: int| 0 <= k < es.len() ==> es[k] == crate::json::json_view(items@[k]));
            }
            let mut j: usize = 0;
            while j < items.len()
                invariant
                    j <= items@.len(),
                    default@ == Json::Array(es),
                    es.len() == items@.len(),
                    forall|k: int| 0 <= k < es.len() ==> es[k] == crate::json::json_view(items@[k]),
                    forall|k: int| 0 <= k < j ==> es[k] != Json::Str(c@),
                decreases items@.len() - j,
            {
                match items[j].as_str() {
                    Some(s) => {
                        if str_eq(s, c) {
                            proof {
                                assert(es[j as int] == Json::Str(c@));
                            }
                            return true;
                        }
                    },
                    None => {},
                }
                j += 1;
            }
            false
        },
        _ => false,
    }
}

/// The configuration of a multiple-choice prompt: the choices of the
/// question, those listed in the default selected.
pub fn multiple_choice_config(choices: &Vec<String>, default: &JsonValue, help: &str) -> (r:
    MultipleChoiceConfig)
    ensures
        r.prompt@ == help@,
        r.choices@ == choices@,
        r.defaults@.len() == choices@.len(),
        forall|i: int|
            0 <= i < choices@.len() ==> r.defaults@[i] == default_lists(default@, choices@[i]@),
{
    let mut defaults: Vec<bool> = Vec::new();
    let mut i: usize = 0;
    while i < choices.len()
        invariant
            i <= choices@.len(),
            defaults@.len() == i,
            forall|k: int| 0 <= k < i ==> defaults@[k] == default_lists(default@, choices@[k]@),
        decreases choices@.len() - i,
    {
        let b = lists(default, choices[i].as_str());
        defaults.push(b);
        i += 1;
    }
    MultipleChoiceConfig { prompt: String::from_str(help), choices: clone_strings(choices), defaults }
}

/// The configuration of a confirmation: the default is the boolean
/// default, or `false`.
pub fn confirmation_config(default: &JsonValue, help: &str) -> (r: ConfirmationConfig)
    ensures
        r.prompt@ == help@,
        r.default == match default@ {
            Json::Bool(b) => b,
            _ => false,
        },
{
    let d = match default.as_bool() {
        Some(b) => b,
        None => false,
    };
    ConfirmationConfig { prompt: String::from_str(help), default: d }
}

/// The configuration of a text prompt: the default text, and for a secret
/// question whether it is confirmed and the mismatch message (`Mismatch`
/// when none is configured).
pub fn text_prompt_config(question: &Question, default_text: String, help: &str) -> (r:
    TextPromptConfig)
    ensures
        r.prompt@ == help@,
        r.default matches Some(d) && d@ == default_text@,
        question.secret is None ==> r.secret is None,
        question.secret matches Some(s) ==> (r.secret matches Some(c) && c.confirm == s.confirm
            && c.mismatch_error@ == if s.mistmatch_err@.len() == 0 {
            "Mismatch"@
        } else {
            s.mistmatch_err@
        }),
{
    let secret = match &question.secret {
        Some(s) => {
            let message = if s.mistmatch_err.as_str().is_empty() {
                proof {
                    reveal_strlit("Mismatch");
                }
                String::from_str("Mismatch")
            } else {
                s.mistmatch_err.clone()
            };
            Some(SecretConfig { confirm: s.confirm, mismatch_error: message })
        },
        None => None,
    };
    TextPromptConfig { prompt: String::from_str(help), default: Some(default_text), secret }
}

/// The configuration of a structured-data prompt.
pub fn structured_data_config(default: &JsonValue, help: &str, is_yaml: bool) -> (r:
    StructuredDataConfig)
    ensures
        r.prompt@ == help@,
        r.default_value@ == default@,
        r.is_yaml == is_yaml,
        r.file_extension@ == if is_yaml {
            ".yaml"@
        } else {
            ".json"@
        },
{
    proof {
        reveal_strlit(".yaml");
        reveal_strlit(".json");
    }
    let extension = if is_yaml {
        String::from_str(".yaml")
    } else {
        String::from_str(".json")
    };
    StructuredDataConfig {
        prompt: String::from_str(help),
        default_value: clone_json(default),
        is_yaml,
        file_extension: extension,
    }
}

/// The answer to a single-choice prompt: the selected choice.
pub fn single_choice_answer(choices: &Vec<String>, selection: usize) -> (r: Result<JsonValue>)
    ensures
        selection < choices@.len() ==> (r matches Ok(v) && v@ == Json::Str(choices@[selection as int]@)),
        selection >= choices@.len() ==> (r matches Err(Error::DialoguerError(m)) && m@
            == bad_selection_message()),
{
    if selection < choices.len() {
        Ok(JsonValue::String(choices[selection].clone()))
    } else {
        proof {
            reveal_strlit("selection is not one of the choices");
        }
        Err(Error::DialoguerError(String::from_str("selection is not one of the choices")))
    }
}

/// The answer to a multiple-choice prompt: the selected choices, in the
/// order of the selection.
pub fn multiple_choice_answer(choices: &Vec<String>, selection: &Vec<usize>) -> (r: Result<JsonValue>)
    ensures
        (forall|k: int| 0 <= k < selection@.len() ==> selection@[k] < choices@.len()) <==> r is Ok,
        r matches Ok(v) ==> v@ == Json::Array(
            Seq::new(selection@.len(), |k: int| Json::Str(choices@[selection@[k] as int]@)),
        ),
        r matches Err(e) ==> e matches Error::DialoguerError(m) && m@ == bad_selection_message(),
{
    let mut items: Vec<JsonValue> = Vec::new();
    let mut k: usize = 0;
    while k < selection.len()
        invariant
            k <= selection@.len(),
            items@.len() == k,
            forall|j: int| 0 <= j < k ==> selection@[j] < choices@.len(),
            forall|j: int|
                0 <= j < k ==> crate::json::json_view(#[trigger] items@[j]) == Json::Str(
                    choices@[selection@[j] as int]@,
                ),
        decreases selection@.len() - k,
    {
        let i = selection[k];
        if i >= choices.len() {
            proof {
                reveal_strlit("selection is not one of the choices");
            }
            return Err(Error::DialoguerError(String::from_str("selection is not one of the choices")));
        }
        items.push(JsonValue::String(choices[i].clone()));
        k += 1;
    }
    let r = JsonValue::Array(items);
    proof {
        let target = Seq::new(selection@.len(), |k: int| Json::Str(choices@[selection@[k] as int]@));
        assert(r@->Array_0 =~= target);
    }
    Ok(r)
}

/// Asks a question with the prompt that fits its kind, offering `default`
/// and showing `help`, and turns the reply into an answer.
pub fn ask_question<Q: PromptProvider>(
    prompter: &Q,
    question: &Question,
    default: &JsonValue,
    help: &str,
) -> (r: Result<JsonValue>)
    ensures
        r matches Ok(v) ==> match question.prompt_kind() {
            QuestionType::Boolean => v@ is Bool,
            QuestionType::Text => v@ is Str,
            QuestionType::SingleChoice => (v@ matches Json::Str(s) && string_views(
                question.choices@,
            ).contains(s)),
            QuestionType::MultipleChoice => v@ is Array,
            _ => true,
        },
{
    match question.question_type() {
        QuestionType::MultipleChoice => {
            let config = multiple_choice_config(&question.choices, default, help);
            let selection = prompter.prompt_multiple_choice(&config)?;
            multiple_choice_answer(&question.choices, &selection)
        },
        QuestionType::Boolean => {
            let config = confirmation_config(default, help);
            let answer = prompter.prompt_confirmation(&config)?;
            Ok(JsonValue::Bool(answer))
        },
        QuestionType::SingleChoice => {
            let config = single_choice_config(&question.choices, default, help);
            let selection = prompter.prompt_single_choice(&config)?;
            let r = single_choice_answer(&question.choices, selection);
            proof {
                if selection < question.choices@.len() {
                    assert(string_views(question.choices@)[selection as int] == question.choices@[selection as int]@);
                }
            }
            r
        },
        QuestionType::Text => {
            let config = text_prompt_config(question, default_string(default), help);
            let answer = prompter.prompt_text(&config)?;
            Ok(JsonValue::String(answer))
        },
        QuestionType::Json | QuestionType::Yaml => {
            let is_yaml = match question.question_type() {
                QuestionType::Yaml => true,
                _ => false,
            };
            let config = structured_data_config(default, help, is_yaml);
            prompter.prompt_structured_data(&config)
        },
    }
}

/// Structured text typed or edited by the user is parsed only when it
/// holds more than white space; otherwise the prompt falls back (to the
/// default after editing, to `null` after typing).
pub fn entered_text(text: Option<String>) -> (r: Option<String>)
    ensures
        match text {
            Some(t) => if trim_white(t@).len() > 0 {
                r == Some(t)
            } else {
                r is None
            },
            None => r is None,
        },
{
    match text {
        Some(t) => {
            let cs = chars_of(t.as_str());
            if trim_white_exec(&cs).len() > 0 {
                Some(t)
            } else {
                None
            }
        },
        None => None,
    }
}

} // verus!
