//! Question configuration and rendering logic
use vstd::prelude::*;

use crate::config::types::{QuestionType, Secret, Type, Validation};
use crate::error::Result;
use crate::json::{clone_json, map_of, Json, JsonMap, JsonValue};
use crate::renderer::{blank_expression, is_blank_expression, parse_gives, parses_any_text, TemplateRenderer};

verus! {

/// Represents a single question in the configuration
#[derive(Debug)]
pub struct Question {
    /// Help text/prompt to display to the user
    pub help: String,
    /// Type of the question (string, boolean, JSON or YAML)
    pub kind: Type,
    /// Optional default value for the question
    pub default: JsonValue,
    /// Available choices for string questions
    pub choices: Vec<String>,
    /// Whether several choices may be selected
    pub multiselect: bool,
    /// Whether the string is a secret
    pub secret: Option<Secret>,
    /// Condition under which the question is asked (empty: always)
    pub ask_if: String,
    /// JSON Schema for validation (for Json and Yaml types)
    pub schema: Option<String>,
    /// Path to a file containing JSON Schema for validation (for Json and Yaml types)
    pub schema_file: Option<String>,
    /// Validation rule of the answer
    pub validation: Validation,
}

/// A question prepared for asking: its condition evaluated, its default and
/// help text rendered.
#[derive(Debug)]
pub struct QuestionRendered {
    /// Whether the question is to be asked.
    pub ask_if: bool,
    /// The default answer.
    pub default: JsonValue,
    /// The help text.
    pub help: String,
    /// The kind of prompt.
    pub kind: QuestionType,
}

/// The kind of prompt for a question of type `t`: string questions with
/// choices are choice prompts, without choices text prompts.
pub open spec fn question_type_of(t: Type, has_choices: bool, multiselect: bool) -> QuestionType {
    match t {
        Type::Str => if has_choices {
            if multiselect {
                QuestionType::MultipleChoice
            } else {
                QuestionType::SingleChoice
            }
        } else {
            QuestionType::Text
        },
        Type::Bool => QuestionType::Boolean,
        Type::Json => QuestionType::Json,
        Type::Yaml => QuestionType::Yaml,
    }
}

/// Conversion of a question to the kind of prompt it is asked with.
pub trait IntoQuestionType {
    /// The kind of prompt.
    fn into_question_type(&self) -> QuestionType;
}

impl Question {
    /// The kind of prompt of this question.
    pub open spec fn prompt_kind(&self) -> QuestionType {
        question_type_of(self.kind, self.choices@.len() > 0, self.multiselect)
    }
}

impl IntoQuestionType for Question {
    fn into_question_type(&self) -> (r: QuestionType)
        ensures
            r == self.prompt_kind(),
    {
        match self.kind {
            Type::Str => {
                if self.choices.len() > 0 {
                    if self.multiselect {
                        QuestionType::MultipleChoice
                    } else {
                        QuestionType::SingleChoice
                    }
                } else {
                    QuestionType::Text
                }
            },
            Type::Bool => QuestionType::Boolean,
            Type::Json => QuestionType::Json,
            Type::Yaml => QuestionType::Yaml,
        }
    }
}

/// The answer already given for `key`, if `answers` is an object holding it.
pub open spec fn prefilled(key: Seq<char>, answers: Json) -> Option<Json> {
    match answers {
        Json::Object(es) => if map_of(es).contains_key(key) {
            Some(map_of(es)[key])
        } else {
            None
        },
        _ => None,
    }
}

/// The text of a rendering, or the empty text when rendering failed.
pub open spec fn rendered_or_empty(rendered: Result<String>) -> Seq<char> {
    match rendered {
        Ok(s) => s@,
        Err(_) => Seq::empty(),
    }
}

/// The value of a parse, or an empty object when parsing failed.
pub open spec fn parsed_or_empty_object(parsed: Result<JsonValue>) -> Json {
    match parsed {
        Ok(v) => v@,
        Err(_) => Json::Object(Seq::empty()),
    }
}

/// The text of a configured default: the string itself, else empty text.
pub open spec fn default_text(default: Json) -> Seq<char> {
    match default {
        Json::Str(s) => s,
        _ => Seq::empty(),
    }
}

/// A rendering's text, or `raw` when rendering failed.
pub open spec fn rendered_or_raw(rendered: Result<String>, raw: Seq<char>) -> Seq<char> {
    match rendered {
        Ok(s) => s@,
        Err(_) => raw,
    }
}

impl Question {
    /// The help text shown for this question: its rendering against the
    /// answers, or the help as written when rendering failed.
    pub open spec fn shown_help<E: TemplateRenderer>(self, engine: E, answers: Json) -> Seq<char> {
        rendered_or_raw(engine.rendered(self.help@, answers, Some("help"@)), self.help@)
    }

    /// Whether this question is asked: always for a blank `ask_if`;
    /// otherwise the value of the condition against the answers, or yes when
    /// that could not be evaluated.
    pub open spec fn asked<E: TemplateRenderer>(self, engine: E, answers: Json) -> bool {
        blank_expression(self.ask_if@) || match engine.evaluated(self.ask_if@, answers) {
            Ok(b) => b,
            Err(_) => true,
        }
    }

    /// The text a JSON or YAML question's textual default becomes before it
    /// is parsed: its rendering, or the text as written when rendering
    /// failed.
    pub open spec fn structured_default_source<E: TemplateRenderer>(self, engine: E, answers: Json) -> Seq<char> {
        rendered_or_raw(engine.rendered(default_text(self.default@), answers, Some("default_value"@)), default_text(self.default@))
    }

    /// The default offered for this question under `key`: a prefilled
    /// answer; a multiple-choice question's configured default; a boolean
    /// question's configured boolean, else no; a text question's rendered
    /// default text (empty when rendering failed); a structured question's
    /// configured object or array, else an empty object for a default that
    /// is no text. `None` for a structured question with a textual default:
    /// that default is the parse of `structured_default_source`.
    pub open spec fn offered_default<E: TemplateRenderer>(
        self,
        key: Seq<char>,
        answers: Json,
        engine: E,
    ) -> Option<Json> {
        match prefilled(key, answers) {
            Some(v) => Some(v),
            None => match self.prompt_kind() {
                QuestionType::MultipleChoice => Some(self.default@),
                QuestionType::Boolean => Some(
                    Json::Bool(
                        match self.default@ {
                            Json::Bool(b) => b,
                            _ => false,
                        },
                    ),
                ),
                QuestionType::SingleChoice | QuestionType::Text => Some(
                    Json::Str(
                        rendered_or_empty(
                            engine.rendered(default_text(self.default@), answers, Some("default_value"@)),
                        ),
                    ),
                ),
                QuestionType::Json | QuestionType::Yaml => match self.default@ {
                    Json::Object(_) | Json::Array(_) => Some(self.default@),
                    Json::Str(_) => None,
                    _ => Some(Json::Object(Seq::empty())),
                },
            },
        }
    }

    /// The kind of prompt of this question.
    pub fn question_type(&self) -> (r: QuestionType)
        ensures
            r == self.prompt_kind(),
    {
        self.into_question_type()
    }

    /// The answer given for `question_key` among `answers`, if any.
    pub fn prefilled_answer(&self, question_key: &str, answers: &JsonValue) -> (r: Option<JsonValue>)
        ensures
            match prefilled(question_key@, answers@) {
                Some(v) => r is Some && r->0@ == v,
                None => r is None,
            },
    {
        match answers.get(question_key) {
            Some(v) => Some(clone_json(v)),
            None => None,
        }
    }

    /// The default of a boolean question: the configured boolean, or `false`.
    pub fn boolean_default(&self) -> (r: JsonValue)
        ensures
            r@ == Json::Bool(
                match self.default@ {
                    Json::Bool(b) => b,
                    _ => false,
                },
            ),
    {
        JsonValue::Bool(
            match self.default.as_bool() {
                Some(b) => b,
                None => false,
            },
        )
    }

    /// The default of a text or single-choice question, from the rendering
    /// of its configured default: the rendered text, or empty text when
    /// rendering failed.
    pub fn textual_default(rendered: Result<String>) -> (r: JsonValue)
        ensures
            r@ == Json::Str(rendered_or_empty(rendered)),
    {
        match rendered {
            Ok(s) => JsonValue::String(s),
            Err(_) => JsonValue::String(String::new()),
        }
    }

    /// The default of a JSON or YAML question, from the parse of its rendered
    /// default text: the parsed value, or an empty object when parsing failed.
    pub fn structured_default(parsed: Result<JsonValue>) -> (r: JsonValue)
        ensures
            r@ == parsed_or_empty_object(parsed),
    {
        match parsed {
            Ok(v) => v,
            Err(_) => JsonValue::Object(JsonMap::new()),
        }
    }

    /// The help text, from its rendering: the rendered text, or the help as
    /// written when rendering failed.
    pub fn help_text(&self, rendered: Result<String>) -> (r: String)
        ensures
            match rendered {
                Ok(s) => r@ == s@,
                Err(_) => r@ == self.help@,
            },
    {
        match rendered {
            Ok(s) => s,
            Err(_) => self.help.clone(),
        }
    }

    /// Whether to ask, from the evaluation of `ask_if`: its value, or `true`
    /// when evaluation failed.
    pub fn condition_holds(evaluated: Result<bool>) -> (r: bool)
        ensures
            match evaluated {
                Ok(b) => r == b,
                Err(_) => r,
            },
    {
        match evaluated {
            Ok(b) => b,
            Err(_) => true,
        }
    }

    /// The default answer of this question, rendered against `answers`.
    fn render_default_value<E: TemplateRenderer, J: Fn(&str) -> Result<JsonValue>, Y: Fn(&str) -> Result<JsonValue>>(
        &self,
        question_key: &str,
        answers: &JsonValue,
        engine: &E,
        parse_json: &J,
        parse_yaml: &Y,
        question_type: QuestionType,
    ) -> (r: JsonValue)
        requires
            question_type == self.prompt_kind(),
            parses_any_text(*parse_json),
            parses_any_text(*parse_yaml),
        ensures
            self.offered_default(question_key@, answers@, *engine) matches Some(v) ==> r@ == v,
            self.offered_default(question_key@, answers@, *engine) is None && question_type is Json ==> exists|
                p: Result<JsonValue>,
            |
                #[trigger] parse_gives(*parse_json, self.structured_default_source(*engine, answers@), p)
                    && r@ == parsed_or_empty_object(p),
            self.offered_default(question_key@, answers@, *engine) is None && question_type is Yaml ==> exists|
                p: Result<JsonValue>,
            |
                #[trigger] parse_gives(*parse_yaml, self.structured_default_source(*engine, answers@), p)
                    && r@ == parsed_or_empty_object(p),
    {
        if let Some(answer) = self.prefilled_answer(question_key, answers) {
            return answer;
        }
        match question_type {
            QuestionType::MultipleChoice => clone_json(&self.default),
            QuestionType::Boolean => self.boolean_default(),
            QuestionType::SingleChoice | QuestionType::Text => {
                let text = match self.default.as_str() {
                    Some(s) => s,
                    None => "",
                };
                proof {
                    reveal_strlit("");
                }
                assert(text@ == default_text(self.default@));
                Self::textual_default(engine.render(text, answers, Some("default_value")))
            },
            QuestionType::Json | QuestionType::Yaml => {
                if self.default.is_object() || self.default.is_array() {
                    return clone_json(&self.default);
                }
                match self.default.as_str() {
                    Some(text) => {
                        let rendered = match engine.render(text, answers, Some("default_value")) {
                            Ok(s) => s,
                            Err(_) => String::from_str(text),
                        };
                        assert(rendered@ == self.structured_default_source(*engine, answers@));
                        let parsed = match question_type {
                            QuestionType::Json => {
                                let p = parse_json(rendered.as_str());
                                assert(parse_gives(*parse_json, rendered@, p));
                                p
                            },
                            _ => {
                                let p = parse_yaml(rendered.as_str());
                                assert(parse_gives(*parse_yaml, rendered@, p));
                                p
                            },
                        };
                        Self::structured_default(parsed)
                    },
                    None => JsonValue::Object(JsonMap::new()),
                }
            },
        }
    }

    /// Prepares the question for asking: renders its default and help text
    /// against the answers so far and evaluates its `ask_if` condition.
    ///
    /// A prefilled answer is the default as it is; a boolean question's default
    /// is its configured boolean or `false`; a multiple-choice default is kept
    /// as configured; text defaults are rendered; structured defaults that are
    /// already objects or arrays are kept, textual ones are rendered and parsed.
    pub fn render<E: TemplateRenderer, J: Fn(&str) -> Result<JsonValue>, Y: Fn(&str) -> Result<JsonValue>>(
        &self,
        question_key: &str,
        answers: &JsonValue,
        engine: &E,
        parse_json: &J,
        parse_yaml: &Y,
    ) -> (r: QuestionRendered)
        requires
            parses_any_text(*parse_json),
            parses_any_text(*parse_yaml),
        ensures
            r.kind == self.prompt_kind(),
            r.help@ == self.shown_help(*engine, answers@),
            r.ask_if == self.asked(*engine, answers@),
            self.offered_default(question_key@, answers@, *engine) matches Some(v) ==> r.default@ == v,
            self.offered_default(question_key@, answers@, *engine) is None && r.kind is Json ==> exists|
                p: Result<JsonValue>,
            |
                #[trigger] parse_gives(*parse_json, self.structured_default_source(*engine, answers@), p)
                    && r.default@ == parsed_or_empty_object(p),
            self.offered_default(question_key@, answers@, *engine) is None && r.kind is Yaml ==> exists|
                p: Result<JsonValue>,
            |
                #[trigger] parse_gives(*parse_yaml, self.structured_default_source(*engine, answers@), p)
                    && r.default@ == parsed_or_empty_object(p),
    {
        let question_type = self.question_type();
        let default = self.render_default_value(question_key, answers, engine, parse_json, parse_yaml, question_type);
        let help = self.help_text(engine.render(self.help.as_str(), answers, Some("help")));
        let ask_if = if is_blank_expression(self.ask_if.as_str()) {
            true
        } else {
            Self::condition_holds(engine.execute_expression(self.ask_if.as_str(), answers))
        };
        QuestionRendered { default, ask_if, help, kind: question_type }
    }
}

} // verus!
