//! Collecting answers: from saved answers, pre-hook output and command-line
//! answers, then question by question.
use vstd::prelude::*;

use crate::config::question::Question;
use crate::config::types::QuestionType;
use crate::error::{error_message, Error, Result};
use crate::json::{clone_json, object_map, Json, JsonMap, JsonValue};
use crate::renderer::{blank_expression, is_blank_expression, parse_gives, parses_any_text, TemplateRenderer};
use crate::schema::{schema_refusal, validate_with_schema};
use crate::text::{chars_of, contains, contains_seq, push_str, replace_all, replace_all_exec};

verus! {

/// Collects answers from various sources: pre-hook output, command line
/// arguments, and user prompts.
pub struct AnswerCollector<'a, E: TemplateRenderer> {
    engine: &'a E,
    non_interactive: bool,
}

/// Why an answer was refused.
#[derive(Debug)]
pub enum ValidationError {
    /// The answer does not conform to the question's JSON schema.
    JsonSchema(String),
    /// The question's validation condition does not hold.
    FieldValidation(String),
}

/// What to do for a question, given the answers so far.
#[derive(Debug, Clone, Copy, PartialEq, Eq, Structural)]
pub enum QuestionStep {
    /// Leave the answers as they are and go to the next question.
    Keep,
    /// Record the question's rendered default and go to the next question.
    UseDefault,
    /// Ask the user.
    Ask,
}

/// What follows a prompt for a question's answer.
#[derive(Debug)]
pub enum AfterPrompt {
    /// Record the answer, then validate it.
    Record(JsonValue),
    /// The entered text did not parse: show the error and ask again.
    AskAgain(Error),
    /// Stop collecting with the error.
    Fail(Error),
}

/// Why an answer is refused by a question's validation `condition`, if it
/// is: the condition evaluated to false against the answers; the reason is
/// the rendered `message`, or a fixed text when that could not be rendered.
/// A blank condition, or one that could not be evaluated, refuses nothing.
pub open spec fn field_refusal<E: TemplateRenderer>(
    engine: E,
    condition: Seq<char>,
    message: Seq<char>,
    answers: Json,
) -> Option<Seq<char>> {
    if blank_expression(condition) {
        None
    } else {
        match engine.evaluated(condition, answers) {
            Ok(b) => if b {
                None
            } else {
                Some(
                    match engine.rendered(message, answers, Some("validation_error"@)) {
                        Ok(t) => t@,
                        Err(_) => validation_failed_text(),
                    },
                )
            },
            Err(_) => None,
        }
    }
}

/// The answers saved earlier, as a map.
pub open spec fn existing_map(existing: Option<Json>) -> Map<Seq<char>, Json> {
    match existing {
        Some(v) => object_map(v),
        None => Map::empty(),
    }
}

/// The answers printed by the pre-hook: its output's entries when it parsed
/// to an object, else none.
pub open spec fn hook_output_map(parsed: Option<Result<JsonValue>>) -> Map<Seq<char>, Json> {
    match parsed {
        Some(Ok(v)) => object_map(v@),
        _ => Map::empty(),
    }
}

/// The answers given on the command line.
pub open spec fn cli_map(parsed: Option<Result<JsonMap>>) -> Map<Seq<char>, Json> {
    match parsed {
        Some(Ok(m)) => m.map(),
        _ => Map::empty(),
    }
}

/// The object held by a parse result: its entries for an object, none for
/// any other value.
pub open spec fn parsed_object(v: Json) -> Map<Seq<char>, Json> {
    object_map(v)
}

/// The answers of command-line JSON text from its parse and, when that
/// failed, the parse of its unescaped form: an object's entries, none for
/// another value, or the first parse's error when no parse succeeded.
pub open spec fn parse_outcome(first: Result<JsonValue>, retry: Option<Result<JsonValue>>) -> Result<
    Map<Seq<char>, Json>,
> {
    match first {
        Ok(v) => Ok(parsed_object(v@)),
        Err(e) => match retry {
            Some(Ok(v)) => Ok(parsed_object(v@)),
            _ => Err(e),
        },
    }
}

/// The entries of an object result, or its error.
pub open spec fn answers_view(r: Result<JsonMap>) -> Result<Map<Seq<char>, Json>> {
    match r {
        Ok(m) => Ok(m.map()),
        Err(e) => Err(e),
    }
}

/// The saved answers, if any.
pub open spec fn existing_view(existing: Option<&JsonValue>) -> Option<Json> {
    match existing {
        Some(v) => Some(v@),
        None => None,
    }
}

/// The entries of parsed command-line answers, or their error.
pub open spec fn cli_outcome(cli: Option<Result<JsonMap>>) -> Option<Result<Map<Seq<char>, Json>>> {
    match cli {
        Some(c) => Some(answers_view(c)),
        None => None,
    }
}

/// The second parse of command-line text `buf` after a first one: made,
/// of the text with its escaped quotes unescaped, exactly when the first
/// failed and the text holds an escaped quote.
pub open spec fn retry_fits<P: Fn(&str) -> Result<JsonValue>>(
    parse: P,
    buf: Seq<char>,
    first: Result<JsonValue>,
    retry: Option<Result<JsonValue>>,
) -> bool {
    match retry {
        Some(second) => first is Err && contains_seq(buf, escaped_quote()) && parse_gives(
            parse,
            replace_all(buf, escaped_quote(), seq!['"']),
            second,
        ),
        None => !(first is Err && contains_seq(buf, escaped_quote())),
    }
}

/// `outcome` is what the command-line text `buf` gives with the JSON
/// parser `parse`: the answers of its parse, retried once with escaped
/// quotes unescaped when that failed and the text holds one.
pub open spec fn answers_parsed_by<P: Fn(&str) -> Result<JsonValue>>(
    parse: P,
    buf: Seq<char>,
    outcome: Result<Map<Seq<char>, Json>>,
) -> bool {
    exists|first: Result<JsonValue>, retry: Option<Result<JsonValue>>|
        #[trigger] parse_outcome(first, retry) == outcome && parse_gives(parse, buf, first) && retry_fits(
            parse,
            buf,
            first,
            retry,
        )
}


/// The answers before any question is asked, from the saved answers, the
/// pre-hook's parsed output and the command-line answers: a later source
/// wins on a shared key; command-line answers that failed to parse are an
/// error.
pub open spec fn seed_outcome(
    existing: Option<Json>,
    pre_hook: Option<Result<JsonValue>>,
    cli: Option<Result<Map<Seq<char>, Json>>>,
) -> Result<Map<Seq<char>, Json>> {
    match cli {
        Some(Err(e)) => Err(e),
        _ => Ok(
            existing_map(existing).union_prefer_right(hook_output_map(pre_hook)).union_prefer_right(
                match cli {
                    Some(Ok(m)) => m,
                    _ => Map::empty(),
                },
            ),
        ),
    }
}

/// The decision for a question: when prompting is skipped (non-interactive
/// run, or the question's condition is false), keep an existing answer,
/// else take the default if the question has one; otherwise ask.
pub open spec fn step_for(
    non_interactive: bool,
    ask_if: bool,
    answered: bool,
    has_default: bool,
) -> QuestionStep {
    if non_interactive || !ask_if {
        if answered {
            QuestionStep::Keep
        } else if has_default {
            QuestionStep::UseDefault
        } else {
            QuestionStep::Keep
        }
    } else {
        QuestionStep::Ask
    }
}

/// The escaped quote some shells leave in JSON arguments.
pub open spec fn escaped_quote() -> Seq<char> {
    seq!['\\', '"']
}

/// The prefix of a schema-validation failure message.
pub open spec fn schema_error_text(detail: Seq<char>) -> Seq<char> {
    "JSON Schema validation error: "@ + detail
}

/// The message used when the validation message cannot be rendered.
pub open spec fn validation_failed_text() -> Seq<char> {
    "Validation failed"@
}

impl<'a, E: TemplateRenderer> AnswerCollector<'a, E> {
    /// Whether prompting is disabled.
    pub closed spec fn non_interactive_spec(&self) -> bool {
        self.non_interactive
    }

    /// The template engine.
    pub closed spec fn engine_spec(&self) -> E {
        *self.engine
    }

    /// A collector rendering with `engine`; with `non_interactive` no
    /// question is asked.
    pub fn new(engine: &'a E, non_interactive: bool) -> (r: Self)
        ensures
            r.non_interactive_spec() == non_interactive,
            r.engine_spec() == *engine,
    {
        AnswerCollector { engine, non_interactive }
    }

    /// The template engine.
    pub fn engine(&self) -> (r: &E)
        ensures
            *r == self.engine_spec(),
    {
        self.engine
    }

    /// Whether prompting is disabled.
    pub fn non_interactive(&self) -> (r: bool)
        ensures
            r == self.non_interactive_spec(),
    {
        self.non_interactive
    }

    /// The answers before any question is asked: the saved answers, then
    /// the pre-hook's, then the command line's; a later source wins on a
    /// shared key. Pre-hook output that is not a JSON object adds nothing;
    /// command-line answers that failed to parse are an error.
    pub fn seed_answers(
        &self,
        existing: Option<&JsonValue>,
        pre_hook: Option<Result<JsonValue>>,
        cli: Option<Result<JsonMap>>,
    ) -> (r: Result<JsonMap>)
        ensures
            r is Err <==> cli matches Some(Err(_)),
            r matches Err(e) ==> cli == Some(Err::<JsonMap, Error>(e)),
            r matches Ok(m) ==> m.map() == existing_map(
                match existing {
                    Some(v) => Some(v@),
                    None => None,
                },
            ).union_prefer_right(hook_output_map(pre_hook)).union_prefer_right(cli_map(cli)),
    {
        let mut answers = JsonMap::new();
        if let Some(v) = existing {
            let copy = clone_json(v);
            if let JsonValue::Object(m) = copy {
                answers.extend(m);
            }
        }
        proof {
            assert(answers.map() =~= existing_map(
                match existing {
                    Some(v) => Some(v@),
                    None => None,
                },
            ));
        }
        if let Some(Ok(JsonValue::Object(m))) = pre_hook {
            answers.extend(m);
        } else {
            proof {
                assert(answers.map().union_prefer_right(hook_output_map(pre_hook)) =~= answers.map());
            }
        }
        match cli {
            Some(Ok(m)) => {
                answers.extend(m);
            },
            Some(Err(e)) => {
                return Err(e);
            },
            None => {
                proof {
                    assert(answers.map().union_prefer_right(cli_map(cli)) =~= answers.map());
                }
            },
        }
        Ok(answers)
    }

    /// The answers of a command-line JSON text, from its parse and, when
    /// that failed, the parse of its unescaped form: an object gives its
    /// entries, another value none; when no parse succeeded the first
    /// error is returned.
    pub fn answers_from_parse(first: Result<JsonValue>, retry: Option<Result<JsonValue>>) -> (r:
        Result<JsonMap>)
        ensures
            answers_view(r) == parse_outcome(first, retry),
            first matches Ok(v) ==> (r matches Ok(m) && m.map() == parsed_object(v@)),
            first is Err && (retry matches Some(Ok(v))) ==> (r matches Ok(m) && m.map()
                == parsed_object(retry->0->Ok_0@)),
            first matches Err(e) && !(retry matches Some(Ok(_))) ==> r == Err::<JsonMap, Error>(
                first->Err_0,
            ),
    {
        match first {
            Ok(JsonValue::Object(m)) => Ok(m),
            Ok(_) => Ok(JsonMap::new()),
            Err(e) => match retry {
                Some(Ok(JsonValue::Object(m))) => Ok(m),
                Some(Ok(_)) => Ok(JsonMap::new()),
                _ => Err(e),
            },
        }
    }

    /// The text with every escaped quote `\"` replaced by a plain quote.
    pub fn unescape_quotes(buf: &str) -> (r: String)
        ensures
            r@ == replace_all(buf@, escaped_quote(), seq!['"']),
    {
        proof {
            reveal_strlit("\\\"");
            reveal_strlit("\"");
            assert("\\\""@ =~= escaped_quote());
            assert("\""@ =~= seq!['"']);
        }
        replace_all_exec(buf, "\\\"", "\"")
    }

    /// Parses command-line answers: the text as it is, and when that fails
    /// and it holds escaped quotes, once more with them unescaped.
    pub fn parse_string_to_json<P: Fn(&str) -> Result<JsonValue>>(&self, buf: String, parse_json: &P) -> (r:
        Result<JsonMap>)
        requires
            parses_any_text(*parse_json),
        ensures
            answers_parsed_by(*parse_json, buf@, answers_view(r)),
    {
        let first = parse_json(buf.as_str());
        let failed = first.is_err();
        let retry = if failed && has_escaped_quote(buf.as_str()) {
            let cleaned = Self::unescape_quotes(buf.as_str());
            let second = parse_json(cleaned.as_str());
            assert(parse_gives(*parse_json, cleaned@, second));
            Some(second)
        } else {
            None
        };
        let r = Self::answers_from_parse(first, retry);
        assert(parse_gives(*parse_json, buf@, first));
        assert(retry_fits(*parse_json, buf@, first, retry));
        assert(parse_outcome(first, retry) == answers_view(r));
        r
    }

    /// The answers before any question is asked, from the saved answers, the
    /// pre-hook's output and the command-line answers (texts are parsed as
    /// JSON).
    pub fn initial_answers<P: Fn(&str) -> Result<JsonValue>>(
        &self,
        existing: Option<&JsonValue>,
        pre_hook_output: Option<String>,
        cli_answers: Option<String>,
        parse_json: &P,
    ) -> (r: Result<JsonMap>)
        requires
            parses_any_text(*parse_json),
        ensures
            exists|pre_hook: Option<Result<JsonValue>>, cli: Option<Result<Map<Seq<char>, Json>>>|
                #[trigger] seed_outcome(existing_view(existing), pre_hook, cli) == answers_view(r)
                    && match (pre_hook_output, pre_hook) {
                    (Some(t), Some(h)) => parse_gives(*parse_json, t@, h),
                    (None, None) => true,
                    _ => false,
                } && match (cli_answers, cli) {
                    (Some(t), Some(c)) => answers_parsed_by(*parse_json, t@, c),
                    (None, None) => true,
                    _ => false,
                },
            cli_answers is None ==> r is Ok,
            pre_hook_output is None && cli_answers is None ==> (r matches Ok(m) && m.map()
                == existing_map(
                match existing {
                    Some(v) => Some(v@),
                    None => None,
                },
            )),
    {
        let pre_hook = match pre_hook_output {
            Some(text) => {
                let h = parse_json(text.as_str());
                assert(parse_gives(*parse_json, text@, h));
                Some(h)
            },
            None => None,
        };
        let cli = match cli_answers {
            Some(text) => Some(self.parse_string_to_json(text, parse_json)),
            None => None,
        };
        let ghost cli_view = cli_outcome(cli);
        let r = self.seed_answers(existing, pre_hook, cli);
        proof {
            let ex = match existing {
                Some(v) => Some(v@),
                None => None,
            };
            let base = existing_map(ex);
            assert(base.union_prefer_right(Map::<Seq<char>, Json>::empty()) =~= base);
            assert(ex == existing_view(existing));
            assert(seed_outcome(existing_view(existing), pre_hook, cli_view) == answers_view(r));
        }
        r
    }

    /// What to do for `question` under `key`, given whether its condition
    /// holds (`ask_if`) and the answers so far.
    pub fn question_step(&self, key: &str, question: &Question, ask_if: bool, answers: &JsonMap) -> (r:
        QuestionStep)
        ensures
            r == step_for(
                self.non_interactive_spec(),
                ask_if,
                answers.map().contains_key(key@),
                !(question.default@ is Null),
            ),
    {
        if self.non_interactive || !ask_if {
            if answers.contains_key(key) {
                QuestionStep::Keep
            } else if !question.default.is_null() {
                QuestionStep::UseDefault
            } else {
                QuestionStep::Keep
            }
        } else {
            QuestionStep::Ask
        }
    }

    /// Whether the question under `key` is to be collected at all: a key
    /// already answered (by saved answers, the pre-hook or the command line)
    /// is never asked again.
    pub fn needs_answer(&self, key: &str, answers: &JsonMap) -> (r: bool)
        ensures
            r == !answers.map().contains_key(key@),
    {
        !answers.contains_key(key)
    }

    /// What follows a prompt: an answer is recorded; JSON or YAML text that
    /// did not parse is asked again; any other failure stops collecting.
    pub fn after_prompt(answer: Result<JsonValue>) -> (r: AfterPrompt)
        ensures
            match answer {
                Ok(v) => r matches AfterPrompt::Record(w) && w@ == v@,
                Err(e) => if e is JSONParseError || e is YAMLParseError {
                    r == AfterPrompt::AskAgain(e)
                } else {
                    r == AfterPrompt::Fail(e)
                },
            },
    {
        match answer {
            Ok(v) => AfterPrompt::Record(v),
            Err(e) => match e {
                Error::JSONParseError(_) | Error::YAMLParseError(_) => AfterPrompt::AskAgain(e),
                _ => AfterPrompt::Fail(e),
            },
        }
    }

    /// What follows the validation of a recorded answer: `None` when it was
    /// accepted and the next question comes; else the message to show before
    /// the question is asked again.
    pub fn after_validation(outcome: Result<(), ValidationError>) -> (r: Option<String>)
        ensures
            match outcome {
                Ok(_) => r is None,
                Err(ValidationError::JsonSchema(m)) => r == Some(m),
                Err(ValidationError::FieldValidation(m)) => r == Some(m),
            },
    {
        match outcome {
            Ok(()) => None,
            Err(ValidationError::JsonSchema(m)) => Some(m),
            Err(ValidationError::FieldValidation(m)) => Some(m),
        }
    }

    /// The outcome of a field validation: accepted when the condition held
    /// or could not be evaluated; else refused with the rendered message, or
    /// a fixed one when it could not be rendered.
    pub fn field_validation_outcome(evaluated: Result<bool>, message: Result<String>) -> (r: Result<
        (),
        ValidationError,
    >)
        ensures
            (evaluated matches Ok(b) && !b) <==> r is Err,
            r matches Err(e) ==> e matches ValidationError::FieldValidation(m) && m@ == match message {
                Ok(s) => s@,
                Err(_) => validation_failed_text(),
            },
    {
        let is_valid = match evaluated {
            Ok(b) => b,
            Err(_) => true,
        };
        if is_valid {
            return Ok(());
        }
        let text = match message {
            Ok(s) => s,
            Err(_) => {
                proof {
                    reveal_strlit("Validation failed");
                }
                String::from_str("Validation failed")
            },
        };
        Err(ValidationError::FieldValidation(text))
    }

    /// The outcome of a schema validation: refused with the error's message
    /// after a fixed prefix.
    pub fn schema_outcome(checked: Result<()>) -> (r: Result<(), ValidationError>)
        ensures
            checked is Ok <==> r is Ok,
            r matches Err(ValidationError::JsonSchema(m)) ==> m@ == schema_error_text(
                error_message(checked->Err_0),
            ),
            r is Err ==> r->Err_0 is JsonSchema,
    {
        match checked {
            Ok(()) => Ok(()),
            Err(e) => {
                let mut m = String::from_str("JSON Schema validation error: ");
                proof {
                    reveal_strlit("JSON Schema validation error: ");
                }
                let detail = e.to_string();
                push_str(&mut m, detail.as_str());
                Err(ValidationError::JsonSchema(m))
            },
        }
    }

    /// Validates an answer: a JSON or YAML answer against the question's
    /// schema, if it has one; any other answer by the question's validation
    /// condition, evaluated against all answers.
    pub fn validate_answer(
        &self,
        question: &Question,
        answer: &JsonValue,
        answers: &JsonValue,
    ) -> (r: Result<(), ValidationError>)
        ensures
            (question.prompt_kind() is Json || question.prompt_kind() is Yaml)
                && question.schema is None ==> r is Ok,
            (question.prompt_kind() is Json || question.prompt_kind() is Yaml) && r is Err ==> r->Err_0 is JsonSchema,
            (question.prompt_kind() is Json || question.prompt_kind() is Yaml) && question.schema is Some
                ==> match schema_refusal(answer@, question.schema->0@) {
                None => r is Ok,
                Some(m) => r matches Err(ValidationError::JsonSchema(t)) && t@ == schema_error_text(m),
            },
            !(question.prompt_kind() is Json || question.prompt_kind() is Yaml) && r is Err ==> r->Err_0 is FieldValidation,
            !(question.prompt_kind() is Json || question.prompt_kind() is Yaml) ==> match field_refusal(
                self.engine_spec(),
                question.validation.condition@,
                question.validation.error_message@,
                answers@,
            ) {
                None => r is Ok,
                Some(m) => r matches Err(ValidationError::FieldValidation(t)) && t@ == m,
            },
    {
        match question.question_type() {
            QuestionType::Json | QuestionType::Yaml => {
                match &question.schema {
                    Some(schema) => Self::schema_outcome(validate_with_schema(answer, schema.as_str())),
                    None => Ok(()),
                }
            },
            _ => {
                if is_blank_expression(question.validation.condition.as_str()) {
                    return Ok(());
                }
                let evaluated = self.engine.execute_expression(question.validation.condition.as_str(), answers);
                let failed = match evaluated {
                    Ok(b) => !b,
                    Err(_) => false,
                };
                if failed {
                    let message = self.engine.render(
                        question.validation.error_message.as_str(),
                        answers,
                        Some("validation_error"),
                    );
                    Self::field_validation_outcome(evaluated, message)
                } else {
                    Self::field_validation_outcome(evaluated, Ok(String::new()))
                }
            },
        }
    }
}

/// Whether the text holds an escaped quote `\"`.
pub fn has_escaped_quote(buf: &str) -> (r: bool)
    ensures
        r == contains_seq(buf@, escaped_quote()),
{
    let cs = chars_of(buf);
    let pattern = chars_of("\\\"");
    proof {
        reveal_strlit("\\\"");
        assert("\\\""@ =~= escaped_quote());
    }
    contains(&cs, &pattern)
}

/// A non-interactive run never asks a question, and a question whose
/// prompt is skipped keeps an answer already given.
pub proof fn law_non_interactive_never_asks(ask_if: bool, answered: bool, has_default: bool)
    ensures
        step_for(true, ask_if, answered, has_default) != QuestionStep::Ask,
        answered ==> step_for(true, ask_if, answered, has_default) == QuestionStep::Keep,
        answered ==> step_for(false, false, answered, has_default) == QuestionStep::Keep,
{
}

/// A question whose `ask_if` condition is false is never asked, in an
/// interactive run or not, answered or not, with a default or without.
pub proof fn law_false_condition_never_asks(non_interactive: bool, answered: bool, has_default: bool)
    ensures
        step_for(non_interactive, false, answered, has_default) != QuestionStep::Ask,
        !answered && !has_default ==> step_for(non_interactive, false, answered, has_default)
            == QuestionStep::Keep,
{
}

/// An interactive run asks a question exactly when its condition holds.
pub proof fn law_interactive_asks_when_condition_holds(ask_if: bool, answered: bool, has_default: bool)
    ensures
        (step_for(false, ask_if, answered, has_default) == QuestionStep::Ask) <==> ask_if,
{
}

} // verus!
