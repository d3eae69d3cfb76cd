//! The template engine's interface, and what the library knows of the
//! structured-data functions it is handed.
//!
//! The engine renders Jinja-style templates against answers. Parsing JSON
//! or YAML text into the library's values is a function that the caller
//! hands in; contracts speak of its outcomes on the texts handed to it.
//! What every engine shares is here: blank conditions hold, errors name
//! their template, and the `slugify` filter.
use vstd::prelude::*;

use crate::error::{Error, Result};
use crate::json::{Json, JsonValue};
use crate::text::{chars_of, lowercase, push_str, replace_all, replace_all_exec, to_lowercase, trim_white, trim_white_exec};

verus! {

/// Text as the engine's contract speaks of it: a sequence of characters.
pub type Text = Seq<char>;

/// Named template texts, in order.
pub type Templates = Seq<(Text, Text)>;

/// The optional name of a template, as text.
pub open spec fn name_view(name: Option<&str>) -> Option<Seq<char>> {
    match name {
        Some(n) => Some(n@),
        None => None,
    }
}

/// A template engine.
///
/// An engine with a given set of registered templates renders a template
/// text against a context always to the same result: `rendered` and
/// `evaluated` name those results, and every implementation keeps to them.
pub trait TemplateRenderer {
    /// What rendering `template` against `context` gives.
    spec fn rendered(&self, template: Text, context: Json, template_name: Option<Text>) -> Result<String>;

    /// What evaluating the boolean `expression` against `context` gives.
    spec fn evaluated(&self, expression: Text, context: Json) -> Result<bool>;

    /// Renders `template` with `context`; `template_name` names the template
    /// in error messages.
    fn render(&self, template: &str, context: &JsonValue, template_name: Option<&str>) -> (r: Result<String>)
        ensures
            r == self.rendered(template@, context@, name_view(template_name)),
    ;

    /// Evaluates a boolean expression against `context`.
    fn execute_expression(&self, expression: &str, context: &JsonValue) -> (r: Result<bool>)
        ensures
            r == self.evaluated(expression@, context@),
    ;

    /// The templates registered with this engine for other templates to
    /// import or include: each name with its text, in the order they were
    /// registered.
    spec fn registered(&self) -> Templates;

    /// Registers a named template that other templates may import or
    /// include: on success it is registered last; on failure nothing changes.
    fn add_template(&mut self, name: &str, content: &str) -> (r: Result<()>)
        ensures
            r is Ok ==> final(self).registered() == old(self).registered().push((name@, content@)),
            r is Err ==> final(self).registered() == old(self).registered(),
    ;
}

/// An expression that is blank once trimmed: such a condition always holds.
pub open spec fn blank_expression(expression: Seq<char>) -> bool {
    trim_white(expression).len() == 0
}

/// Whether a condition needs no evaluation because it is blank: a blank
/// condition holds.
pub fn is_blank_expression(expression: &str) -> (r: bool)
    ensures
        r == blank_expression(expression@),
{
    let cs = chars_of(expression);
    trim_white_exec(cs.as_slice()).len() == 0
}

/// The message of a rendering error: prefixed with the template's name and
/// a colon when the template has one.
pub open spec fn render_error_text(template_name: Option<Seq<char>>, message: Seq<char>) -> Seq<char> {
    match template_name {
        Some(n) => n + ": "@ + message,
        None => message,
    }
}

/// The error for a failed rendering of the template named `template_name`
/// with the engine's `message`.
pub fn render_error(template_name: Option<&str>, message: &str) -> (r: Error)
    ensures
        r matches Error::MinijinjaError(m) && m@ == render_error_text(name_view(template_name), message@),
{
    let mut text = String::new();
    match template_name {
        Some(n) => {
            push_str(&mut text, n);
            push_str(&mut text, ": ");
            proof {
                reveal_strlit(": ");
            }
        },
        None => {},
    }
    push_str(&mut text, message);
    proof {
        reveal_strlit("");
    }
    Error::MinijinjaError(text)
}

/// The snake-case form of a text as `cruet::to_snake_case` gives it.
pub uninterp spec fn snake_case_of(s: Seq<char>) -> Seq<char>;

/// `cruet::to_snake_case`, named by `snake_case_of`.
#[verifier::external_body]
fn to_snake_case(s: &str) -> (r: String)
    ensures
        r@ == snake_case_of(s@),
{
    cruet::to_snake_case(s)
}

/// The slug of a text: its snake case with `-` for `_`, in lower case.
pub open spec fn slug(s: Seq<char>) -> Seq<char> {
    lowercase(replace_all(snake_case_of(s), seq!['_'], seq!['-']))
}

/// The `slugify` filter of templates: snake case, hyphens for underscores,
/// lower case.
pub fn slugify(value: &str) -> (r: String)
    ensures
        r@ == slug(value@),
{
    let snake = to_snake_case(value);
    proof {
        reveal_strlit("_");
        reveal_strlit("-");
    }
    assert("_"@ =~= seq!['_']);
    assert("-"@ =~= seq!['-']);
    let hyphenated = replace_all_exec(snake.as_str(), "_", "-");
    to_lowercase(hyphenated.as_str())
}

/// `parse` may be called on any text.
pub open spec fn parses_any_text<P: Fn(&str) -> Result<JsonValue>>(parse: P) -> bool {
    forall|t: &str| #[trigger] call_requires(parse, (t,))
}

/// `result` is an outcome of `parse` on the text `text`.
pub open spec fn parse_gives<P: Fn(&str) -> Result<JsonValue>>(parse: P, text: Seq<char>, result: Result<JsonValue>) -> bool {
    exists|t: &str| t@ == text && #[trigger] call_ensures(parse, (t,), result)
}

} // verus!
