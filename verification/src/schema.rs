//! Checking a JSON value against a JSON schema, with the `jsonschema` crate.
use vstd::prelude::*;

use crate::error::{Error, Result};
use crate::json::{json_text, to_json_text, Json, JsonValue};
use crate::text::{push_char, push_str};

verus! {

/// What checking a JSON text against a JSON schema text gives.
#[derive(Debug)]
pub enum SchemaCheck {
    /// The schema text is no JSON; the parser's message.
    SchemaNotJson(String),
    /// The checked text is no JSON; the parser's message.
    InstanceNotJson(String),
    /// The schema is no valid JSON schema; the crate's message.
    InvalidSchema(String),
    /// The check ran: each error's message and the path of the value it
    /// is about, in the crate's order (none when the value conforms).
    Checked(Vec<(String, String)>),
}

/// The model of a schema check's outcome.
pub enum SchemaOutcome {
    SchemaNotJson(Seq<char>),
    InstanceNotJson(Seq<char>),
    InvalidSchema(Seq<char>),
    Checked(Seq<(Seq<char>, Seq<char>)>),
}

/// The texts of a list of text pairs.
pub open spec fn text_pairs(v: Seq<(String, String)>) -> Seq<(Seq<char>, Seq<char>)> {
    v.map_values(|e: (String, String)| (e.0@, e.1@))
}

impl View for SchemaCheck {
    type V = SchemaOutcome;

    open spec fn view(&self) -> SchemaOutcome {
        match self {
            SchemaCheck::SchemaNotJson(m) => SchemaOutcome::SchemaNotJson(m@),
            SchemaCheck::InstanceNotJson(m) => SchemaOutcome::InstanceNotJson(m@),
            SchemaCheck::InvalidSchema(m) => SchemaOutcome::InvalidSchema(m@),
            SchemaCheck::Checked(es) => SchemaOutcome::Checked(text_pairs(es@)),
        }
    }
}

/// What `jsonschema` reports for the JSON text `instance` against the
/// schema text `schema` (both parsed with `serde_json`, the schema compiled
/// with `jsonschema::validator_for`): a function of the two texts.
pub uninterp spec fn jsonschema_outcome(instance: Seq<char>, schema: Seq<char>) -> SchemaOutcome;

/// `serde_json::from_str` of both texts, `jsonschema::validator_for` of
/// the schema and `iter_errors` of the value, each error as its message
/// and instance path. The outcome is named by `jsonschema_outcome`.
#[verifier::external_body]
fn jsonschema_check(instance: &str, schema: &str) -> (r: SchemaCheck)
    ensures
        r@ == jsonschema_outcome(instance@, schema@),
{
    let schema_value: serde_json::Value = match serde_json::from_str(schema) {
        Ok(v) => v,
        Err(e) => return SchemaCheck::SchemaNotJson(e.to_string()),
    };
    let value: serde_json::Value = match serde_json::from_str(instance) {
        Ok(v) => v,
        Err(e) => return SchemaCheck::InstanceNotJson(e.to_string()),
    };
    match jsonschema::validator_for(&schema_value) {
        Ok(validator) => SchemaCheck::Checked(
            validator.iter_errors(&value).map(|e| (e.to_string(), e.instance_path().to_string())).collect(),
        ),
        Err(e) => SchemaCheck::InvalidSchema(e.to_string()),
    }
}

/// The line of one schema error: `Error: <message> (at <path>)`.
pub open spec fn schema_error_line(e: (Seq<char>, Seq<char>)) -> Seq<char> {
    "Error: "@ + e.0 + " (at "@ + e.1 + ")"@
}

/// The lines of the schema errors, one per error, joined by line breaks.
pub open spec fn schema_error_lines(es: Seq<(Seq<char>, Seq<char>)>) -> Seq<char>
    decreases es.len(),
{
    if es.len() == 0 {
        Seq::empty()
    } else if es.len() == 1 {
        schema_error_line(es[0])
    } else {
        schema_error_lines(es.drop_last()) + seq!['\n'] + schema_error_line(es.last())
    }
}

/// Why a value does not pass a schema, as the message of the error
/// returned: `None` when it conforms.
pub open spec fn schema_refusal(value: Json, schema: Seq<char>) -> Option<Seq<char>> {
    match jsonschema_outcome(json_text(value), schema) {
        SchemaOutcome::SchemaNotJson(m) => Some("Failed to parse JSON: "@ + m),
        SchemaOutcome::InstanceNotJson(m) => Some("Failed to parse JSON: "@ + m),
        SchemaOutcome::InvalidSchema(m) => Some("Invalid JSON schema: "@ + m),
        SchemaOutcome::Checked(es) => if es.len() == 0 {
            None
        } else {
            Some("Validation failed: "@ + schema_error_lines(es))
        },
    }
}

/// Checks `value` against the JSON schema `schema` (JSON text): `Ok` when
/// it conforms; a JSON parse error when the schema is no JSON; `Other`
/// with `Invalid JSON schema: ...` for a schema that does not compile;
/// otherwise `Other` with `Validation failed: ` and one
/// `Error: <message> (at <path>)` line per error.
pub fn validate_with_schema(value: &JsonValue, schema: &str) -> (r: Result<()>)
    ensures
        match jsonschema_outcome(json_text(value@), schema@) {
            SchemaOutcome::SchemaNotJson(m) => r matches Err(Error::JSONParseError(t)) && t@ == m,
            SchemaOutcome::InstanceNotJson(m) => r matches Err(Error::JSONParseError(t)) && t@ == m,
            SchemaOutcome::InvalidSchema(m) => r matches Err(Error::Other(t)) && t@ == "Invalid JSON schema: "@
                + m,
            SchemaOutcome::Checked(es) => if es.len() == 0 {
                r is Ok
            } else {
                r matches Err(Error::Other(t)) && t@ == "Validation failed: "@ + schema_error_lines(es)
            },
        },
{
    let text = to_json_text(value);
    match jsonschema_check(text.as_str(), schema) {
        SchemaCheck::SchemaNotJson(m) => Err(Error::JSONParseError(m)),
        SchemaCheck::InstanceNotJson(m) => Err(Error::JSONParseError(m)),
        SchemaCheck::InvalidSchema(m) => {
            let mut t = String::from_str("Invalid JSON schema: ");
            proof {
                reveal_strlit("Invalid JSON schema: ");
            }
            push_str(&mut t, m.as_str());
            Err(Error::Other(t))
        },
        SchemaCheck::Checked(errors) => {
            if errors.len() == 0 {
                return Ok(());
            }
            let ghost es = text_pairs(errors@);
            let mut t = String::from_str("Validation failed: ");
            proof {
                reveal_strlit("Validation failed: ");
                reveal_strlit("Error: ");
                reveal_strlit(" (at ");
                reveal_strlit(")");
            }
            let ghost head = t@;
            let mut i: usize = 0;
            while i < errors.len()
                invariant
                    i <= errors@.len(),
                    es == text_pairs(errors@),
                    t@ == head + schema_error_lines(es.take(i as int)),
                decreases errors@.len() - i,
            {
                let ghost before = t@;
                if i > 0 {
                    push_char(&mut t, '\n');
                }
                push_str(&mut t, "Error: ");
                push_str(&mut t, errors[i].0.as_str());
                push_str(&mut t, " (at ");
                push_str(&mut t, errors[i].1.as_str());
                push_str(&mut t, ")");
                proof {
                    assert(es.take(i + 1).drop_last() =~= es.take(i as int));
                    assert(es[i as int] == (errors@[i as int].0@, errors@[i as int].1@));
                    if i == 0 {
                        assert(es.take(1).len() == 1);
                        assert(t@ =~= head + schema_error_line(es[0]));
                    } else {
                        assert(t@ =~= before + seq!['\n'] + schema_error_line(es[i as int]));
                    }
                }
                i += 1;
            }
            assert(es.take(errors@.len() as int) =~= es);
            Err(Error::Other(t))
        },
    }
}

} // verus!
