//! MCP tools for Baker.
use vstd::prelude::*;

use crate::cli::args::{Args, SkipConfirm};
use crate::config::question::Question;
use crate::config::types::Type;
use crate::error::{error_message, Error};
use crate::json::{compact_json, compact_text, Json, JsonMap, JsonValue};
use crate::store::TemplateMetadata;
use crate::text::push_str;

verus! {

/// Information about a template including its questions and usage.
#[derive(Debug)]
pub struct TemplateInfo {
    /// Name of the template
    pub name: String,
    /// Optional description
    pub description: Option<String>,
    /// Source (git URL or local path)
    pub source: String,
    /// When the template was installed
    pub installed_at: String,
    /// Questions/variables the template expects
    pub questions: Vec<QuestionInfo>,
    /// Usage example
    pub usage: String,
}

/// Information about a template question/variable.
#[derive(Debug)]
pub struct QuestionInfo {
    /// Variable name
    pub name: String,
    /// Help text describing the variable
    pub help: Option<String>,
    /// Type of the variable (str, bool, json, yaml)
    pub kind: String,
    /// Default value if any
    pub default: Option<String>,
    /// Whether the variable is required
    pub required: bool,
    /// Available choices for choice-based questions
    pub choices: Option<Vec<String>>,
}

/// Tool for listing all installed templates.
#[derive(Debug)]
pub struct ListTemplatesTool {}

/// Tool for generating a project from a template.
#[derive(Debug)]
pub struct GenerateTool {
    /// Name of the installed template to use
    pub template: String,
    /// Output directory for the generated project
    pub output_dir: String,
    /// Answers to template questions as a JSON object
    pub answers: JsonMap,
    /// Whether to overwrite existing output directory
    pub force: bool,
}

/// How listing the templates failed.
#[derive(Debug)]
pub enum ListingFailure {
    /// The template store could not be opened.
    StoreAccess(Error),
    /// The store could not be listed.
    Listing(Error),
}

/// The name of a question type.
pub open spec fn question_type_name(t: Type) -> Seq<char> {
    match t {
        Type::Str => "str"@,
        Type::Bool => "bool"@,
        Type::Json => "json"@,
        Type::Yaml => "yaml"@,
    }
}

/// The usage line of an installed template.
pub open spec fn usage_text(name: Seq<char>) -> Seq<char> {
    "baker generate "@ + name + " <output_dir> --answers '{\"variable\": \"value\"}'"@
}

/// The message of a failed listing.
pub open spec fn listing_failure_text(f: ListingFailure) -> Seq<char> {
    match f {
        ListingFailure::StoreAccess(e) => "Failed to access template store: "@ + error_message(e),
        ListingFailure::Listing(e) => "Failed to list templates: "@ + error_message(e),
    }
}

/// The name of a question type.
pub fn type_label(t: Type) -> (r: String)
    ensures
        r@ == question_type_name(t),
{
    match t {
        Type::Str => String::from_str("str"),
        Type::Bool => String::from_str("bool"),
        Type::Json => String::from_str("json"),
        Type::Yaml => String::from_str("yaml"),
    }
}

/// `r` describes the question `q` named `name`: its help unless empty, its
/// type, its default (a string as it is, another value as JSON text, none
/// for `null`), its choices unless there are none, and whether it is
/// required (no default and no condition).
pub open spec fn describes(r: QuestionInfo, name: String, q: Question) -> bool {
    &&& r.name == name
    &&& q.help@.len() == 0 ==> r.help is None
    &&& q.help@.len() > 0 ==> (r.help matches Some(h) && h@ == q.help@)
    &&& r.kind@ == question_type_name(q.kind)
    &&& q.default@ is Null ==> r.default is None
    &&& q.default@ matches Json::Str(s) ==> (r.default matches Some(d) && d@ == s)
    &&& !(q.default@ is Null) ==> r.default is Some
    &&& r.required == (q.default@ is Null && q.ask_if@.len() == 0)
    &&& q.choices@.len() == 0 ==> r.choices is None
    &&& q.choices@.len() > 0 ==> (r.choices matches Some(c) && c@ == q.choices@)
}

/// A default that is neither text nor `null` is described by its JSON
/// text, as `serde_json` writes it compactly.
pub open spec fn default_written(r: QuestionInfo, q: Question) -> bool {
    !(q.default@ is Null || q.default@ is Str) ==> (r.default matches Some(d) && d@ == compact_text(q.default@))
}

/// The description of a question for the tool's caller.
pub fn question_info(name: String, q: &Question) -> (r: QuestionInfo)
    ensures
        describes(r, name, *q),
        default_written(r, *q),
{
    let default = match &q.default {
        JsonValue::Null => None,
        JsonValue::String(s) => Some(s.clone()),
        other => Some(compact_json(other)),
    };
    let help = if q.help.as_str().is_empty() {
        None
    } else {
        Some(q.help.clone())
    };
    let choices = if q.choices.len() == 0 {
        None
    } else {
        Some(copy_strings(&q.choices))
    };
    let required = default.is_none() && q.ask_if.as_str().is_empty();
    QuestionInfo { name, help, kind: type_label(q.kind), default, required, choices }
}

/// A copy of a list of strings.
fn copy_strings(v: &Vec<String>) -> (r: Vec<String>)
    ensures
        r@ == v@,
{
    let mut out: Vec<String> = Vec::new();
    let mut i: usize = 0;
    while i < v.len()
        invariant
            i <= v@.len(),
            out@ == v@.subrange(0, i as int),
        decreases v@.len() - i,
    {
        out.push(v[i].clone());
        i += 1;
    }
    assert(v@.subrange(0, v@.len() as int) =~= v@);
    out
}

/// The descriptions of a configuration's questions, in order.
pub fn extract_questions(questions: &Vec<(String, Question)>) -> (r: Vec<QuestionInfo>)
    ensures
        r@.len() == questions@.len(),
        forall|i: int| 0 <= i < r@.len() ==> describes(#[trigger] r@[i], questions@[i].0, questions@[i].1),
        forall|i: int| 0 <= i < r@.len() ==> default_written(#[trigger] r@[i], questions@[i].1),
{
    let mut out: Vec<QuestionInfo> = Vec::new();
    let mut i: usize = 0;
    while i < questions.len()
        invariant
            i <= questions@.len(),
            out@.len() == i,
            forall|k: int| 0 <= k < i ==> describes(#[trigger] out@[k], questions@[k].0, questions@[k].1),
            forall|k: int| 0 <= k < i ==> default_written(#[trigger] out@[k], questions@[k].1),
        decreases questions@.len() - i,
    {
        let (name, q) = &questions[i];
        out.push(question_info(name.clone(), q));
        i += 1;
    }
    out
}

impl TemplateInfo {
    /// The information on an installed template, with its questions.
    pub fn new(meta: TemplateMetadata, questions: Vec<QuestionInfo>) -> (r: TemplateInfo)
        ensures
            r.name == meta.name,
            r.description == meta.description,
            r.source == meta.source,
            r.installed_at == meta.installed_at,
            r.questions == questions,
            r.usage@ == usage_text(meta.name@),
    {
        proof {
            reveal_strlit("baker generate ");
            reveal_strlit(" <output_dir> --answers '{\"variable\": \"value\"}'");
        }
        let mut usage = String::from_str("baker generate ");
        push_str(&mut usage, meta.name.as_str());
        push_str(&mut usage, " <output_dir> --answers '{\"variable\": \"value\"}'");
        TemplateInfo {
            name: meta.name,
            description: meta.description,
            source: meta.source,
            installed_at: meta.installed_at,
            questions,
            usage,
        }
    }
}

/// `info` is the information on the installed template `meta` with the
/// questions `questions`.
pub open spec fn informs(info: TemplateInfo, meta: TemplateMetadata, questions: Vec<QuestionInfo>) -> bool {
    &&& info.name == meta.name
    &&& info.description == meta.description
    &&& info.source == meta.source
    &&& info.installed_at == meta.installed_at
    &&& info.questions == questions
    &&& info.usage@ == usage_text(meta.name@)
}

impl ListTemplatesTool {
    /// The tool's answer: the installed templates with their questions, or
    /// the failure to list them.
    pub fn execute(listing: core::result::Result<Vec<(TemplateMetadata, Vec<QuestionInfo>)>, ListingFailure>) -> (r:
        core::result::Result<Vec<TemplateInfo>, String>)
        ensures
            listing is Ok <==> r is Ok,
            r matches Ok(v) ==> v@.len() == listing->Ok_0@.len() && forall|i: int|
                0 <= i < v@.len() ==> informs(#[trigger] v@[i], listing->Ok_0@[i].0, listing->Ok_0@[i].1),
            r matches Err(m) ==> m@ == listing_failure_text(listing->Err_0),
    {
        match listing {
            Err(f) => {
                let (prefix, e) = match f {
                    ListingFailure::StoreAccess(e) => {
                        proof {
                            reveal_strlit("Failed to access template store: ");
                        }
                        (String::from_str("Failed to access template store: "), e)
                    },
                    ListingFailure::Listing(e) => {
                        proof {
                            reveal_strlit("Failed to list templates: ");
                        }
                        (String::from_str("Failed to list templates: "), e)
                    },
                };
                let mut m = prefix;
                let detail = e.to_string();
                push_str(&mut m, detail.as_str());
                Err(m)
            },
            Ok(items) => {
                let ghost orig = items@;
                let mut rest = items;
                let mut out: Vec<TemplateInfo> = Vec::new();
                let total = rest.len();
                while rest.len() > 0
                    invariant
                        orig.len() == total,
                        out@.len() + rest@.len() == orig.len(),
                        rest@ == orig.subrange(out@.len() as int, orig.len() as int),
                        forall|i: int| 0 <= i < out@.len() ==> informs(#[trigger] out@[i], orig[i].0, orig[i].1),
                    decreases rest@.len(),
                {
                    let k = out.len();
                    let (meta, questions) = rest.remove(0);
                    assert(meta == orig[k as int].0);
                    assert(questions == orig[k as int].1);
                    out.push(TemplateInfo::new(meta, questions));
                }
                Ok(out)
            },
        }
    }
}

/// The message for a template that is not installed.
pub open spec fn not_installed_text(template: Seq<char>) -> Seq<char> {
    "Template '"@ + template + "' is not installed. Use list_templates to see available templates."@
}

/// The message of a successful generation.
pub open spec fn generated_text(template: Seq<char>, output_dir: Seq<char>) -> Seq<char> {
    "Successfully generated project from template '"@ + template + "' in '"@ + output_dir + "'"@
}

impl GenerateTool {
    /// The refusal for a template that is not installed.
    pub fn not_installed(&self) -> (r: String)
        ensures
            r@ == not_installed_text(self.template@),
    {
        proof {
            reveal_strlit("Template '");
            reveal_strlit("' is not installed. Use list_templates to see available templates.");
        }
        let mut m = String::from_str("Template '");
        push_str(&mut m, self.template.as_str());
        push_str(&mut m, "' is not installed. Use list_templates to see available templates.");
        m
    }

    /// The arguments of the generation run: the installed template into the
    /// output directory with the given answers (as JSON text), every
    /// confirmation skipped, nothing asked.
    pub fn run_args(&self, answers_json: String) -> (r: Args)
        ensures
            r.template@ == self.template@,
            r.output_dir@ == self.output_dir@,
            r.force == self.force,
            r.verbose == 0,
            r.answers == Some(answers_json),
            r.answers_file is None,
            r.skip_confirms@ == seq![SkipConfirm::All],
            r.non_interactive,
            !r.dry_run,
    {
        let mut skip = Vec::new();
        skip.push(SkipConfirm::All);
        Args {
            template: self.template.clone(),
            output_dir: self.output_dir.clone(),
            force: self.force,
            verbose: 0,
            answers: Some(answers_json),
            answers_file: None,
            skip_confirms: skip,
            non_interactive: true,
            dry_run: false,
        }
    }

    /// The tool's answer once the generation ran.
    pub fn outcome(&self, run: crate::error::Result<()>) -> (r: core::result::Result<String, String>)
        ensures
            run is Ok ==> (r matches Ok(m) && m@ == generated_text(self.template@, self.output_dir@)),
            run matches Err(e) ==> (r matches Err(m) && m@ == "Generation failed: "@ + error_message(e)),
    {
        match run {
            Ok(()) => {
                proof {
                    reveal_strlit("Successfully generated project from template '");
                    reveal_strlit("' in '");
                    reveal_strlit("'");
                }
                let mut m = String::from_str("Successfully generated project from template '");
                push_str(&mut m, self.template.as_str());
                push_str(&mut m, "' in '");
                push_str(&mut m, self.output_dir.as_str());
                push_str(&mut m, "'");
                Ok(m)
            },
            Err(e) => {
                proof {
                    reveal_strlit("Generation failed: ");
                }
                let mut m = String::from_str("Generation failed: ");
                let detail = e.to_string();
                push_str(&mut m, detail.as_str());
                Err(m)
            },
        }
    }
}

} // verus!
