//! The state shared by the steps of one generation run.
use vstd::prelude::*;

use crate::cli::args::SkipConfirm;
use crate::config::ConfigV1;
use crate::conflict::ConflictStyle;
use crate::json::JsonValue;

verus! {

/// Everything a generation run knows once its template is resolved: where
/// the template and the output live, the configuration, the answers once
/// they are collected, and the run's flags.
pub struct GenerationContext {
    template_root: String,
    output_root: String,
    config: ConfigV1,
    answers: Option<JsonValue>,
    skip_confirms: Vec<SkipConfirm>,
    dry_run: bool,
    conflict_style: Option<ConflictStyle>,
}

impl GenerationContext {
    /// The template directory.
    pub closed spec fn template_root_spec(&self) -> Seq<char> {
        self.template_root@
    }

    /// The output directory.
    pub closed spec fn output_root_spec(&self) -> Seq<char> {
        self.output_root@
    }

    /// The configuration.
    pub closed spec fn config_spec(&self) -> ConfigV1 {
        self.config
    }

    /// The answers, once set.
    pub closed spec fn answers_spec(&self) -> Option<JsonValue> {
        self.answers
    }

    /// The confirmation prompts to skip.
    pub closed spec fn skip_confirms_spec(&self) -> Seq<SkipConfirm> {
        self.skip_confirms@
    }

    /// Whether the run only reports what it would do.
    pub closed spec fn dry_run_spec(&self) -> bool {
        self.dry_run
    }

    /// The conflict-marker style, when the run merges into existing files.
    pub closed spec fn conflict_style_spec(&self) -> Option<ConflictStyle> {
        self.conflict_style
    }

    /// A context for a fresh generation: no answers yet, no conflict markers.
    pub fn new(
        template_root: String,
        output_root: String,
        config: ConfigV1,
        skip_confirms: Vec<SkipConfirm>,
        dry_run: bool,
    ) -> (r: Self)
        ensures
            r.template_root_spec() == template_root@,
            r.output_root_spec() == output_root@,
            r.config_spec() == config,
            r.answers_spec() is None,
            r.skip_confirms_spec() == skip_confirms@,
            r.dry_run_spec() == dry_run,
            r.conflict_style_spec() is None,
    {
        GenerationContext {
            template_root,
            output_root,
            config,
            answers: None,
            skip_confirms,
            dry_run,
            conflict_style: None,
        }
    }

    /// A context for an update: files that already exist are merged with
    /// conflict markers of `conflict_style`.
    pub fn for_update(
        template_root: String,
        output_root: String,
        config: ConfigV1,
        skip_confirms: Vec<SkipConfirm>,
        dry_run: bool,
        conflict_style: ConflictStyle,
    ) -> (r: Self)
        ensures
            r.template_root_spec() == template_root@,
            r.output_root_spec() == output_root@,
            r.config_spec() == config,
            r.answers_spec() is None,
            r.skip_confirms_spec() == skip_confirms@,
            r.dry_run_spec() == dry_run,
            r.conflict_style_spec() == Some(conflict_style),
    {
        GenerationContext {
            template_root,
            output_root,
            config,
            answers: None,
            skip_confirms,
            dry_run,
            conflict_style: Some(conflict_style),
        }
    }

    /// The template directory.
    pub fn template_root(&self) -> (r: &str)
        ensures
            r@ == self.template_root_spec(),
    {
        self.template_root.as_str()
    }

    /// The output directory.
    pub fn output_root(&self) -> (r: &str)
        ensures
            r@ == self.output_root_spec(),
    {
        self.output_root.as_str()
    }

    /// The configuration.
    pub fn config(&self) -> (r: &ConfigV1)
        ensures
            *r == self.config_spec(),
    {
        &self.config
    }

    /// The configuration, for changing it; everything else is unchanged.
    pub fn config_mut(&mut self) -> (r: &mut ConfigV1)
        ensures
            *r == old(self).config_spec(),
            final(self).config_spec() == *final(r),
            final(self).answers_spec() == old(self).answers_spec(),
            final(self).template_root_spec() == old(self).template_root_spec(),
            final(self).output_root_spec() == old(self).output_root_spec(),
            final(self).skip_confirms_spec() == old(self).skip_confirms_spec(),
            final(self).dry_run_spec() == old(self).dry_run_spec(),
            final(self).conflict_style_spec() == old(self).conflict_style_spec(),
    {
        &mut self.config
    }

    /// The confirmation prompts to skip.
    pub fn skip_confirms(&self) -> (r: &[SkipConfirm])
        ensures
            r@ == self.skip_confirms_spec(),
    {
        self.skip_confirms.as_slice()
    }

    /// Whether the run only reports what it would do.
    pub fn dry_run(&self) -> (r: bool)
        ensures
            r == self.dry_run_spec(),
    {
        self.dry_run
    }

    /// The conflict-marker style of an update run.
    pub fn conflict_style(&self) -> (r: Option<ConflictStyle>)
        ensures
            r == self.conflict_style_spec(),
    {
        self.conflict_style
    }

    /// Records the answers; everything else is unchanged.
    pub fn set_answers(&mut self, answers: JsonValue)
        ensures
            final(self).answers_spec() == Some(answers),
            final(self).template_root_spec() == old(self).template_root_spec(),
            final(self).output_root_spec() == old(self).output_root_spec(),
            final(self).config_spec() == old(self).config_spec(),
            final(self).skip_confirms_spec() == old(self).skip_confirms_spec(),
            final(self).dry_run_spec() == old(self).dry_run_spec(),
            final(self).conflict_style_spec() == old(self).conflict_style_spec(),
    {
        self.answers = Some(answers);
    }

    /// The answers; they must have been set.
    pub fn answers(&self) -> (r: &JsonValue)
        requires
            self.answers_spec() is Some,
        ensures
            *r == self.answers_spec()->0,
    {
        self.answers.as_ref().unwrap()
    }

    /// The answers, if set.
    pub fn answers_opt(&self) -> (r: Option<&JsonValue>)
        ensures
            match self.answers_spec() {
                Some(a) => r is Some && *r->0 == a,
                None => r is None,
            },
    {
        match &self.answers {
            Some(a) => Some(a),
            None => None,
        }
    }
}

} // verus!
