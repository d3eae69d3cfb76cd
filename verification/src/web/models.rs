//! Shared data models of the web front end.
use vstd::prelude::*;

use crate::json::JsonMap;
use crate::text::{chars_of, push_char, push_chars, push_str, trim_char, trim_char_exec};
use crate::json::Json;
use crate::web::form::{initial_json, BakerConfig, FormField};
use crate::web::templates::{
    cleaned_url, entry_text, github_entry, github_path, parse_github_url, unsupported_url_text,
};
use crate::text::{splitn_on, trim_white};

verus! {

/// A template entry in the community or custom registry
#[derive(Debug)]
pub struct TemplateEntry {
    /// Display name.
    pub name: String,
    /// One-line description.
    pub description: String,
    /// Search tags.
    pub tags: Vec<String>,
    /// GitHub owner / GitLab namespace
    pub owner: String,
    /// Repository name.
    pub repo: String,
    /// Branch the template is read from.
    pub branch: String,
    /// Sub-path within the repo where baker.yaml lives (default = "")
    pub path: String,
}

/// The sub-path part of a raw content URL: empty for the repository root,
/// else the path without surrounding slashes and with one trailing slash.
pub open spec fn raw_path_part(path: Seq<char>) -> Seq<char> {
    if path.len() == 0 {
        Seq::empty()
    } else {
        trim_char(path, '/') + "/"@
    }
}

/// The raw GitHub base URL for file content of an entry.
pub open spec fn raw_base_text(owner: Seq<char>, repo: Seq<char>, branch: Seq<char>, path: Seq<char>) -> Seq<char> {
    "https://raw.githubusercontent.com/"@ + owner + "/"@ + repo + "/"@ + branch + "/"@ + raw_path_part(path)
}

/// The GitHub API URL of an entry's recursive tree.
pub open spec fn tree_api_text(owner: Seq<char>, repo: Seq<char>, branch: Seq<char>) -> Seq<char> {
    "https://api.github.com/repos/"@ + owner + "/"@ + repo + "/git/trees/"@ + branch + "?recursive=1"@
}

impl TemplateEntry {
    /// Raw GitHub base URL for file content
    pub fn raw_base_url(&self) -> (r: String)
        ensures
            r@ == raw_base_text(self.owner@, self.repo@, self.branch@, self.path@),
    {
        proof {
            reveal_strlit("https://raw.githubusercontent.com/");
            reveal_strlit("/");
        }
        let mut s = String::from_str("https://raw.githubusercontent.com/");
        push_str(&mut s, self.owner.as_str());
        push_str(&mut s, "/");
        push_str(&mut s, self.repo.as_str());
        push_str(&mut s, "/");
        push_str(&mut s, self.branch.as_str());
        push_str(&mut s, "/");
        let p = chars_of(self.path.as_str());
        if p.len() > 0 {
            let trimmed = trim_char_exec(&p, '/');
            push_chars(&mut s, &trimmed);
            push_char(&mut s, '/');
        }
        proof {
            assert("/"@ =~= seq!['/']);
        }
        s
    }

    /// GitHub API for the tree rooted at `self.path`
    pub fn tree_api_url(&self) -> (r: String)
        ensures
            r@ == tree_api_text(self.owner@, self.repo@, self.branch@),
    {
        proof {
            reveal_strlit("https://api.github.com/repos/");
            reveal_strlit("/");
            reveal_strlit("/git/trees/");
            reveal_strlit("?recursive=1");
        }
        let mut s = String::from_str("https://api.github.com/repos/");
        push_str(&mut s, self.owner.as_str());
        push_str(&mut s, "/");
        push_str(&mut s, self.repo.as_str());
        push_str(&mut s, "/git/trees/");
        push_str(&mut s, self.branch.as_str());
        push_str(&mut s, "?recursive=1");
        s
    }

    /// Human-readable slug for the project name default
    pub fn slug(&self) -> (r: String)
        ensures
            r@ == self.repo@,
    {
        self.repo.clone()
    }
}

/// Application loading / error states
#[derive(Debug)]
pub enum Loadable<T> {
    /// Nothing requested yet.
    Idle,
    /// A request is under way.
    Loading,
    /// The value arrived.
    Ready(T),
    /// The request failed, with its message.
    Failed(String),
}

impl<T> Default for Loadable<T> {
    fn default() -> (r: Self)
        ensures
            r is Idle,
    {
        Loadable::Idle
    }
}

impl<T> Loadable<T> {
    /// A request is under way.
    pub fn is_loading(&self) -> (r: bool)
        ensures
            r == (self is Loading),
    {
        match self {
            Loadable::Loading => true,
            _ => false,
        }
    }

    /// The request failed.
    pub fn is_failed(&self) -> (r: bool)
        ensures
            r == (self is Failed),
    {
        match self {
            Loadable::Failed(_) => true,
            _ => false,
        }
    }

    /// The value, if it arrived.
    pub fn ready(self) -> (r: Option<T>)
        ensures
            match self {
                Loadable::Ready(v) => r == Some(v),
                _ => r is None,
            },
    {
        match self {
            Loadable::Ready(v) => Some(v),
            _ => None,
        }
    }

    /// The failure message, if the request failed.
    pub fn err_msg(&self) -> (r: Option<&str>)
        ensures
            match self {
                Loadable::Failed(m) => r is Some && r->0@ == m@,
                _ => r is None,
            },
    {
        match self {
            Loadable::Failed(m) => Some(m.as_str()),
            _ => None,
        }
    }
}

/// The two tabs of the template list.
#[derive(Debug, Clone, Copy, PartialEq, Eq, Structural)]
pub enum Tab {
    /// The community registry.
    Community,
    /// Templates added by URL.
    Custom,
}

/// All global application state, kept at the root.
#[derive(Debug)]
pub struct AppState {
    /// The tab shown.
    pub active_tab: Tab,
    /// The text of the search box.
    pub search_query: String,
    /// The text of the custom-URL box.
    pub custom_url_input: String,
    /// The template chosen.
    pub selected_template: Option<TemplateEntry>,
    /// The loading of the chosen template's configuration.
    pub config_load: Loadable<BakerConfig>,
    /// The values entered in the form, by field key.
    pub form_values: JsonMap,
    /// The rendered output files (path, content), once generated.
    pub output_files: Option<Vec<(String, String)>>,
    /// The output file shown in the preview.
    pub selected_preview_file: Option<String>,
    /// Whether generation is under way.
    pub generating: bool,
    /// Templates added by URL.
    pub custom_templates: Vec<TemplateEntry>,
}

impl Default for AppState {
    fn default() -> (r: Self)
        ensures
            r.active_tab == Tab::Community,
            r.search_query@.len() == 0,
            r.custom_url_input@.len() == 0,
            r.selected_template is None,
            r.config_load is Idle,
            r.form_values.map().len() == 0,
            r.output_files is None,
            r.selected_preview_file is None,
            !r.generating,
            r.custom_templates@.len() == 0,
    {
        AppState {
            active_tab: Tab::Community,
            search_query: String::new(),
            custom_url_input: String::new(),
            selected_template: None,
            config_load: Loadable::Idle,
            form_values: JsonMap::new(),
            output_files: None,
            selected_preview_file: None,
            generating: false,
            custom_templates: Vec::new(),
        }
    }
}


/// What became of the text of the custom-URL box.
#[derive(Debug)]
pub enum CustomLoad {
    /// The box was blank: nothing was done.
    Ignored,
    /// The URL named a repository: its entry was added.
    Added,
    /// The URL was refused, with the message shown under the box.
    Refused(String),
}

/// The state outside the custom templates and the tab is the same.
pub open spec fn same_but_custom(a: AppState, b: AppState) -> bool {
    &&& a.search_query == b.search_query
    &&& a.custom_url_input == b.custom_url_input
    &&& a.selected_template == b.selected_template
    &&& a.config_load == b.config_load
    &&& a.form_values == b.form_values
    &&& a.output_files == b.output_files
    &&& a.selected_preview_file == b.selected_preview_file
    &&& a.generating == b.generating
}

impl AppState {
    /// Loads the repository named in the custom-URL box: a blank box is
    /// ignored; a URL that names a repository adds its entry to the custom
    /// templates and shows that tab; any other is refused with its message.
    pub fn load_custom(&mut self) -> (r: CustomLoad)
        ensures
            same_but_custom(*old(self), *final(self)),
            ({
                let url = old(self).custom_url_input@;
                if trim_white(url).len() == 0 {
                    &&& r is Ignored
                    &&& final(self).custom_templates@ == old(self).custom_templates@
                    &&& final(self).active_tab == old(self).active_tab
                } else {
                    match github_path(cleaned_url(url)) {
                        None => {
                            &&& r matches CustomLoad::Refused(m) && m@ == unsupported_url_text()
                            &&& final(self).custom_templates@ == old(self).custom_templates@
                            &&& final(self).active_tab == old(self).active_tab
                        },
                        Some(p) => match github_entry(splitn_on(p, 5, '/')) {
                            Some(t) => {
                                &&& r is Added
                                &&& final(self).custom_templates@.len() == old(
                                    self,
                                ).custom_templates@.len() + 1
                                &&& final(self).custom_templates@.drop_last()
                                    == old(self).custom_templates@
                                &&& entry_text(final(self).custom_templates@.last()) == t
                                &&& final(self).active_tab == Tab::Custom
                            },
                            None => {
                                &&& r matches CustomLoad::Refused(m) && m@ == "Cannot parse GitHub URL: "@
                                    + cleaned_url(url)
                                &&& final(self).custom_templates@ == old(self).custom_templates@
                                &&& final(self).active_tab == old(self).active_tab
                            },
                        },
                    }
                }
            }),
    {
        let raw = chars_of(self.custom_url_input.as_str());
        let trimmed = crate::text::trim_white_exec(&raw);
        if trimmed.len() == 0 {
            return CustomLoad::Ignored;
        }
        match parse_github_url(self.custom_url_input.as_str()) {
            Ok(entry) => {
                self.custom_templates.push(entry);
                self.active_tab = Tab::Custom;
                proof {
                    assert(self.custom_templates@.drop_last() =~= old(self).custom_templates@);
                }
                CustomLoad::Added
            },
            Err(e) => CustomLoad::Refused(e),
        }
    }
}

/// The values a form starts with: each field's initial value under its
/// key, a later field with the same key replacing an earlier one.
pub open spec fn initial_values(fields: Seq<FormField>) -> Map<Seq<char>, Json>
    decreases fields.len(),
{
    if fields.len() == 0 {
        Map::empty()
    } else {
        let f = fields.last();
        initial_values(fields.drop_last()).insert(f.key@, initial_json(f.field_type, f.default@))
    }
}

/// The state is the same but for the fields a transition sets.
pub open spec fn same_lists(a: AppState, b: AppState) -> bool {
    &&& a.active_tab == b.active_tab
    &&& a.search_query == b.search_query
    &&& a.custom_url_input == b.custom_url_input
    &&& a.custom_templates == b.custom_templates
}

impl AppState {
    /// A template was picked: its configuration starts loading and the
    /// form and the output are cleared.
    pub fn select_template(&mut self, entry: TemplateEntry)
        ensures
            same_lists(*old(self), *final(self)),
            final(self).selected_template == Some(entry),
            final(self).config_load is Loading,
            final(self).form_values.map() == Map::<Seq<char>, Json>::empty(),
            final(self).output_files is None,
            final(self).selected_preview_file is None,
            final(self).generating == old(self).generating,
    {
        self.config_load = Loadable::Loading;
        self.form_values = JsonMap::new();
        self.output_files = None;
        self.selected_preview_file = None;
        self.selected_template = Some(entry);
    }

    /// The configuration could not be fetched: the message is shown.
    pub fn config_fetch_failed(&mut self, message: String)
        ensures
            same_lists(*old(self), *final(self)),
            final(self).config_load matches Loadable::Failed(m) && m == message,
            final(self).selected_template == old(self).selected_template,
            final(self).form_values == old(self).form_values,
            final(self).output_files == old(self).output_files,
            final(self).selected_preview_file == old(self).selected_preview_file,
            final(self).generating == old(self).generating,
    {
        self.config_load = Loadable::Failed(message);
    }

    /// The fetched configuration was parsed: on success the form starts
    /// with each field's initial value; a parse error is shown.
    pub fn config_parsed(&mut self, parsed: core::result::Result<BakerConfig, String>)
        ensures
            same_lists(*old(self), *final(self)),
            final(self).selected_template == old(self).selected_template,
            final(self).output_files == old(self).output_files,
            final(self).selected_preview_file == old(self).selected_preview_file,
            final(self).generating == old(self).generating,
            match parsed {
                Ok(cfg) => final(self).config_load == Loadable::Ready(cfg)
                    && final(self).form_values.map() == initial_values(cfg.fields@),
                Err(e) => (final(self).config_load matches Loadable::Failed(m) && m@
                    == "Config parse error: "@ + e@) && final(self).form_values == old(self).form_values,
            },
    {
        match parsed {
            Ok(cfg) => {
                let mut values = JsonMap::new();
                let mut i: usize = 0;
                while i < cfg.fields.len()
                    invariant
                        i <= cfg.fields@.len(),
                        values.map() == initial_values(cfg.fields@.take(i as int)),
                    decreases cfg.fields@.len() - i,
                {
                    let f = &cfg.fields[i];
                    proof {
                        assert(cfg.fields@.take(i + 1).drop_last() =~= cfg.fields@.take(i as int));
                        assert(cfg.fields@.take(i + 1).last() == *f);
                    }
                    values.insert(f.key.clone(), f.field_type.initial_value(&f.default));
                    i += 1;
                }
                proof {
                    assert(cfg.fields@.take(cfg.fields@.len() as int) =~= cfg.fields@);
                }
                self.form_values = values;
                self.config_load = Loadable::Ready(cfg);
            },
            Err(e) => {
                proof {
                    reveal_strlit("Config parse error: ");
                }
                let mut m = String::from_str("Config parse error: ");
                push_str(&mut m, e.as_str());
                self.config_load = Loadable::Failed(m);
            },
        }
    }

    /// The form was submitted: generation starts when a template is chosen
    /// and its configuration is ready, clearing the previous output.
    pub fn start_generation(&mut self) -> (r: bool)
        ensures
            r == (old(self).selected_template is Some && old(self).config_load is Ready),
            same_lists(*old(self), *final(self)),
            final(self).selected_template == old(self).selected_template,
            final(self).config_load == old(self).config_load,
            final(self).form_values == old(self).form_values,
            r ==> final(self).generating && final(self).output_files is None
                && final(self).selected_preview_file is None,
            !r ==> final(self).generating == old(self).generating && final(self).output_files
                == old(self).output_files && final(self).selected_preview_file
                == old(self).selected_preview_file,
    {
        let ready = match &self.config_load {
            Loadable::Ready(_) => true,
            _ => false,
        };
        if !ready || self.selected_template.is_none() {
            return false;
        }
        self.generating = true;
        self.output_files = None;
        self.selected_preview_file = None;
        true
    }

    /// Generation ended: on success the output is shown with its first
    /// file selected; either way generation is no longer under way.
    pub fn generation_finished(&mut self, outcome: core::result::Result<Vec<(String, String)>, String>)
        ensures
            same_lists(*old(self), *final(self)),
            final(self).selected_template == old(self).selected_template,
            final(self).config_load == old(self).config_load,
            final(self).form_values == old(self).form_values,
            !final(self).generating,
            match outcome {
                Ok(files) => final(self).output_files == Some(files) && (files@.len() > 0
                    ==> final(self).selected_preview_file == Some(files@[0].0)) && (files@.len() == 0
                    ==> final(self).selected_preview_file == old(self).selected_preview_file),
                Err(_) => final(self).output_files == old(self).output_files
                    && final(self).selected_preview_file == old(self).selected_preview_file,
            },
    {
        match outcome {
            Ok(files) => {
                if files.len() > 0 {
                    self.selected_preview_file = Some(files[0].0.clone());
                }
                self.output_files = Some(files);
            },
            Err(_) => {},
        }
        self.generating = false;
    }

    /// The name of the archive the project downloads as: the chosen
    /// template's slug (`project` before any is chosen) and `.zip`.
    pub fn zip_name(&self) -> (r: String)
        ensures
            r@ == match self.selected_template {
                Some(t) => t.repo@,
                None => "project"@,
            } + ".zip"@,
    {
        proof {
            reveal_strlit("project");
            reveal_strlit(".zip");
        }
        let mut name = match &self.selected_template {
            Some(t) => t.slug(),
            None => String::from_str("project"),
        };
        push_str(&mut name, ".zip");
        name
    }
}

} // verus!
