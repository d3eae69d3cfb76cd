//! Rendering a project's paths and files in the web front end.
//!
//! A path template may expand to several paths (a `for` loop in a file
//! name); each expanded path is rendered on a line of its own.
use vstd::prelude::*;

use crate::error::{Error, Result};
use crate::json::{Json, JsonValue};
use crate::renderer::TemplateRenderer;
use crate::text::{
    chars_of, contains, contains_seq, ends_with, find_char_from, first_index_of, has_suffix,
    lemma_first_index_of, lemma_string_views_push, replace_all, replace_all_exec, slice_chars,
    split_on, str_eq, string_of, string_views, trim_end_all, trim_end_all_exec, trim_white,
    trim_white_exec,
};

verus! {

/// `s` with a line break inserted before every occurrence of `tag`.
pub open spec fn break_before(s: Seq<char>, tag: Seq<char>) -> Seq<char> {
    replace_all(s, tag, seq!['\n'] + tag)
}

/// A path template with a line break before each closing `endfor` tag, so
/// that every iteration of a loop renders on a line of its own. Paths
/// without template tags are unchanged.
pub open spec fn injected_path(path: Seq<char>) -> Seq<char> {
    if !contains_seq(path, "{%"@) && !contains_seq(path, "{% "@) {
        path
    } else {
        break_before(
            break_before(
                break_before(
                    break_before(
                        break_before(
                            break_before(break_before(path, "{%- endfor -%}"@), "{%- endfor%}"@),
                            "{%endfor-%}"@,
                        ),
                        "{%endfor%}"@,
                    ),
                    "{% endfor %}"@,
                ),
                "{% endfor-%}"@,
            ),
            "{%- endfor %}"@,
        )
    }
}

/// Inserts a line break before `tag` everywhere in `s`.
fn break_before_exec(s: String, tag: &str) -> (r: String)
    requires
        tag@.len() > 0,
    ensures
        r@ == break_before(s@, tag@),
{
    let mut with_break = String::from_str("\n");
    proof {
        reveal_strlit("\n");
    }
    crate::text::push_str(&mut with_break, tag);
    assert(with_break@ =~= seq!['\n'] + tag@);
    replace_all_exec(s.as_str(), tag, with_break.as_str())
}

/// Inserts a line break before each closing `endfor` tag of a path template.
pub fn inject_path_newlines(path: &str) -> (r: String)
    ensures
        r@ == injected_path(path@),
{
    let cs = chars_of(path);
    let open = chars_of("{%");
    let open_space = chars_of("{% ");
    proof {
        reveal_strlit("{%");
        reveal_strlit("{% ");
        reveal_strlit("{%- endfor -%}");
        reveal_strlit("{%- endfor%}");
        reveal_strlit("{%endfor-%}");
        reveal_strlit("{%endfor%}");
        reveal_strlit("{% endfor %}");
        reveal_strlit("{% endfor-%}");
        reveal_strlit("{%- endfor %}");
    }
    if !contains(&cs, &open) && !contains(&cs, &open_space) {
        return String::from_str(path);
    }
    let s = String::from_str(path);
    let s = break_before_exec(s, "{%- endfor -%}");
    let s = break_before_exec(s, "{%- endfor%}");
    let s = break_before_exec(s, "{%endfor-%}");
    let s = break_before_exec(s, "{%endfor%}");
    let s = break_before_exec(s, "{% endfor %}");
    let s = break_before_exec(s, "{% endfor-%}");
    break_before_exec(s, "{%- endfor %}")
}

/// The non-empty trimmed pieces of a list, in order.
pub open spec fn nonblank_trimmed(pieces: Seq<Seq<char>>) -> Seq<Seq<char>>
    decreases pieces.len(),
{
    if pieces.len() == 0 {
        Seq::empty()
    } else {
        let rest = nonblank_trimmed(pieces.drop_last());
        let t = trim_white(pieces.last());
        if t.len() > 0 {
            rest.push(t)
        } else {
            rest
        }
    }
}

/// The paths of a rendered path template: its lines, trimmed, blank ones
/// dropped.
pub open spec fn rendered_paths(rendered: Seq<char>) -> Seq<Seq<char>> {
    nonblank_trimmed(split_on(rendered, '\n'))
}

/// `str::split` on one character.
pub fn split_exec(s: &[char], c: char) -> (r: Vec<Vec<char>>)
    ensures
        crate::text::lines_view(r@) == split_on(s@, c),
{
    let mut out: Vec<Vec<char>> = Vec::new();
    let mut start: usize = 0;
    let len = s.len();
    proof {
        assert(s@.subrange(0, s@.len() as int) =~= s@);
        assert(crate::text::lines_view(out@) + split_on(s@, c) =~= split_on(s@, c));
    }
    loop
        invariant
            len == s@.len(),
            start <= s@.len(),
            crate::text::lines_view(out@) + split_on(s@.subrange(start as int, s@.len() as int), c)
                == split_on(s@, c),
        decreases s@.len() - start,
    {
        let ghost t = s@.subrange(start as int, s@.len() as int);
        proof {
            lemma_first_index_of(t, c);
        }
        match find_char_from(s, c, start) {
            None => {
                let last = slice_chars(s, start, len);
                proof {
                    assert(split_on(t, c) == seq![t]);
                    let before = crate::text::lines_view(out@);
                    assert(crate::text::lines_view(out@.push(last)) =~= before.push(last@));
                    assert(before + seq![t] =~= before.push(last@));
                }
                out.push(last);
                return out;
            },
            Some(idx) => {
                let piece = slice_chars(s, start, idx);
                proof {
                    let i = idx - start;
                    assert(first_index_of(t, c) == Some(i));
                    assert(t.subrange(0, i) =~= piece@);
                    assert(t.subrange(i + 1, t.len() as int) =~= s@.subrange(idx + 1, s@.len() as int));
                    assert(split_on(t, c) == seq![t.subrange(0, i)] + split_on(
                        t.subrange(i + 1, t.len() as int),
                        c,
                    ));
                    let before = crate::text::lines_view(out@);
                    assert(crate::text::lines_view(out@.push(piece)) =~= before.push(piece@));
                    assert(before + (seq![piece@] + split_on(s@.subrange(idx + 1, s@.len() as int), c))
                        =~= before.push(piece@) + split_on(s@.subrange(idx + 1, s@.len() as int), c));
                }
                out.push(piece);
                start = idx + 1;
            },
        }
    }
}

/// The paths of a rendered path template: its lines, trimmed, blank ones
/// dropped.
pub fn split_rendered_paths(rendered: &str) -> (r: Vec<String>)
    ensures
        string_views(r@) == rendered_paths(rendered@),
{
    let cs = chars_of(rendered);
    let pieces = split_exec(&cs, '\n');
    let ghost pv = crate::text::lines_view(pieces@);
    let mut out: Vec<String> = Vec::new();
    let mut i: usize = 0;
    while i < pieces.len()
        invariant
            i <= pieces@.len(),
            pv == crate::text::lines_view(pieces@),
            pv == split_on(rendered@, '\n'),
            string_views(out@) == nonblank_trimmed(pv.take(i as int)),
        decreases pieces@.len() - i,
    {
        let t = trim_white_exec(pieces[i].as_slice());
        proof {
            assert(pv.take(i + 1).drop_last() =~= pv.take(i as int));
            assert(pv.take(i + 1).last() == pieces@[i as int]@);
        }
        if t.len() > 0 {
            let ghost before = out@;
            let line = string_of(&t);
            out.push(line);
            proof {
                lemma_string_views_push(before, line);
            }
        }
        i += 1;
    }
    proof {
        assert(pv.take(pieces@.len() as int) =~= pv);
    }
    out
}

/// The paths that a path template renders to with `engine`: the lines of
/// its rendering with line breaks injected, trimmed, blank ones dropped; or
/// the engine's error.
pub open spec fn path_rendering<E: TemplateRenderer>(engine: E, path: Seq<char>, context: Json) -> Result<
    Seq<Seq<char>>,
> {
    match engine.rendered(injected_path(path), context, None) {
        Ok(t) => Ok(rendered_paths(t@)),
        Err(e) => Err(e),
    }
}

/// Renders a path template: each line of the rendering (one per loop
/// iteration) is a path; blank lines are dropped.
pub fn render_path<E: TemplateRenderer>(engine: &E, path: &str, context: &JsonValue) -> (r: Result<
    Vec<String>,
>)
    ensures
        match path_rendering(*engine, path@, context@) {
            Ok(ps) => r matches Ok(v) && string_views(v@) == ps,
            Err(e) => r == Err::<Vec<String>, Error>(e),
        },
{
    let augmented = inject_path_newlines(path);
    let rendered = engine.render(augmented.as_str(), context, None);
    match rendered {
        Ok(text) => Ok(split_rendered_paths(text.as_str())),
        Err(e) => Err(e),
    }
}

/// Configuration files are not part of the rendered project.
pub open spec fn is_config_name(p: Seq<char>) -> bool {
    p == "baker.yaml"@ || p == "baker.yml"@ || p == "baker.json"@
}

/// Whether a file is a configuration file.
pub fn is_config_file(path: &str) -> (r: bool)
    ensures
        r == is_config_name(path@),
{
    str_eq(path, "baker.yaml") || str_eq(path, "baker.yml") || str_eq(path, "baker.json")
}

/// The output path of an expanded path: a template's path loses its
/// template suffix; an empty result is no output.
pub open spec fn output_path_of(expanded: Seq<char>, is_template: bool, suffix: Seq<char>) -> Option<
    Seq<char>,
> {
    let p = if is_template {
        trim_end_all(expanded, suffix)
    } else {
        expanded
    };
    if p.len() == 0 {
        None
    } else {
        Some(p)
    }
}

/// The output path of an expanded path.
pub fn output_path(expanded: &str, is_template: bool, suffix: &str) -> (r: Option<String>)
    ensures
        match output_path_of(expanded@, is_template, suffix@) {
            Some(p) => r matches Some(s) && s@ == p,
            None => r is None,
        },
{
    let p = if is_template {
        let cs = chars_of(expanded);
        let sc = chars_of(suffix);
        string_of(&trim_end_all_exec(&cs, &sc))
    } else {
        String::from_str(expanded)
    };
    if p.as_str().is_empty() {
        None
    } else {
        Some(p)
    }
}

/// The texts of an ordered map's entries.
pub open spec fn pairs_view(entries: Seq<(String, String)>) -> Seq<(Seq<char>, Seq<char>)> {
    entries.map_values(|e: (String, String)| (e.0@, e.1@))
}

/// Some entry has the key `k`.
pub open spec fn has_key(m: Seq<(Seq<char>, Seq<char>)>, k: Seq<char>) -> bool {
    exists|i: int| 0 <= i < m.len() && (#[trigger] m[i]).0 == k
}

/// Insertion into an ordered map: the entry with key `k` gets the value
/// `v` in its place; a new key is appended.
pub open spec fn ordered_insert(m: Seq<(Seq<char>, Seq<char>)>, k: Seq<char>, v: Seq<char>) -> Seq<
    (Seq<char>, Seq<char>),
> {
    if has_key(m, k) {
        let i = choose|i: int| 0 <= i < m.len() && (#[trigger] m[i]).0 == k;
        m.update(i, (k, v))
    } else {
        m.push((k, v))
    }
}

/// After an insertion, every entry has the inserted key or is the entry
/// that stood at its place before.
pub proof fn lemma_ordered_insert(m: Seq<(Seq<char>, Seq<char>)>, k: Seq<char>, v: Seq<char>)
    ensures
        forall|i: int|
            0 <= i < ordered_insert(m, k, v).len() ==> (#[trigger] ordered_insert(m, k, v)[i]).0 == k || (i
                < m.len() && ordered_insert(m, k, v)[i] == m[i]),
{
}

#[verifier::external_type_specification]
#[verifier::external_body]
#[verifier::reject_recursive_types(K)]
#[verifier::reject_recursive_types(V)]
#[verifier::reject_recursive_types(S)]
pub struct ExIndexMap<K, V, S>(indexmap::IndexMap<K, V, S>);

/// The entries of an ordered map of texts, in their order.
pub uninterp spec fn text_map_entries(m: indexmap::IndexMap<String, String>) -> Seq<(Seq<char>, Seq<char>)>;

/// `IndexMap::new`: a map with no entry.
#[verifier::external_body]
fn new_text_map() -> (r: indexmap::IndexMap<String, String>)
    ensures
        text_map_entries(r) == Seq::<(Seq<char>, Seq<char>)>::empty(),
{
    indexmap::IndexMap::new()
}

/// `IndexMap::insert`: a key already present keeps its place and gets the
/// new value; a new key is appended last.
#[verifier::external_body]
fn text_map_insert(m: &mut indexmap::IndexMap<String, String>, key: String, value: String)
    ensures
        text_map_entries(*final(m)) == ordered_insert(text_map_entries(*old(m)), key@, value@),
{
    m.insert(key, value);
}

/// The entries of a map, in order (`IndexMap::iter`).
#[verifier::external_body]
fn text_map_pairs(m: &indexmap::IndexMap<String, String>) -> (r: Vec<(String, String)>)
    ensures
        pairs_view(r@) == text_map_entries(*m),
{
    let mut out = Vec::new();
    for (k, v) in m {
        out.push((k.clone(), v.clone()));
    }
    out
}

/// Inserts the output paths of a file's expanded paths, in order, each
/// with the file's content.
pub open spec fn insert_expanded(
    m: Seq<(Seq<char>, Seq<char>)>,
    expanded: Seq<Seq<char>>,
    is_template: bool,
    suffix: Seq<char>,
    content: Seq<char>,
) -> Seq<(Seq<char>, Seq<char>)>
    decreases expanded.len(),
{
    if expanded.len() == 0 {
        m
    } else {
        let before = insert_expanded(m, expanded.drop_last(), is_template, suffix, content);
        match output_path_of(expanded.last(), is_template, suffix) {
            Some(p) => ordered_insert(before, p, content),
            None => before,
        }
    }
}

/// The content written for a file: a template's rendering, or its raw
/// content when that failed; any other file's raw content.
pub open spec fn file_content(is_template: bool, raw: Seq<char>, rendered: Option<Seq<char>>) -> Seq<char> {
    if is_template {
        match rendered {
            Some(c) => c,
            None => raw,
        }
    } else {
        raw
    }
}

/// A file of a project with what rendering made of it.
#[derive(Debug)]
pub struct FileRendering {
    /// The file's path template.
    pub path: String,
    /// The file's raw content.
    pub content: String,
    /// The paths the path template expanded to.
    pub expanded: Vec<String>,
    /// The rendered content, when rendering it succeeded.
    pub rendered: Option<String>,
}

/// The model of a file with what rendering made of it.
pub struct FileModel {
    pub path: Seq<char>,
    pub content: Seq<char>,
    pub expanded: Seq<Seq<char>>,
    pub rendered: Option<Seq<char>>,
}

/// The model of a file's rendering.
pub open spec fn file_model(f: FileRendering) -> FileModel {
    FileModel {
        path: f.path@,
        content: f.content@,
        expanded: string_views(f.expanded@),
        rendered: match f.rendered {
            Some(c) => Some(c@),
            None => None,
        },
    }
}

/// The models of a list of file renderings.
pub open spec fn file_models(fs: Seq<FileRendering>) -> Seq<FileModel> {
    Seq::new(fs.len(), |i: int| file_model(fs[i]))
}

/// The output files of a project, from its files and their renderings:
/// configuration files are skipped; every output path of a file gets the
/// file's content, a later one replacing an earlier one in place.
pub open spec fn project_output(files: Seq<FileModel>, suffix: Seq<char>) -> Seq<
    (Seq<char>, Seq<char>),
>
    decreases files.len(),
{
    if files.len() == 0 {
        Seq::empty()
    } else {
        let before = project_output(files.drop_last(), suffix);
        let f = files.last();
        if is_config_name(f.path) {
            before
        } else {
            let t = has_suffix(f.path, suffix);
            insert_expanded(before, f.expanded, t, suffix, file_content(t, f.content, f.rendered))
        }
    }
}

/// What `engine` makes of a project file with `path` and `content`: a
/// configuration file is left alone; another file's path is rendered (no
/// paths when that fails), and a template's content is rendered too.
pub open spec fn planned_file<E: TemplateRenderer>(
    engine: E,
    path: Seq<char>,
    content: Seq<char>,
    context: Json,
    suffix: Seq<char>,
) -> FileModel {
    FileModel {
        path,
        content,
        expanded: if is_config_name(path) {
            Seq::empty()
        } else {
            match path_rendering(engine, path, context) {
                Ok(ps) => ps,
                Err(_) => Seq::empty(),
            }
        },
        rendered: if !is_config_name(path) && has_suffix(path, suffix) {
            match engine.rendered(content, context, None) {
                Ok(c) => Some(c@),
                Err(_) => None,
            }
        } else {
            None
        },
    }
}

/// What `engine` makes of each file of a project.
pub open spec fn planned_files<E: TemplateRenderer>(
    engine: E,
    files: Seq<(Seq<char>, Seq<char>)>,
    context: Json,
    suffix: Seq<char>,
) -> Seq<FileModel> {
    Seq::new(files.len(), |i: int| planned_file(engine, files[i].0, files[i].1, context, suffix))
}

/// The output files of a project, from its files and what rendering made
/// of them.
pub fn assemble_project(template_suffix: &str, files: &Vec<FileRendering>) -> (r: indexmap::IndexMap<
    String,
    String,
>)
    ensures
        text_map_entries(r) == project_output(file_models(files@), template_suffix@),
        forall|i: int|
            0 <= i < text_map_entries(r).len() ==> (#[trigger] text_map_entries(r)[i]).0.len() > 0,
{
    let mut output = new_text_map();
    let suffix_chars = chars_of(template_suffix);
    let mut f: usize = 0;
    while f < files.len()
        invariant
            f <= files@.len(),
            suffix_chars@ == template_suffix@,
            forall|i: int|
                0 <= i < text_map_entries(output).len() ==> (#[trigger] text_map_entries(output)[i]).0.len() > 0,
            text_map_entries(output) == project_output(file_models(files@.take(f as int)), template_suffix@),
        decreases files@.len() - f,
    {
        let file = &files[f];
        proof {
            assert(files@.take(f + 1).drop_last() =~= files@.take(f as int));
            assert(file_models(files@.take(f + 1)).drop_last() =~= file_models(files@.take(f as int)));
            assert(file_models(files@.take(f + 1)).last() == file_model(files@[f as int]));
        }
        if !is_config_file(file.path.as_str()) {
            let path_chars = chars_of(file.path.as_str());
            let is_template = ends_with(&path_chars, &suffix_chars);
            let content = if is_template {
                match &file.rendered {
                    Some(c) => c.clone(),
                    None => file.content.clone(),
                }
            } else {
                file.content.clone()
            };
            assert(content@ == file_content(is_template, file.content@, file_model(*file).rendered));
            let ghost start = text_map_entries(output);
            let ghost sv = string_views(file.expanded@);
            let mut k: usize = 0;
            while k < file.expanded.len()
                invariant
                    k <= file.expanded@.len(),
                    sv == string_views(file.expanded@),
                    forall|i: int|
                        0 <= i < text_map_entries(output).len() ==> (#[trigger] text_map_entries(output)[i]).0.len()
                            > 0,
                    text_map_entries(output) == insert_expanded(
                        start,
                        sv.take(k as int),
                        is_template,
                        template_suffix@,
                        content@,
                    ),
                decreases file.expanded@.len() - k,
            {
                proof {
                    assert(sv.take(k + 1).drop_last() =~= sv.take(k as int));
                    assert(sv.take(k + 1).last() == file.expanded@[k as int]@);
                }
                match output_path(file.expanded[k].as_str(), is_template, template_suffix) {
                    Some(out_path) => {
                        let ghost pb = text_map_entries(output);
                        let ghost key = out_path@;
                        text_map_insert(&mut output, out_path, content.clone());
                        proof {
                            lemma_ordered_insert(pb, key, content@);
                            assert forall|i: int| 0 <= i < text_map_entries(output).len() implies (
                            #[trigger] text_map_entries(output)[i]).0.len() > 0 by {
                                if text_map_entries(output)[i].0 != key {
                                    assert(text_map_entries(output)[i] == pb[i]);
                                }
                            }
                        }
                    },
                    None => {},
                }
                k += 1;
            }
            proof {
                assert(sv.take(sv.len() as int) =~= sv);
            }
        }
        f += 1;
    }
    proof {
        assert(files@.take(files@.len() as int) =~= files@);
    }
    output
}

/// Renders a project: each file's path is rendered (it may expand to
/// several paths or none, and to none when rendering fails); configuration
/// files are skipped; a template file (one with the template suffix) loses
/// the suffix and has its content rendered, falling back to the raw content
/// when rendering fails; other files are copied. A later file with an
/// output path already seen replaces the earlier content in place.
pub fn render_project<E: TemplateRenderer>(
    engine: &E,
    template_suffix: &str,
    files: &indexmap::IndexMap<String, String>,
    context: &JsonValue,
) -> (r: core::result::Result<indexmap::IndexMap<String, String>, String>)
    ensures
        r matches Ok(v) && text_map_entries(v) == project_output(
            planned_files(*engine, text_map_entries(*files), context@, template_suffix@),
            template_suffix@,
        ),
{
    let files = text_map_pairs(files);
    let suffix_chars = chars_of(template_suffix);
    let ghost planned = planned_files(*engine, pairs_view(files@), context@, template_suffix@);
    let mut items: Vec<FileRendering> = Vec::new();
    let mut f: usize = 0;
    while f < files.len()
        invariant
            f <= files@.len(),
            suffix_chars@ == template_suffix@,
            planned == planned_files(*engine, pairs_view(files@), context@, template_suffix@),
            items@.len() == f,
            forall|i: int| 0 <= i < f ==> #[trigger] file_model(items@[i]) == planned[i],
        decreases files@.len() - f,
    {
        let raw_path = files[f].0.as_str();
        let raw_content = files[f].1.as_str();
        let mut expanded: Vec<String> = Vec::new();
        let mut rendered: Option<String> = None;
        if !is_config_file(raw_path) {
            match render_path(engine, raw_path, context) {
                Ok(v) => {
                    expanded = v;
                },
                Err(_) => {
                    assert(string_views(expanded@) =~= Seq::<Seq<char>>::empty());
                },
            }
            let path_chars = chars_of(raw_path);
            if ends_with(&path_chars, &suffix_chars) {
                rendered = match engine.render(raw_content, context, None) {
                    Ok(c) => Some(c),
                    Err(_) => None,
                };
            }
        }
        let item = FileRendering {
            path: String::from_str(raw_path),
            content: String::from_str(raw_content),
            expanded,
            rendered,
        };
        proof {
            assert(pairs_view(files@)[f as int] == (files@[f as int].0@, files@[f as int].1@));
            if is_config_name(files@[f as int].0@) {
                assert(string_views(item.expanded@) =~= Seq::<Seq<char>>::empty());
            }
            assert(file_model(item) == planned[f as int]);
        }
        items.push(item);
        f += 1;
    }
    proof {
        assert(file_models(items@) =~= planned);
    }
    Ok(assemble_project(template_suffix, &items))
}

/// The paths of a rendering are never blank and carry no surrounding white
/// space at their ends.
pub proof fn law_rendered_paths_are_not_blank(pieces: Seq<Seq<char>>)
    ensures
        forall|i: int|
            0 <= i < nonblank_trimmed(pieces).len() ==> (#[trigger] nonblank_trimmed(pieces)[i]).len() > 0,
    decreases pieces.len(),
{
    if pieces.len() > 0 {
        let rest = nonblank_trimmed(pieces.drop_last());
        law_rendered_paths_are_not_blank(pieces.drop_last());
        let t = trim_white(pieces.last());
        if t.len() > 0 {
            assert forall|i: int| 0 <= i < rest.push(t).len() implies (#[trigger] rest.push(t)[i]).len() > 0 by {
                if i < rest.len() {
                    assert(rest.push(t)[i] == rest[i]);
                }
            }
        }
    }
}

} // verus!
