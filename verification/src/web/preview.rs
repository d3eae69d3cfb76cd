//! The preview of a generated project: which file is shown, and the icon
//! of each file.
use vstd::prelude::*;

use crate::text::{after_last, after_last_exec, chars_of, lowercase, str_eq, string_of, to_lowercase};

verus! {

/// The content stored under `key` in an ordered list of (path, content)
/// pairs: the first pair with that path.
pub open spec fn lookup(files: Seq<(String, String)>, key: Seq<char>) -> Option<Seq<char>>
    decreases files.len(),
{
    if files.len() == 0 {
        None
    } else if files[0].0@ == key {
        Some(files[0].1@)
    } else {
        lookup(files.drop_first(), key)
    }
}

/// Looking up past pairs with other paths gives the same result.
proof fn lemma_lookup_skip(files: Seq<(String, String)>, key: Seq<char>, i: int)
    requires
        0 <= i <= files.len(),
        forall|j: int| 0 <= j < i ==> (#[trigger] files[j]).0@ != key,
    ensures
        lookup(files, key) == lookup(files.subrange(i, files.len() as int), key),
    decreases i,
{
    if i > 0 {
        let rest = files.drop_first();
        assert forall|j: int| 0 <= j < i - 1 implies (#[trigger] rest[j]).0@ != key by {
            assert(rest[j] == files[j + 1]);
        }
        lemma_lookup_skip(rest, key, i - 1);
        assert(rest.subrange(i - 1, rest.len() as int) =~= files.subrange(i, files.len() as int));
    } else {
        assert(files.subrange(0, files.len() as int) =~= files);
    }
}

/// The text shown for the selected file: its content, or nothing when no
/// file is selected or the selection is not among the files.
pub open spec fn preview_text(files: Seq<(String, String)>, selected: Option<String>) -> Seq<char> {
    match selected {
        Some(p) => match lookup(files, p@) {
            Some(c) => c,
            None => Seq::empty(),
        },
        None => Seq::empty(),
    }
}

/// The content of the selected file.
pub fn preview_content(files: &Vec<(String, String)>, selected: &Option<String>) -> (r: String)
    ensures
        r@ == preview_text(files@, *selected),
{
    match selected {
        None => String::new(),
        Some(p) => {
            let mut i: usize = 0;
            while i < files.len()
                invariant
                    i <= files@.len(),
                    *selected == Some(*p),
                    forall|j: int| 0 <= j < i ==> (#[trigger] files@[j]).0@ != p@,
                decreases files@.len() - i,
            {
                if str_eq(files[i].0.as_str(), p.as_str()) {
                    proof {
                        lemma_lookup_skip(files@, p@, i as int);
                        let tail = files@.subrange(i as int, files@.len() as int);
                        assert(tail[0] == files@[i as int]);
                        assert(tail[0].0@ == p@);
                        assert(lookup(tail, p@) == Some(files@[i as int].1@));
                    }
                    let c = files[i].1.clone();
                    assert(c@ == files@[i as int].1@);
                    return c;
                }
                i += 1;
            }
            proof {
                lemma_lookup_skip(files@, p@, i as int);
            }
            String::new()
        },
    }
}

/// The title of the file viewer: the selected path, or a dash.
pub fn preview_title(selected: &Option<String>) -> (r: String)
    ensures
        r@ == match selected {
            Some(p) => p@,
            None => "—"@,
        },
{
    match selected {
        Some(p) => p.clone(),
        None => String::from_str("—"),
    }
}

/// The icon of a file by its lower-case extension (the text after the last
/// dot, or the whole path when there is none).
pub open spec fn icon_for(ext: Seq<char>) -> Seq<char> {
    if ext == "rs"@ {
        "🦀"@
    } else if ext == "py"@ {
        "🐍"@
    } else if ext == "js"@ || ext == "ts"@ {
        "📜"@
    } else if ext == "json"@ {
        "{}"@
    } else if ext == "yaml"@ || ext == "yml"@ {
        "⚙"@
    } else if ext == "md"@ {
        "📝"@
    } else if ext == "toml"@ {
        "⚙"@
    } else if ext == "html"@ || ext == "htm"@ {
        "🌐"@
    } else if ext == "sh"@ || ext == "bash"@ {
        "💲"@
    } else if ext == "dockerfile"@ || ext == "containerfile"@ {
        "🐳"@
    } else {
        "📄"@
    }
}

/// The icon shown beside a file of the preview.
pub fn file_icon(path: &str) -> (r: String)
    ensures
        r@ == icon_for(lowercase(after_last(path@, '.'))),
{
    let cs = chars_of(path);
    let ext_chars = after_last_exec(&cs, '.');
    let ext_text = string_of(&ext_chars);
    let lower = to_lowercase(ext_text.as_str());
    let e = lower.as_str();
    let icon = if str_eq(e, "rs") {
        "🦀"
    } else if str_eq(e, "py") {
        "🐍"
    } else if str_eq(e, "js") || str_eq(e, "ts") {
        "📜"
    } else if str_eq(e, "json") {
        "{}"
    } else if str_eq(e, "yaml") || str_eq(e, "yml") {
        "⚙"
    } else if str_eq(e, "md") {
        "📝"
    } else if str_eq(e, "toml") {
        "⚙"
    } else if str_eq(e, "html") || str_eq(e, "htm") {
        "🌐"
    } else if str_eq(e, "sh") || str_eq(e, "bash") {
        "💲"
    } else if str_eq(e, "dockerfile") || str_eq(e, "containerfile") {
        "🐳"
    } else {
        "📄"
    };
    String::from_str(icon)
}

} // verus!
