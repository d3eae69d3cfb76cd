//! Path helpers: paths are handled as strings with `/` as the separator.
use vstd::prelude::*;

use crate::text::{chars_of, push_char, push_str, split_on};

verus! {

/// `PathBuf::join` on Unix: an absolute `rel` replaces `base`; otherwise `rel`
/// is appended, with a `/` in between unless `base` is empty or already ends
/// with one.
pub open spec fn path_join(base: Seq<char>, rel: Seq<char>) -> Seq<char> {
    if rel.len() > 0 && rel[0] == '/' {
        rel
    } else if base.len() == 0 {
        rel
    } else if base.last() == '/' {
        base + rel
    } else {
        base + seq!['/'] + rel
    }
}

/// Joins `rel` onto `base` (`Path::join`).
pub fn path_join_exec(base: &str, rel: &str) -> (r: String)
    ensures
        r@ == path_join(base@, rel@),
{
    let b = chars_of(base);
    let r = chars_of(rel);
    if r.len() > 0 && r[0] == '/' {
        return String::from_str(rel);
    }
    let mut out = String::from_str(base);
    if b.len() > 0 && b[b.len() - 1] != '/' {
        push_char(&mut out, '/');
    }
    push_str(&mut out, rel);
    out
}

/// The normal components among the pieces of a `/`-separated path, in
/// order: empty pieces (repeated or trailing separators) and `.` are not
/// components of their own.
pub open spec fn normal_parts(pieces: Seq<Seq<char>>) -> Seq<Seq<char>>
    decreases pieces.len(),
{
    if pieces.len() == 0 {
        Seq::empty()
    } else {
        let rest = normal_parts(pieces.drop_last());
        let p = pieces.last();
        if p.len() == 0 || p == seq!['.'] {
            rest
        } else {
            rest.push(p)
        }
    }
}

/// The final component of a `/`-separated path (`Path::file_name` on Unix):
/// none for a path with no component (`/`, `.`, the empty path) or one
/// ending in `..`.
pub open spec fn path_file_name(path: Seq<char>) -> Option<Seq<char>> {
    let ps = normal_parts(split_on(path, '/'));
    if ps.len() == 0 || ps.last() == seq!['.', '.'] {
        None
    } else {
        Some(ps.last())
    }
}

/// The final component of a path, `/` being the separator (`Path::file_name`
/// as on Unix).
pub fn file_name(path: &str) -> (r: Option<String>)
    ensures
        match path_file_name(path@) {
            Some(n) => r matches Some(s) && s@ == n,
            None => r is None,
        },
{
    let cs = chars_of(path);
    let pieces = crate::web::render::split_exec(&cs, '/');
    let ghost pv = crate::text::lines_view(pieces@);
    let mut last: Option<usize> = None;
    let mut i: usize = 0;
    while i < pieces.len()
        invariant
            i <= pieces@.len(),
            pv == crate::text::lines_view(pieces@),
            pv == split_on(path@, '/'),
            match last {
                Some(k) => k < i && normal_parts(pv.take(i as int)).len() > 0 && normal_parts(
                    pv.take(i as int),
                ).last() == pv[k as int],
                None => normal_parts(pv.take(i as int)).len() == 0,
            },
        decreases pieces@.len() - i,
    {
        proof {
            assert(pv.take(i + 1).drop_last() =~= pv.take(i as int));
            assert(pv.take(i + 1).last() == pv[i as int]);
        }
        let p = &pieces[i];
        let dot = p.len() == 1 && p[0] == '.';
        proof {
            if p@.len() == 1 {
                assert(dot == (p@ =~= seq!['.']));
            } else {
                assert(p@ != seq!['.']);
            }
        }
        if p.len() > 0 && !dot {
            last = Some(i);
        }
        i += 1;
    }
    proof {
        assert(pv.take(pv.len() as int) =~= pv);
    }
    match last {
        None => None,
        Some(k) => {
            let q = &pieces[k];
            let dots = q.len() == 2 && q[0] == '.' && q[1] == '.';
            proof {
                if q@.len() == 2 {
                    assert(dots == (q@ =~= seq!['.', '.']));
                } else {
                    assert(q@ != seq!['.', '.']);
                }
            }
            if dots {
                None
            } else {
                Some(crate::text::string_of(q))
            }
        },
    }
}

/// Whether something exists at `path` on disk (`Path::exists`). The answer
/// depends on the file system at the time of the call; nothing is stated of it.
#[verifier::external_body]
pub(crate) fn path_exists(path: &str) -> bool {
    std::path::Path::new(path).exists()
}

} // verus!
