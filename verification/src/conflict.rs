//! Conflict marker types and utilities for merging file content.
use vstd::prelude::*;

use crate::text::{
    chars_eq, chars_of, first_index_of, lemma_first_index_of, strip_cr, join_terminated, lines, lines_of, lines_view, pop_char, push_str,
    push_terminated,
};

verus! {

/// Style to use when writing conflict markers into a file.
#[derive(Debug, Clone, Copy, PartialEq, Eq, Structural)]
pub enum ConflictStyle {
    /// Git-style markers: `<<<<<<< current`, `=======`, `>>>>>>> updated`
    Git,
}

impl Default for ConflictStyle {
    fn default() -> (r: Self)
        ensures
            r == ConflictStyle::Git,
    {
        ConflictStyle::Git
    }
}

impl ConflictStyle {
    /// The lowercase name of the style, as shown to users.
    pub fn to_string(&self) -> (r: String)
        ensures
            r@ == "git"@,
    {
        match self {
            ConflictStyle::Git => String::from_str("git"),
        }
    }
}

// ---------------------------------------------------------------------------
// Specification
// ---------------------------------------------------------------------------

/// Number of leading lines on which `a` and `b` agree.
pub open spec fn common_prefix_len(a: Seq<Seq<char>>, b: Seq<Seq<char>>) -> nat
    decreases a.len(),
{
    if a.len() == 0 || b.len() == 0 || a[0] != b[0] {
        0
    } else {
        1 + common_prefix_len(a.drop_first(), b.drop_first())
    }
}

/// Number of trailing lines on which `a` and `b` agree.
pub open spec fn common_suffix_len(a: Seq<Seq<char>>, b: Seq<Seq<char>>) -> nat
    decreases a.len(),
{
    if a.len() == 0 || b.len() == 0 || a.last() != b.last() {
        0
    } else {
        1 + common_suffix_len(a.drop_last(), b.drop_last())
    }
}

/// The differing middle part of `o`, once the common prefix and suffix are set aside.
pub open spec fn old_middle(o: Seq<Seq<char>>, n: Seq<Seq<char>>) -> Seq<Seq<char>> {
    let p = common_prefix_len(o, n) as int;
    let s = common_suffix_len(o.subrange(p, o.len() as int), n.subrange(p, n.len() as int)) as int;
    o.subrange(p, o.len() - s)
}

/// The differing middle part of `n`, once the common prefix and suffix are set aside.
pub open spec fn new_middle(o: Seq<Seq<char>>, n: Seq<Seq<char>>) -> Seq<Seq<char>> {
    let p = common_prefix_len(o, n) as int;
    let s = common_suffix_len(o.subrange(p, o.len() as int), n.subrange(p, n.len() as int)) as int;
    n.subrange(p, n.len() - s)
}

/// The merge of `o` and `n` writes conflict markers.
pub open spec fn has_conflict(o: Seq<Seq<char>>, n: Seq<Seq<char>>) -> bool {
    old_middle(o, n) != new_middle(o, n)
}

/// Merged text of the line sequences `o` (current) and `n` (updated), before
/// the trailing-newline rule: the common leading lines, then the differing
/// middle wrapped in markers (only when the middles differ), then the common
/// trailing lines; every line ends with `'\n'`.
pub open spec fn git_merge_lines(o: Seq<Seq<char>>, n: Seq<Seq<char>>) -> Seq<char> {
    let p = common_prefix_len(o, n) as int;
    let s = common_suffix_len(o.subrange(p, o.len() as int), n.subrange(p, n.len() as int)) as int;
    let old_mid = old_middle(o, n);
    let new_mid = new_middle(o, n);
    join_terminated(o.subrange(0, p)) + (if has_conflict(o, n) {
        "<<<<<<< current\n"@ + join_terminated(old_mid) + "=======\n"@ + join_terminated(new_mid)
            + ">>>>>>> updated\n"@
    } else {
        Seq::<char>::empty()
    }) + join_terminated(o.subrange(o.len() - s, o.len() as int))
}

/// The text ends with a newline.
pub open spec fn ends_with_newline(s: Seq<char>) -> bool {
    s.len() > 0 && s.last() == '\n'
}

/// Git-style merge of `existing` and `updated`: the merged lines, with the
/// final `'\n'` dropped when neither input ends with one.
pub open spec fn git_merge(existing: Seq<char>, updated: Seq<char>) -> Seq<char> {
    let body = git_merge_lines(lines_of(existing), lines_of(updated));
    if !ends_with_newline(existing) && !ends_with_newline(updated) && ends_with_newline(body) {
        body.drop_last()
    } else {
        body
    }
}

/// `common_prefix_len` is the length of the longest common prefix.
pub proof fn lemma_common_prefix_len(a: Seq<Seq<char>>, b: Seq<Seq<char>>, k: int)
    requires
        0 <= k <= a.len(),
        k <= b.len(),
        forall|j: int| 0 <= j < k ==> a[j] == b[j],
        k == a.len() || k == b.len() || a[k] != b[k],
    ensures
        common_prefix_len(a, b) == k,
    decreases k,
{
    if k > 0 {
        assert(a[0] == b[0]);
        assert forall|j: int| 0 <= j < k - 1 implies a.drop_first()[j] == b.drop_first()[j] by {
            assert(a[j + 1] == b[j + 1]);
        }
        if k < a.len() && k < b.len() {
            assert(a.drop_first()[k - 1] == a[k]);
            assert(b.drop_first()[k - 1] == b[k]);
        }
        lemma_common_prefix_len(a.drop_first(), b.drop_first(), k - 1);
    }
}

/// `common_suffix_len` is the length of the longest common suffix.
pub proof fn lemma_common_suffix_len(a: Seq<Seq<char>>, b: Seq<Seq<char>>, k: int)
    requires
        0 <= k <= a.len(),
        k <= b.len(),
        forall|j: int| a.len() - k <= j < a.len() ==> #[trigger] a[j] == b[j + b.len() - a.len()],
        k == a.len() || k == b.len() || a[a.len() - 1 - k] != b[b.len() - 1 - k],
    ensures
        common_suffix_len(a, b) == k,
    decreases k,
{
    if k > 0 {
        assert(a[a.len() - 1] == b[a.len() - 1 + b.len() - a.len()]);
        let a2 = a.drop_last();
        let b2 = b.drop_last();
        assert forall|j: int| a2.len() - (k - 1) <= j < a2.len() implies #[trigger] a2[j] == b2[j
            + b2.len() - a2.len()] by {
            assert(a[j] == b[j + b.len() - a.len()]);
        }
        if k < a.len() && k < b.len() {
            assert(a2[a2.len() - 1 - (k - 1)] == a[a.len() - 1 - k]);
            assert(b2[b2.len() - 1 - (k - 1)] == b[b.len() - 1 - k]);
        }
        lemma_common_suffix_len(a2, b2, k - 1);
    }
}

/// The lines counted by `common_prefix_len` agree.
pub proof fn lemma_common_prefix_agrees(a: Seq<Seq<char>>, b: Seq<Seq<char>>)
    ensures
        common_prefix_len(a, b) <= a.len(),
        common_prefix_len(a, b) <= b.len(),
        forall|j: int| 0 <= j < common_prefix_len(a, b) ==> #[trigger] a[j] == b[j],
    decreases a.len(),
{
    if !(a.len() == 0 || b.len() == 0 || a[0] != b[0]) {
        lemma_common_prefix_agrees(a.drop_first(), b.drop_first());
        assert forall|j: int| 0 <= j < common_prefix_len(a, b) implies #[trigger] a[j] == b[j] by {
            if j > 0 {
                assert(a[j] == a.drop_first()[j - 1]);
                assert(b[j] == b.drop_first()[j - 1]);
            }
        }
    }
}

/// The lines counted by `common_suffix_len` agree.
pub proof fn lemma_common_suffix_agrees(a: Seq<Seq<char>>, b: Seq<Seq<char>>)
    ensures
        common_suffix_len(a, b) <= a.len(),
        common_suffix_len(a, b) <= b.len(),
        forall|j: int|
            a.len() - common_suffix_len(a, b) <= j < a.len() ==> #[trigger] a[j] == b[j + b.len()
                - a.len()],
    decreases a.len(),
{
    if !(a.len() == 0 || b.len() == 0 || a.last() != b.last()) {
        let a2 = a.drop_last();
        let b2 = b.drop_last();
        lemma_common_suffix_agrees(a2, b2);
        assert forall|j: int|
            a.len() - common_suffix_len(a, b) <= j < a.len() implies #[trigger] a[j] == b[j
                + b.len() - a.len()] by {
            if j < a.len() - 1 {
                assert(a[j] == a2[j]);
                assert(b[j + b.len() - a.len()] == b2[j + b2.len() - a2.len()]);
            }
        }
    }
}

/// Appending one more line to `join_terminated` at the front.
pub proof fn lemma_join_terminated_prepend(x: Seq<char>, rest: Seq<Seq<char>>)
    ensures
        join_terminated(seq![x] + rest) == x + seq!['\n'] + join_terminated(rest),
    decreases rest.len(),
{
    assert(join_terminated(Seq::<Seq<char>>::empty()) == Seq::<char>::empty());
    if rest.len() == 0 {
        assert(seq![x] + rest =~= seq![x]);
        assert(seq![x].drop_last() =~= Seq::<Seq<char>>::empty());
        assert(join_terminated(rest) == Seq::<char>::empty());
        assert(x + seq!['\n'] + Seq::<char>::empty() =~= Seq::<char>::empty() + x + seq!['\n']);
    } else {
        let all = seq![x] + rest;
        assert(all.drop_last() =~= seq![x] + rest.drop_last());
        lemma_join_terminated_prepend(x, rest.drop_last());
        assert(all.last() == rest.last());
    }
}

/// Joining the lines of a text without carriage returns gives the text back,
/// with a `'\n'` added when it did not end with one.
pub proof fn lemma_join_lines(s: Seq<char>)
    requires
        !s.contains('\r'),
    ensures
        join_terminated(lines_of(s)) == (if s.len() == 0 || ends_with_newline(s) {
            s
        } else {
            s + seq!['\n']
        }),
    decreases s.len(),
{
    if s.len() > 0 {
        lemma_first_index_of(s, '\n');
        match first_index_of(s, '\n') {
            None => {
                assert(lines_of(s) == seq![s]);
                assert(seq![s].drop_last() =~= Seq::<Seq<char>>::empty());
                assert(join_terminated(Seq::<Seq<char>>::empty()) == Seq::<char>::empty());
                assert(join_terminated(seq![s]) =~= s + seq!['\n']);
                assert(s.last() != '\n');
            },
            Some(i) => {
                let piece = s.subrange(0, i);
                let rest = s.subrange(i + 1, s.len() as int);
                if piece.len() > 0 && piece.last() == '\r' {
                    assert(s.contains(piece.last()));
                }
                assert(strip_cr(piece) == piece);
                assert(!rest.contains('\r')) by {
                    if rest.contains('\r') {
                        let k = choose|k: int| 0 <= k < rest.len() && rest[k] == '\r';
                        assert(s[i + 1 + k] == '\r');
                    }
                }
                lemma_join_lines(rest);
                lemma_join_terminated_prepend(piece, lines_of(rest));
                if rest.len() == 0 {
                    assert(s =~= piece + seq!['\n']);
                } else {
                    assert(rest.last() == s.last());
                    if ends_with_newline(s) {
                        assert(s =~= piece + seq!['\n'] + rest);
                    } else {
                        assert(s + seq!['\n'] =~= piece + seq!['\n'] + (rest + seq!['\n']));
                    }
                }
            },
        }
    }
}

/// A merge writes conflict markers exactly when the two texts have different lines.
pub proof fn law_conflict_iff_lines_differ(existing: Seq<char>, updated: Seq<char>)
    ensures
        has_conflict(lines_of(existing), lines_of(updated)) <==> lines_of(existing) != lines_of(
            updated,
        ),
{
    let o = lines_of(existing);
    let n = lines_of(updated);
    lemma_common_prefix_agrees(o, n);
    let p = common_prefix_len(o, n) as int;
    let ot = o.subrange(p, o.len() as int);
    let nt = n.subrange(p, n.len() as int);
    lemma_common_suffix_agrees(ot, nt);
    let s = common_suffix_len(ot, nt) as int;
    if o == n {
        lemma_common_prefix_len(o, n, o.len() as int);
        assert(ot.len() == 0);
        assert(old_middle(o, n) =~= Seq::<Seq<char>>::empty());
        assert(new_middle(o, n) =~= Seq::<Seq<char>>::empty());
    } else if !has_conflict(o, n) {
        assert(old_middle(o, n).len() == o.len() - s - p);
        assert(new_middle(o, n).len() == n.len() - s - p);
        assert(o.len() == n.len());
        assert forall|j: int| 0 <= j < o.len() implies o[j] == n[j] by {
            if j < p {
            } else if j < o.len() - s {
                assert(old_middle(o, n)[j - p] == new_middle(o, n)[j - p]);
            } else {
                assert(ot[j - p] == nt[j - p + nt.len() - ot.len()]);
            }
        }
        assert(o =~= n);
    }
}

/// Merging a text with itself gives the text back unchanged (for text without
/// carriage returns, which `str::lines` drops before a newline).
pub proof fn law_merge_identical_is_identity(s: Seq<char>)
    requires
        !s.contains('\r'),
    ensures
        git_merge(s, s) == s,
{
    let o = lines_of(s);
    lemma_common_prefix_len(o, o, o.len() as int);
    let ot = o.subrange(o.len() as int, o.len() as int);
    lemma_common_suffix_len(ot, ot, 0);
    assert(old_middle(o, o) =~= Seq::<Seq<char>>::empty());
    assert(new_middle(o, o) =~= Seq::<Seq<char>>::empty());
    assert(o.subrange(0, o.len() as int) =~= o);
    assert(o.subrange(o.len() as int, o.len() as int) =~= Seq::<Seq<char>>::empty());
    assert(join_terminated(Seq::<Seq<char>>::empty()) == Seq::<char>::empty());
    lemma_join_lines(s);
    let body = git_merge_lines(o, o);
    assert(body =~= join_terminated(o));
    if s.len() > 0 && !ends_with_newline(s) {
        assert((s + seq!['\n']).drop_last() =~= s);
    }
}

// ---------------------------------------------------------------------------
// Implementation
// ---------------------------------------------------------------------------

/// Merge `existing` (current on-disk) and `updated` (newly rendered) content by
/// inserting conflict markers around every section that differs.
///
/// Diffing is performed line-by-line.  Identical leading and trailing lines are
/// kept as-is; only the changed region is wrapped in markers.
pub fn apply_conflict_markers(existing: &str, updated: &str, style: ConflictStyle) -> (r: String)
    ensures
        r@ == git_merge(existing@, updated@),
{
    match style {
        ConflictStyle::Git => apply_git_style(existing, updated),
    }
}

/// Two line sequences are equal.
fn lines_eq(a: &Vec<Vec<char>>, b: &Vec<Vec<char>>, a_from: usize, a_to: usize, b_from: usize, b_to: usize) -> (r: bool)
    requires
        a_from <= a_to <= a@.len(),
        b_from <= b_to <= b@.len(),
    ensures
        r == (lines_view(a@).subrange(a_from as int, a_to as int) == lines_view(b@).subrange(
            b_from as int,
            b_to as int,
        )),
{
    let ghost x = lines_view(a@).subrange(a_from as int, a_to as int);
    let ghost y = lines_view(b@).subrange(b_from as int, b_to as int);
    if a_to - a_from != b_to - b_from {
        assert(x.len() != y.len());
        return false;
    }
    let mut k: usize = 0;
    while k < a_to - a_from
        invariant
            a_from <= a_to <= a@.len(),
            b_from <= b_to <= b@.len(),
            a_to - a_from == b_to - b_from,
            k <= a_to - a_from,
            x == lines_view(a@).subrange(a_from as int, a_to as int),
            y == lines_view(b@).subrange(b_from as int, b_to as int),
            forall|j: int| 0 <= j < k ==> x[j] == y[j],
        decreases a_to - a_from - k,
    {
        if !chars_eq(a[a_from + k].as_slice(), b[b_from + k].as_slice()) {
            assert(x[k as int] != y[k as int]);
            return false;
        }
        k += 1;
    }
    assert(x =~= y);
    true
}

/// Applies git-style conflict markers.
///
/// Finds the common prefix and suffix lines, then wraps the differing
/// middle section in `<<<<<<< current` / `=======` / `>>>>>>> updated` markers.
/// Trailing newline behaviour is preserved from the inputs.
#[verifier::rlimit(40)]
pub fn apply_git_style(existing: &str, updated: &str) -> (r: String)
    ensures
        r@ == git_merge(existing@, updated@),
{
    let existing_chars = chars_of(existing);
    let updated_chars = chars_of(updated);
    let old_lines = lines(existing_chars.as_slice());
    let new_lines = lines(updated_chars.as_slice());
    let ghost o = lines_view(old_lines@);
    let ghost n = lines_view(new_lines@);
    let ol = old_lines.len();
    let nl = new_lines.len();

    let mut prefix_len: usize = 0;
    while prefix_len < ol && prefix_len < nl && chars_eq(
        old_lines[prefix_len].as_slice(),
        new_lines[prefix_len].as_slice(),
    )
        invariant
            ol == o.len(),
            nl == n.len(),
            o == lines_view(old_lines@),
            n == lines_view(new_lines@),
            prefix_len <= ol,
            prefix_len <= nl,
            forall|j: int| 0 <= j < prefix_len ==> o[j] == n[j],
        decreases ol - prefix_len,
    {
        prefix_len += 1;
    }
    proof {
        lemma_common_prefix_len(o, n, prefix_len as int);
    }

    let ghost ot = o.subrange(prefix_len as int, ol as int);
    let ghost nt = n.subrange(prefix_len as int, nl as int);
    let mut suffix_len: usize = 0;
    while suffix_len < ol - prefix_len && suffix_len < nl - prefix_len && chars_eq(
        old_lines[ol - 1 - suffix_len].as_slice(),
        new_lines[nl - 1 - suffix_len].as_slice(),
    )
        invariant
            ol == o.len(),
            nl == n.len(),
            o == lines_view(old_lines@),
            n == lines_view(new_lines@),
            prefix_len <= ol,
            prefix_len <= nl,
            ot == o.subrange(prefix_len as int, ol as int),
            nt == n.subrange(prefix_len as int, nl as int),
            suffix_len <= ol - prefix_len,
            suffix_len <= nl - prefix_len,
            forall|j: int|
                ot.len() - suffix_len <= j < ot.len() ==> #[trigger] ot[j] == nt[j + nt.len()
                    - ot.len()],
        decreases ol - suffix_len,
    {
        assert(ot[ot.len() - 1 - suffix_len] == o[ol - 1 - suffix_len]);
        assert(nt[nt.len() - 1 - suffix_len] == n[nl - 1 - suffix_len]);
        suffix_len += 1;
    }
    proof {
        if suffix_len < ol - prefix_len && suffix_len < nl - prefix_len {
            assert(ot[ot.len() - 1 - suffix_len] == o[ol - 1 - suffix_len]);
            assert(nt[nt.len() - 1 - suffix_len] == n[nl - 1 - suffix_len]);
        }
        lemma_common_suffix_len(ot, nt, suffix_len as int);
    }

    let old_mid_end = ol - suffix_len;
    let new_mid_end = nl - suffix_len;
    let mids_equal = lines_eq(&old_lines, &new_lines, prefix_len, old_mid_end, prefix_len, new_mid_end);

    let mut result = String::new();
    push_terminated(&mut result, &old_lines, 0, prefix_len);
    if !mids_equal {
        push_str(&mut result, "<<<<<<< current\n");
        push_terminated(&mut result, &old_lines, prefix_len, old_mid_end);
        push_str(&mut result, "=======\n");
        push_terminated(&mut result, &new_lines, prefix_len, new_mid_end);
        push_str(&mut result, ">>>>>>> updated\n");
    }
    push_terminated(&mut result, &old_lines, old_mid_end, ol);

    let ghost body = result@;
    assert(body == git_merge_lines(o, n));

    let existing_ends_newline = existing_chars.len() > 0 && existing_chars[existing_chars.len() - 1] == '\n';
    let updated_ends_newline = updated_chars.len() > 0 && updated_chars[updated_chars.len() - 1] == '\n';
    let result_len = result.unicode_len();
    if !existing_ends_newline && !updated_ends_newline && result_len > 0
        && result.as_str().get_char(result_len - 1) == '\n' {
        pop_char(&mut result);
    }
    result
}

/// The lines a merge keeps outside the markers are shared by both texts:
/// the leading ones are a common prefix of both texts' lines, the trailing
/// ones a common suffix, and the merge starts with the leading ones.
pub proof fn law_kept_lines_are_shared(existing: Seq<char>, updated: Seq<char>)
    ensures
        ({
            let o = lines_of(existing);
            let n = lines_of(updated);
            let p = common_prefix_len(o, n) as int;
            let s = common_suffix_len(o.subrange(p, o.len() as int), n.subrange(p, n.len() as int)) as int;
            &&& o.subrange(0, p) == n.subrange(0, p)
            &&& o.subrange(o.len() - s, o.len() as int) == n.subrange(n.len() - s, n.len() as int)
            &&& crate::text::has_prefix(git_merge_lines(o, n), join_terminated(n.subrange(0, p)))
        }),
{
    let o = lines_of(existing);
    let n = lines_of(updated);
    lemma_common_prefix_agrees(o, n);
    let p = common_prefix_len(o, n) as int;
    let ot = o.subrange(p, o.len() as int);
    let nt = n.subrange(p, n.len() as int);
    lemma_common_suffix_agrees(ot, nt);
    let s = common_suffix_len(ot, nt) as int;
    assert(o.subrange(0, p) =~= n.subrange(0, p));
    let os = o.subrange(o.len() - s, o.len() as int);
    let ns = n.subrange(n.len() - s, n.len() as int);
    assert forall|j: int| 0 <= j < s implies #[trigger] os[j] == ns[j] by {
        assert(ot[ot.len() - s + j] == nt[ot.len() - s + j + nt.len() - ot.len()]);
    }
    assert(os =~= ns);
    let m = git_merge_lines(o, n);
    let head = join_terminated(o.subrange(0, p));
    assert(m.subrange(0, head.len() as int) =~= head);
}

/// Terminated lines join to nothing, or to text ending with a line break.
proof fn lemma_join_terminated_ends(l: Seq<Seq<char>>)
    ensures
        l.len() == 0 ==> join_terminated(l).len() == 0,
        l.len() > 0 ==> ends_with_newline(join_terminated(l)),
{
}

/// A text has lines exactly when it is not empty.
proof fn lemma_lines_of_nonempty(s: Seq<char>)
    ensures
        s.len() > 0 <==> lines_of(s).len() > 0,
{
}

/// A merge keeps the final line break: when either the existing or the
/// updated text ends with one, so does the merged text.
pub proof fn law_merge_keeps_final_newline(existing: Seq<char>, updated: Seq<char>)
    requires
        ends_with_newline(existing) || ends_with_newline(updated),
    ensures
        ends_with_newline(git_merge(existing, updated)),
{
    let o = lines_of(existing);
    let n = lines_of(updated);
    lemma_lines_of_nonempty(existing);
    lemma_lines_of_nonempty(updated);
    law_conflict_iff_lines_differ(existing, updated);
    lemma_common_prefix_agrees(o, n);
    let p = common_prefix_len(o, n) as int;
    let os = o.subrange(p, o.len() as int);
    let ns = n.subrange(p, n.len() as int);
    lemma_common_suffix_agrees(os, ns);
    let sfx = common_suffix_len(os, ns) as int;
    let a = join_terminated(o.subrange(0, p));
    let b = if has_conflict(o, n) {
        "<<<<<<< current\n"@ + join_terminated(old_middle(o, n)) + "=======\n"@ + join_terminated(
            new_middle(o, n),
        ) + ">>>>>>> updated\n"@
    } else {
        Seq::<char>::empty()
    };
    let c = join_terminated(o.subrange(o.len() - sfx, o.len() as int));
    let body = git_merge_lines(o, n);
    assert(body == a + b + c);
    lemma_join_terminated_ends(o.subrange(0, p));
    lemma_join_terminated_ends(o.subrange(o.len() - sfx, o.len() as int));
    reveal_strlit(">>>>>>> updated\n");
    if has_conflict(o, n) {
        assert(ends_with_newline(b));
    }
    if !has_conflict(o, n) && p == 0 {
        assert(o == n);
        assert(o.len() > 0);
        assert(o[0] == n[0]);
        assert(common_prefix_len(o, n) >= 1);
    }
    if c.len() > 0 {
        assert((a + b + c).last() == c.last());
    } else if b.len() > 0 {
        assert(a + b + c =~= a + b);
        assert((a + b).last() == b.last());
    } else {
        assert(a + b + c =~= a);
    }
    assert(ends_with_newline(body));
}

} // verus!
