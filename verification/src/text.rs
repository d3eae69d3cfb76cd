//! Character-level string helpers with specifications over `Seq<char>`.
//!
//! Every helper works on the character view of a string (`s@`), so the
//! contracts of the rest of the crate can be stated over sequences.
use vstd::prelude::*;

verus! {

// ---------------------------------------------------------------------------
// Specifications
// ---------------------------------------------------------------------------

/// The character views of a sequence of character vectors.
pub open spec fn lines_view(v: Seq<Vec<char>>) -> Seq<Seq<char>> {
    v.map_values(|l: Vec<char>| l@)
}

/// The texts of a sequence of strings.
pub open spec fn string_views(s: Seq<String>) -> Seq<Seq<char>> {
    s.map_values(|x: String| x@)
}

/// Pushing a string pushes its text.
pub proof fn lemma_string_views_push(s: Seq<String>, x: String)
    ensures
        string_views(s.push(x)) == string_views(s).push(x@),
{
    assert(string_views(s.push(x)) =~= string_views(s).push(x@));
}

/// `p` is a prefix of `s`.
pub open spec fn has_prefix(s: Seq<char>, p: Seq<char>) -> bool {
    p.len() <= s.len() && s.subrange(0, p.len() as int) == p
}

/// `p` is a suffix of `s`.
pub open spec fn has_suffix(s: Seq<char>, p: Seq<char>) -> bool {
    p.len() <= s.len() && s.subrange(s.len() - p.len(), s.len() as int) == p
}

/// `p` occurs in `s` starting at index `i`.
pub open spec fn occurs_at(s: Seq<char>, p: Seq<char>, i: int) -> bool {
    0 <= i && i + p.len() <= s.len() && s.subrange(i, i + p.len()) == p
}

/// `p` occurs somewhere in `s`.
pub open spec fn contains_seq(s: Seq<char>, p: Seq<char>) -> bool {
    exists|i: int| occurs_at(s, p, i)
}

/// Removes every trailing copy of `p` from `s` (`str::trim_end_matches`).
pub open spec fn trim_end_all(s: Seq<char>, p: Seq<char>) -> Seq<char>
    decreases s.len(),
{
    if p.len() > 0 && has_suffix(s, p) {
        trim_end_all(s.subrange(0, s.len() - p.len()), p)
    } else {
        s
    }
}

/// Removes every leading copy of `c` from `s`.
pub open spec fn trim_start_char(s: Seq<char>, c: char) -> Seq<char>
    decreases s.len(),
{
    if s.len() > 0 && s[0] == c {
        trim_start_char(s.drop_first(), c)
    } else {
        s
    }
}

/// Removes every trailing copy of `c` from `s`.
pub open spec fn trim_end_char(s: Seq<char>, c: char) -> Seq<char>
    decreases s.len(),
{
    if s.len() > 0 && s.last() == c {
        trim_end_char(s.drop_last(), c)
    } else {
        s
    }
}

/// `str::trim_matches` with a single character pattern.
pub open spec fn trim_char(s: Seq<char>, c: char) -> Seq<char> {
    trim_end_char(trim_start_char(s, c), c)
}

/// Unicode `White_Space` characters, as tested by `char::is_whitespace`.
pub open spec fn is_white(c: char) -> bool {
    ||| c == ' '
    ||| ('\u{9}' <= c && c <= '\u{d}')
    ||| c == '\u{85}'
    ||| c == '\u{a0}'
    ||| c == '\u{1680}'
    ||| ('\u{2000}' <= c && c <= '\u{200a}')
    ||| c == '\u{2028}'
    ||| c == '\u{2029}'
    ||| c == '\u{202f}'
    ||| c == '\u{205f}'
    ||| c == '\u{3000}'
}

/// Removes leading white space.
pub open spec fn trim_start_white(s: Seq<char>) -> Seq<char>
    decreases s.len(),
{
    if s.len() > 0 && is_white(s[0]) {
        trim_start_white(s.drop_first())
    } else {
        s
    }
}

/// Removes trailing white space.
pub open spec fn trim_end_white(s: Seq<char>) -> Seq<char>
    decreases s.len(),
{
    if s.len() > 0 && is_white(s.last()) {
        trim_end_white(s.drop_last())
    } else {
        s
    }
}

/// `str::trim`: removes leading and trailing white space.
pub open spec fn trim_white(s: Seq<char>) -> Seq<char> {
    trim_end_white(trim_start_white(s))
}

/// `str::replace` with a non-empty pattern: every non-overlapping occurrence of
/// `from`, found left to right, is replaced by `to`.
pub open spec fn replace_all(s: Seq<char>, from: Seq<char>, to: Seq<char>) -> Seq<char>
    decreases s.len(),
{
    if from.len() == 0 || s.len() == 0 {
        s
    } else if has_prefix(s, from) {
        to + replace_all(s.subrange(from.len() as int, s.len() as int), from, to)
    } else {
        seq![s[0]] + replace_all(s.drop_first(), from, to)
    }
}

/// Index of the first occurrence of `c` in `s`, if any.
pub open spec fn first_index_of(s: Seq<char>, c: char) -> Option<int>
    decreases s.len(),
{
    if s.len() == 0 {
        None
    } else if s[0] == c {
        Some(0)
    } else {
        match first_index_of(s.drop_first(), c) {
            Some(i) => Some(i + 1),
            None => None,
        }
    }
}

/// What `first_index_of` finds: the first position holding `c`.
pub proof fn lemma_first_index_of(s: Seq<char>, c: char)
    ensures
        match first_index_of(s, c) {
            Some(i) => 0 <= i < s.len() && s[i] == c && forall|j: int| 0 <= j < i ==> s[j] != c,
            None => forall|j: int| 0 <= j < s.len() ==> s[j] != c,
        },
    decreases s.len(),
{
    if s.len() > 0 && s[0] != c {
        lemma_first_index_of(s.drop_first(), c);
        match first_index_of(s.drop_first(), c) {
            Some(i) => {
                assert forall|j: int| 0 <= j < i + 1 implies s[j] != c by {
                    if j > 0 {
                        assert(s[j] == s.drop_first()[j - 1]);
                    }
                }
            },
            None => {
                assert forall|j: int| 0 <= j < s.len() implies s[j] != c by {
                    if j > 0 {
                        assert(s[j] == s.drop_first()[j - 1]);
                    }
                }
            },
        }
    }
}

/// A position holding `c` with no `c` before it is what `first_index_of` finds.
pub proof fn lemma_first_index_of_at(s: Seq<char>, c: char, k: int)
    requires
        0 <= k < s.len(),
        s[k] == c,
        forall|j: int| 0 <= j < k ==> s[j] != c,
    ensures
        first_index_of(s, c) == Some(k),
{
    lemma_first_index_of(s, c);
}

/// With no `c` in `s`, `first_index_of` finds nothing.
pub proof fn lemma_first_index_of_none(s: Seq<char>, c: char)
    requires
        forall|j: int| 0 <= j < s.len() ==> s[j] != c,
    ensures
        first_index_of(s, c) == None::<int>,
{
    lemma_first_index_of(s, c);
}

/// Index of the last occurrence of `c` in `s`, if any.
pub open spec fn last_index_of(s: Seq<char>, c: char) -> Option<int>
    decreases s.len(),
{
    if s.len() == 0 {
        None
    } else if s.last() == c {
        Some(s.len() - 1)
    } else {
        last_index_of(s.drop_last(), c)
    }
}

/// The part of `s` after its last `c` (all of `s` when there is none): the first
/// item of `str::rsplit`.
pub open spec fn after_last(s: Seq<char>, c: char) -> Seq<char> {
    match last_index_of(s, c) {
        Some(i) => s.subrange(i + 1, s.len() as int),
        None => s,
    }
}

/// `str::split` on one character: the pieces between the separators.
pub open spec fn split_on(s: Seq<char>, c: char) -> Seq<Seq<char>>
    decreases s.len(),
{
    match first_index_of(s, c) {
        None => seq![s],
        Some(i) => {
            proof {
                lemma_first_index_of(s, c);
            }
            seq![s.subrange(0, i)] + split_on(s.subrange(i + 1, s.len() as int), c)
        },
    }
}

/// `str::splitn(n, c)` for `n >= 1`: at most `n` pieces, the last holds the rest.
pub open spec fn splitn_on(s: Seq<char>, n: nat, c: char) -> Seq<Seq<char>>
    decreases n,
{
    if n <= 1 {
        seq![s]
    } else {
        match first_index_of(s, c) {
            None => seq![s],
            Some(i) => seq![s.subrange(0, i)] + splitn_on(
                s.subrange(i + 1, s.len() as int),
                (n - 1) as nat,
                c,
            ),
        }
    }
}

/// Drops one trailing `'\r'`, as `str::lines` does before a `'\n'`.
pub open spec fn strip_cr(s: Seq<char>) -> Seq<char> {
    if s.len() > 0 && s.last() == '\r' {
        s.drop_last()
    } else {
        s
    }
}

/// `str::lines`: the pieces ended by `'\n'` (a trailing `'\r'` before the
/// `'\n'` removed); a last piece without `'\n'` is kept as it is, and an empty
/// last piece is not a line.
pub open spec fn lines_of(s: Seq<char>) -> Seq<Seq<char>>
    decreases s.len(),
{
    if s.len() == 0 {
        seq![]
    } else {
        match first_index_of(s, '\n') {
            None => seq![s],
            Some(i) => {
                proof {
                    lemma_first_index_of(s, '\n');
                }
                seq![strip_cr(s.subrange(0, i))] + lines_of(s.subrange(i + 1, s.len() as int))
            },
        }
    }
}

/// Every line followed by a `'\n'`.
pub open spec fn join_terminated(lines: Seq<Seq<char>>) -> Seq<char>
    decreases lines.len(),
{
    if lines.len() == 0 {
        seq![]
    } else {
        join_terminated(lines.drop_last()) + lines.last() + seq!['\n']
    }
}

/// The decimal digits of `n`.
pub open spec fn decimal(n: nat) -> Seq<char>
    decreases n,
{
    if n < 10 {
        seq![digit_char(n)]
    } else {
        decimal(n / 10) + seq![digit_char(n % 10)]
    }
}

/// The character of a single decimal digit.
pub open spec fn digit_char(d: nat) -> char {
    if d == 0 { '0' }
    else if d == 1 { '1' }
    else if d == 2 { '2' }
    else if d == 3 { '3' }
    else if d == 4 { '4' }
    else if d == 5 { '5' }
    else if d == 6 { '6' }
    else if d == 7 { '7' }
    else if d == 8 { '8' }
    else { '9' }
}

/// `n` in decimal, left-padded with `'0'` to at least `width` characters
/// (`format!("{:0width$}", n)`).
pub open spec fn zero_padded(n: nat, width: nat) -> Seq<char> {
    let d = decimal(n);
    if d.len() >= width {
        d
    } else {
        Seq::new((width - d.len()) as nat, |i: int| '0') + d
    }
}

// ---------------------------------------------------------------------------
// Executable helpers
// ---------------------------------------------------------------------------

/// Appends one character to a string (`String::push`).
#[verifier::external_body]
pub(crate) fn push_char(s: &mut String, c: char)
    ensures
        final(s)@ == old(s)@.push(c),
{
    s.push(c)
}

/// Removes the last character of a string (`String::pop`).
#[verifier::external_body]
pub(crate) fn pop_char(s: &mut String) -> (r: Option<char>)
    ensures
        old(s)@.len() == 0 ==> r == None::<char> && final(s)@ == old(s)@,
        old(s)@.len() > 0 ==> r == Some(old(s)@.last()) && final(s)@ == old(s)@.drop_last(),
{
    s.pop()
}

/// The lower-case form of a text, by the Unicode `Lowercase` mapping
/// (`str::to_lowercase`).
pub uninterp spec fn lowercase(s: Seq<char>) -> Seq<char>;

/// The text in lower case (`str::to_lowercase`). Its result is named, not
/// described: the mapping is Unicode's.
#[verifier::external_body]
pub(crate) fn to_lowercase(s: &str) -> (r: String)
    ensures
        r@ == lowercase(s@),
{
    s.to_lowercase()
}

/// The characters of `s`.
pub fn chars_of(s: &str) -> (r: Vec<char>)
    ensures
        r@ == s@,
{
    let mut v: Vec<char> = Vec::new();
    for c in it: s.chars()
        invariant
            v@ == it.seq().take(it.index() as int),
            it.seq() == s@,
    {
        v.push(c);
    }
    v
}

/// Appends the characters `cs` to `s`.
pub fn push_chars(s: &mut String, cs: &[char])
    ensures
        final(s)@ == old(s)@ + cs@,
{
    let ghost start = s@;
    let mut i: usize = 0;
    while i < cs.len()
        invariant
            i <= cs@.len(),
            s@ == start + cs@.subrange(0, i as int),
        decreases cs@.len() - i,
    {
        push_char(s, cs[i]);
        i += 1;
        assert(cs@.subrange(0, i as int) == cs@.subrange(0, i - 1) + seq![cs@[i - 1]]);
    }
    assert(cs@.subrange(0, cs@.len() as int) == cs@);
}

/// The string made of the characters `cs`.
pub fn string_of(cs: &[char]) -> (r: String)
    ensures
        r@ == cs@,
{
    let mut s = String::new();
    push_chars(&mut s, cs);
    s
}

/// Appends the string `t` to `s`.
pub fn push_str(s: &mut String, t: &str)
    ensures
        final(s)@ == old(s)@ + t@,
{
    s.append(t);
}

/// `cs` without a trailing `'\r'`.
pub fn strip_cr_exec(cs: Vec<char>) -> (r: Vec<char>)
    ensures
        r@ == strip_cr(cs@),
{
    let mut cs = cs;
    if cs.len() > 0 && cs[cs.len() - 1] == '\r' {
        cs.pop();
    }
    cs
}

/// The characters `s[from..to]`.
pub fn slice_chars(s: &[char], from: usize, to: usize) -> (r: Vec<char>)
    requires
        from <= to <= s@.len(),
    ensures
        r@ == s@.subrange(from as int, to as int),
{
    let mut v: Vec<char> = Vec::new();
    let mut i = from;
    while i < to
        invariant
            from <= i <= to <= s@.len(),
            v@ == s@.subrange(from as int, i as int),
        decreases to - i,
    {
        v.push(s[i]);
        i += 1;
        assert(s@.subrange(from as int, i as int) == s@.subrange(from as int, i - 1).push(
            s@[i - 1],
        ));
    }
    v
}

/// The lines of `s`, as `str::lines` yields them.
pub fn lines(s: &[char]) -> (r: Vec<Vec<char>>)
    ensures
        lines_view(r@) == lines_of(s@),
{
    let len = s.len();
    let mut res: Vec<Vec<char>> = Vec::new();
    let mut i: usize = 0;
    assert(s@.subrange(0, len as int) == s@);
    while i < len
        invariant
            len == s@.len(),
            i <= len,
            lines_of(s@) == lines_view(res@) + lines_of(s@.subrange(i as int, len as int)),
        decreases len - i,
    {
        let ghost t = s@.subrange(i as int, len as int);
        let mut j = i;
        while j < len && s[j] != '\n'
            invariant
                len == s@.len(),
                i <= j <= len,
                forall|k: int| i <= k < j ==> s@[k] != '\n',
            decreases len - j,
        {
            j += 1;
        }
        let piece = slice_chars(s, i, j);
        let ghost before = lines_view(res@);
        if j == len {
            proof {
                lemma_first_index_of_none(t, '\n');
                assert(t == piece@);
                assert(lines_of(t) == seq![t]);
                assert(s@.subrange(len as int, len as int) =~= Seq::<char>::empty());
            }
            res.push(piece);
            proof {
                assert(lines_view(res@) =~= before.push(t));
                assert(lines_of(s@.subrange(len as int, len as int)) =~= Seq::<Seq<char>>::empty());
            }
            i = len;
        } else {
            let line = strip_cr_exec(piece);
            proof {
                lemma_first_index_of_at(t, '\n', j - i);
                assert(t.subrange(0, j - i) == s@.subrange(i as int, j as int));
                assert(t.subrange(j - i + 1, t.len() as int) == s@.subrange(j + 1, len as int));
            }
            res.push(line);
            proof {
                assert(lines_view(res@) =~= before.push(line@));
            }
            i = j + 1;
        }
    }
    proof {
        assert(s@.subrange(len as int, len as int) =~= Seq::<char>::empty());
        assert(lines_view(res@) + Seq::<Seq<char>>::empty() =~= lines_view(res@));
    }
    res
}

/// Appends every line of `ls[from..to]` followed by a `'\n'`.
pub fn push_terminated(out: &mut String, ls: &Vec<Vec<char>>, from: usize, to: usize)
    requires
        from <= to <= ls@.len(),
    ensures
        final(out)@ == old(out)@ + join_terminated(
            lines_view(ls@).subrange(from as int, to as int),
        ),
{
    let ghost start = out@;
    let mut i = from;
    assert(lines_view(ls@).subrange(from as int, from as int) =~= Seq::<Seq<char>>::empty());
    while i < to
        invariant
            from <= i <= to <= ls@.len(),
            out@ == start + join_terminated(lines_view(ls@).subrange(from as int, i as int)),
        decreases to - i,
    {
        let ghost prev = out@;
        push_chars(out, ls[i].as_slice());
        push_char(out, '\n');
        i += 1;
        proof {
            let sub = lines_view(ls@).subrange(from as int, i as int);
            assert(sub.drop_last() =~= lines_view(ls@).subrange(from as int, i - 1));
            assert(sub.last() == ls[i - 1]@);
            assert(out@ =~= start + join_terminated(sub));
        }
    }
}

/// The character of the decimal digit `d`.
pub fn digit_exec(d: u64) -> (c: char)
    requires
        d < 10,
    ensures
        c == digit_char(d as nat),
{
    if d == 0 { '0' }
    else if d == 1 { '1' }
    else if d == 2 { '2' }
    else if d == 3 { '3' }
    else if d == 4 { '4' }
    else if d == 5 { '5' }
    else if d == 6 { '6' }
    else if d == 7 { '7' }
    else if d == 8 { '8' }
    else { '9' }
}

/// Appends the decimal digits of `n`.
pub fn push_decimal(out: &mut Vec<char>, n: u64)
    ensures
        final(out)@ == old(out)@ + decimal(n as nat),
    decreases n,
{
    if n >= 10 {
        push_decimal(out, n / 10);
    }
    out.push(digit_exec(n % 10));
    proof {
        if n < 10 {
            assert(decimal(n as nat) == seq![digit_char(n as nat)]);
            assert(n % 10 == n);
        }
    }
}

/// `n` in decimal, zero-padded on the left to at least `width` characters.
pub fn push_zero_padded(out: &mut String, n: u64, width: usize)
    ensures
        final(out)@ == old(out)@ + zero_padded(n as nat, width as nat),
{
    let mut digits: Vec<char> = Vec::new();
    push_decimal(&mut digits, n);
    assert(digits@ =~= decimal(n as nat));
    let ghost start = out@;
    if digits.len() < width {
        let pad = width - digits.len();
        let mut i: usize = 0;
        while i < pad
            invariant
                i <= pad,
                out@ == start + Seq::new(i as nat, |k: int| '0'),
            decreases pad - i,
        {
            push_char(out, '0');
            i += 1;
            assert(out@ =~= start + Seq::new(i as nat, |k: int| '0'));
        }
    }
    push_chars(out, digits.as_slice());
    assert(out@ =~= start + zero_padded(n as nat, width as nat));
}

/// Two character sequences are equal.
pub fn chars_eq(a: &[char], b: &[char]) -> (r: bool)
    ensures
        r == (a@ == b@),
{
    if a.len() != b.len() {
        return false;
    }
    let mut i: usize = 0;
    while i < a.len()
        invariant
            a@.len() == b@.len(),
            i <= a@.len(),
            forall|j: int| 0 <= j < i ==> a@[j] == b@[j],
        decreases a@.len() - i,
    {
        if a[i] != b[i] {
            return false;
        }
        i += 1;
    }
    assert(a@ =~= b@);
    true
}

/// Two strings hold the same characters.
pub fn str_eq(a: &str, b: &str) -> (r: bool)
    ensures
        r == (a@ == b@),
{
    let x = chars_of(a);
    let y = chars_of(b);
    chars_eq(&x, &y)
}

/// `p` occurs in `s` at index `i`.
pub fn occurs_at_exec(s: &[char], p: &[char], i: usize) -> (r: bool)
    ensures
        r == occurs_at(s@, p@, i as int),
{
    if i > s.len() || p.len() > s.len() - i {
        return false;
    }
    let end = i + p.len();
    let mut k: usize = 0;
    while k < p.len()
        invariant
            i + p@.len() <= s@.len(),
            end == i + p@.len(),
            k <= p@.len(),
            forall|j: int| 0 <= j < k ==> s@[i + j] == p@[j],
        decreases p@.len() - k,
    {
        if s[i + k] != p[k] {
            assert(s@.subrange(i as int, i + p@.len())[k as int] != p@[k as int]);
            return false;
        }
        k += 1;
    }
    assert(s@.subrange(i as int, i + p@.len()) =~= p@);
    true
}

/// `s` starts with `p`.
pub fn starts_with(s: &[char], p: &[char]) -> (r: bool)
    ensures
        r == has_prefix(s@, p@),
{
    occurs_at_exec(s, p, 0)
}

/// `s` ends with `p`.
pub fn ends_with(s: &[char], p: &[char]) -> (r: bool)
    ensures
        r == has_suffix(s@, p@),
{
    if p.len() > s.len() {
        return false;
    }
    occurs_at_exec(s, p, s.len() - p.len())
}

/// `p` occurs in `s`.
pub fn contains(s: &[char], p: &[char]) -> (r: bool)
    ensures
        r == contains_seq(s@, p@),
{
    if p.len() > s.len() {
        assert(forall|i: int| !occurs_at(s@, p@, i));
        return false;
    }
    let last = s.len() - p.len();
    let mut i: usize = 0;
    loop
        invariant
            p@.len() <= s@.len(),
            last == s@.len() - p@.len(),
            i <= last,
            forall|j: int| 0 <= j < i ==> !occurs_at(s@, p@, j),
        ensures
            forall|j: int| 0 <= j <= last ==> !occurs_at(s@, p@, j),
        decreases last - i,
    {
        if occurs_at_exec(s, p, i) {
            return true;
        }
        if i == last {
            break;
        }
        i += 1;
    }
    assert forall|j: int| !occurs_at(s@, p@, j) by {
        if 0 <= j && j + p@.len() <= s@.len() {
            assert(j <= last);
        }
    }
    false
}

/// `str::replace` with a non-empty pattern.
pub fn replace_all_exec(s: &str, from: &str, to: &str) -> (r: String)
    requires
        from@.len() > 0,
    ensures
        r@ == replace_all(s@, from@, to@),
{
    let cs = chars_of(s);
    let fs = chars_of(from);
    let mut out = String::new();
    let mut i: usize = 0;
    proof {
        assert(cs@.subrange(0, cs@.len() as int) =~= cs@);
        assert(out@ + cs@ =~= cs@);
        assert(out@ + replace_all(cs@, fs@, to@) =~= replace_all(cs@, fs@, to@));
    }
    while i < cs.len()
        invariant
            cs@ == s@,
            fs@ == from@,
            fs@.len() > 0,
            i <= cs@.len(),
            out@ + replace_all(cs@.subrange(i as int, cs@.len() as int), fs@, to@) == replace_all(
                cs@,
                fs@,
                to@,
            ),
        decreases cs@.len() - i,
    {
        let ghost rest = cs@.subrange(i as int, cs@.len() as int);
        if occurs_at_exec(&cs, &fs, i) {
            proof {
                assert(has_prefix(rest, fs@)) by {
                    assert(rest.subrange(0, fs@.len() as int) =~= cs@.subrange(i as int, i + fs@.len()));
                }
                assert(rest.subrange(fs@.len() as int, rest.len() as int) =~= cs@.subrange(
                    i + fs@.len(),
                    cs@.len() as int,
                ));
            }
            let ghost before = out@;
            push_str(&mut out, to);
            proof {
                assert(before + (to@ + replace_all(
                    cs@.subrange(i + fs@.len(), cs@.len() as int),
                    fs@,
                    to@,
                )) =~= out@ + replace_all(cs@.subrange(i + fs@.len(), cs@.len() as int), fs@, to@));
            }
            i += fs.len();
        } else {
            proof {
                if has_prefix(rest, fs@) {
                    assert(cs@.subrange(i as int, i + fs@.len()) =~= rest.subrange(0, fs@.len() as int));
                }
                assert(rest.drop_first() =~= cs@.subrange(i + 1, cs@.len() as int));
            }
            let ghost before = out@;
            push_char(&mut out, cs[i]);
            proof {
                assert(before + (seq![cs@[i as int]] + replace_all(
                    cs@.subrange(i + 1, cs@.len() as int),
                    fs@,
                    to@,
                )) =~= out@ + replace_all(cs@.subrange(i + 1, cs@.len() as int), fs@, to@));
            }
            i += 1;
        }
    }
    proof {
        assert(cs@.subrange(cs@.len() as int, cs@.len() as int) =~= Seq::<char>::empty());
        assert(out@ + Seq::<char>::empty() =~= out@);
    }
    out
}

/// Skipping white space that ends before a non-white character (or the
/// end) is what `trim_start_white` does.
pub proof fn lemma_trim_start_white(s: Seq<char>, i: int)
    requires
        0 <= i <= s.len(),
        forall|k: int| 0 <= k < i ==> is_white(#[trigger] s[k]),
        i == s.len() || !is_white(s[i]),
    ensures
        trim_start_white(s) == s.subrange(i, s.len() as int),
    decreases i,
{
    if i == 0 {
        assert(s.subrange(0, s.len() as int) =~= s);
    } else {
        let t = s.drop_first();
        assert forall|k: int| 0 <= k < i - 1 implies is_white(#[trigger] t[k]) by {
            assert(t[k] == s[k + 1]);
        }
        if i < s.len() {
            assert(t[i - 1] == s[i]);
        }
        lemma_trim_start_white(t, i - 1);
        assert(t.subrange(i - 1, t.len() as int) =~= s.subrange(i, s.len() as int));
    }
}

/// Dropping trailing white space that starts after a non-white character
/// (or the start) is what `trim_end_white` does.
pub proof fn lemma_trim_end_white(s: Seq<char>, j: int)
    requires
        0 <= j <= s.len(),
        forall|k: int| j <= k < s.len() ==> is_white(#[trigger] s[k]),
        j == 0 || !is_white(s[j - 1]),
    ensures
        trim_end_white(s) == s.subrange(0, j),
    decreases s.len() - j,
{
    if j == s.len() {
        assert(s.subrange(0, s.len() as int) =~= s);
    } else {
        let t = s.drop_last();
        assert(is_white(s[s.len() - 1]));
        assert forall|k: int| j <= k < t.len() implies is_white(#[trigger] t[k]) by {
            assert(t[k] == s[k]);
        }
        if j > 0 {
            assert(t[j - 1] == s[j - 1]);
        }
        lemma_trim_end_white(t, j);
        assert(t.subrange(0, j) =~= s.subrange(0, j));
    }
}

/// `char::is_whitespace`.
pub fn is_white_exec(c: char) -> (r: bool)
    ensures
        r == is_white(c),
{
    c == ' ' || ('\u{9}' <= c && c <= '\u{d}') || c == '\u{85}' || c == '\u{a0}' || c == '\u{1680}'
        || ('\u{2000}' <= c && c <= '\u{200a}') || c == '\u{2028}' || c == '\u{2029}' || c
        == '\u{202f}' || c == '\u{205f}' || c == '\u{3000}'
}

/// `str::trim` on characters.
pub fn trim_white_exec(s: &[char]) -> (r: Vec<char>)
    ensures
        r@ == trim_white(s@),
{
    let len = s.len();
    let mut i: usize = 0;
    while i < len && is_white_exec(s[i])
        invariant
            len == s@.len(),
            i <= len,
            forall|k: int| 0 <= k < i ==> is_white(#[trigger] s@[k]),
        decreases len - i,
    {
        i += 1;
    }
    let mut j: usize = len;
    while j > i && is_white_exec(s[j - 1])
        invariant
            len == s@.len(),
            i <= j <= len,
            forall|k: int| j <= k < len ==> is_white(#[trigger] s@[k]),
        decreases j - i,
    {
        j -= 1;
    }
    proof {
        lemma_trim_start_white(s@, i as int);
        let t = s@.subrange(i as int, len as int);
        assert forall|k: int| j - i <= k < t.len() implies is_white(#[trigger] t[k]) by {
            assert(t[k] == s@[k + i]);
        }
        if j > i {
            assert(t[j - i - 1] == s@[j - 1]);
        }
        lemma_trim_end_white(t, j - i);
        assert(t.subrange(0, j - i) =~= s@.subrange(i as int, j as int));
    }
    slice_chars(s, i, j)
}

/// `last_index_of` located by a scan from the end.
pub proof fn lemma_last_index_of(s: Seq<char>, c: char, j: int)
    requires
        0 <= j <= s.len(),
        forall|k: int| j <= k < s.len() ==> #[trigger] s[k] != c,
        j == 0 || s[j - 1] == c,
    ensures
        last_index_of(s, c) == if j == 0 {
            None::<int>
        } else {
            Some(j - 1)
        },
    decreases s.len(),
{
    if s.len() == 0 {
    } else if j == s.len() {
    } else {
        let t = s.drop_last();
        assert(s[s.len() - 1] != c);
        assert forall|k: int| j <= k < t.len() implies #[trigger] t[k] != c by {
            assert(t[k] == s[k]);
        }
        if j > 0 {
            assert(t[j - 1] == s[j - 1]);
        }
        lemma_last_index_of(t, c, j);
    }
}

/// The part of `s` after its last `c` (all of `s` when there is none).
pub fn after_last_exec(s: &[char], c: char) -> (r: Vec<char>)
    ensures
        r@ == after_last(s@, c),
{
    let mut j: usize = s.len();
    while j > 0 && s[j - 1] != c
        invariant
            j <= s@.len(),
            forall|k: int| j <= k < s@.len() ==> #[trigger] s@[k] != c,
        decreases j,
    {
        j -= 1;
    }
    proof {
        lemma_last_index_of(s@, c, j as int);
    }
    if j == 0 {
        let r = slice_chars(s, 0, s.len());
        assert(r@ =~= s@);
        r
    } else {
        slice_chars(s, j, s.len())
    }
}

/// Removes every trailing copy of `p` from `s` (`str::trim_end_matches`).
pub fn trim_end_all_exec(s: &[char], p: &[char]) -> (r: Vec<char>)
    ensures
        r@ == trim_end_all(s@, p@),
{
    let mut end: usize = s.len();
    proof {
        assert(s@.subrange(0, s@.len() as int) =~= s@);
    }
    while p.len() > 0 && end >= p.len() && occurs_at_exec(s, p, end - p.len())
        invariant
            end <= s@.len(),
            trim_end_all(s@.subrange(0, end as int), p@) == trim_end_all(s@, p@),
        decreases end,
    {
        proof {
            let t = s@.subrange(0, end as int);
            assert(t.subrange(t.len() - p@.len(), t.len() as int) =~= s@.subrange(
                end - p@.len(),
                end as int,
            ));
            assert(t.subrange(0, t.len() - p@.len()) =~= s@.subrange(0, end - p@.len()));
        }
        end -= p.len();
    }
    proof {
        let t = s@.subrange(0, end as int);
        if p@.len() > 0 && has_suffix(t, p@) {
            assert(t.subrange(t.len() - p@.len(), t.len() as int) =~= s@.subrange(
                end - p@.len(),
                end as int,
            ));
        }
    }
    slice_chars(s, 0, end)
}

/// Skipping copies of `c` up to another character (or the end) is what
/// `trim_start_char` does.
pub proof fn lemma_trim_start_char(s: Seq<char>, c: char, i: int)
    requires
        0 <= i <= s.len(),
        forall|k: int| 0 <= k < i ==> #[trigger] s[k] == c,
        i == s.len() || s[i] != c,
    ensures
        trim_start_char(s, c) == s.subrange(i, s.len() as int),
    decreases i,
{
    if i == 0 {
        assert(s.subrange(0, s.len() as int) =~= s);
    } else {
        let t = s.drop_first();
        assert forall|k: int| 0 <= k < i - 1 implies #[trigger] t[k] == c by {
            assert(t[k] == s[k + 1]);
        }
        if i < s.len() {
            assert(t[i - 1] == s[i]);
        }
        lemma_trim_start_char(t, c, i - 1);
        assert(t.subrange(i - 1, t.len() as int) =~= s.subrange(i, s.len() as int));
    }
}

/// Dropping trailing copies of `c` back to another character (or the start)
/// is what `trim_end_char` does.
pub proof fn lemma_trim_end_char(s: Seq<char>, c: char, j: int)
    requires
        0 <= j <= s.len(),
        forall|k: int| j <= k < s.len() ==> #[trigger] s[k] == c,
        j == 0 || s[j - 1] != c,
    ensures
        trim_end_char(s, c) == s.subrange(0, j),
    decreases s.len() - j,
{
    if j == s.len() {
        assert(s.subrange(0, s.len() as int) =~= s);
    } else {
        let t = s.drop_last();
        assert(s[s.len() - 1] == c);
        assert forall|k: int| j <= k < t.len() implies #[trigger] t[k] == c by {
            assert(t[k] == s[k]);
        }
        if j > 0 {
            assert(t[j - 1] == s[j - 1]);
        }
        lemma_trim_end_char(t, c, j);
        assert(t.subrange(0, j) =~= s.subrange(0, j));
    }
}

/// Removes every trailing copy of `c` (`str::trim_end_matches` with a
/// character).
pub fn trim_end_char_exec(s: &[char], c: char) -> (r: Vec<char>)
    ensures
        r@ == trim_end_char(s@, c),
{
    let mut j: usize = s.len();
    while j > 0 && s[j - 1] == c
        invariant
            j <= s@.len(),
            forall|k: int| j <= k < s@.len() ==> #[trigger] s@[k] == c,
        decreases j,
    {
        j -= 1;
    }
    proof {
        lemma_trim_end_char(s@, c, j as int);
    }
    slice_chars(s, 0, j)
}

/// Removes every leading and trailing copy of `c` (`str::trim_matches` with
/// a character).
pub fn trim_char_exec(s: &[char], c: char) -> (r: Vec<char>)
    ensures
        r@ == trim_char(s@, c),
{
    let len = s.len();
    let mut i: usize = 0;
    while i < len && s[i] == c
        invariant
            len == s@.len(),
            i <= len,
            forall|k: int| 0 <= k < i ==> #[trigger] s@[k] == c,
        decreases len - i,
    {
        i += 1;
    }
    proof {
        lemma_trim_start_char(s@, c, i as int);
    }
    let rest = slice_chars(s, i, len);
    trim_end_char_exec(&rest, c)
}

/// The index of the first `c` at or after `from`, if any.
pub fn find_char_from(s: &[char], c: char, from: usize) -> (r: Option<usize>)
    requires
        from <= s@.len(),
    ensures
        r == match first_index_of(s@.subrange(from as int, s@.len() as int), c) {
            Some(k) => Some((k + from) as usize),
            None => None::<usize>,
        },
        r matches Some(i) ==> from <= i < s@.len() && s@[i as int] == c,
{
    let ghost t = s@.subrange(from as int, s@.len() as int);
    let mut i: usize = from;
    while i < s.len()
        invariant
            from <= i <= s@.len(),
            t == s@.subrange(from as int, s@.len() as int),
            forall|j: int| from <= j < i ==> #[trigger] s@[j] != c,
        decreases s@.len() - i,
    {
        if s[i] == c {
            proof {
                assert forall|j: int| 0 <= j < i - from implies t[j] != c by {
                    assert(t[j] == s@[j + from]);
                }
                lemma_first_index_of_at(t, c, i - from);
            }
            return Some(i);
        }
        i += 1;
    }
    proof {
        assert forall|j: int| 0 <= j < t.len() implies t[j] != c by {
            assert(t[j] == s@[j + from]);
        }
        lemma_first_index_of_none(t, c);
    }
    None
}

/// `str::splitn(n, c)` for `n >= 1`.
pub fn splitn_exec(s: &[char], n: usize, c: char) -> (r: Vec<Vec<char>>)
    requires
        n >= 1,
    ensures
        lines_view(r@) == splitn_on(s@, n as nat, c),
{
    let mut out: Vec<Vec<char>> = Vec::new();
    let mut start: usize = 0;
    let mut k: usize = n;
    let len = s.len();
    proof {
        assert(s@.subrange(0, s@.len() as int) =~= s@);
        assert(lines_view(out@) + splitn_on(s@, n as nat, c) =~= splitn_on(s@, n as nat, c));
    }
    while k > 1
        invariant
            len == s@.len(),
            start <= s@.len(),
            1 <= k <= n,
            lines_view(out@) + splitn_on(s@.subrange(start as int, s@.len() as int), k as nat, c)
                == splitn_on(s@, n as nat, c),
        ensures
            start <= s@.len(),
            lines_view(out@) + splitn_on(s@.subrange(start as int, s@.len() as int), k as nat, c)
                == splitn_on(s@, n as nat, c),
            splitn_on(s@.subrange(start as int, s@.len() as int), k as nat, c) == seq![
                s@.subrange(start as int, s@.len() as int),
            ],
        decreases k,
    {
        let ghost t = s@.subrange(start as int, s@.len() as int);
        match find_char_from(s, c, start) {
            None => {
                break;
            },
            Some(idx) => {
                proof {
                    lemma_first_index_of(t, c);
                }
                let piece = slice_chars(s, start, idx);
                proof {
                    let i = idx - start;
                    assert(first_index_of(t, c) == Some(i));
                    assert(splitn_on(t, k as nat, c) == seq![t.subrange(0, i)] + splitn_on(
                        t.subrange(i + 1, t.len() as int),
                        (k - 1) as nat,
                        c,
                    ));
                    assert(t.subrange(0, i) =~= piece@);
                    assert(t.subrange(i + 1, t.len() as int) =~= s@.subrange(idx + 1, s@.len() as int));
                    let ghost before = lines_view(out@);
                    assert(lines_view(out@.push(piece)) =~= before.push(piece@));
                    assert(before + (seq![piece@] + splitn_on(
                        s@.subrange(idx + 1, s@.len() as int),
                        (k - 1) as nat,
                        c,
                    )) =~= before.push(piece@) + splitn_on(
                        s@.subrange(idx + 1, s@.len() as int),
                        (k - 1) as nat,
                        c,
                    ));
                }
                out.push(piece);
                start = idx + 1;
                k -= 1;
            },
        }
    }
    let last = slice_chars(s, start, s.len());
    proof {
        let t = s@.subrange(start as int, s@.len() as int);
        let ghost before = lines_view(out@);
        assert(lines_view(out@.push(last)) =~= before.push(last@));
        assert(before + seq![t] =~= before.push(last@));
    }
    out.push(last);
    out
}

} // verus!
