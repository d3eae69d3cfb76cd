//! Sets of glob patterns, built with the `globset` crate.
//!
//! A builder and a built set are described by the patterns they hold, in
//! the order they were added.
use vstd::prelude::*;


verus! {

#[verifier::external_type_specification]
#[verifier::external_body]
pub struct ExGlobSetBuilder(globset::GlobSetBuilder);

#[verifier::external_type_specification]
#[verifier::external_body]
pub struct ExGlobSet(globset::GlobSet);

/// The patterns added to a builder, in order.
pub uninterp spec fn builder_patterns(b: globset::GlobSetBuilder) -> Seq<Seq<char>>;

/// The patterns a set was built from, in order.
pub uninterp spec fn set_patterns(s: globset::GlobSet) -> Seq<Seq<char>>;

/// Whether `Glob::new` accepts a pattern (default options). On a given
/// target a function of the pattern alone; the default escaping with `\`
/// differs between Unix and Windows builds.
pub uninterp spec fn glob_parses(pattern: Seq<char>) -> bool;

/// Whether `GlobSetBuilder::build` succeeds for a builder holding these
/// patterns, in order (it compiles them into matchers). On a given target
/// a function of the patterns alone.
pub uninterp spec fn set_builds(patterns: Seq<Seq<char>>) -> bool;

/// `GlobSetBuilder::new`: a builder holding no pattern.
#[verifier::external_body]
fn new_builder() -> (r: globset::GlobSetBuilder)
    ensures
        builder_patterns(r) == Seq::<Seq<char>>::empty(),
{
    globset::GlobSetBuilder::new()
}

/// `Glob::new` on `pattern`, and `GlobSetBuilder::add` of the glob: a
/// pattern that parses is appended to the builder; one that does not
/// leaves the builder unchanged and gives the parse error's message.
/// Whether a pattern parses is named by `glob_parses`.
#[verifier::external_body]
fn add_glob(builder: &mut globset::GlobSetBuilder, pattern: &str) -> (r: Result<(), String>)
    ensures
        r is Ok <==> glob_parses(pattern@),
        r is Ok ==> builder_patterns(*final(builder)) == builder_patterns(*old(builder)).push(pattern@),
        r is Err ==> builder_patterns(*final(builder)) == builder_patterns(*old(builder)),
{
    let glob = globset::Glob::new(pattern).map_err(|e| e.to_string())?;
    builder.add(glob);
    Ok(())
}

/// `GlobSetBuilder::build`: a set of the builder's patterns, or the build
/// error's message. Whether it succeeds is named by `set_builds`; the one
/// fact stated of it is that a builder with no pattern always builds (the
/// crate returns the empty set before compiling anything).
#[verifier::external_body]
fn build_set(builder: &globset::GlobSetBuilder) -> (r: Result<globset::GlobSet, String>)
    ensures
        r is Ok <==> set_builds(builder_patterns(*builder)),
        builder_patterns(*builder).len() == 0 ==> r is Ok,
        r matches Ok(s) ==> set_patterns(s) == builder_patterns(*builder),
{
    builder.build().map_err(|e| e.to_string())
}

/// Whether globset matches `path` against a set built from `patterns`
/// (default options). On a given target a function of the patterns and the
/// path alone; how separators are normalised differs between Unix and
/// Windows builds.
pub uninterp spec fn glob_set_matches(patterns: Seq<Seq<char>>, path: Seq<char>) -> bool;

/// `GlobSet::is_match` on `path`: whether any pattern of the set matches
/// it, as named by `glob_set_matches`.
#[verifier::external_body]
pub(crate) fn set_is_match(set: &globset::GlobSet, path: &str) -> (r: bool)
    ensures
        r == glob_set_matches(set_patterns(*set), path@),
{
    set.is_match(path)
}

/// Whether every pattern parses as a glob.
pub open spec fn all_parse(patterns: Seq<Seq<char>>) -> bool {
    forall|i: int| 0 <= i < patterns.len() ==> glob_parses(#[trigger] patterns[i])
}

/// Builds a glob set of the given patterns, in order; the first pattern
/// that does not parse, or a failure to build the set, is an error.
pub fn build_glob_set(patterns: &Vec<String>) -> (r: Result<globset::GlobSet, crate::error::Error>)
    ensures
        !all_parse(crate::text::string_views(patterns@)) ==> r is Err,
        all_parse(crate::text::string_views(patterns@)) ==> (r is Ok <==> set_builds(
            crate::text::string_views(patterns@),
        )),
        r matches Ok(s) ==> set_patterns(s) == crate::text::string_views(patterns@),
        r matches Err(e) ==> e is GlobSetParseError,
{
    let ghost views = crate::text::string_views(patterns@);
    let mut builder = new_builder();
    let mut i: usize = 0;
    while i < patterns.len()
        invariant
            i <= patterns@.len(),
            views == crate::text::string_views(patterns@),
            builder_patterns(builder) == views.subrange(0, i as int),
            forall|k: int| 0 <= k < i ==> glob_parses(#[trigger] views[k]),
        decreases patterns@.len() - i,
    {
        let added = add_glob(&mut builder, patterns[i].as_str());
        match added {
            Ok(()) => {},
            Err(e) => {
                proof {
                    assert(!glob_parses(views[i as int]));
                }
                return Err(crate::error::Error::GlobSetParseError(e));
            },
        }
        proof {
            assert(views.subrange(0, i + 1) =~= views.subrange(0, i as int).push(views[i as int]));
        }
        i += 1;
    }
    proof {
        assert(views.subrange(0, patterns@.len() as int) =~= views);
    }
    match build_set(&builder) {
        Ok(s) => Ok(s),
        Err(e) => Err(crate::error::Error::GlobSetParseError(e)),
    }
}

/// The patterns that parse as globs, in order.
pub open spec fn parsing_patterns(ps: Seq<Seq<char>>) -> Seq<Seq<char>>
    decreases ps.len(),
{
    if ps.len() == 0 {
        Seq::empty()
    } else if glob_parses(ps.last()) {
        parsing_patterns(ps.drop_last()).push(ps.last())
    } else {
        parsing_patterns(ps.drop_last())
    }
}

/// Builds a glob set of the patterns that parse, skipping the others;
/// `None` when the set cannot be built. With no pattern that parses, the
/// set is empty and always built.
pub fn build_lenient_glob_set(patterns: &Vec<String>) -> (r: Option<globset::GlobSet>)
    ensures
        r is Some <==> set_builds(parsing_patterns(crate::text::string_views(patterns@))),
        parsing_patterns(crate::text::string_views(patterns@)).len() == 0 ==> r is Some,
        r matches Some(s) ==> set_patterns(s) == parsing_patterns(crate::text::string_views(patterns@)),
{
    let ghost views = crate::text::string_views(patterns@);
    let mut builder = new_builder();
    let mut i: usize = 0;
    while i < patterns.len()
        invariant
            i <= patterns@.len(),
            views == crate::text::string_views(patterns@),
            builder_patterns(builder) == parsing_patterns(views.take(i as int)),
        decreases patterns@.len() - i,
    {
        let _ = add_glob(&mut builder, patterns[i].as_str());
        proof {
            assert(views.take(i + 1).drop_last() =~= views.take(i as int));
            assert(views.take(i + 1).last() == views[i as int]);
        }
        i += 1;
    }
    proof {
        assert(views.take(patterns@.len() as int) =~= views);
    }
    match build_set(&builder) {
        Ok(s) => Some(s),
        Err(_) => None,
    }
}

} // verus!
