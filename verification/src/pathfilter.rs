//! The location filter that decides which nodes the traversal may enter:
//! either only nodes of the file originally requested for parsing, or the
//! nodes whose file path matches a regular expression. Matching itself is
//! done by the `regex` crate behind trusted declarations.

use vstd::prelude::*;
use crate::ast::Location;

verus! {

#[verifier::external_type_specification]
#[verifier::external_body]
pub struct ExRegex(regex::Regex);

#[verifier::external_type_specification]
#[verifier::external_body]
pub struct ExRegexError(regex::Error);

/// The pattern a compiled regular expression holds, as `regex::Regex::as_str`
/// returns it.
pub uninterp spec fn pattern_of(r: regex::Regex) -> Seq<char>;

/// Whether `pattern` is accepted by `regex::Regex::new`: a valid pattern
/// whose compiled form stays within the crate's default size limit. The
/// outcome depends on the pattern alone.
pub uninterp spec fn regex_compiles(pattern: Seq<char>) -> bool;

/// Whether the regular expression compiled from `pattern` matches anywhere
/// in `text`. The outcome depends on the pattern and the text alone.
pub uninterp spec fn regex_match(pattern: Seq<char>, text: Seq<char>) -> bool;

/// Relies on regex::Regex::new: deterministic in the pattern, it compiles
/// exactly the valid patterns within the default size limit, and the
/// compiled value keeps the pattern it was built from.
#[verifier::external_body]
fn regex_new(pattern: &str) -> (r: Result<regex::Regex, regex::Error>)
    ensures
        r matches Ok(re) ==> pattern_of(re) == pattern@,
        (r is Ok) == regex_compiles(pattern@),
{
    regex::Regex::new(pattern)
}

/// Relies on regex::Regex::is_match: true exactly when the regex matches
/// anywhere in the haystack, deterministic in the regex's pattern and the
/// haystack.
#[verifier::external_body]
fn regex_is_match(re: &regex::Regex, text: &str) -> (b: bool)
    ensures
        b == regex_match(pattern_of(*re), text@),
{
    re.is_match(text)
}

/// The two filter policies, as contracts see them: main-file mode, or
/// path-regex mode with the pattern the filter was built from.
pub enum FilterView {
    MainFile,
    ByPath(Seq<char>),
}

/// The location filter: main-file mode, or path-regex mode holding the
/// compiled expression.
pub enum Filter {
    MainFile,
    ByPath(regex::Regex),
}

impl View for Filter {
    type V = FilterView;

    open spec fn view(&self) -> FilterView {
        match self {
            Filter::MainFile => FilterView::MainFile,
            Filter::ByPath(re) => FilterView::ByPath(pattern_of(*re)),
        }
    }
}

impl Filter {
    /// A path-regex filter compiled from `pattern`; `None` exactly when the
    /// pattern does not compile.
    pub fn by_path(pattern: &str) -> (r: Option<Filter>)
        ensures
            match r {
                Some(f) => f@ == FilterView::ByPath(pattern@),
                None => true,
            },
            (r is Some) == regex_compiles(pattern@),
    {
        match regex_new(pattern) {
            Ok(re) => Some(Filter::ByPath(re)),
            Err(_) => None,
        }
    }
}

/// Whether a node at location `loc` is in scope: a node without a location
/// never is; with one, main-file mode asks that it lie in the requested
/// file, and path-regex mode that its file path match the pattern.
pub open spec fn spec_in_scope(loc: Option<Location>, f: FilterView) -> bool {
    match loc {
        None => false,
        Some(l) => match f {
            FilterView::MainFile => l.in_main_file,
            FilterView::ByPath(pattern) => regex_match(pattern, l.file@),
        },
    }
}

/// Whether the filter lets the traversal enter a node at location `loc`.
pub fn in_scope(f: &Filter, loc: &Option<Location>) -> (b: bool)
    ensures
        b == spec_in_scope(*loc, f@),
{
    match loc {
        None => false,
        Some(l) => match f {
            Filter::MainFile => l.in_main_file,
            Filter::ByPath(re) => regex_is_match(re, l.file.as_str()),
        },
    }
}

/// A node with no resolvable location is always out of scope; with one, the
/// two modes decide exactly as stated: main-file mode by the location's
/// main-file property, path-regex mode by the pattern matching the file
/// path — independent of anything else about the node or its nesting.
pub proof fn lemma_filter_policy(l: Location, pattern: Seq<char>)
    ensures
        !spec_in_scope(None::<Location>, FilterView::MainFile),
        !spec_in_scope(None::<Location>, FilterView::ByPath(pattern)),
        spec_in_scope(Some(l), FilterView::MainFile) == l.in_main_file,
        spec_in_scope(Some(l), FilterView::ByPath(pattern)) == regex_match(pattern, l.file@),
{
}

} // verus!
