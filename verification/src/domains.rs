//! Matching of domain names against a list of allowed domains.
//!
//! A domain is allowed where it ends with one of the listed domains at a
//! label boundary. Both are therefore written with a dot in front before
//! they are handed to the multi-pattern searcher.

use aho_corasick::{AhoCorasick, BuildError};
use url::Url;
use vstd::prelude::*;
use vstd::string::*;

verus! {

/// `aho_corasick::AhoCorasick`, taken as it is: a searcher is known by the
/// patterns and the setting that it was built with.
#[verifier::external_type_specification]
#[verifier::external_body]
pub struct ExAhoCorasick(aho_corasick::AhoCorasick);

/// `aho_corasick::BuildError`, taken as it is and handed through.
#[verifier::external_type_specification]
#[verifier::external_body]
pub struct ExBuildError(aho_corasick::BuildError);

/// `url::Url`, taken as it is.
#[verifier::external_type_specification]
#[verifier::external_body]
pub struct ExUrl(url::Url);

/// The patterns that a searcher was built from, in the order given.
pub uninterp spec fn searcher_patterns(searcher: AhoCorasick) -> Seq<Seq<char>>;

/// Whether a searcher was built to ignore the case of ASCII letters.
pub uninterp spec fn searcher_folds_case(searcher: AhoCorasick) -> bool;

/// The end offsets, in bytes, of the matches that a searcher of the given
/// patterns reports when it walks over `haystack`: the matches that do not
/// overlap, from left to right.
pub uninterp spec fn found_ends(
    patterns: Seq<Seq<char>>,
    fold_case: bool,
    haystack: Seq<char>,
) -> Seq<usize>;

/// Whether a searcher of the given patterns can be built: the builder
/// refuses patterns that are too many or too long for the identifiers of
/// its states.
pub uninterp spec fn searcher_builds(patterns: Seq<Seq<char>>, fold_case: bool) -> bool;

/// The domain of an address, if its host is a domain.
pub uninterp spec fn url_domain_of(url: Url) -> Option<Seq<char>>;

/// The texts of `strings`, in order.
pub open spec fn texts(strings: Seq<String>) -> Seq<Seq<char>> {
    Seq::new(strings.len(), |i: int| strings[i]@)
}

/// `AhoCorasick::builder`, `AhoCorasickBuilder::ascii_case_insensitive` and
/// `AhoCorasickBuilder::build`: a searcher of exactly the given patterns
/// that ignores the case of ASCII letters where `fold_case` holds. Whether
/// the build succeeds depends on the patterns and the setting alone; it is
/// known by `searcher_builds`.
#[verifier::external_body]
fn build_searcher(patterns: &Vec<String>, fold_case: bool) -> (result: Result<
    AhoCorasick,
    BuildError,
>)
    ensures
        result is Ok <==> searcher_builds(texts(patterns@), fold_case),
        result matches Ok(searcher) ==> searcher_patterns(searcher) == texts(patterns@)
            && searcher_folds_case(searcher) == fold_case,
{
    AhoCorasick::builder().ascii_case_insensitive(fold_case).build(patterns)
}

/// `AhoCorasick::patterns_len`: the number of patterns that the searcher
/// was built from.
pub assume_specification[ AhoCorasick::patterns_len ](searcher: &AhoCorasick) -> (len: usize)
    ensures
        len == searcher_patterns(*searcher).len(),
;

/// `AhoCorasick::find_iter` and `Match::end`: the end offsets of the
/// matches in `haystack`, in the order in which the searcher reports them.
#[verifier::external_body]
fn find_ends(searcher: &AhoCorasick, haystack: &str) -> (ends: Vec<usize>)
    ensures
        ends@ == found_ends(searcher_patterns(*searcher), searcher_folds_case(*searcher), haystack@),
{
    searcher.find_iter(haystack).map(|found| found.end()).collect()
}

/// `Url::domain`: the domain of the address, if its host is one. What it
/// is depends on the address alone; it is known by `url_domain_of`.
#[verifier::external_body]
fn url_domain(url: &Url) -> (domain: Option<&str>)
    ensures
        match domain {
            Some(domain) => url_domain_of(*url) == Some(domain@),
            None => url_domain_of(*url) is None,
        },
{
    url.domain()
}

/// `text` with a dot in front, unless it starts with one.
pub open spec fn dotted(text: Seq<char>) -> Seq<char> {
    if text.len() > 0 && text[0] == '.' {
        text
    } else {
        seq!['.'] + text
    }
}

/// The patterns of a list of allowed domains: each with a dot in front.
pub open spec fn dotted_patterns(domains: Seq<Seq<char>>) -> Seq<Seq<char>> {
    Seq::new(domains.len(), |i: int| seq!['.'] + domains[i])
}

/// Whether a domain is allowed by a searcher of the given patterns: there
/// is no pattern at all, or a match ends where the dotted domain ends,
/// counted in characters.
pub open spec fn domain_allowed(
    patterns: Seq<Seq<char>>,
    fold_case: bool,
    domain: Seq<char>,
) -> bool {
    patterns.len() == 0 || found_ends(patterns, fold_case, dotted(domain)).contains(
        dotted(domain).len() as usize,
    )
}

/// Whether an address is allowed by a searcher of the given patterns: it
/// has a domain, and the domain is allowed.
pub open spec fn url_allowed(patterns: Seq<Seq<char>>, fold_case: bool, url: Url) -> bool {
    match url_domain_of(url) {
        Some(domain) => domain_allowed(patterns, fold_case, domain),
        None => false,
    }
}

/// A list of allowed domains, ready to be matched against.
pub struct DomainMatcher {
    backend: AhoCorasick,
}

impl DomainMatcher {
    /// The patterns that are matched, each a listed domain with a dot in
    /// front.
    pub closed spec fn patterns(&self) -> Seq<Seq<char>> {
        searcher_patterns(self.backend)
    }

    /// Whether the case of ASCII letters is ignored.
    pub closed spec fn folds_case(&self) -> bool {
        searcher_folds_case(self.backend)
    }

    /// Builds the matcher of the listed `domains`: the searcher of the
    /// domains, each with a dot in front.
    ///
    /// The build succeeds exactly where the searcher of these patterns can
    /// be built.
    pub fn build(domains: &Vec<&str>, fold_case: bool) -> (result: Result<Self, BuildError>)
        ensures
            result is Ok <==> searcher_builds(
                dotted_patterns(Seq::new(domains@.len(), |i: int| domains@[i]@)),
                fold_case,
            ),
            result matches Ok(matcher) ==> matcher.patterns() == dotted_patterns(
                Seq::new(domains@.len(), |i: int| domains@[i]@),
            ) && matcher.folds_case() == fold_case,
    {
        let mut patterns: Vec<String> = Vec::new();
        let mut index: usize = 0;
        while index < domains.len()
            invariant
                index <= domains@.len(),
                patterns@.len() == index,
                forall|i: int| 0 <= i < index ==> (#[trigger] patterns@[i])@ == seq!['.'] + domains@[i]@,
            decreases domains@.len() - index,
        {
            proof {
                reveal_strlit(".");
            }
            let mut pattern = String::from_str(".");
            pattern.append(domains[index]);
            assert(pattern@ =~= seq!['.'] + domains@[index as int]@);
            patterns.push(pattern);
            index += 1;
        }
        assert(texts(patterns@) =~= dotted_patterns(
            Seq::new(domains@.len(), |i: int| domains@[i]@),
        ));
        match build_searcher(&patterns, fold_case) {
            Ok(backend) => Ok(Self { backend }),
            Err(error) => Err(error),
        }
    }

    /// Whether `domain` is allowed.
    pub fn domain_matches(&self, domain: &str) -> (allowed: bool)
        ensures
            allowed == domain_allowed(self.patterns(), self.folds_case(), domain@),
    {
        let starts_with_dot: bool = domain.unicode_len() > 0 && domain.get_char(0) == '.';
        let mut owned = String::new();
        let subject: &str = if starts_with_dot {
            domain
        } else {
            proof {
                reveal_strlit(".");
            }
            owned.append(".");
            owned.append(domain);
            assert(owned@ =~= seq!['.'] + domain@);
            owned.as_str()
        };
        assert(subject@ == dotted(domain@));
        if self.backend.patterns_len() == 0 {
            return true;
        }
        let end: usize = subject.unicode_len();
        let ends = find_ends(&self.backend, subject);
        let mut index: usize = 0;
        while index < ends.len()
            invariant
                index <= ends@.len(),
                end == dotted(domain@).len(),
                self.patterns().len() != 0,
                ends@ == found_ends(self.patterns(), self.folds_case(), dotted(domain@)),
                forall|i: int| 0 <= i < index ==> ends@[i] != end,
            decreases ends@.len() - index,
        {
            if ends[index] == end {
                assert(ends@[index as int] == end);
                return true;
            }
            index += 1;
        }
        false
    }

    /// Whether the domain of an address, if it has one, is allowed.
    pub fn allows(&self, domain: Option<&str>) -> (allowed: bool)
        ensures
            allowed == match domain {
                Some(domain) => domain_allowed(self.patterns(), self.folds_case(), domain@),
                None => false,
            },
    {
        match domain {
            Some(domain) => self.domain_matches(domain),
            None => false,
        }
    }

    /// Whether the domain of `url` is allowed; an address without a domain
    /// never is.
    pub fn url_matches(&self, url: &Url) -> (allowed: bool)
        ensures
            allowed == url_allowed(self.patterns(), self.folds_case(), *url),
    {
        self.allows(url_domain(url))
    }
}

} // verus!
