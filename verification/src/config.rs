//! The configuration of the program.

use crate::domains;
use crate::domains::{domain_allowed, dotted_patterns, searcher_builds, url_allowed};
use aho_corasick::BuildError;
use url::Url;
use vstd::prelude::*;

verus! {

/// The configuration of the chat service.
#[derive(Debug)]
pub struct DiscordConfig {
    pub token: String,
}

/// The configuration of the content-generation service.
#[derive(Debug)]
pub struct GeminiConfig {
    pub token: String,
}

/// A list of allowed domains that tells upper and lower case apart.
pub struct DomainMatcher {
    inner: domains::DomainMatcher,
}

/// The configuration of the assistant.
pub struct ClydeConfig {
    pub owner_id: u64,
    pub whitelisted_domains: DomainMatcher,
}

/// The whole configuration.
pub struct Config {
    pub discord: DiscordConfig,
    pub gemini: GeminiConfig,
    pub clyde: ClydeConfig,
}

impl DomainMatcher {
    /// The patterns that are matched, each a listed domain with a dot in
    /// front.
    pub closed spec fn patterns(&self) -> Seq<Seq<char>> {
        self.inner.patterns()
    }

    /// Whether the case of ASCII letters is ignored.
    pub closed spec fn folds_case(&self) -> bool {
        self.inner.folds_case()
    }

    /// Builds the matcher of the listed domains. The build succeeds exactly
    /// where the searcher of the domains, each with a dot in front, can be
    /// built.
    pub fn new(patterns: Vec<&str>) -> (result: Result<Self, BuildError>)
        ensures
            result is Ok <==> searcher_builds(
                dotted_patterns(Seq::new(patterns@.len(), |i: int| patterns@[i]@)),
                false,
            ),
            result matches Ok(matcher) ==> matcher.folds_case() == false && matcher.patterns() == dotted_patterns(
                Seq::new(patterns@.len(), |i: int| patterns@[i]@),
            ),
    {
        match domains::DomainMatcher::build(&patterns, false) {
            Ok(inner) => Ok(Self { inner }),
            Err(error) => Err(error),
        }
    }

    /// Whether the domain of `url` is allowed; an address without a domain
    /// never is.
    pub fn url_matches(&self, url: &Url) -> (allowed: bool)
        ensures
            allowed == url_allowed(self.patterns(), self.folds_case(), *url),
    {
        self.inner.url_matches(url)
    }

    /// Whether `domain` is allowed: it is one of the listed domains or a
    /// subdomain of one. An empty list allows every domain.
    pub fn domain_matches(&self, domain: &str) -> (allowed: bool)
        ensures
            allowed == domain_allowed(self.patterns(), self.folds_case(), domain@),
    {
        self.inner.domain_matches(domain)
    }
}

} // verus!
