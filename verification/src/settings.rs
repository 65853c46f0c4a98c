//! The settings of the program.

use crate::domains;
use crate::domains::{domain_allowed, dotted_patterns, searcher_builds, url_allowed};
use aho_corasick::BuildError;
use std::collections::HashSet;
use url::Url;
use vstd::prelude::*;

verus! {

/// A list of allowed domains that ignores the case of ASCII letters.
pub struct DomainMatcher {
    inner: domains::DomainMatcher,
}

/// The settings of the chat service.
pub struct DiscordSettings {
    pub token: String,
    pub names: Vec<String>,
    pub blacklisted_users: HashSet<u64>,
}

/// The settings of the content-generation service.
pub struct GeminiSettings {
    pub api_key: String,
    pub personality: String,
    pub whitelisted_domains: DomainMatcher,
}

/// All settings.
pub struct Settings {
    pub discord: DiscordSettings,
    pub gemini: GeminiSettings,
}

impl DomainMatcher {
    /// The patterns that are matched, each a listed domain with a dot in
    /// front.
    pub closed spec fn patterns(&self) -> Seq<Seq<char>> {
        self.inner.patterns()
    }

    /// Whether the case of ASCII letters is ignored.
    pub closed spec fn folds_case(&self) -> bool {
        self.inner.folds_case()
    }

    /// Builds the matcher of the listed domains. The build succeeds exactly
    /// where the searcher of the domains, each with a dot in front, can be
    /// built.
    pub fn new(patterns: Vec<&str>) -> (result: Result<Self, BuildError>)
        ensures
            result is Ok <==> searcher_builds(
                dotted_patterns(Seq::new(patterns@.len(), |i: int| patterns@[i]@)),
                true,
            ),
            result matches Ok(matcher) ==> matcher.folds_case() == true && matcher.patterns() == dotted_patterns(
                Seq::new(patterns@.len(), |i: int| patterns@[i]@),
            ),
    {
        match domains::DomainMatcher::build(&patterns, true) {
            Ok(inner) => Ok(Self { inner }),
            Err(error) => Err(error),
        }
    }

    /// Whether the domain of `url` is allowed; an address without a domain
    /// never is.
    pub fn url_matches(&self, url: &Url) -> (allowed: bool)
        ensures
            allowed == url_allowed(self.patterns(), self.folds_case(), *url),
    {
        self.inner.url_matches(url)
    }

    /// Whether `domain` is allowed: it is one of the listed domains or a
    /// subdomain of one, whatever the case of its ASCII letters. An empty
    /// list allows every domain.
    pub fn domain_matches(&self, domain: &str) -> (allowed: bool)
        ensures
            allowed == domain_allowed(self.patterns(), self.folds_case(), domain@),
    {
        self.inner.domain_matches(domain)
    }
}

impl DiscordSettings {
    /// Whether the author with the number `user` is on the list of users
    /// whose messages are ignored.
    pub fn is_blacklisted(&self, user: u64) -> (listed: bool)
        ensures
            listed == self.blacklisted_users@.contains(user),
    {
        self.blacklisted_users.contains(&user)
    }
}

} // verus!
