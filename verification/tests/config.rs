use angel::config::DomainMatcher;

#[test]
fn config_domain_matcher_empty() {
    let whitelist = DomainMatcher::new(Vec::<&str>::new()).unwrap();

    assert!(whitelist.domain_matches("aaaa"));
    assert!(whitelist.domain_matches(".aaaa.bbb"));
}

#[test]
fn config_domain_matcher() {
    let whitelist = DomainMatcher::new(vec!["example.com", "foo.bar"]).unwrap();

    assert!(whitelist.domain_matches("example.com"));

    assert!(!whitelist.domain_matches("discord.gg"));
    assert!(!whitelist.domain_matches("example.net"));
    assert!(!whitelist.domain_matches("example.comm"));
}

#[test]
fn config_domain_matcher_leading_dot() {
    let whitelist = DomainMatcher::new(vec!["foo.bar"]).unwrap();

    assert!(whitelist.domain_matches("foo.bar"));
    assert!(whitelist.domain_matches("baz.foo.bar"));

    assert!(whitelist.domain_matches(".foo.bar"));
    assert!(whitelist.domain_matches(".baz.foo.bar"));

    assert!(!whitelist.domain_matches("fffoo.bar"));
}

#[test]
fn config_domain_matcher_subdomains() {
    let whitelist = DomainMatcher::new(vec!["com"]).unwrap();

    assert!(whitelist.domain_matches("discord.com"));
    assert!(whitelist.domain_matches("cdn.whatever.discord.com"));
}

#[test]
fn config_domain_matcher_url() {
    let whitelist = DomainMatcher::new(vec!["discord.gg", "google.com"]).unwrap();

    assert!(whitelist.url_matches(&"https://google.com/test".parse().expect("url parsing")));
    assert!(!whitelist.url_matches(&"foo:bar".parse().expect("url parsing")));
}

#[test]
fn config_domain_matcher_tells_case_apart() {
    let whitelist = DomainMatcher::new(vec!["com"]).unwrap();

    assert!(whitelist.domain_matches("discord.com"));
    assert!(!whitelist.domain_matches("discord.COM"));
}
