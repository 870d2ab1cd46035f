use std::sync::Arc;
use twenty_postgres_proxy::auth::{
    address_whitelisted, authorize, entry_admits, AuthError, AuthHandler,
};
use twenty_postgres_proxy::config::{contains_name, ProxyConfig};

fn names(list: &[&str]) -> Vec<String> {
    list.iter().map(|name| name.to_string()).collect()
}

fn policy(allowed: &[&str], opt_in: &[&str], whitelist: &[&str]) -> ProxyConfig {
    ProxyConfig {
        listen_address: "127.0.0.1:5431".to_string(),
        upstream_connection_string: "host=127.0.0.1 user=postgres".to_string(),
        allowed_schemas: names(allowed),
        ip_whitelist: names(whitelist),
        opt_in_schemas: names(opt_in),
    }
}

#[test]
fn allowed_without_opt_in_is_refused_as_not_opted_in() {
    let p = policy(&["public", "sales"], &["public"], &[]);
    assert_eq!(authorize(&p, "sales", None), Err(AuthError::SchemaNotOptedIn));
}

#[test]
fn allowed_and_opted_in_is_admitted() {
    let p = policy(&["public", "sales"], &["public"], &[]);
    assert_eq!(authorize(&p, "public", None), Ok(()));
}

#[test]
fn unknown_schema_is_refused_as_not_allowed() {
    let p = policy(&["public", "sales"], &["public"], &[]);
    assert_eq!(authorize(&p, "finance", None), Err(AuthError::SchemaNotAllowed));
}

#[test]
fn not_allowed_wins_over_opt_in() {
    let p = policy(&["public"], &["public", "finance"], &[]);
    assert_eq!(authorize(&p, "finance", None), Err(AuthError::SchemaNotAllowed));
    assert_eq!(
        authorize(&p, "finance", Some("10.0.0.1")),
        Err(AuthError::SchemaNotAllowed)
    );
}

#[test]
fn empty_policy_allows_nothing() {
    let p = policy(&[], &[], &[]);
    assert_eq!(authorize(&p, "public", None), Err(AuthError::SchemaNotAllowed));
    assert_eq!(authorize(&p, "", None), Err(AuthError::SchemaNotAllowed));
}

#[test]
fn schema_names_are_compared_exactly() {
    let p = policy(&["public"], &["public"], &[]);
    assert_eq!(authorize(&p, "Public", None), Err(AuthError::SchemaNotAllowed));
    assert_eq!(authorize(&p, "public ", None), Err(AuthError::SchemaNotAllowed));
    assert_eq!(authorize(&p, "publi", None), Err(AuthError::SchemaNotAllowed));
    assert_eq!(authorize(&p, "public", None), Ok(()));
}

#[test]
fn repeated_and_reordered_lists_decide_alike() {
    let p = policy(&["sales", "public", "sales"], &["public", "public"], &[]);
    let q = policy(&["public", "sales"], &["public"], &[]);
    for schema in ["public", "sales", "finance"] {
        assert_eq!(authorize(&p, schema, None), authorize(&q, schema, None));
    }
}

#[test]
fn whitelist_admits_a_listed_address() {
    let p = policy(&["public"], &["public"], &["10.0.0.7", "192.168.1."]);
    assert_eq!(authorize(&p, "public", Some("10.0.0.7")), Ok(()));
}

#[test]
fn whitelist_admits_an_address_under_a_prefix() {
    let p = policy(&["public"], &["public"], &["10.0.0.7", "192.168.1."]);
    assert_eq!(authorize(&p, "public", Some("192.168.1.44")), Ok(()));
}

#[test]
fn whitelist_refuses_an_unlisted_address() {
    let p = policy(&["public"], &["public"], &["10.0.0.7", "192.168.1."]);
    assert_eq!(
        authorize(&p, "public", Some("192.168.2.44")),
        Err(AuthError::IpNotWhitelisted)
    );
}

#[test]
fn whitelist_refuses_a_client_without_address() {
    let p = policy(&["public"], &["public"], &["10.0.0.7"]);
    assert_eq!(authorize(&p, "public", None), Err(AuthError::IpNotWhitelisted));
}

#[test]
fn address_is_checked_before_the_schema() {
    let p = policy(&["public", "sales"], &["public"], &["10.0.0.7"]);
    assert_eq!(
        authorize(&p, "finance", Some("10.0.0.8")),
        Err(AuthError::IpNotWhitelisted)
    );
    assert_eq!(
        authorize(&p, "sales", Some("10.0.0.8")),
        Err(AuthError::IpNotWhitelisted)
    );
    assert_eq!(
        authorize(&p, "finance", Some("10.0.0.7")),
        Err(AuthError::SchemaNotAllowed)
    );
    assert_eq!(
        authorize(&p, "sales", Some("10.0.0.7")),
        Err(AuthError::SchemaNotOptedIn)
    );
}

#[test]
fn no_whitelist_lets_every_address_through() {
    let p = policy(&["public"], &["public"], &[]);
    assert_eq!(authorize(&p, "public", Some("203.0.113.9")), Ok(()));
    assert!(address_whitelisted(&p.ip_whitelist, None));
    assert!(address_whitelisted(&p.ip_whitelist, Some("")));
}

#[test]
fn entry_admits_by_prefix() {
    assert!(entry_admits("10.0.", "10.0.3.4"));
    assert!(entry_admits("10.0.3.4", "10.0.3.4"));
    assert!(entry_admits("", "10.0.3.4"));
    assert!(entry_admits("", ""));
    assert!(!entry_admits("10.0.3.4", "10.0.3."));
    assert!(!entry_admits("10.0.3.4", ""));
    assert!(!entry_admits("10.1.", "10.0.3.4"));
    assert!(!entry_admits("10.0.3.5", "10.0.3.4"));
}

#[test]
fn entry_admits_counts_characters_not_bytes() {
    assert!(entry_admits("fé", "fée"));
    assert!(!entry_admits("fe", "fée"));
    assert!(entry_admits("日本", "日本語"));
    assert!(!entry_admits("日本語", "日本"));
    assert!(entry_admits("fe80::", "fe80::1"));
}

#[test]
fn contains_name_finds_only_whole_names() {
    let list = names(&["public", "sales"]);
    assert!(contains_name(&list, "public"));
    assert!(contains_name(&list, "sales"));
    assert!(!contains_name(&list, "sale"));
    assert!(!contains_name(&list, ""));
    assert!(!contains_name(&Vec::new(), "public"));
}

#[test]
fn refusals_give_their_reason() {
    assert_eq!(AuthError::SchemaNotAllowed.message(), "Schema not allowed");
    assert_eq!(
        AuthError::SchemaNotOptedIn.message(),
        "Schema has not opted-in for direct access"
    );
    assert_eq!(
        AuthError::IpNotWhitelisted.message(),
        "Client address is not whitelisted"
    );
}

#[test]
fn handler_decides_as_authorize_does() {
    let config = Arc::new(policy(&["public", "sales"], &["public"], &["10."]));
    let handler = AuthHandler::new(config.clone());
    assert_eq!(handler.authenticate("public", Some("10.1.2.3")), Ok(()));
    assert_eq!(
        handler.authenticate("sales", Some("10.1.2.3")),
        Err(AuthError::SchemaNotOptedIn)
    );
    assert_eq!(
        handler.authenticate("finance", Some("10.1.2.3")),
        Err(AuthError::SchemaNotAllowed)
    );
    assert_eq!(
        handler.authenticate("public", Some("11.1.2.3")),
        Err(AuthError::IpNotWhitelisted)
    );
    for schema in ["public", "sales", "finance"] {
        for address in [None, Some("10.1.2.3"), Some("11.1.2.3")] {
            assert_eq!(
                handler.authenticate(schema, address),
                authorize(&config, schema, address)
            );
        }
    }
}

#[test]
fn authorize_gives_the_same_answer_twice() {
    let p = policy(&["public", "sales"], &["public"], &["10."]);
    let first = authorize(&p, "sales", Some("10.0.0.1"));
    let second = authorize(&p, "sales", Some("10.0.0.1"));
    assert_eq!(first, second);
}
