use firecrawl_command::credential::resolve;
use firecrawl_command::error::Error;

fn env(items: &[(&str, &str)]) -> Vec<(String, String)> {
    items.iter().map(|(k, v)| (k.to_string(), v.to_string())).collect()
}

#[test]
fn key_is_found_among_others() {
    let e = env(&[("PATH", "/bin"), ("FIRECRAWL_API_KEY", "abc123"), ("HOME", "/root")]);
    assert_eq!(resolve(&e), Ok("abc123".to_string()));
}

#[test]
fn first_of_two_keys_wins() {
    let e = env(&[("A", "1"), ("FIRECRAWL_API_KEY", "first"), ("FIRECRAWL_API_KEY", "second")]);
    assert_eq!(resolve(&e), Ok("first".to_string()));
}

#[test]
fn empty_value_is_a_value() {
    let e = env(&[("FIRECRAWL_API_KEY", "")]);
    assert_eq!(resolve(&e), Ok(String::new()));
}

#[test]
fn empty_environment_has_no_key() {
    assert_eq!(resolve(&env(&[])), Err(Error::MissingCredential));
}

#[test]
fn near_matches_do_not_count() {
    let e = env(&[
        ("firecrawl_api_key", "lower"),
        (" FIRECRAWL_API_KEY", "padded"),
        ("FIRECRAWL_API_KEY ", "padded"),
        ("FIRECRAWL_API_KEY_2", "longer"),
        ("FIRECRAWL_API_KE", "shorter"),
        ("MY_FIRECRAWL_API_KEY", "prefixed"),
    ]);
    assert_eq!(resolve(&e), Err(Error::MissingCredential));
}

#[test]
fn near_matches_are_passed_over() {
    let e = env(&[("firecrawl_api_key", "lower"), ("FIRECRAWL_API_KEY", "exact")]);
    assert_eq!(resolve(&e), Ok("exact".to_string()));
}
