use livebox::builder::{ClientBuilder, LIVEBOX_BASE_URL};
use livebox::error::ConfigError;

#[test]
fn base_url_loses_one_trailing_slash_and_gains_ws() {
    let builder = ClientBuilder::default().with_base_url("http://192.168.1.1/".to_string());
    assert_eq!(builder.base_url_ws(), "http://192.168.1.1/ws");
}

#[test]
fn base_url_without_trailing_slash_gains_ws() {
    let builder = ClientBuilder::default().with_base_url(LIVEBOX_BASE_URL.to_string());
    assert_eq!(builder.base_url_ws(), "http://livebox.home/ws");
}

#[test]
fn base_url_loses_only_one_of_two_trailing_slashes() {
    let builder = ClientBuilder::default().with_base_url("http://box//".to_string());
    assert_eq!(builder.base_url_ws(), "http://box//ws");
}

#[test]
fn empty_base_url_becomes_the_bare_path() {
    let builder = ClientBuilder::default().with_base_url(String::new());
    assert_eq!(builder.base_url_ws(), "/ws");
}

#[test]
fn base_url_that_is_one_slash_becomes_the_bare_path() {
    let builder = ClientBuilder::default().with_base_url("/".to_string());
    assert_eq!(builder.base_url_ws(), "/ws");
}

#[test]
fn base_url_with_non_ascii_characters_is_kept() {
    let builder = ClientBuilder::default().with_base_url("http://bôx.home/".to_string());
    assert_eq!(builder.base_url_ws(), "http://bôx.home/ws");
}

#[test]
fn default_builder_points_at_the_default_base_url_as_it_stands() {
    let builder = ClientBuilder::default();
    assert_eq!(builder.base_url_ws(), "http://livebox.home");
}

#[test]
fn build_without_credentials_fails() {
    let attempt = ClientBuilder::default().with_base_url("http://box".to_string()).build();
    assert_eq!(attempt, Err(ConfigError::MissingCredentials));
    assert_eq!(ConfigError::MissingCredentials.message(), "missing credentials");
}

#[test]
fn build_with_credentials_gives_the_login() {
    let login = ClientBuilder::default()
        .with_base_url("http://box/".to_string())
        .with_credentials("admin".to_string(), "secret".to_string())
        .build()
        .unwrap();
    assert_eq!(login.base_url_ws, "http://box/ws");
    assert_eq!(login.username, "admin");
    assert_eq!(login.password, "secret");
}

#[test]
fn later_credentials_replace_earlier_ones() {
    let login = ClientBuilder::default()
        .with_credentials("a".to_string(), "b".to_string())
        .with_credentials("c".to_string(), "d".to_string())
        .build()
        .unwrap();
    assert_eq!(login.username, "c");
    assert_eq!(login.password, "d");
}

#[test]
fn credentials_survive_a_change_of_base_url() {
    let login = ClientBuilder::default()
        .with_credentials("admin".to_string(), "secret".to_string())
        .with_base_url("http://10.0.0.1".to_string())
        .build()
        .unwrap();
    assert_eq!(login.base_url_ws, "http://10.0.0.1/ws");
    assert_eq!(login.username, "admin");
}

#[test]
fn insecure_tls_is_off_unless_asked_for() {
    let login = ClientBuilder::default()
        .with_credentials("a".to_string(), "b".to_string())
        .build()
        .unwrap();
    assert!(!login.allow_insecure_tls);
    let login = ClientBuilder::default()
        .with_insecure_tls(true)
        .with_credentials("a".to_string(), "b".to_string())
        .with_base_url("https://box".to_string())
        .build()
        .unwrap();
    assert!(login.allow_insecure_tls);
}
