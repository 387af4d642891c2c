use cloud_scraper::config::{Config, DomainConfig, TlsConfig, DEFAULT_SITE_FOLDER};
use cloud_scraper::web_url::WebUrl;

fn url(text: &str) -> WebUrl {
    WebUrl::parse(text).expect("Could not parse URL")
}

fn test_config_with(domain_config: Option<DomainConfig>, email: Option<String>) -> Config {
    Config::with_all_properties(
        Some(domain_config.unwrap_or(DomainConfig::default())),
        email,
        None,
        None,
    )
}

#[test]
fn test_instantiate() {
    let config = Config::with_all_properties(
        None,
        None,
        None,
        Some("test_site_folder".to_string()),
    );

    assert!(config.sanity_check().is_ok());
}

#[test]
fn test_config_sanity_check() {
    let domain_config = DomainConfig::with_all_properties(
        Some(url("https://the.domain:2222")),
        Some(TlsConfig::new(vec!["builder@contact.com".to_string()], 0, 0)),
        url("http://the.domain"),
    );

    let bad_config = test_config_with(Some(domain_config.duplicate()), None);
    assert!(bad_config.sanity_check().is_err());

    let config = test_config_with(Some(domain_config), Some("the@email.com".to_string()));
    assert!(config.sanity_check().is_ok());
}

#[test]
fn sanity_check_lists_every_problem() {
    let domain_config = DomainConfig::with_all_properties(
        None,
        Some(TlsConfig::new(vec![], 3, 30)),
        url("https://the.domain"),
    );
    let config = test_config_with(Some(domain_config), None);
    assert_eq!(
        config.sanity_check(),
        Err("https://the.domain/ uses HTTPS, but no email address was provided for certificate \
             requests, No builder contacts configured"
            .to_string())
    );

    let without_tls = test_config_with(Some(DomainConfig::new("https://the.domain")), Some("a@b.c".to_string()));
    assert_eq!(without_tls.sanity_check(), Err("No TLS config found".to_string()));
}

#[test]
fn config_with_domain_config_returns_https() {
    let config = Config::with_all_properties(
        Some(DomainConfig::new("http://test_domain:8080")),
        None,
        None,
        Some("test".to_string()),
    );
    let redirect_uri = config.redirect_uri().unwrap();
    assert_eq!(redirect_uri, "http://test_domain:8080/auth/google");
}

#[test]
fn config_without_domain_config_returns_http() {
    let config = Config::with_all_properties(None, None, None, None)
        .merge_port(Some(8080))
        .unwrap();
    let redirect_uri = config.redirect_uri().unwrap();
    assert_eq!(redirect_uri, "http://localhost:8080/auth/google");
}

#[test]
fn websocket_with_domain_config_returns_https() {
    let config = Config::with_all_properties(
        Some(DomainConfig::new("https://test_domain:8080")),
        None,
        None,
        None,
    );
    let websocket_uri = config.websocket_url().unwrap().as_str().to_string();
    assert_eq!(websocket_uri, "wss://test_domain:8080/ws");
}

#[test]
fn websocket_without_domain_config_returns_http() {
    let config: Config = Config::with_all_properties(None, None, None, None);
    let websocket_uri = config.websocket_url().unwrap().as_str().to_string();
    assert_eq!(websocket_uri, "ws://localhost/ws");
}

#[test]
fn port_is_written_or_default() {
    let plain = Config::with_all_properties(None, None, None, None);
    assert_eq!(plain.port(), 80);
    assert!(!plain.uses_tls());
    let tls = Config::with_all_properties(Some(DomainConfig::new("https://x.org")), None, None, None);
    assert_eq!(tls.port(), 443);
    assert!(tls.uses_tls());
    assert_eq!(tls.ws_scheme(), "wss");
    let explicit = Config::with_all_properties(Some(DomainConfig::new("http://x.org:8081")), None, None, None);
    assert_eq!(explicit.port(), 8081);
}

#[test]
fn new_merges_the_command_line() {
    let config = Config::new(None, Some(5), Some(9000)).unwrap();
    assert_eq!(config.exit_after(), Some(5));
    assert_eq!(config.port(), 9000);
    assert_eq!(config.domain_config().url().as_str(), "http://localhost:9000/");

    let loaded = Config::with_all_properties(None, Some("e@x.org".to_string()), Some(3), Some("f".to_string()));
    let merged = Config::new(Some(loaded), None, None).unwrap();
    assert_eq!(merged.exit_after(), Some(3));
    assert_eq!(merged.email(), &Some("e@x.org".to_string()));
    assert_eq!(merged.site_folder(), "f");

    let file_config = Config::with_all_properties(
        Some(DomainConfig::new("file:///tmp/x")),
        None,
        None,
        None,
    );
    assert!(Config::new(Some(file_config), None, Some(1)).is_none());
}

#[test]
fn merge_exit_after_replaces_only_a_given_delay() {
    let config = Config::with_all_properties(None, None, Some(4), None);
    assert_eq!(config.merge_exit_after(None).exit_after(), Some(4));
    let config = Config::with_all_properties(None, None, Some(4), None);
    assert_eq!(config.merge_exit_after(Some(9)).exit_after(), Some(9));
}

#[test]
fn site_folder_defaults() {
    let config = Config::with_all_properties(None, None, None, None);
    assert_eq!(config.site_folder(), DEFAULT_SITE_FOLDER);
}

#[test]
fn default_domain_config_has_tls_settings() {
    let d = DomainConfig::default();
    assert_eq!(d.url().as_str(), "http://localhost/");
    assert!(d.external_url().is_none());
    assert_eq!(d.builder_contacts(), Vec::<String>::new());
    assert_eq!(d.poll_attempts(), 3);
    assert_eq!(d.poll_interval_seconds(), 30);
    assert_eq!(d.url_in_use().as_str(), "http://localhost/");
}

#[test]
fn url_in_use_prefers_the_external_url() {
    let d = DomainConfig::with_all_properties(Some(url("https://ext.org")), None, url("http://int.org"));
    assert_eq!(d.url_in_use().as_str(), "https://ext.org/");
}

#[test]
fn try_new_refuses_relative_urls() {
    assert!(DomainConfig::try_new("not a url").is_none());
    assert!(DomainConfig::try_new("http://a.b").is_some());
}

#[test]
fn merged_port_is_the_port_served_on() {
    let plain = Config::with_all_properties(None, None, None, None);
    assert_eq!(plain.merge_port(Some(8080)).unwrap().port(), 8080);
    let plain = Config::with_all_properties(None, None, None, None);
    assert_eq!(plain.merge_port(Some(80)).unwrap().port(), 80);
    let tls = Config::with_all_properties(Some(DomainConfig::new("https://x.org:8443")), None, None, None);
    assert_eq!(tls.merge_port(Some(443)).unwrap().port(), 443);
    let plain = Config::with_all_properties(None, None, None, None);
    assert_eq!(plain.merge_port(None).unwrap().port(), 80);
}
