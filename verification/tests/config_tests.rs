use pali_terminal::config::Config;

#[test]
fn test_default_config() {
    let config = Config::default();
    assert_eq!(config.api_endpoint, "http://localhost:8787");
    assert_eq!(config.api_key, None);
}

#[test]
fn test_set_endpoint() {
    let mut config = Config::default();
    config.set_endpoint("https://new-api.com".to_string());
    assert_eq!(config.api_endpoint, "https://new-api.com");
}

#[test]
fn test_set_api_key() {
    let mut config = Config::default();
    config.set_api_key("new-key".to_string());
    assert_eq!(config.api_key, Some("new-key".to_string()));
}

#[test]
fn test_build_url() {
    let config = Config {
        api_endpoint: "http://localhost:8787".to_string(),
        api_key: None,
    };
    assert_eq!(config.build_url("/todos"), "http://localhost:8787/todos");
}

#[test]
fn test_build_url_strips_trailing_slash() {
    let config = Config {
        api_endpoint: "http://localhost:8787/".to_string(),
        api_key: None,
    };
    assert_eq!(config.build_url("/todos"), "http://localhost:8787/todos");
}

#[test]
fn test_build_url_with_different_paths() {
    let config = Config {
        api_endpoint: "https://api.example.com".to_string(),
        api_key: Some("test-key".to_string()),
    };
    assert_eq!(config.build_url("/todos"), "https://api.example.com/todos");
    assert_eq!(config.build_url("/keys"), "https://api.example.com/keys");
    assert_eq!(config.build_url("/todos/123"), "https://api.example.com/todos/123");
}
