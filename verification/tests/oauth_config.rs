use pdp::server::config::oauth::OAuthConfig;

#[test]
fn test_default_oauth_config() {
    let config = OAuthConfig::default();
    assert!(config.enabled);
    assert_eq!(config.token_ttl, 3600);
    assert_eq!(config.permit_api_url, "https://api.permit.io");
    assert_eq!(config.resource_types, "documents,cars");
    assert_eq!(config.issuer, "permit-pdp");
}

#[test]
fn test_get_resource_types() {
    let config = OAuthConfig {
        resource_types: "documents,cars,files".to_string(),
        ..Default::default()
    };
    let types = config.get_resource_types();
    assert_eq!(types, vec!["documents", "cars", "files"]);
}

#[test]
fn test_get_resource_types_with_spaces() {
    let config = OAuthConfig {
        resource_types: " documents , cars , files ".to_string(),
        ..Default::default()
    };
    let types = config.get_resource_types();
    assert_eq!(types, vec!["documents", "cars", "files"]);
}

#[test]
fn test_get_resource_types_empty() {
    let config = OAuthConfig {
        resource_types: "".to_string(),
        ..Default::default()
    };
    let types = config.get_resource_types();
    assert!(types.is_empty());
}

#[test]
fn resource_types_skip_empty_items_and_trim_unicode_space() {
    let config = OAuthConfig {
        resource_types: ",,documents,\u{3000}cars\t,  ,".to_string(),
        ..Default::default()
    };
    assert_eq!(config.get_resource_types(), vec!["documents", "cars"]);
}
