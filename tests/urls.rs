use monochrome_bridge::source_url::{
    check_external_url, has_prefix, source_url_from_config, validate_source_url, UrlError,
    DEFAULT_SOURCE_URL,
};

#[test]
fn source_url_is_trimmed_and_serialized() {
    assert_eq!(validate_source_url("  https://example.com  ").unwrap(), "https://example.com/");
    assert_eq!(
        validate_source_url("https://Example.COM/a/../b?q=1").unwrap(),
        "https://example.com/b?q=1"
    );
}

#[test]
fn source_url_must_use_https() {
    assert_eq!(validate_source_url("http://example.com").unwrap_err(), UrlError::NotHttps);
    assert_eq!(validate_source_url("").unwrap_err(), UrlError::NotHttps);
    assert_eq!(UrlError::NotHttps.message(), "Only HTTPS URLs are allowed");
}

#[test]
fn unparsable_source_url_is_invalid() {
    let e = validate_source_url("https://").unwrap_err();
    assert_eq!(e, UrlError::Invalid("empty host".to_string()));
    assert_eq!(e.message(), "Invalid URL: empty host");
}

#[test]
fn external_urls_by_scheme() {
    assert_eq!(check_external_url(" https://a.b/c ").unwrap(), "https://a.b/c");
    assert_eq!(check_external_url("http://a.b").unwrap(), "http://a.b");
    assert_eq!(check_external_url("mailto:x@y.z").unwrap(), "mailto:x@y.z");
    assert_eq!(check_external_url("\ttel:123\n").unwrap(), "tel:123");
    assert_eq!(check_external_url("ftp://a.b").unwrap_err(), UrlError::UnsupportedScheme);
    assert_eq!(check_external_url("javascript:alert(1)").unwrap_err(), UrlError::UnsupportedScheme);
    assert_eq!(UrlError::UnsupportedScheme.message(), "unsupported url scheme");
}

#[test]
fn configured_source_url_or_default() {
    assert_eq!(DEFAULT_SOURCE_URL, "https://monochrome.samidy.com");
    assert_eq!(source_url_from_config(None), DEFAULT_SOURCE_URL);
    assert_eq!(source_url_from_config(Some(" \n\t".to_string())), DEFAULT_SOURCE_URL);
    assert_eq!(
        source_url_from_config(Some("  https://mirror.example/\n".to_string())),
        "https://mirror.example/"
    );
}

#[test]
fn prefix_check() {
    assert!(has_prefix("https://x", "https://"));
    assert!(has_prefix("abc", ""));
    assert!(!has_prefix("http", "https"));
    assert!(!has_prefix("xhttps://", "https://"));
}
