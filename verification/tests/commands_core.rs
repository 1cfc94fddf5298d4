//! Checks that need no platform.

use mywallpaper_desktop::commands_core::validate_oauth_url;

#[test]
fn test_validate_oauth_url() {
    assert!(validate_oauth_url("https://example.com").is_ok());
    assert!(validate_oauth_url("http://example.com").is_ok());
    assert!(validate_oauth_url("ftp://example.com").is_err());
    assert!(validate_oauth_url("javascript:alert(1)").is_err());
}
