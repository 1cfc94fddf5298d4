//! Commands: what is accepted, and what is answered.

use mywallpaper_desktop::commands::{
    check_deep_link, check_oauth_url, check_updater_endpoint, deep_links_in_args,
    deep_links_in_payload, get_system_data, opened_in_browser, parse_version,
    subscribe_system_data, validate_categories, validate_deep_link, validate_oauth_url,
    validate_update_version, validate_updater_endpoint,
};
use mywallpaper_desktop::commands_core::get_system_info;
use mywallpaper_desktop::error::{AppError, AppResult};
use mywallpaper_desktop::outside::{ParsedUrl, UrlHost};
use mywallpaper_desktop::system_monitor::{MonitorState, MonitorStep, MASK_CPU, MASK_GPU};

fn validation<T>(r: AppResult<T>) -> String {
    match r {
        Err(AppError::Validation(m)) => m,
        _ => panic!("expected a validation error"),
    }
}

fn strings(v: &[&str]) -> Vec<String> {
    v.iter().map(|s| s.to_string()).collect()
}

fn address(scheme: &str, host: &str) -> ParsedUrl {
    ParsedUrl {
        scheme: scheme.to_string(),
        host_str: Some(host.to_string()),
        host: Some(UrlHost::Domain(host.to_string())),
        path: "/".to_string(),
        text: format!("{}://{}/", scheme, host),
    }
}

#[test]
fn only_known_categories_are_kept() {
    let names = strings(&["cpu", "disk", "CPU", "", "uptime", "cpu", "secrets"]);
    assert_eq!(validate_categories(&names), strings(&["cpu", "disk", "uptime", "cpu"]));
}

#[test]
fn validation_keeps_the_mask() {
    let names = strings(&["gpu", "nonsense", "cpu", "gpu"]);
    assert_eq!(get_system_data(&names), MASK_CPU | MASK_GPU);
}

#[test]
fn subscription_sets_what_is_polled() {
    let mut monitor = MonitorState::new();
    assert!(monitor.start_monitor());
    subscribe_system_data(&mut monitor, &strings(&["gpu", "nonsense"]));
    assert_eq!(monitor.next_step(), MonitorStep::Report { mask: MASK_GPU });
    subscribe_system_data(&mut monitor, &strings(&["nonsense"]));
    assert_eq!(monitor.next_step(), MonitorStep::Idle);
}

#[test]
fn updates_come_from_the_project() {
    let good = "https://github.com/MyWallpapers/client/releases/download/v1/latest.json";
    assert!(validate_updater_endpoint(good).is_ok());
    assert_eq!(validation(validate_updater_endpoint("not a url")), "Invalid endpoint URL");
    assert_eq!(
        validation(validate_updater_endpoint(&good.replace("https", "http"))),
        "Endpoint must use HTTPS"
    );
    assert_eq!(
        validation(validate_updater_endpoint(&good.replace("github.com", "github.com.evil.org"))),
        "Endpoint must be on github.com"
    );
    assert_eq!(
        validation(validate_updater_endpoint(&good.replace("MyWallpapers", "Others"))),
        "Endpoint must point to MyWallpapers/client releases"
    );
}

#[test]
fn dots_in_an_endpoint_are_resolved_before_it_is_judged() {
    let url = "https://github.com/MyWallpapers/client/releases/download/../../../../Others/x";
    assert_eq!(
        validation(validate_updater_endpoint(url)),
        "Endpoint must point to MyWallpapers/client releases"
    );
}

#[test]
fn an_endpoint_that_was_taken_apart_is_judged_by_its_parts() {
    let mut u = address("https", "github.com");
    u.path = "/MyWallpapers/client/releases/download/".to_string();
    assert!(check_updater_endpoint(&Some(u)).is_ok());
    assert_eq!(validation(check_updater_endpoint(&None)), "Invalid endpoint URL");
}

#[test]
fn sign_in_needs_tls_or_this_machine() {
    for good in [
        "https://accounts.example.com/o?x=1",
        "http://localhost:1420/cb",
        "http://127.0.0.1/",
        "http://[::1]:8080/",
        "https://8.8.8.8/",
        "https://[2001:db8::1]/",
    ] {
        assert!(validate_oauth_url(good).is_ok(), "{}", good);
    }
    assert_eq!(validation(validate_oauth_url("::")), "Invalid URL");
    assert_eq!(
        validation(validate_oauth_url("http://example.com/")),
        "HTTP is only allowed for localhost"
    );
    assert_eq!(
        validation(validate_oauth_url("javascript:alert(1)")),
        "URL must use https:// (or http:// for localhost)"
    );
}

#[test]
fn sign_in_keeps_out_of_internal_networks() {
    for bad in [
        "https://10.1.2.3/",
        "https://172.16.0.1/",
        "https://172.31.255.255/",
        "https://192.168.1.1/",
        "https://127.0.0.1/",
        "https://169.254.169.254/",
        "https://0.0.0.0/",
        "https://[::1]/",
        "https://[::]/",
        "https://[fc00::1]/",
        "https://[fdff::1]/",
        "https://[fe80::1]/",
        "https://[febf::1]/",
        "https://[::ffff:10.0.0.1]/",
        "https://[::ffff:192.168.0.1]/",
    ] {
        assert_eq!(
            validation(validate_oauth_url(bad)),
            "HTTPS to private/internal IPs is not allowed",
            "{}",
            bad
        );
    }
    for good in [
        "https://172.15.0.1/",
        "https://172.32.0.1/",
        "https://192.169.0.1/",
        "https://169.253.0.1/",
        "https://[fe00::1]/",
        "https://[fec0::1]/",
        "https://[fbff::1]/",
        "https://[::ffff:8.8.8.8]/",
    ] {
        assert!(validate_oauth_url(good).is_ok(), "{}", good);
    }
}

#[test]
fn internal_addresses_are_those_of_the_standard_library() {
    for a in 0..=255u8 {
        for b in 0..=255u8 {
            let url = url::Url::parse(&format!("https://{}.{}.0.0/", a, b)).unwrap();
            let ip = match url.host() {
                Some(url::Host::Ipv4(ip)) => ip,
                _ => panic!("expected a number"),
            };
            let internal = ip.is_private() || ip.is_loopback() || ip.is_link_local()
                || ip.is_unspecified();
            for host in [UrlHost::Ipv4(ip.octets()), UrlHost::Ipv6(ip.to_ipv6_mapped().segments())]
            {
                let u = ParsedUrl { host: Some(host), ..address("https", "x") };
                assert_eq!(check_oauth_url(&Some(u)).is_err(), internal, "{}", ip);
            }
        }
    }
}

#[test]
fn the_browser_reports_failure() {
    assert!(opened_in_browser(Ok(())).is_ok());
    match opened_in_browser(Err("no browser".to_string())) {
        Err(AppError::OAuth(m)) => assert_eq!(m, "Failed to open browser: no browser"),
        _ => panic!("expected a sign-in error"),
    }
}

#[test]
fn versions_are_read() {
    assert_eq!(parse_version("1.2.3").unwrap(), (1, 2, 3));
    assert_eq!(parse_version("v1.2.3").unwrap(), (1, 2, 3));
    assert_eq!(parse_version("vv1.2.3-beta.1-x").unwrap(), (1, 2, 3));
    assert_eq!(parse_version("+1.2.3").unwrap(), (1, 2, 3));
    assert_eq!(validation(parse_version("v1.2")), "Invalid version: 1.2");
    assert_eq!(validation(parse_version("")), "Invalid version: ");
    assert_eq!(validation(parse_version("1.2.3.4-x")), "Invalid version: 1.2.3.4");
    assert_eq!(validation(parse_version("x.2.3")), "bad major");
    assert_eq!(validation(parse_version("1..3")), "bad minor");
    assert_eq!(validation(parse_version("1.2.4294967296")), "bad patch");
}

#[test]
fn updates_do_not_lead_back() {
    assert!(validate_update_version("1.2.3", "1.2.3").is_ok());
    assert!(validate_update_version("1.2.3", "v1.2.4").is_ok());
    assert!(validate_update_version("1.2.3", "1.10.0").is_ok());
    assert!(validate_update_version("1.2.3", "2.0.0").is_ok());
    assert_eq!(
        validation(validate_update_version("1.2.3", "1.2.2")),
        "Refusing downgrade from 1.2.3 to 1.2.2"
    );
    assert_eq!(
        validation(validate_update_version("2.0.0", "v1.9.9")),
        "Refusing downgrade from 2.0.0 to v1.9.9"
    );
    // The candidate is read first.
    assert_eq!(validation(validate_update_version("x", "y")), "Invalid version: y");
    assert_eq!(validation(validate_update_version("x", "1.0.0")), "Invalid version: x");
}

#[test]
fn accepted_updates_compose() {
    let versions = ["1.0.0", "1.0.1", "v1.1.0", "1.1.0-rc", "2.0.0"];
    for a in versions {
        for b in versions {
            let ab = validate_update_version(a, b).is_ok();
            let ba = validate_update_version(b, a).is_ok();
            assert!(ab || ba);
            assert_eq!(ab && ba, parse_version(a).unwrap() == parse_version(b).unwrap());
            for c in versions {
                if ab && validate_update_version(b, c).is_ok() {
                    assert!(validate_update_version(a, c).is_ok());
                }
            }
        }
    }
}

#[test]
fn deep_links_name_allowed_actions() {
    for action in ["callback", "auth", "oauth", "login", "app"] {
        let link = format!("mywallpaper://{}/x?y=1", action);
        assert_eq!(validate_deep_link(&link), Some(link));
    }
    assert_eq!(validate_deep_link("mywallpaper://evil/x"), None);
    assert_eq!(validate_deep_link("https://callback/"), None);
    assert_eq!(validate_deep_link("no link"), None);
    assert_eq!(validate_deep_link("mywallpaper:x"), Some("mywallpaper:x".to_string()));
    assert_eq!(validate_deep_link("mywallpaper:///x"), Some("mywallpaper:///x".to_string()));
    // The answer is the address in its normal form.
    assert_eq!(
        validate_deep_link("MyWallpaper://callback/a b"),
        Some("mywallpaper://callback/a%20b".to_string())
    );
}

#[test]
fn a_deep_link_that_was_taken_apart_is_judged_by_its_parts() {
    assert_eq!(check_deep_link(None), None);
    assert_eq!(
        check_deep_link(Some(address("mywallpaper", "login"))),
        Some("mywallpaper://login/".to_string())
    );
    assert_eq!(check_deep_link(Some(address("mywallpaper", "shell"))), None);
    let nowhere = ParsedUrl { host_str: Some(String::new()), ..address("mywallpaper", "x") };
    assert_eq!(check_deep_link(Some(nowhere)), Some("mywallpaper://x/".to_string()));
}

#[test]
fn deep_links_are_picked_out_in_order() {
    let args = strings(&["app.exe", "mywallpaper://auth/1", "--minimized", "mywallpaper://app/2"]);
    let links = strings(&["mywallpaper://auth/1", "mywallpaper://app/2"]);
    assert_eq!(deep_links_in_args(&args), links);
    let payload = "[\"mywallpaper://auth/1\", \"https://x/\", \"mywallpaper://app/2\"]";
    assert_eq!(deep_links_in_payload(payload), links);
    assert_eq!(deep_links_in_payload("{}"), Vec::<String>::new());
    assert_eq!(deep_links_in_payload("[1]"), Vec::<String>::new());
}

#[test]
fn system_info_is_handed_on() {
    let info = get_system_info(
        "linux".to_string(),
        "6.1".to_string(),
        "x86_64".to_string(),
        "1.0.0".to_string(),
        "2.0.0".to_string(),
    );
    assert_eq!(info.os, "linux");
    assert_eq!(info.os_version, "6.1");
    assert_eq!(info.arch, "x86_64");
    assert_eq!(info.app_version, "1.0.0");
    assert_eq!(info.tauri_version, "2.0.0");
}
