//! Commands of the frontend: what they accept, and what they answer.

use vstd::prelude::*;
use vstd::string::*;

pub use crate::commands_core::{SystemInfo, UpdateInfo};
use crate::error;
use crate::error::{invalid, AppError, AppResult};
use crate::outside;
use crate::outside::{parse_json_strings, parse_url, ParsedUrl, UrlHost};
use crate::system_monitor;
use crate::system_monitor::MonitorState;
use crate::text;
use crate::text::{is_one_of, parse_u32, same_text, split_at_char, starts_with, trim_start, Trim};

verus! {

/// The result is `Ok` where there is no fault, and the fault where there is one.
pub open spec fn verdict(r: AppResult<()>, fault: Option<error::ErrorView>) -> bool {
    match fault {
        None => r is Ok,
        Some(e) => error::fails_with(r, e),
    }
}

/// A category of system data that widgets can ask for.
pub open spec fn is_category(name: Seq<char>) -> bool {
    ||| name == "cpu"@
    ||| name == "memory"@
    ||| name == "battery"@
    ||| name == "disk"@
    ||| name == "network"@
    ||| name == "media"@
    ||| name == "gpu"@
    ||| name == "display"@
    ||| name == "audio"@
    ||| name == "uptime"@
}

fn is_valid_category(name: &str) -> (r: bool)
    ensures
        r == is_category(name@),
{
    let options: [&str; 10] = [
        "cpu",
        "memory",
        "battery",
        "disk",
        "network",
        "media",
        "gpu",
        "display",
        "audio",
        "uptime",
    ];
    let found = is_one_of(name, &options);
    proof {
        assert(options@[0]@ == "cpu"@);
        assert(options@[1]@ == "memory"@);
        assert(options@[2]@ == "battery"@);
        assert(options@[3]@ == "disk"@);
        assert(options@[4]@ == "network"@);
        assert(options@[5]@ == "media"@);
        assert(options@[6]@ == "gpu"@);
        assert(options@[7]@ == "display"@);
        assert(options@[8]@ == "audio"@);
        assert(options@[9]@ == "uptime"@);
    }
    found
}

/// Keeps the names that are categories, in their order.
pub fn validate_categories(categories: &[String]) -> (r: Vec<String>)
    ensures
        r@ == categories@.filter(|s: String| is_category(s@)),
{
    let ghost p = |s: String| is_category(s@);
    let mut out: Vec<String> = Vec::new();
    let mut i: usize = 0;
    reveal(Seq::filter);
    assert(categories@.take(0).filter(p) =~= Seq::empty());
    while i < categories.len()
        invariant
            i <= categories@.len(),
            p == (|s: String| is_category(s@)),
            out@ == categories@.take(i as int).filter(p),
        decreases categories@.len() - i,
    {
        assert(categories@.take(i + 1).drop_last() =~= categories@.take(i as int));
        assert(categories@.take(i + 1).last() == categories@[i as int]);
        reveal(Seq::filter);
        if is_valid_category(categories[i].as_str()) {
            out.push(categories[i].clone());
        }
        i += 1;
    }
    assert(categories@.take(i as int) =~= categories@);
    out
}

/// What is wrong with an address that updates are to be fetched from.
pub open spec fn endpoint_fault(u: Option<outside::UrlView>) -> Option<error::ErrorView> {
    match u {
        None => Some(error::ErrorView::Validation("Invalid endpoint URL"@)),
        Some(u) => if u.scheme != "https"@ {
            Some(error::ErrorView::Validation("Endpoint must use HTTPS"@))
        } else if u.host_str != Some("github.com"@) {
            Some(error::ErrorView::Validation("Endpoint must be on github.com"@))
        } else if !text::begins_with(u.path, "/MyWallpapers/client/releases/download/"@) {
            Some(
                error::ErrorView::Validation(
                    "Endpoint must point to MyWallpapers/client releases"@,
                ),
            )
        } else {
            None
        },
    }
}

/// The view of an address that may have been refused.
pub open spec fn parsed_view(u: Option<ParsedUrl>) -> Option<outside::UrlView> {
    match u {
        Some(u) => Some(u@),
        None => None,
    }
}

fn host_is(host: &Option<String>, expected: &str) -> (r: bool)
    ensures
        r <==> (host matches Some(h) && h@ == expected@),
{
    match host {
        Some(h) => same_text(h.as_str(), expected),
        None => false,
    }
}

/// Checks an address that updates are to be fetched from, once it has been taken apart.
pub fn check_updater_endpoint(parsed: &Option<ParsedUrl>) -> (r: AppResult<()>)
    ensures
        verdict(r, endpoint_fault(parsed_view(*parsed))),
{
    let u = match parsed {
        Some(u) => u,
        None => return invalid("Invalid endpoint URL"),
    };
    if !same_text(u.scheme.as_str(), "https") {
        return invalid("Endpoint must use HTTPS");
    }
    if !host_is(&u.host_str, "github.com") {
        return invalid("Endpoint must be on github.com");
    }
    if !starts_with(u.path.as_str(), "/MyWallpapers/client/releases/download/") {
        return invalid("Endpoint must point to MyWallpapers/client releases");
    }
    Ok(())
}

/// Accepts an address that updates are fetched from: this project's releases, and no others.
pub fn validate_updater_endpoint(url: &str) -> (r: AppResult<()>)
    ensures
        verdict(r, endpoint_fault(outside::url_parts(url@))),
{
    let parsed: Option<ParsedUrl> = match parse_url(url) {
        Ok(u) => Some(u),
        Err(_) => None,
    };
    check_updater_endpoint(&parsed)
}

/// An address that updates are fetched from is one of this project's releases, over TLS.
pub proof fn lemma_accepted_endpoint(u: outside::UrlView)
    ensures
        endpoint_fault(Some(u)) is None <==> {
            &&& u.scheme == "https"@
            &&& u.host_str == Some("github.com"@)
            &&& text::begins_with(u.path, "/MyWallpapers/client/releases/download/"@)
        },
{
}

/// An IPv4 address that is not of the public network: private, loopback, link-local or
/// unspecified.
pub open spec fn ipv4_internal(ip: Seq<u8>) -> bool {
    ||| ip[0] == 10
    ||| ip[0] == 172 && 16 <= ip[1] <= 31
    ||| ip[0] == 192 && ip[1] == 168
    ||| ip[0] == 127
    ||| ip[0] == 169 && ip[1] == 254
    ||| ip == seq![0u8, 0, 0, 0]
}

/// An IPv6 address that stands for an IPv4 address.
pub open spec fn is_ipv4_mapped(ip: Seq<u16>) -> bool {
    ip.take(6) == seq![0u16, 0, 0, 0, 0, 0xffff]
}

/// The IPv4 address that an IPv6 address stands for.
pub open spec fn mapped_ipv4(ip: Seq<u16>) -> Seq<u8> {
    seq![(ip[6] / 256) as u8, (ip[6] % 256) as u8, (ip[7] / 256) as u8, (ip[7] % 256) as u8]
}

/// An IPv6 address that is not of the public network: loopback, unspecified, unique local,
/// link-local, or one that stands for such an IPv4 address.
pub open spec fn ipv6_internal(ip: Seq<u16>) -> bool {
    ||| ip == seq![0u16, 0, 0, 0, 0, 0, 0, 1]
    ||| ip == seq![0u16, 0, 0, 0, 0, 0, 0, 0]
    ||| 0xfc00 <= ip[0] <= 0xfdff
    ||| 0xfe80 <= ip[0] <= 0xfebf
    ||| is_ipv4_mapped(ip) && ipv4_internal(mapped_ipv4(ip))
}

fn is_internal_ipv4(ip: &[u8; 4]) -> (r: bool)
    ensures
        r == ipv4_internal(ip@),
{
    assert((ip@ =~= seq![0u8, 0, 0, 0]) <==> ip@[0] == 0 && ip@[1] == 0 && ip@[2] == 0 && ip@[3]
        == 0);
    ip[0] == 10 || (ip[0] == 172 && 16 <= ip[1] && ip[1] <= 31) || (ip[0] == 192 && ip[1] == 168)
        || ip[0] == 127 || (ip[0] == 169 && ip[1] == 254) || (ip[0] == 0 && ip[1] == 0 && ip[2] == 0
        && ip[3] == 0)
}

fn is_internal_ipv6(ip: &[u16; 8]) -> (r: bool)
    ensures
        r == ipv6_internal(ip@),
{
    assert((ip@ =~= seq![0u16, 0, 0, 0, 0, 0, 0, 1]) <==> ip@[0] == 0 && ip@[1] == 0 && ip@[2] == 0
        && ip@[3] == 0 && ip@[4] == 0 && ip@[5] == 0 && ip@[6] == 0 && ip@[7] == 1);
    assert((ip@ =~= seq![0u16, 0, 0, 0, 0, 0, 0, 0]) <==> ip@[0] == 0 && ip@[1] == 0 && ip@[2] == 0
        && ip@[3] == 0 && ip@[4] == 0 && ip@[5] == 0 && ip@[6] == 0 && ip@[7] == 0);
    assert((ip@.take(6) =~= seq![0u16, 0, 0, 0, 0, 0xffff]) <==> ip@[0] == 0 && ip@[1] == 0
        && ip@[2] == 0 && ip@[3] == 0 && ip@[4] == 0 && ip@[5] == 0xffff);
    let low_zero = ip[0] == 0 && ip[1] == 0 && ip[2] == 0 && ip[3] == 0 && ip[4] == 0;
    if low_zero && ip[5] == 0 && ip[6] == 0 && (ip[7] == 0 || ip[7] == 1) {
        return true;
    }
    if (0xfc00 <= ip[0] && ip[0] <= 0xfdff) || (0xfe80 <= ip[0] && ip[0] <= 0xfebf) {
        return true;
    }
    if low_zero && ip[5] == 0xffff {
        let v4: [u8; 4] = [
            (ip[6] / 256) as u8,
            (ip[6] % 256) as u8,
            (ip[7] / 256) as u8,
            (ip[7] % 256) as u8,
        ];
        assert(v4@ =~= mapped_ipv4(ip@));
        return is_internal_ipv4(&v4);
    }
    false
}

/// A host that has a number of the internal network.
pub open spec fn host_internal(host: Option<outside::HostView>) -> bool {
    match host {
        Some(outside::HostView::Ipv4(ip)) => ipv4_internal(ip),
        Some(outside::HostView::Ipv6(ip)) => ipv6_internal(ip),
        _ => false,
    }
}

/// This machine, as the host of a plain address.
pub open spec fn is_local_name(host: Option<Seq<char>>) -> bool {
    ||| host == Some("localhost"@)
    ||| host == Some("127.0.0.1"@)
    ||| host == Some("[::1]"@)
}

/// What is wrong with an address for signing in.
pub open spec fn oauth_fault(u: Option<outside::UrlView>) -> Option<error::ErrorView> {
    match u {
        None => Some(error::ErrorView::Validation("Invalid URL"@)),
        Some(u) => if u.scheme == "https"@ {
            if host_internal(u.host) {
                Some(
                    error::ErrorView::Validation("HTTPS to private/internal IPs is not allowed"@),
                )
            } else {
                None
            }
        } else if u.scheme == "http"@ {
            if is_local_name(u.host_str) {
                None
            } else {
                Some(error::ErrorView::Validation("HTTP is only allowed for localhost"@))
            }
        } else {
            Some(
                error::ErrorView::Validation("URL must use https:// (or http:// for localhost)"@),
            )
        },
    }
}

/// Checks an address for signing in, once it has been taken apart.
pub fn check_oauth_url(parsed: &Option<ParsedUrl>) -> (r: AppResult<()>)
    ensures
        verdict(r, oauth_fault(parsed_view(*parsed))),
{
    let u = match parsed {
        Some(u) => u,
        None => return invalid("Invalid URL"),
    };
    proof {
        reveal_strlit("https");
        reveal_strlit("http");
        assert("https"@.len() != "http"@.len());
    }
    if same_text(u.scheme.as_str(), "http") {
        if host_is(&u.host_str, "localhost") || host_is(&u.host_str, "127.0.0.1") || host_is(
            &u.host_str,
            "[::1]",
        ) {
            return Ok(());
        }
        return invalid("HTTP is only allowed for localhost");
    }
    if !same_text(u.scheme.as_str(), "https") {
        return invalid("URL must use https:// (or http:// for localhost)");
    }
    let internal = match &u.host {
        Some(UrlHost::Ipv4(ip)) => is_internal_ipv4(ip),
        Some(UrlHost::Ipv6(ip)) => is_internal_ipv6(ip),
        Some(UrlHost::Domain(_)) => false,
        None => false,
    };
    if internal {
        return invalid("HTTPS to private/internal IPs is not allowed");
    }
    Ok(())
}

/// Accepts an address for signing in: over TLS to the public network, or to this machine.
pub fn validate_oauth_url(url_str: &str) -> (r: AppResult<()>)
    ensures
        verdict(r, oauth_fault(outside::url_parts(url_str@))),
{
    let parsed: Option<ParsedUrl> = match parse_url(url_str) {
        Ok(u) => Some(u),
        Err(_) => None,
    };
    check_oauth_url(&parsed)
}

/// Reports what came of opening an accepted address in the browser.
pub fn opened_in_browser(opened: Result<(), String>) -> (r: AppResult<()>)
    ensures
        match opened {
            Ok(_) => r is Ok,
            Err(e) => error::fails_with(
                r,
                error::ErrorView::OAuth("Failed to open browser: "@ + e@),
            ),
        },
{
    match opened {
        Ok(_) => Ok(()),
        Err(e) => {
            let mut message = "Failed to open browser: ".to_owned();
            message.append(e.as_str());
            Err(AppError::OAuth(message))
        },
    }
}

/// An IPv4 address is judged in the same way when it is written as an IPv6 address.
pub proof fn lemma_mapped_address_is_judged_alike(v4: Seq<u8>, v6: Seq<u16>)
    requires
        v4.len() == 4 && v6.len() == 8,
        is_ipv4_mapped(v6),
        v6[6] == 256 * v4[0] + v4[1],
        v6[7] == 256 * v4[2] + v4[3],
    ensures
        ipv6_internal(v6) <==> ipv4_internal(v4),
{
    assert(v6[0] == v6.take(6)[0]);
    assert(v6[5] == v6.take(6)[5]);
    assert(mapped_ipv4(v6) =~= v4);
    assert(v6 != seq![0u16, 0, 0, 0, 0, 0, 0, 1]);
    assert(v6 != seq![0u16, 0, 0, 0, 0, 0, 0, 0]);
}

/// An address that is accepted for signing in uses TLS, and then no internal address, or it stays
/// on this machine.
pub proof fn lemma_accepted_oauth_url(u: outside::UrlView)
    ensures
        oauth_fault(Some(u)) is None <==> {
            ||| u.scheme == "https"@ && !host_internal(u.host)
            ||| u.scheme == "http"@ && is_local_name(u.host_str)
        },
{
    reveal_strlit("https");
    reveal_strlit("http");
    assert("https"@.len() != "http"@.len());
}

/// A version: major, minor and patch number.
pub type Version = (u32, u32, u32);

/// The part of a version text that counts: without `v`s in front, and without what follows the
/// first hyphen.
pub open spec fn version_core(s: Seq<char>) -> Seq<char> {
    text::split(text::trimmed_start(s, |c: char| Trim::Only { c: 'v' }.takes(c)), '-')[0]
}

/// The version that a text stands for, or what is wrong with it.
pub open spec fn version_of(s: Seq<char>) -> Result<Version, error::ErrorView> {
    let core = version_core(s);
    let parts = text::split(core, '.');
    if parts.len() != 3 {
        Err(error::ErrorView::Validation("Invalid version: "@ + core))
    } else if text::parsed_u32(parts[0]) is None {
        Err(error::ErrorView::Validation("bad major"@))
    } else if text::parsed_u32(parts[1]) is None {
        Err(error::ErrorView::Validation("bad minor"@))
    } else if text::parsed_u32(parts[2]) is None {
        Err(error::ErrorView::Validation("bad patch"@))
    } else {
        Ok(
            (
                text::parsed_u32(parts[0])->0,
                text::parsed_u32(parts[1])->0,
                text::parsed_u32(parts[2])->0,
            ),
        )
    }
}

/// `a` comes before `b`.
pub open spec fn older(a: Version, b: Version) -> bool {
    a.0 < b.0 || (a.0 == b.0 && (a.1 < b.1 || (a.1 == b.1 && a.2 < b.2)))
}

/// What is wrong with a candidate for an update of the current version.
pub open spec fn update_fault(current: Seq<char>, candidate: Seq<char>) -> Option<
    error::ErrorView,
> {
    match (version_of(candidate), version_of(current)) {
        (Err(e), _) => Some(e),
        (Ok(_), Err(e)) => Some(e),
        (Ok(new), Ok(now)) => if older(new, now) {
            Some(
                error::ErrorView::Validation(
                    "Refusing downgrade from "@ + current + " to "@ + candidate,
                ),
            )
        } else {
            None
        },
    }
}

/// Reads a version.
pub fn parse_version(s: &str) -> (r: AppResult<Version>)
    ensures
        match version_of(s@) {
            Ok(v) => r == Ok::<Version, AppError>(v),
            Err(e) => error::fails_with(r, e),
        },
{
    let bare = trim_start(s, Trim::Only { c: 'v' });
    let cut = split_at_char(bare, '-');
    assert(text::views(cut@)[0] == cut@[0]@);
    let core = cut[0];
    let parts = split_at_char(core, '.');
    assert(text::views(parts@).len() == parts@.len());
    if parts.len() != 3 {
        let mut message = "Invalid version: ".to_owned();
        message.append(core);
        return Err(AppError::Validation(message));
    }
    assert(text::views(parts@)[0] == parts@[0]@);
    assert(text::views(parts@)[1] == parts@[1]@);
    assert(text::views(parts@)[2] == parts@[2]@);
    let major: u32 = match parse_u32(parts[0]) {
        Some(n) => n,
        None => return invalid("bad major"),
    };
    let minor: u32 = match parse_u32(parts[1]) {
        Some(n) => n,
        None => return invalid("bad minor"),
    };
    let patch: u32 = match parse_u32(parts[2]) {
        Some(n) => n,
        None => return invalid("bad patch"),
    };
    Ok((major, minor, patch))
}

/// Accepts a candidate for an update that is no older than the current version.
pub fn validate_update_version(current: &str, candidate: &str) -> (r: AppResult<()>)
    ensures
        verdict(r, update_fault(current@, candidate@)),
{
    let new: Version = match parse_version(candidate) {
        Ok(v) => v,
        Err(e) => return Err(e),
    };
    let now: Version = match parse_version(current) {
        Ok(v) => v,
        Err(e) => return Err(e),
    };
    let downgrade = new.0 < now.0 || (new.0 == now.0 && (new.1 < now.1 || (new.1 == now.1 && new.2
        < now.2)));
    if downgrade {
        let mut message = "Refusing downgrade from ".to_owned();
        message.append(current);
        message.append(" to ");
        message.append(candidate);
        return Err(AppError::Validation(message));
    }
    Ok(())
}

/// A version is accepted as an update of itself.
pub proof fn lemma_same_version_is_accepted(v: Seq<char>)
    requires
        version_of(v) is Ok,
    ensures
        update_fault(v, v) is None,
{
}

/// Updates never lead back: where each of two updates is accepted, so is the step over both.
pub proof fn lemma_updates_compose(a: Seq<char>, b: Seq<char>, c: Seq<char>)
    requires
        update_fault(a, b) is None,
        update_fault(b, c) is None,
    ensures
        update_fault(a, c) is None,
{
}

/// Of two versions that can be read, at least one is accepted as an update of the other, and both
/// are only where they have the same numbers.
pub proof fn lemma_versions_are_ordered(a: Seq<char>, b: Seq<char>)
    requires
        version_of(a) is Ok && version_of(b) is Ok,
    ensures
        update_fault(a, b) is None || update_fault(b, a) is None,
        (update_fault(a, b) is None && update_fault(b, a) is None) <==> version_of(a) == version_of(
            b,
        ),
{
}

/// An action that a deep link may name.
pub open spec fn is_deep_link_action(host: Seq<char>) -> bool {
    ||| host == "callback"@
    ||| host == "auth"@
    ||| host == "oauth"@
    ||| host == "login"@
    ||| host == "app"@
}

/// The deep link that an address is, if it is one: of the application's own scheme, and naming an
/// allowed action where it names one.
pub open spec fn deep_link_of(u: Option<outside::UrlView>) -> Option<Seq<char>> {
    match u {
        None => None,
        Some(u) => if u.scheme != "mywallpaper"@ {
            None
        } else {
            match u.host_str {
                Some(host) => if host.len() > 0 && !is_deep_link_action(host) {
                    None
                } else {
                    Some(u.text)
                },
                None => Some(u.text),
            }
        },
    }
}

fn is_allowed_action(host: &str) -> (r: bool)
    ensures
        r == is_deep_link_action(host@),
{
    let options: [&str; 5] = ["callback", "auth", "oauth", "login", "app"];
    let found = is_one_of(host, &options);
    proof {
        assert(options@[0]@ == "callback"@);
        assert(options@[1]@ == "auth"@);
        assert(options@[2]@ == "oauth"@);
        assert(options@[3]@ == "login"@);
        assert(options@[4]@ == "app"@);
    }
    found
}

/// Checks an address for being a deep link, once it has been taken apart.
pub fn check_deep_link(parsed: Option<ParsedUrl>) -> (r: Option<String>)
    ensures
        text::string_view(r) == deep_link_of(parsed_view(parsed)),
{
    let u = match parsed {
        Some(u) => u,
        None => return None,
    };
    if !same_text(u.scheme.as_str(), "mywallpaper") {
        return None;
    }
    if let Some(host) = &u.host_str {
        if !host.as_str().is_empty() && !is_allowed_action(host.as_str()) {
            return None;
        }
    }
    Some(u.text)
}

/// The normalised form of a deep link, if the text is one. It begins with the application's
/// scheme.
pub fn validate_deep_link(raw: &str) -> (r: Option<String>)
    ensures
        text::string_view(r) == deep_link_of(outside::url_parts(raw@)),
        r matches Some(link) ==> text::begins_with(link@, "mywallpaper:"@),
{
    let u = match parse_url(raw) {
        Ok(u) => u,
        Err(_) => return None,
    };
    proof {
        reveal_strlit("mywallpaper");
        reveal_strlit("mywallpaper:");
        assert("mywallpaper"@.push(':') =~= "mywallpaper:"@);
    }
    check_deep_link(Some(u))
}

/// The deep links among several texts, in their order.
pub open spec fn deep_links(texts: Seq<Seq<char>>) -> Seq<Seq<char>>
    decreases texts.len(),
{
    if texts.len() == 0 {
        Seq::empty()
    } else {
        let before = deep_links(texts.drop_last());
        match deep_link_of(outside::url_parts(texts.last())) {
            Some(link) => before.push(link),
            None => before,
        }
    }
}

/// Picks the deep links out of the arguments that the application was started with again.
pub fn deep_links_in_args(args: &[String]) -> (r: Vec<String>)
    ensures
        text::string_views(r@) == deep_links(text::string_views(args@)),
{
    let ghost texts = text::string_views(args@);
    let mut out: Vec<String> = Vec::new();
    let mut i: usize = 0;
    assert(text::string_views(out@) =~= deep_links(texts.take(0)));
    while i < args.len()
        invariant
            i <= args@.len(),
            texts == text::string_views(args@),
            text::string_views(out@) =~= deep_links(texts.take(i as int)),
        decreases args@.len() - i,
    {
        assert(texts.take(i + 1).drop_last() =~= texts.take(i as int));
        assert(texts.take(i + 1).last() == args@[i as int]@);
        if let Some(link) = validate_deep_link(args[i].as_str()) {
            let ghost old_out = out@;
            out.push(link);
            assert(text::string_views(out@) =~= text::string_views(old_out).push(link@));
        }
        i += 1;
    }
    assert(texts.take(i as int) =~= texts);
    out
}

/// Picks the deep links out of an event payload, which is a JSON array of strings. A payload that
/// is none holds no deep links.
pub fn deep_links_in_payload(payload: &str) -> (r: Vec<String>)
    ensures
        match outside::json_strings(payload@) {
            Some(texts) => text::string_views(r@) == deep_links(texts),
            None => r@.len() == 0,
        },
{
    match parse_json_strings(payload) {
        Ok(urls) => deep_links_in_args(urls.as_slice()),
        Err(_) => Vec::new(),
    }
}

/// Validating category names takes away only names that ask for nothing.
pub proof fn lemma_validation_keeps_the_mask(names: Seq<String>)
    ensures
        system_monitor::categories_mask(
            text::string_views(names.filter(|s: String| is_category(s@))),
        ) == system_monitor::categories_mask(text::string_views(names)),
    decreases names.len(),
{
    let p = |s: String| is_category(s@);
    reveal(Seq::filter);
    if names.len() > 0 {
        lemma_validation_keeps_the_mask(names.drop_last());
        let all = text::string_views(names);
        assert(all.drop_last() =~= text::string_views(names.drop_last()));
        assert(all.last() == names.last()@);
        let kept = names.drop_last().filter(p);
        if p(names.last()) {
            let more = text::string_views(kept.push(names.last()));
            assert(more.drop_last() =~= text::string_views(kept));
            assert(more.last() == names.last()@);
        } else {
            let before = system_monitor::categories_mask(text::string_views(names.drop_last()));
            assert(before | 0u32 == before) by (bit_vector);
        }
    }
}

/// The bit mask of a one-time request for system data.
pub fn get_system_data(categories: &[String]) -> (mask: u32)
    ensures
        mask == system_monitor::categories_mask(text::string_views(categories@)),
{
    let names = validate_categories(categories);
    proof {
        lemma_validation_keeps_the_mask(categories@);
    }
    system_monitor::parse_categories(names.as_slice())
}

/// Sets what the background monitor polls from now on.
pub fn subscribe_system_data(monitor: &mut MonitorState, categories: &[String])
    ensures
        *final(monitor) == (MonitorState {
            poll_mask: system_monitor::categories_mask(text::string_views(categories@)),
            ..*old(monitor)
        }),
{
    let mask: u32 = get_system_data(categories);
    monitor.set_poll_mask(mask);
}

/// Between two readable versions the greatest place at which they differ decides: a candidate with
/// a greater major number is accepted, whatever follows it, and one with a smaller is refused; with
/// equal major numbers the minor numbers decide, whatever the patch numbers; with these equal too,
/// the patch numbers do. A refusal names both versions.
pub proof fn lemma_greatest_place_decides(
    current: Seq<char>,
    candidate: Seq<char>,
    now: Version,
    new: Version,
)
    requires
        version_of(current) == Ok::<Version, error::ErrorView>(now),
        version_of(candidate) == Ok::<Version, error::ErrorView>(new),
    ensures
        new.0 > now.0 ==> update_fault(current, candidate) is None,
        new.0 < now.0 ==> update_fault(current, candidate) is Some,
        new.0 == now.0 && new.1 > now.1 ==> update_fault(current, candidate) is None,
        new.0 == now.0 && new.1 < now.1 ==> update_fault(current, candidate) is Some,
        new.0 == now.0 && new.1 == now.1 && new.2 >= now.2 ==> update_fault(
            current,
            candidate,
        ) is None,
        new.0 == now.0 && new.1 == now.1 && new.2 < now.2 ==> update_fault(
            current,
            candidate,
        ) is Some,
        update_fault(current, candidate) matches Some(e) ==> e == error::ErrorView::Validation(
            "Refusing downgrade from "@ + current + " to "@ + candidate,
        ),
{
}

/// A version that cannot be read is refused with the reason why, the candidate's before the current
/// one's.
pub proof fn lemma_unreadable_version_is_refused(current: Seq<char>, candidate: Seq<char>)
    ensures
        version_of(candidate) matches Err(e) ==> update_fault(current, candidate) == Some(e),
        version_of(candidate) is Ok ==> (version_of(current) matches Err(e) ==> update_fault(
            current,
            candidate,
        ) == Some(e)),
{
}

proof fn lemma_core_is_read(vs: Seq<char>, core: Seq<char>, tail: Seq<char>)
    requires
        forall|i: int| 0 <= i < vs.len() ==> #[trigger] vs[i] == 'v',
        core.len() > 0 && core[0] != 'v' && !core.contains('-'),
        tail.len() > 0 ==> tail[0] == '-',
    ensures
        version_core(vs + core + tail) == core,
{
    let p = |c: char| Trim::Only { c: 'v' }.takes(c);
    let rest = core + tail;
    assert(vs + core + tail =~= vs + rest);
    assert(rest[0] == core[0]);
    text::lemma_trimmed_front(vs, rest, p);
    text::lemma_unsplit(core, '-');
    if tail.len() > 0 {
        let after = tail.skip(1);
        assert(rest =~= core + seq!['-'] + after);
        text::lemma_split_at_separator(core, after, '-');
    } else {
        assert(rest =~= core);
    }
}

/// A version is written as three numbers with dots between them, with any number of `v`s in front
/// and anything behind a hyphen. Its numbers are read in their order, and the first that is none
/// is complained about.
#[verifier::rlimit(40)]
pub proof fn lemma_version_is_read(
    vs: Seq<char>,
    a: Seq<char>,
    b: Seq<char>,
    c: Seq<char>,
    tail: Seq<char>,
)
    requires
        forall|i: int| 0 <= i < vs.len() ==> #[trigger] vs[i] == 'v',
        a.len() > 0 ==> a[0] != 'v',
        !a.contains('.') && !b.contains('.') && !c.contains('.'),
        !a.contains('-') && !b.contains('-') && !c.contains('-'),
        tail.len() > 0 ==> tail[0] == '-',
    ensures
        ({
            let v = version_of(vs + (a + seq!['.'] + b + seq!['.'] + c) + tail);
            match (text::parsed_u32(a), text::parsed_u32(b), text::parsed_u32(c)) {
                (None, _, _) => v == Err::<Version, error::ErrorView>(
                    error::ErrorView::Validation("bad major"@),
                ),
                (Some(_), None, _) => v == Err::<Version, error::ErrorView>(
                    error::ErrorView::Validation("bad minor"@),
                ),
                (Some(_), Some(_), None) => v == Err::<Version, error::ErrorView>(
                    error::ErrorView::Validation("bad patch"@),
                ),
                (Some(x), Some(y), Some(z)) => v == Ok::<Version, error::ErrorView>((x, y, z)),
            }
        }),
{
    let core = a + seq!['.'] + b + seq!['.'] + c;
    assert(core[0] == if a.len() > 0 { a[0] } else { '.' });
    assert(!core.contains('-')) by {
        if core.contains('-') {
            let i = choose|i: int| 0 <= i < core.len() && core[i] == '-';
            if i < a.len() {
                assert(a[i] == '-');
            } else if i == a.len() {
                assert(core[i] == '.');
            } else if i < a.len() + 1 + b.len() {
                assert(b[i - a.len() - 1] == '-');
            } else if i == a.len() + 1 + b.len() {
                assert(core[i] == '.');
            } else {
                assert(c[i - a.len() - b.len() - 2] == '-');
            }
        }
    }
    lemma_core_is_read(vs, core, tail);
    text::lemma_unsplit(a, '.');
    text::lemma_unsplit(b, '.');
    text::lemma_unsplit(c, '.');
    text::lemma_split_at_separator(a, b, '.');
    text::lemma_split_at_separator(a + seq!['.'] + b, c, '.');
    assert(text::split(core, '.') =~= seq![a, b, c]);
}

/// A text that is not cut into three parts by its dots is no version, and is quoted without the
/// `v`s in front and what follows the hyphen.
pub proof fn lemma_version_has_three_parts(vs: Seq<char>, parts: Seq<Seq<char>>, tail: Seq<char>)
    requires
        forall|i: int| 0 <= i < vs.len() ==> #[trigger] vs[i] == 'v',
        parts.len() > 0 && parts.len() != 3,
        forall|i: int| 0 <= i < parts.len() ==> !(#[trigger] parts[i]).contains('.'),
        ({
            let core = text::joined(parts, '.');
            core.len() > 0 && core[0] != 'v' && !core.contains('-')
        }),
        tail.len() > 0 ==> tail[0] == '-',
    ensures
        version_of(vs + text::joined(parts, '.') + tail) == Err::<Version, error::ErrorView>(
            error::ErrorView::Validation("Invalid version: "@ + text::joined(parts, '.')),
        ),
{
    lemma_core_is_read(vs, text::joined(parts, '.'), tail);
    text::lemma_split_undoes_join(parts, '.');
}

/// Which addresses updates are not fetched from, and why: what is wrong first is what is said.
pub proof fn lemma_refused_endpoint(u: outside::UrlView)
    ensures
        endpoint_fault(None) == Some(error::ErrorView::Validation("Invalid endpoint URL"@)),
        u.scheme != "https"@ ==> endpoint_fault(Some(u)) == Some(
            error::ErrorView::Validation("Endpoint must use HTTPS"@),
        ),
        u.scheme == "https"@ && u.host_str != Some("github.com"@) ==> endpoint_fault(Some(u))
            == Some(error::ErrorView::Validation("Endpoint must be on github.com"@)),
        u.scheme == "https"@ && u.host_str == Some("github.com"@) && !text::begins_with(
            u.path,
            "/MyWallpapers/client/releases/download/"@,
        ) ==> endpoint_fault(Some(u)) == Some(
            error::ErrorView::Validation("Endpoint must point to MyWallpapers/client releases"@),
        ),
{
}

/// Over TLS an IPv4 address is refused exactly if it lies, as one number of thirty-two bits, in a
/// range that is not of the public network.
#[verifier::rlimit(40)]
pub proof fn lemma_refused_ipv4(u: outside::UrlView, ip: Seq<u8>)
    requires
        u.scheme == "https"@,
        u.host == Some(outside::HostView::Ipv4(ip)),
        ip.len() == 4,
    ensures
        oauth_fault(Some(u)) is Some <==> {
            let n = 0x100_0000 * ip[0] + 0x1_0000 * ip[1] + 0x100 * ip[2] + ip[3];
            ||| 0x0A00_0000 <= n <= 0x0AFF_FFFF
            ||| 0xAC10_0000 <= n <= 0xAC1F_FFFF
            ||| 0xC0A8_0000 <= n <= 0xC0A8_FFFF
            ||| 0x7F00_0000 <= n <= 0x7FFF_FFFF
            ||| 0xA9FE_0000 <= n <= 0xA9FE_FFFF
            ||| n == 0
        },
        oauth_fault(Some(u)) matches Some(e) ==> e == error::ErrorView::Validation(
            "HTTPS to private/internal IPs is not allowed"@,
        ),
{
    assert((ip =~= seq![0u8, 0, 0, 0]) <==> ip[0] == 0 && ip[1] == 0 && ip[2] == 0 && ip[3] == 0);
}

/// Over TLS an IPv6 address is refused exactly if it is the loopback or the unspecified address,
/// is unique local or link-local by its first ten bits, or stands for an IPv4 address that is
/// refused. `plain` is the same address with the IPv4 address that its last two parts hold.
#[verifier::rlimit(40)]
pub proof fn lemma_refused_ipv6(
    u: outside::UrlView,
    plain: outside::UrlView,
    ip: Seq<u16>,
    v4: Seq<u8>,
)
    requires
        u.scheme == "https"@ && plain.scheme == "https"@,
        u.host == Some(outside::HostView::Ipv6(ip)),
        plain.host == Some(outside::HostView::Ipv4(v4)),
        ip.len() == 8 && v4.len() == 4,
        0x100 * v4[0] + v4[1] == ip[6] && 0x100 * v4[2] + v4[3] == ip[7],
    ensures
        oauth_fault(Some(u)) is Some <==> {
            let zeros = ip[0] == 0 && ip[1] == 0 && ip[2] == 0 && ip[3] == 0 && ip[4] == 0;
            ||| zeros && ip[5] == 0 && ip[6] == 0 && ip[7] <= 1
            ||| ip[0] / 0x200 == 0x7E
            ||| ip[0] / 0x40 == 0x3FA
            ||| zeros && ip[5] == 0xFFFF && oauth_fault(Some(plain)) is Some
        },
        oauth_fault(Some(u)) matches Some(e) ==> e == error::ErrorView::Validation(
            "HTTPS to private/internal IPs is not allowed"@,
        ),
{
    assert((ip =~= seq![0u16, 0, 0, 0, 0, 0, 0, 1]) <==> ip[0] == 0 && ip[1] == 0 && ip[2] == 0
        && ip[3] == 0 && ip[4] == 0 && ip[5] == 0 && ip[6] == 0 && ip[7] == 1);
    assert((ip =~= seq![0u16, 0, 0, 0, 0, 0, 0, 0]) <==> ip[0] == 0 && ip[1] == 0 && ip[2] == 0
        && ip[3] == 0 && ip[4] == 0 && ip[5] == 0 && ip[6] == 0 && ip[7] == 0);
    assert((ip.take(6) =~= seq![0u16, 0, 0, 0, 0, 0xffff]) <==> ip[0] == 0 && ip[1] == 0 && ip[2]
        == 0 && ip[3] == 0 && ip[4] == 0 && ip[5] == 0xffff);
    assert(mapped_ipv4(ip) =~= v4);
}

/// Over TLS every host that is given by name is accepted, and so is an address without a host.
/// Without TLS only three ways to name this machine are. An address of another scheme is refused.
pub proof fn lemma_sign_in_by_name(u: outside::UrlView)
    ensures
        u.scheme == "https"@ && (u.host is None || u.host->0 is Domain) ==> oauth_fault(
            Some(u),
        ) is None,
        u.scheme == "http"@ ==> (oauth_fault(Some(u)) is None <==> u.host_str == Some("localhost"@)
            || u.host_str == Some("127.0.0.1"@) || u.host_str == Some("[::1]"@)),
        u.scheme == "http"@ ==> (oauth_fault(Some(u)) matches Some(e) ==> e
            == error::ErrorView::Validation("HTTP is only allowed for localhost"@)),
        u.scheme != "https"@ && u.scheme != "http"@ ==> oauth_fault(Some(u)) == Some(
            error::ErrorView::Validation("URL must use https:// (or http:// for localhost)"@),
        ),
        oauth_fault(None) == Some(error::ErrorView::Validation("Invalid URL"@)),
{
    reveal_strlit("https");
    reveal_strlit("http");
    assert("https"@.len() != "http"@.len());
}

/// An address is a deep link exactly if it has the application's scheme and names no action, or
/// one of the five that are allowed. The link is the whole address.
pub proof fn lemma_which_address_is_a_deep_link(u: outside::UrlView)
    ensures
        deep_link_of(None) is None,
        deep_link_of(Some(u)) is Some <==> u.scheme == "mywallpaper"@ && match u.host_str {
            None => true,
            Some(host) => host.len() == 0 || host == "callback"@ || host == "auth"@ || host
                == "oauth"@ || host == "login"@ || host == "app"@,
        },
        deep_link_of(Some(u)) matches Some(link) ==> link == u.text,
{
}

/// The deep links among texts in two lots are those of the first lot, then those of the second; of
/// one text there is its link, if it is one.
pub proof fn lemma_deep_links_of_both(a: Seq<Seq<char>>, b: Seq<Seq<char>>, t: Seq<char>)
    ensures
        deep_links(a + b) == deep_links(a) + deep_links(b),
        deep_links(seq![t]) == match deep_link_of(outside::url_parts(t)) {
            Some(link) => seq![link],
            None => Seq::empty(),
        },
    decreases b.len(),
{
    assert(seq![t].drop_last() =~= Seq::empty());
    assert(deep_links(Seq::empty()) =~= Seq::empty());
    assert(deep_links(seq![t]) =~= match deep_link_of(outside::url_parts(t)) {
        Some(link) => seq![link],
        None => Seq::empty(),
    });
    if b.len() == 0 {
        assert(a + b =~= a);
        assert(deep_links(a) + deep_links(b) =~= deep_links(a));
    } else {
        lemma_deep_links_of_both(a, b.drop_last(), t);
        assert((a + b).drop_last() =~= a + b.drop_last());
        assert(deep_links(a + b) =~= deep_links(a) + deep_links(b));
    }
}

/// A name is a category exactly if it asks for something.
pub proof fn lemma_categories_ask_for_something(name: Seq<char>)
    ensures
        is_category(name) <==> system_monitor::category_mask(name) != 0,
{
    system_monitor::lemma_bit_of_a_category(name);
}

/// A check succeeds exactly if there is no fault, and otherwise fails with just the fault.
pub proof fn lemma_verdict(r: AppResult<()>, fault: Option<error::ErrorView>)
    requires
        verdict(r, fault),
    ensures
        r is Ok <==> fault is None,
        r matches Err(e) ==> Some(e@) == fault,
{
}

/// An address that was refused is none, and one that was read is what it holds.
pub proof fn lemma_parsed_view(u: ParsedUrl)
    ensures
        parsed_view(None) is None,
        parsed_view(Some(u)) == Some(u@),
{
}

} // verus!
