//! Command data, and the checks that need no platform.

use vstd::prelude::*;

use crate::text;
use crate::text::starts_with;

verus! {

/// System information for the frontend.
#[derive(Debug)]
pub struct SystemInfo {
    pub os: String,
    pub os_version: String,
    pub arch: String,
    pub app_version: String,
    pub tauri_version: String,
}

/// An update that is on offer.
#[derive(Debug)]
pub struct UpdateInfo {
    pub version: String,
    pub current_version: String,
    pub body: Option<String>,
    pub date: Option<String>,
}

/// A layer of the wallpaper, for the tray menu.
#[derive(Debug)]
pub struct LayerInfo {
    pub id: String,
    pub name: String,
    pub visible: bool,
}

/// Gathers what the platform said of itself.
pub fn get_system_info(
    os: String,
    os_version: String,
    arch: String,
    app_version: String,
    tauri_version: String,
) -> (r: SystemInfo)
    ensures
        r == (SystemInfo { os, os_version, arch, app_version, tauri_version }),
{
    SystemInfo { os, os_version, arch, app_version, tauri_version }
}

/// Accepts an address for signing in by its beginning alone: `http://` or `https://`.
pub fn validate_oauth_url(url: &str) -> (r: Result<(), String>)
    ensures
        r is Ok <==> text::begins_with(url@, "https://"@) || text::begins_with(url@, "http://"@),
        r matches Err(e) ==> e@ == "Invalid URL: must start with http:// or https://"@,
{
    if !starts_with(url, "https://") && !starts_with(url, "http://") {
        return Err("Invalid URL: must start with http:// or https://".to_owned());
    }
    Ok(())
}

/// An address is accepted exactly if it is one of the two beginnings with something behind it, or
/// nothing.
pub proof fn lemma_accepted_beginnings(url: &str, rest: Seq<char>, r: Result<(), String>)
    requires
        call_ensures(validate_oauth_url, (url,), r),
    ensures
        url@ == "https://"@ + rest || url@ == "http://"@ + rest ==> r is Ok,
        r is Ok ==> url@ == "https://"@ + url@.skip("https://"@.len() as int) || url@ == "http://"@
            + url@.skip("http://"@.len() as int),
{
    text::lemma_begins_with("https://"@, rest);
    text::lemma_begins_with("http://"@, rest);
    text::lemma_begins_with("https://"@, url@);
    text::lemma_begins_with("http://"@, url@);
}

} // verus!
