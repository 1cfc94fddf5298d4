//! The user's own desktop: names, types, wallpaper and icons.

use mywallpaper_desktop::desktop_clone::icons::{
    after_conversion, after_thumbnail, extract_icon, icon_by_type, icon_name_of_type, icon_paths,
    icon_picture, icon_theme, shell_icon_error, theme_in_setting, type_icon, IconReply, IconSearch,
    IconSource, IconStep, MacIconStep, ToolRun,
};
use mywallpaper_desktop::desktop_clone::search::PathQueue;
use mywallpaper_desktop::desktop_clone::wallpaper::{
    paths_in_kde_config, paths_in_setting, registry_wallpaper, scripted_wallpaper,
    scripted_wallpaper_text, setting_path, unquote, SearchReply, SearchStep, WallpaperSearch,
};
use mywallpaper_desktop::desktop_clone::{
    can_be_encoded, display_name, display_name_of, file_to_base64, get_desktop_icons,
    get_os_wallpaper, is_desktop_entry, mime_from_name, mime_from_path, open_desktop_item,
    shown_on_desktop, wallpaper_info, DesktopEntry, DesktopListing, OpenReply,
};

#[test]
fn test_mime_from_path() {
    assert_eq!(mime_from_path("test.png"), "image/png");
    assert_eq!(mime_from_path("test.jpg"), "image/jpeg");
    assert_eq!(mime_from_path("test.bmp"), "image/bmp");
}

#[test]
fn test_display_name() {
    assert_eq!(display_name("/home/user/Desktop/Firefox.desktop", None), "Firefox");
    assert_eq!(display_name("/home/user/Desktop/Document.pdf", None), "Document");
}

#[test]
fn types_go_by_the_extension() {
    for (name, expected) in [
        ("a.jpeg", "image/jpeg"),
        ("a.webp", "image/webp"),
        ("a.gif", "image/gif"),
        ("a.tiff", "image/tiff"),
        ("a.tif", "image/tiff"),
        ("a.png.bmp", "image/bmp"),
        ("a.JPG", "image/png"),
        ("a", "image/png"),
        (".gif", "image/png"),
    ] {
        assert_eq!(mime_from_name(Some(name)), expected, "{}", name);
        assert_eq!(mime_from_path(name), expected, "{}", name);
    }
    assert_eq!(mime_from_name(None), "image/png");
}

#[test]
fn the_last_component_of_a_path_counts() {
    assert_eq!(mime_from_path("/a.gif/b.bmp"), "image/bmp");
    assert_eq!(mime_from_path("/x/a.gif/"), "image/gif");
    assert_eq!(mime_from_path("/x/a.gif/./"), "image/gif");
    assert_eq!(mime_from_path("/x/a.gif/.."), "image/png");
    assert_eq!(mime_from_path("/"), "image/png");
    assert_eq!(mime_from_path(""), "image/png");
    assert_eq!(display_name("/x/..", None), "Unknown");
    assert_eq!(display_name("/x/.profile", None), ".profile");
}

#[test]
fn a_description_names_its_item() {
    let entry = "[Desktop Entry]\nType=Application\nName=Web Browser\nName=Other\n";
    assert_eq!(display_name("/d/firefox.desktop", Some(entry)), "Web Browser");
    assert_eq!(display_name_of(Some("firefox.desktop"), Some("Type=x\n")), "firefox");
    assert_eq!(display_name_of(Some("notes.txt"), Some(entry)), "notes");
    assert_eq!(display_name_of(None, Some(entry)), "Unknown");
    assert!(is_desktop_entry("a.desktop"));
    assert!(!is_desktop_entry("desktop"));
    assert!(!is_desktop_entry(".desktop"));
}

#[test]
fn files_are_put_into_base64() {
    for (bytes, expected) in [
        (&b""[..], ""),
        (&b"f"[..], "Zg=="),
        (&b"fo"[..], "Zm8="),
        (&b"foo"[..], "Zm9v"),
        (&b"\xfb\xff\xfe"[..], "+//+"),
    ] {
        assert_eq!(file_to_base64("/x", Ok(bytes.to_vec())).unwrap(), expected);
    }
    assert_eq!(
        file_to_base64("/x/y", Err("denied".to_string())),
        Err("Failed to read file /x/y: denied".to_string())
    );
}

#[test]
fn every_byte_has_its_place_in_base64() {
    let alphabet: Vec<char> =
        ('A'..='Z').chain('a'..='z').chain('0'..='9').chain(['+', '/']).collect();
    let bytes: Vec<u8> = (0..=255u8).collect();
    let encoded: Vec<char> = file_to_base64("/x", Ok(bytes.clone())).unwrap().chars().collect();
    assert_eq!(encoded.len(), 4 * 86);
    let bits = |i: usize| if i < 8 * 256 { bytes[i / 8] >> (7 - i % 8) & 1 } else { 0 };
    for (k, c) in encoded.iter().enumerate() {
        if k < 342 {
            let v = (0..6).fold(0usize, |acc, i| 2 * acc + bits(6 * k + i) as usize);
            assert_eq!(*c, alphabet[v]);
        } else {
            assert_eq!(*c, '=');
        }
    }
}

#[test]
fn only_a_png_is_a_picture() {
    let png = b"\x89PNG\r\n\x1a\nabc".to_vec();
    assert_eq!(icon_picture("/x.png", Ok(png.clone())).unwrap(), "iVBORw0KGgphYmM=");
    assert_eq!(icon_picture("/x", Ok(png[..8].to_vec())).unwrap(), "iVBORw0KGgo=");
    let refused = Err("Icon file is not a PNG: /x.svg".to_string());
    assert_eq!(icon_picture("/x.svg", Ok(b"<svg></svg>".to_vec())), refused);
    assert_eq!(icon_picture("/x.svg", Ok(png[..7].to_vec())), refused);
    assert_eq!(icon_picture("/x.svg", Ok(Vec::new())), refused);
    assert_eq!(
        icon_picture("/x", Err("denied".to_string())),
        Err("Failed to read file /x: denied".to_string())
    );
}

#[test]
fn paths_of_other_platforms_keep_their_type() {
    assert_eq!(mime_from_path("C:\\Users\\me\\a.jpg"), "image/jpeg");
    assert_eq!(mime_from_path("C:a.gif"), "image/gif");
    assert_eq!(mime_from_path("D:/w/a.b.tif"), "image/tiff");
    assert_eq!(mime_from_path("\\w\\a.webp"), "image/webp");
    assert!(display_name("C:\\Users\\me\\Notes.txt", None).ends_with("Notes"));
    let entry = "Name=Browser\n";
    assert_eq!(display_name("C:\\d\\x.desktop", Some(entry)), "Browser");
    let path = "C:\\w\\a.bmp".to_string();
    let info = get_os_wallpaper(path, Some(Ok(Vec::new()))).unwrap();
    assert_eq!(info.mime_type, "image/bmp");
}

#[test]
fn files_behind_a_share_keep_their_type() {
    assert_eq!(mime_from_path("//server/share/a.jpg"), "image/jpeg");
    assert_eq!(mime_from_path("\\\\server\\share\\w\\a.bmp"), "image/bmp");
    assert_eq!(mime_from_path("\\\\.\\device\\a.webp"), "image/webp");
    assert_eq!(mime_from_path("\\\\?\\C:\\w\\a.gif"), "image/gif");
    assert_eq!(mime_from_path("\\\\?\\UNC\\server\\share\\a.tif"), "image/tiff");
    assert!(display_name("\\\\server\\share\\Notes.txt", None).ends_with("Notes"));
    let entry = "Name=Browser\n";
    assert_eq!(display_name("//server/share/x.desktop", Some(entry)), "Browser");
    let path = "//server/share/w/a.webp".to_string();
    let info = get_os_wallpaper(path, Some(Ok(Vec::new()))).unwrap();
    assert_eq!(info.mime_type, "image/webp");
}

#[test]
fn very_long_files_cannot_be_encoded() {
    assert!(can_be_encoded(0) && can_be_encoded(1 << 20));
    let most = isize::MAX as usize / 4 * 3;
    assert!(can_be_encoded(most));
    assert!(!can_be_encoded(most + 1));
    assert!(!can_be_encoded(usize::MAX));
}

#[test]
fn the_wallpaper_is_answered() {
    let info = get_os_wallpaper("/w/a.jpg".to_string(), Some(Ok(b"foo".to_vec()))).unwrap();
    assert_eq!(info.path, "/w/a.jpg");
    assert_eq!(info.image_base64, "Zm9v");
    assert_eq!(info.mime_type, "image/jpeg");
    assert_eq!(
        get_os_wallpaper("/w/a.jpg".to_string(), None).unwrap_err(),
        "Wallpaper file does not exist: /w/a.jpg"
    );
    assert_eq!(
        get_os_wallpaper("/w/a.jpg".to_string(), Some(Err("denied".to_string()))).unwrap_err(),
        "Failed to read file /w/a.jpg: denied"
    );
    let info =
        wallpaper_info("C:\\w\\a.bmp".to_string(), Some("a.bmp"), Some(Ok(Vec::new()))).unwrap();
    assert_eq!(info.mime_type, "image/bmp");
}

#[test]
fn settings_are_read() {
    assert_eq!(unquote("'a'"), "a");
    assert_eq!(unquote("'\"a\"'"), "a");
    assert_eq!(unquote("\"'a'\""), "'a'");
    assert_eq!(setting_path("'file:///usr/share/a%20b.png'\n"), "/usr/share/a b.png");
    assert_eq!(setting_path("\"file:///a\""), "/a");
    assert_eq!(setting_path("/plain/path"), "/plain/path");
    // Without the scheme the quotes stay.
    assert_eq!(setting_path("'/plain/path'"), "'/plain/path'");
    assert_eq!(setting_path("''"), "''");
    assert_eq!(setting_path("  "), "");
    assert_eq!(paths_in_setting(Some(b"'file:///a'\n".to_vec())), vec!["/a".to_string()]);
    assert_eq!(paths_in_setting(Some(b"\n".to_vec())), Vec::<String>::new());
    assert_eq!(paths_in_setting(None), Vec::<String>::new());
}

#[test]
fn a_path_comes_back_from_its_printed_address() {
    for path in ["/a.png", "/a b/50%/é.png", "/日本/壁紙.jpg", "/it's.png"] {
        let mut encoded = String::new();
        for b in path.bytes() {
            if b.is_ascii_alphanumeric() || b == b'/' || b == b'.' {
                encoded.push(b as char);
            } else {
                encoded.push_str(&format!("%{:02x}", b));
            }
        }
        assert_eq!(setting_path(&format!("'file://{}'\n", encoded)), path);
    }
}

#[test]
fn the_plasma_configuration_is_read() {
    let config = "[Wallpaper]\nImage=file:///a%20b\nFillMode=2\nImage=/c\n".to_string();
    assert_eq!(paths_in_kde_config(Some(config)), vec!["/a%20b".to_string(), "/c".to_string()]);
    assert_eq!(paths_in_kde_config(None), Vec::<String>::new());
}

fn run_wallpaper(
    light: Option<&str>,
    dark: Option<&str>,
    kde: Option<&str>,
    there: &[&str],
) -> (Result<String, String>, Vec<String>) {
    let mut search = WallpaperSearch::new();
    let mut tested: Vec<String> = Vec::new();
    let mut step = search.get_wallpaper_path(SearchReply::Started);
    loop {
        let reply = match step {
            SearchStep::ReadSetting { dark: false } => {
                SearchReply::Setting { output: light.map(|s| s.as_bytes().to_vec()) }
            }
            SearchStep::ReadSetting { dark: true } => {
                SearchReply::Setting { output: dark.map(|s| s.as_bytes().to_vec()) }
            }
            SearchStep::ReadKdeConfig => {
                SearchReply::KdeConfig { contents: kde.map(|s| s.to_string()) }
            }
            SearchStep::TestPath { path } => {
                let found = there.contains(&path.as_str());
                tested.push(path);
                SearchReply::Tested { found }
            }
            SearchStep::Ended { result } => return (result, tested),
            SearchStep::Nothing => panic!("the search is stuck"),
        };
        step = search.get_wallpaper_path(reply);
    }
}

#[test]
fn the_first_existing_wallpaper_is_found() {
    let light = Some("'file:///light'");
    let dark = Some("'file:///dark'");
    let kde = Some("Image=/k1\nImage=/k2\n");
    assert_eq!(run_wallpaper(light, dark, kde, &["/light", "/dark"]).0, Ok("/light".to_string()));
    assert_eq!(run_wallpaper(light, dark, kde, &["/dark", "/k2"]).0, Ok("/dark".to_string()));
    assert_eq!(run_wallpaper(None, Some(""), kde, &["/k2"]).0, Ok("/k2".to_string()));
    let (result, tested) = run_wallpaper(light, dark, kde, &[]);
    assert_eq!(
        result,
        Err("Could not detect wallpaper path on this Linux desktop environment".to_string())
    );
    assert_eq!(tested, vec!["/light", "/dark", "/k1", "/k2"]);
    assert!(run_wallpaper(None, None, None, &[]).0.is_err());
}

#[test]
fn a_wallpaper_reply_out_of_turn_is_ignored() {
    let mut search = WallpaperSearch::new();
    let step = search.get_wallpaper_path(SearchReply::Tested { found: true });
    assert!(matches!(step, SearchStep::Nothing));
    let step = search.get_wallpaper_path(SearchReply::KdeConfig { contents: None });
    assert!(matches!(step, SearchStep::Nothing));
}

#[test]
fn paths_are_tried_in_their_order() {
    let mut queue = PathQueue::new(vec!["/a".to_string(), "/b".to_string()]);
    assert_eq!(queue.front(), Some("/a".to_string()));
    queue.drop_front();
    assert_eq!(queue.front(), Some("/b".to_string()));
    queue.drop_front();
    queue.drop_front();
    assert_eq!(queue.front(), None);
}

#[test]
fn other_platforms_name_their_wallpaper() {
    assert_eq!(registry_wallpaper("C:\\w.jpg".to_string()), Ok("C:\\w.jpg".to_string()));
    assert_eq!(
        registry_wallpaper(String::new()),
        Err("No wallpaper set (registry value is empty)".to_string())
    );
    assert_eq!(scripted_wallpaper(true, b"/w.heic\n", b""), Ok("/w.heic".to_string()));
    assert_eq!(
        scripted_wallpaper(true, b" \n", b""),
        Err("No wallpaper path returned by osascript".to_string())
    );
    assert_eq!(
        scripted_wallpaper(false, b"/w", b"no\xff"),
        Err("osascript failed: no\u{FFFD}".to_string())
    );
    assert_eq!(scripted_wallpaper_text(true, "/w", ""), Ok("/w".to_string()));
}

#[test]
fn icons_lie_in_theme_directories() {
    let paths = icon_paths("firefox", "Papirus", "/home/u");
    assert_eq!(paths.len(), 62);
    assert_eq!(paths[0], "/usr/share/icons/Papirus/48x48/apps/firefox.png");
    assert_eq!(paths[1], "/usr/share/icons/Papirus/48x48/places/firefox.png");
    assert_eq!(paths[4], "/usr/share/icons/Papirus/48x48/actions/firefox.png");
    assert_eq!(paths[5], "/usr/share/icons/Papirus/64x64/apps/firefox.png");
    assert_eq!(paths[12], "/usr/share/icons/Papirus/32x32/mimetypes/firefox.png");
    assert_eq!(paths[18], "/usr/share/icons/Papirus/scalable/devices/firefox.png");
    assert_eq!(paths[20], "/usr/share/icons/hicolor/48x48/apps/firefox.png");
    assert_eq!(paths[40], "/home/u/.local/share/icons/Papirus/48x48/apps/firefox.png");
    assert_eq!(paths[60], "/usr/share/pixmaps/firefox.png");
    assert_eq!(paths[61], "/usr/share/pixmaps/firefox.svg");
    // A theme directory of that name is taken for loose pictures too.
    assert_eq!(icon_paths("x", "pixmaps", "").len(), 2 + 20 + 2 + 2);
}

#[test]
fn the_icon_theme_is_read() {
    assert_eq!(icon_theme(Some(b"'Adwaita'\n".to_vec())), "Adwaita");
    assert_eq!(icon_theme(Some(Vec::new())), "");
    assert_eq!(icon_theme(None), "hicolor");
    assert_eq!(theme_in_setting(Some(" \"Yaru\" ")), "Yaru");
}

fn run_icon(name: &str, theme: Option<&str>, there: &[&str]) -> (Result<String, String>, usize) {
    let mut search = IconSearch::new(name.to_string());
    let mut tests = 0;
    let mut step = search.find_linux_icon(IconReply::Started);
    loop {
        let reply = match step {
            IconStep::TestPath { path } => {
                tests += 1;
                IconReply::Tested { found: there.contains(&path.as_str()) }
            }
            IconStep::ReadTheme => IconReply::Theme {
                output: theme.map(|s| s.as_bytes().to_vec()),
                home: "/home/u".to_string(),
            },
            IconStep::Ended { result } => return (result, tests),
            IconStep::Nothing => panic!("the search is stuck"),
        };
        step = search.find_linux_icon(reply);
    }
}

#[test]
fn the_first_existing_icon_is_found() {
    let themed = "/usr/share/icons/T/64x64/apps/x.png";
    let shared = "/usr/share/icons/hicolor/48x48/apps/x.png";
    assert_eq!(run_icon("x", Some("'T'"), &[shared, themed]).0, Ok(themed.to_string()));
    assert_eq!(run_icon("x", None, &[themed, shared]).0, Ok(shared.to_string()));
    assert_eq!(run_icon("/a/x.svg", None, &["/a/x.svg"]), (Ok("/a/x.svg".to_string()), 1));
    // A drawing in a theme is passed over, a loose one is not.
    let drawing = "/usr/share/icons/hicolor/48x48/apps/x.svg";
    let loose = "/usr/share/pixmaps/x.svg";
    assert_eq!(run_icon("x", None, &[drawing, loose]).0, Ok(loose.to_string()));
    assert_eq!(
        run_icon("x", Some("T"), &[drawing]),
        (Err("Icon 'x' not found in any theme directory".to_string()), 62)
    );
    // A path that leads nowhere is looked up as a name as well.
    assert_eq!(run_icon("/a", None, &[]).1, 63);
}

#[test]
fn an_icon_reply_out_of_turn_is_ignored() {
    let mut search = IconSearch::new("x".to_string());
    let theme = IconReply::Theme { output: None, home: String::new() };
    assert!(matches!(search.find_linux_icon(theme), IconStep::Nothing));
    let tested = IconReply::Tested { found: true };
    assert!(matches!(search.find_linux_icon(tested), IconStep::Nothing));
}

fn source(name: Option<&str>, contents: Option<&str>, is_directory: bool) -> Option<String> {
    match extract_icon(name, contents, is_directory) {
        IconSource::Named { name } => Some(name),
        IconSource::ByType => None,
    }
}

#[test]
fn icons_are_named() {
    let entry = "Name=x\nIcon= firefox \nIcon=other\n";
    assert_eq!(source(Some("a.desktop"), Some(entry), false), Some("firefox".to_string()));
    assert_eq!(source(Some("a.desktop"), Some("Name=x\n"), false), None);
    assert_eq!(source(Some("a.desktop"), None, true), Some("folder".to_string()));
    assert_eq!(source(Some("a.txt"), Some(entry), false), None);
    assert_eq!(source(None, Some(entry), true), Some("folder".to_string()));
    assert_eq!(icon_name_of_type("application/pdf\n"), "application-pdf");
    assert_eq!(icon_name_of_type("a/b/c"), "a-b-c");
    assert_eq!(type_icon(b"text/plain\n"), "text-plain");
    let nothing = Err("Could not find icon for this file type".to_string());
    assert_eq!(icon_by_type(Some(Ok("Zg==".to_string()))), Ok("Zg==".to_string()));
    assert_eq!(icon_by_type(Some(Err("x".to_string()))), nothing);
    assert_eq!(icon_by_type(None), nothing);
}

#[test]
fn pictures_of_other_platforms() {
    let reason = || ToolRun::NotRun { reason: "gone".to_string() };
    assert!(matches!(after_conversion(ToolRun::Failed, "/tmp/t.png"), MacIconStep::MakeThumbnail));
    for (step, expected) in [
        (after_conversion(reason(), "/tmp/t.png"), "Failed to run sips: gone"),
        (after_conversion(ToolRun::Done, "/tmp/t.png"), "/tmp/t.png"),
        (after_thumbnail(reason(), Some("a.txt")), "Failed to run qlmanage: gone"),
        (after_thumbnail(ToolRun::Failed, Some("a.txt")), "Both sips and qlmanage failed"),
        (after_thumbnail(ToolRun::Done, Some("a.txt")), "/tmp/a.txt.png"),
        (after_thumbnail(ToolRun::Done, None), "/tmp/icon.png"),
    ] {
        match step {
            MacIconStep::Take { path } => assert_eq!(path, expected),
            MacIconStep::Fail { message } => assert_eq!(message, expected),
            MacIconStep::MakeThumbnail => panic!("no thumbnail is asked for here"),
        }
    }
    assert_eq!(shell_icon_error(false), "SHGetFileInfoW failed to get icon");
    assert_eq!(shell_icon_error(true), "HICON to PNG conversion not yet implemented");
}

fn entry(name: Option<&str>, icon: Result<&str, &str>) -> DesktopEntry {
    DesktopEntry {
        file_name: name.map(|n| n.to_string()),
        path: format!("/d/{}", name.unwrap_or("?")),
        is_directory: name == Some("dir"),
        contents: None,
        icon: icon.map(|s| s.to_string()).map_err(|s| s.to_string()),
    }
}

#[test]
fn the_desktop_is_listed() {
    assert!(shown_on_desktop(Some("a")));
    assert!(!shown_on_desktop(Some(".a")));
    assert!(!shown_on_desktop(None));
    let own = DesktopListing::Entries {
        entries: vec![
            entry(Some("a.txt"), Ok("Zg==")),
            entry(Some(".hidden"), Ok("x")),
            entry(None, Ok("x")),
            entry(Some("dir"), Err("none")),
        ],
    };
    let icons = get_desktop_icons(own, vec![entry(Some("p.lnk"), Ok("Zm8="))]).unwrap();
    let listed: Vec<(&str, &str, &str, bool)> = icons
        .iter()
        .map(|i| (&*i.name, &*i.icon_base64, &*i.exec_path, i.is_directory))
        .collect();
    assert_eq!(
        listed,
        vec![
            ("a", "Zg==", "/d/a.txt", false),
            ("dir", "", "/d/dir", true),
            ("p", "Zm8=", "/d/p.lnk", false),
        ]
    );
}

#[test]
fn a_desktop_that_cannot_be_listed() {
    for (own, expected) in [
        (DesktopListing::Unknown, "Could not find Desktop directory"),
        (
            DesktopListing::Missing { path: "/d".to_string() },
            "Desktop directory does not exist: /d",
        ),
        (
            DesktopListing::Unreadable { reason: "denied".to_string() },
            "Failed to read desktop directory: denied",
        ),
    ] {
        assert_eq!(get_desktop_icons(own, Vec::new()).unwrap_err(), expected);
    }
}

#[test]
fn opening_an_item_is_reported() {
    assert_eq!(open_desktop_item("/d/a", OpenReply::Opened), Ok(()));
    assert_eq!(
        open_desktop_item("/d/a", OpenReply::Missing),
        Err("Path does not exist: /d/a".to_string())
    );
    assert_eq!(
        open_desktop_item("/d/a", OpenReply::Failed { reason: "no handler".to_string() }),
        Err("Failed to open item: no handler".to_string())
    );
}
