//! The user's own desktop: the wallpaper image and the icons on it.

use vstd::prelude::*;
use vstd::string::*;

use crate::file_name;
use crate::file_name::{file_extension, file_stem};
use crate::outside;
use crate::outside::encode_base64;
use crate::platform_text;
use crate::platform_text::path_file_name;
use crate::text;
use crate::text::{fields_of, same_text, starts_with};

pub mod icons;
pub mod search;
pub mod wallpaper;

verus! {

/// The wallpaper of the operating system.
#[derive(Debug)]
pub struct WallpaperInfo {
    pub path: String,
    pub image_base64: String,
    pub mime_type: String,
}

/// An item on the desktop.
#[derive(Debug)]
pub struct DesktopIcon {
    pub name: String,
    /// Empty where there is no picture.
    pub icon_base64: String,
    pub exec_path: String,
    pub is_directory: bool,
}

/// The type of an image file, by its extension.
pub open spec fn mime_of(extension: Option<Seq<char>>) -> Seq<char> {
    if extension == Some("png"@) {
        "image/png"@
    } else if extension == Some("jpg"@) || extension == Some("jpeg"@) {
        "image/jpeg"@
    } else if extension == Some("bmp"@) {
        "image/bmp"@
    } else if extension == Some("webp"@) {
        "image/webp"@
    } else if extension == Some("gif"@) {
        "image/gif"@
    } else if extension == Some("tiff"@) || extension == Some("tif"@) {
        "image/tiff"@
    } else {
        "image/png"@
    }
}

/// The extension of a file that has a name.
pub open spec fn extension_of(name: Option<Seq<char>>) -> Option<Seq<char>> {
    match name {
        Some(n) => file_name::extension(n),
        None => None,
    }
}

/// The name of the file that a path leads to where slashes alone separate its parts. Of a portable
/// path this is the name on every platform.
pub open spec fn name_in_path(path: Seq<char>) -> Option<Seq<char>> {
    platform_text::unix_name(path)
}

/// Guesses the type of an image file from its name.
pub fn mime_from_name(name: Option<&str>) -> (r: &'static str)
    ensures
        r@ == mime_of(extension_of(text::str_view(name))),
{
    let extension: Option<&str> = match name {
        Some(n) => file_extension(n),
        None => None,
    };
    let e = match extension {
        Some(e) => e,
        None => return "image/png",
    };
    if same_text(e, "png") {
        "image/png"
    } else if same_text(e, "jpg") || same_text(e, "jpeg") {
        "image/jpeg"
    } else if same_text(e, "bmp") {
        "image/bmp"
    } else if same_text(e, "webp") {
        "image/webp"
    } else if same_text(e, "gif") {
        "image/gif"
    } else if same_text(e, "tiff") || same_text(e, "tif") {
        "image/tiff"
    } else {
        "image/png"
    }
}

/// What follows the last separator of any platform is a name with an extension.
pub open spec fn has_extension(path: Seq<char>) -> bool {
    platform_text::ends_with_a_name(path) && file_name::extension(platform_text::tail(path)) is Some
}

/// `mime` is the type of the image at a path, by the extension of the name that some platform
/// sees. That extension is the same on every platform that sees a name, where the path has one.
pub open spec fn mime_fits(path: Seq<char>, mime: Seq<char>) -> bool {
    &&& platform_text::is_portable(path) ==> mime == mime_of(extension_of(name_in_path(path)))
    &&& has_extension(path) ==> {
        ||| mime == mime_of(file_name::extension(platform_text::tail(path)))
        ||| !platform_text::names_a_file(path) && mime == mime_of(None)
    }
    &&& exists|name: Option<Seq<char>>| #[trigger]
        platform_text::may_be_named(path, name) && mime == mime_of(extension_of(name))
}

proof fn lemma_name_has_the_extension(path: Seq<char>, name: Option<Seq<char>>)
    requires
        platform_text::may_be_named(path, name),
        has_extension(path),
    ensures
        name is None ==> !platform_text::names_a_file(path),
        name matches Some(n) ==> {
            let tail = platform_text::tail(path);
            &&& file_name::extension(n) == file_name::extension(tail)
            &&& text::ends_in(file_name::stem(n), file_name::stem(tail))
        },
{
    platform_text::lemma_name_ends_the_path(path, name);
    if let Some(full) = name {
        let tail = platform_text::tail(path);
        let front = full.take(full.len() - tail.len());
        assert(full =~= front + full.skip(full.len() - tail.len()));
        file_name::lemma_extension_goes_by_the_end(front, tail);
        let stem = file_name::stem(tail);
        assert((front + stem).skip((front + stem).len() - stem.len()) =~= stem);
    }
}

proof fn lemma_mime_fits(path: Seq<char>, name: Option<Seq<char>>)
    requires
        platform_text::may_be_named(path, name),
    ensures
        mime_fits(path, mime_of(extension_of(name))),
{
    if platform_text::is_portable(path) {
        platform_text::lemma_portable_name(path, name);
    }
    if has_extension(path) {
        lemma_name_has_the_extension(path, name);
    }
}

/// Guesses the type of an image file from its path. Where backslashes, colons or two separators in
/// front make platforms see different names, or none on one of them, the type goes by the name
/// that this platform sees.
pub fn mime_from_path(path: &str) -> (r: &'static str)
    ensures
        mime_fits(path@, r@),
{
    let name = path_file_name(path);
    proof {
        lemma_mime_fits(path@, text::string_view(name));
    }
    mime_from_name(as_text(&name))
}

/// Whether a file describes an application that can be started from the desktop.
pub fn is_desktop_entry(name: &str) -> (r: bool)
    ensures
        r == (file_name::extension(name@) == Some("desktop"@)),
{
    match file_extension(name) {
        Some(e) => same_text(e, "desktop"),
        None => false,
    }
}

/// The names that the description of an item gives.
pub open spec fn given_names(contents: Option<Seq<char>>) -> Seq<Seq<char>> {
    match contents {
        Some(c) => text::fields(text::lines(c), "Name="@),
        None => Seq::empty(),
    }
}

/// The item is a description that gives its own name.
pub open spec fn is_named_by(name: Option<Seq<char>>, contents: Option<Seq<char>>) -> bool {
    extension_of(name) == Some("desktop"@) && given_names(contents).len() > 0
}

/// What a desktop item is called: by the name that its description gives, where it is such a
/// file and can be read, and otherwise by its file name without the extension.
pub open spec fn shown_name(name: Option<Seq<char>>, contents: Option<Seq<char>>) -> Seq<char> {
    if is_named_by(name, contents) {
        given_names(contents)[0]
    } else {
        match name {
            Some(n) => file_name::stem(n),
            None => "Unknown"@,
        }
    }
}

/// Names a desktop item. `contents` is what the file holds, where it could be read.
pub fn display_name_of(name: Option<&str>, contents: Option<&str>) -> (r: String)
    ensures
        r@ == shown_name(text::str_view(name), text::str_view(contents)),
{
    let n = match name {
        Some(n) => n,
        None => return "Unknown".to_owned(),
    };
    if is_desktop_entry(n) {
        if let Some(c) = contents {
            let given = fields_of(c, "Name=");
            assert(text::views(given@).len() == given@.len());
            if given.len() > 0 {
                assert(text::views(given@)[0] == given@[0]@);
                return given[0].to_owned();
            }
        }
    }
    file_stem(n).to_owned()
}

/// `shown` is what the item at a path is called, by the name that some platform sees. Where the
/// path has an extension and that platform sees a name, the item is called by what its description
/// gives, or by a text that ends with the stem of what follows the last separator.
pub open spec fn name_fits(path: Seq<char>, contents: Option<Seq<char>>, shown: Seq<char>) -> bool {
    let tail = platform_text::tail(path);
    &&& platform_text::is_portable(path) ==> shown == shown_name(name_in_path(path), contents)
    &&& has_extension(path) ==> {
        ||| is_named_by(Some(tail), contents) && shown == shown_name(Some(tail), contents)
        ||| !is_named_by(Some(tail), contents) && text::ends_in(shown, file_name::stem(tail))
        ||| !platform_text::names_a_file(path) && shown == shown_name(None, contents)
    }
    &&& exists|name: Option<Seq<char>>| #[trigger]
        platform_text::may_be_named(path, name) && shown == shown_name(name, contents)
}

/// Names a desktop item by its path. Where platforms see different names, the front of the name
/// goes by this platform.
pub fn display_name(path: &str, contents: Option<&str>) -> (r: String)
    ensures
        name_fits(path@, text::str_view(contents), r@),
{
    let name = path_file_name(path);
    proof {
        let seen = text::string_view(name);
        assert(platform_text::may_be_named(path@, seen));
        if platform_text::is_portable(path@) {
            platform_text::lemma_portable_name(path@, seen);
        }
        if has_extension(path@) {
            lemma_name_has_the_extension(path@, seen);
        }
    }
    display_name_of(as_text(&name), contents)
}

/// A message of two fixed parts, each with a text behind it.
fn two_part_message(first: &str, a: &str, second: &str, b: &str) -> (r: String)
    ensures
        r@ == first@ + a@ + second@ + b@,
{
    let mut m = first.to_owned();
    m.append(a);
    m.append(second);
    m.append(b);
    m
}

/// A message of a fixed part with a text behind it.
pub(crate) fn message(first: &str, a: &str) -> (r: String)
    ensures
        r@ == first@ + a@,
{
    let mut m = first.to_owned();
    m.append(a);
    m
}

/// What was read from a file is short enough for its base64 form to fit memory.
pub open spec fn fits_base64(read: Result<Vec<u8>, String>) -> bool {
    read matches Ok(bytes) ==> outside::base64_len(bytes@.len()) <= isize::MAX
}

/// Whether so many bytes are few enough for their base64 form to fit memory.
pub fn can_be_encoded(len: usize) -> (r: bool)
    ensures
        r == (outside::base64_len(len as nat) <= isize::MAX),
{
    let triples: u128 = (len as u128 + 2) / 3;
    4 * triples <= isize::MAX as u128
}

/// Puts what was read from a file into base64.
pub fn file_to_base64(path: &str, read: Result<Vec<u8>, String>) -> (r: Result<String, String>)
    requires
        fits_base64(read),
    ensures
        match read {
            Ok(bytes) => {
                &&& r matches Ok(t)
                &&& t@ == outside::base64_text(bytes@)
                &&& t@.len() == outside::base64_len(bytes@.len())
                &&& outside::is_base64(t@)
            },
            Err(e) => r matches Err(m) && m@ == "Failed to read file "@ + path@ + ": "@ + e@,
        },
{
    match read {
        Ok(bytes) => {
            proof {
                outside::lemma_base64_text(bytes@);
            }
            Ok(encode_base64(bytes.as_slice()))
        },
        Err(e) => Err(two_part_message("Failed to read file ", path, ": ", e.as_str())),
    }
}

/// The answer for the wallpaper at a path, whose file has this name: the image where it was read,
/// and otherwise what went wrong. `read` is what came of reading the file, none where there is no
/// such file.
pub fn wallpaper_info(
    path: String,
    name: Option<&str>,
    read: Option<Result<Vec<u8>, String>>,
) -> (r: Result<WallpaperInfo, String>)
    requires
        read matches Some(contents) ==> fits_base64(contents),
    ensures
        match read {
            Some(Ok(bytes)) => {
                &&& r matches Ok(info)
                &&& info.path == path
                &&& info.image_base64@ == outside::base64_text(bytes@)
                &&& info.mime_type@ == mime_of(extension_of(text::str_view(name)))
            },
            Some(Err(e)) => r matches Err(m) && m@ == "Failed to read file "@ + path@ + ": "@ + e@,
            None => r matches Err(m) && m@ == "Wallpaper file does not exist: "@ + path@,
        },
{
    let contents = match read {
        Some(contents) => contents,
        None => return Err(message("Wallpaper file does not exist: ", path.as_str())),
    };
    let mime_type = mime_from_name(name);
    match file_to_base64(path.as_str(), contents) {
        Ok(image_base64) => Ok(
            WallpaperInfo { path, image_base64, mime_type: mime_type.to_owned() },
        ),
        Err(e) => Err(e),
    }
}

/// The answer for the wallpaper at a path. `read` is what came of reading the file, none where
/// there is no such file.
pub fn get_os_wallpaper(path: String, read: Option<Result<Vec<u8>, String>>) -> (r: Result<
    WallpaperInfo,
    String,
>)
    requires
        read matches Some(contents) ==> fits_base64(contents),
    ensures
        match read {
            Some(Ok(bytes)) => {
                &&& r matches Ok(info)
                &&& info.path == path
                &&& info.image_base64@ == outside::base64_text(bytes@)
                &&& mime_fits(path@, info.mime_type@)
            },
            Some(Err(e)) => r matches Err(m) && m@ == "Failed to read file "@ + path@ + ": "@ + e@,
            None => r matches Err(m) && m@ == "Wallpaper file does not exist: "@ + path@,
        },
{
    let name = path_file_name(path.as_str());
    proof {
        lemma_mime_fits(path@, text::string_view(name));
    }
    wallpaper_info(path, as_text(&name), read)
}

/// What the platform said of one entry of the desktop directory.
#[derive(Debug)]
pub struct DesktopEntry {
    /// None where the name is no text.
    pub file_name: Option<String>,
    pub path: String,
    pub is_directory: bool,
    /// What the file holds, where that was asked and could be read.
    pub contents: Option<String>,
    /// The picture in base64, or why there is none.
    pub icon: Result<String, String>,
}

/// What a [`DesktopIcon`] holds.
pub struct IconView {
    pub name: Seq<char>,
    pub icon_base64: Seq<char>,
    pub exec_path: Seq<char>,
    pub is_directory: bool,
}

impl View for DesktopIcon {
    type V = IconView;

    open spec fn view(&self) -> IconView {
        IconView {
            name: self.name@,
            icon_base64: self.icon_base64@,
            exec_path: self.exec_path@,
            is_directory: self.is_directory,
        }
    }
}

/// An item that is shown: one with a name that does not begin with a dot.
pub open spec fn is_shown(name: Option<Seq<char>>) -> bool {
    name matches Some(n) && !text::begins_with(n, "."@)
}

/// Whether an item is shown.
pub fn shown_on_desktop(name: Option<&str>) -> (r: bool)
    ensures
        r == is_shown(text::str_view(name)),
{
    match name {
        Some(n) => !starts_with(n, "."),
        None => false,
    }
}

/// The item that an entry stands for.
pub open spec fn icon_of(entry: DesktopEntry) -> IconView {
    IconView {
        name: shown_name(text::string_view(entry.file_name), text::string_view(entry.contents)),
        icon_base64: match entry.icon {
            Ok(picture) => picture@,
            Err(_) => Seq::empty(),
        },
        exec_path: entry.path@,
        is_directory: entry.is_directory,
    }
}

/// The items that are shown, in the order of their entries.
pub open spec fn icons_of(entries: Seq<DesktopEntry>) -> Seq<IconView>
    decreases entries.len(),
{
    if entries.len() == 0 {
        Seq::empty()
    } else {
        let before = icons_of(entries.drop_last());
        if is_shown(text::string_view(entries.last().file_name)) {
            before.push(icon_of(entries.last()))
        } else {
            before
        }
    }
}

/// The views of several items.
pub open spec fn icon_views(v: Seq<DesktopIcon>) -> Seq<IconView> {
    v.map_values(|i: DesktopIcon| i@)
}

fn as_text(s: &Option<String>) -> (r: Option<&str>)
    ensures
        text::str_view(r) == text::string_view(*s),
{
    match s {
        Some(s) => Some(s.as_str()),
        None => None,
    }
}

fn desktop_icon(entry: &DesktopEntry) -> (r: DesktopIcon)
    ensures
        r@ == icon_of(*entry),
{
    let icon_base64 = match &entry.icon {
        Ok(picture) => picture.clone(),
        Err(_) => String::new(),
    };
    DesktopIcon {
        name: display_name_of(as_text(&entry.file_name), as_text(&entry.contents)),
        icon_base64,
        exec_path: entry.path.clone(),
        is_directory: entry.is_directory,
    }
}

fn add_icons(icons: &mut Vec<DesktopIcon>, entries: &Vec<DesktopEntry>)
    ensures
        icon_views(final(icons)@) == icon_views(old(icons)@) + icons_of(entries@),
{
    let ghost first = icon_views(icons@);
    let mut i: usize = 0;
    assert(first + icons_of(entries@.take(0)) =~= first);
    while i < entries.len()
        invariant
            i <= entries@.len(),
            icon_views(icons@) =~= first + icons_of(entries@.take(i as int)),
        decreases entries@.len() - i,
    {
        assert(entries@.take(i + 1).drop_last() =~= entries@.take(i as int));
        assert(entries@.take(i + 1).last() == entries@[i as int]);
        if shown_on_desktop(as_text(&entries[i].file_name)) {
            let icon = desktop_icon(&entries[i]);
            let ghost before = icons@;
            icons.push(icon);
            assert(icon_views(icons@) =~= icon_views(before).push(icon@));
        }
        i += 1;
    }
    assert(entries@.take(i as int) =~= entries@);
}

/// What the platform said of the desktop directory.
#[derive(Debug)]
pub enum DesktopListing {
    /// It is not known where the directory is.
    Unknown,
    /// There is no directory at this path.
    Missing { path: String },
    /// The directory could not be read.
    Unreadable { reason: String },
    /// These are its entries.
    Entries { entries: Vec<DesktopEntry> },
}

/// Lists the items on the desktop: those of the user, then those that all users share.
pub fn get_desktop_icons(own: DesktopListing, shared: Vec<DesktopEntry>) -> (r: Result<
    Vec<DesktopIcon>,
    String,
>)
    ensures
        match own {
            DesktopListing::Unknown => r matches Err(m) && m@
                == "Could not find Desktop directory"@,
            DesktopListing::Missing { path } => r matches Err(m) && m@
                == "Desktop directory does not exist: "@ + path@,
            DesktopListing::Unreadable { reason } => r matches Err(m) && m@
                == "Failed to read desktop directory: "@ + reason@,
            DesktopListing::Entries { entries } => r matches Ok(icons) && icon_views(icons@)
                == icons_of(entries@) + icons_of(shared@),
        },
{
    match own {
        DesktopListing::Unknown => Err("Could not find Desktop directory".to_owned()),
        DesktopListing::Missing { path } => Err(
            message("Desktop directory does not exist: ", path.as_str()),
        ),
        DesktopListing::Unreadable { reason } => Err(
            message("Failed to read desktop directory: ", reason.as_str()),
        ),
        DesktopListing::Entries { entries } => {
            let mut icons: Vec<DesktopIcon> = Vec::new();
            assert(icon_views(icons@) =~= Seq::empty());
            add_icons(&mut icons, &entries);
            add_icons(&mut icons, &shared);
            assert(icon_views(icons@) =~= icons_of(entries@) + icons_of(shared@));
            Ok(icons)
        },
    }
}

/// Leaving out the entries that are not shown changes nothing.
pub proof fn lemma_hidden_entries_do_not_matter(entries: Seq<DesktopEntry>)
    ensures
        icons_of(entries.filter(|e: DesktopEntry| is_shown(text::string_view(e.file_name)))) == icons_of(
            entries,
        ),
    decreases entries.len(),
{
    let p = |e: DesktopEntry| is_shown(text::string_view(e.file_name));
    reveal(Seq::filter);
    if entries.len() > 0 {
        lemma_hidden_entries_do_not_matter(entries.drop_last());
        let kept = entries.drop_last().filter(p);
        if p(entries.last()) {
            assert(kept.push(entries.last()).drop_last() =~= kept);
        }
    }
}

/// No item whose name begins with a dot is listed.
pub proof fn lemma_every_icon_has_a_shown_entry(entries: Seq<DesktopEntry>, i: int)
    requires
        0 <= i < icons_of(entries).len(),
    ensures
        exists|k: int|
            0 <= k < entries.len() && is_shown(text::string_view((#[trigger] entries[k]).file_name))
                && icons_of(entries)[i] == icon_of(entries[k]),
    decreases entries.len(),
{
    let rest = entries.drop_last();
    if i < icons_of(rest).len() {
        lemma_every_icon_has_a_shown_entry(rest, i);
        let k = choose|k: int|
            0 <= k < rest.len() && is_shown(text::string_view((#[trigger] rest[k]).file_name)) && icons_of(
                rest,
            )[i] == icon_of(rest[k]);
        assert(entries[k] == rest[k]);
    } else {
        assert(entries[entries.len() - 1] == entries.last());
    }
}

/// How opening an item went.
#[derive(Debug)]
pub enum OpenReply {
    /// There is nothing at the path, and nothing was opened.
    Missing,
    Opened,
    Failed { reason: String },
}

/// Reports how opening an item went.
pub fn open_desktop_item(path: &str, reply: OpenReply) -> (r: Result<(), String>)
    ensures
        match reply {
            OpenReply::Missing => r matches Err(m) && m@ == "Path does not exist: "@ + path@,
            OpenReply::Opened => r is Ok,
            OpenReply::Failed { reason } => r matches Err(m) && m@ == "Failed to open item: "@
                + reason@,
        },
{
    match reply {
        OpenReply::Missing => Err(message("Path does not exist: ", path)),
        OpenReply::Opened => Ok(()),
        OpenReply::Failed { reason } => Err(message("Failed to open item: ", reason.as_str())),
    }
}

/// The type that goes with each ending, and with none of them.
pub proof fn lemma_types_by_extension(e: Seq<char>)
    ensures
        mime_of(Some("png"@)) == "image/png"@,
        mime_of(Some("jpg"@)) == "image/jpeg"@,
        mime_of(Some("jpeg"@)) == "image/jpeg"@,
        mime_of(Some("bmp"@)) == "image/bmp"@,
        mime_of(Some("webp"@)) == "image/webp"@,
        mime_of(Some("gif"@)) == "image/gif"@,
        mime_of(Some("tiff"@)) == "image/tiff"@,
        mime_of(Some("tif"@)) == "image/tiff"@,
        mime_of(None) == "image/png"@,
        ({
            &&& e != "png"@
            &&& e != "jpg"@
            &&& e != "jpeg"@
            &&& e != "bmp"@
            &&& e != "webp"@
            &&& e != "gif"@
            &&& e != "tiff"@
            &&& e != "tif"@
        }) ==> mime_of(Some(e)) == "image/png"@,
{
    reveal_strlit("png");
    reveal_strlit("jpg");
    reveal_strlit("jpeg");
    reveal_strlit("bmp");
    reveal_strlit("webp");
    reveal_strlit("gif");
    reveal_strlit("tiff");
    reveal_strlit("tif");
    assert("png"@.len() == 3 && "png"@[0] == 'p');
    assert("jpg"@.len() == 3 && "jpg"@[0] == 'j');
    assert("jpeg"@.len() == 4 && "jpeg"@[0] == 'j');
    assert("bmp"@.len() == 3 && "bmp"@[0] == 'b');
    assert("webp"@.len() == 4 && "webp"@[0] == 'w');
    assert("gif"@.len() == 3 && "gif"@[0] == 'g');
    assert("tiff"@.len() == 4 && "tiff"@[0] == 't');
    assert("tif"@.len() == 3 && "tif"@[0] == 't');
}

/// A file whose name ends with a dot and an ending has the type that goes with the ending, whatever
/// stands before it; a file without an ending counts as the common type.
pub proof fn lemma_type_by_ending(stem: Seq<char>, ending: Seq<char>)
    requires
        stem.len() > 0,
        !ending.contains('.'),
    ensures
        mime_of(extension_of(Some(stem + seq!['.'] + ending))) == mime_of(Some(ending)),
        !stem.contains('.') ==> mime_of(extension_of(Some(stem))) == "image/png"@,
        mime_of(extension_of(None)) == "image/png"@,
{
    file_name::lemma_ending_is_the_extension(stem, ending);
    if !stem.contains('.') {
        text::lemma_unsplit(stem, '.');
    }
    lemma_types_by_extension(ending);
}

/// An item is called by its file name without the ending, or by the whole name where there is no
/// ending. A description is called by the first name that it gives, and one that gives none, or
/// could not be read, by its file name. An item without a name is called unknown.
pub proof fn lemma_what_items_are_called(
    stem: Seq<char>,
    ending: Seq<char>,
    contents: Option<Seq<char>>,
)
    requires
        stem.len() > 0,
        !ending.contains('.'),
    ensures
        ({
            let name = Some(stem + seq!['.'] + ending);
            &&& ending != "desktop"@ ==> shown_name(name, contents) == stem
            &&& given_names(contents).len() == 0 ==> shown_name(name, contents) == stem
            &&& ending == "desktop"@ && given_names(contents).len() > 0 ==> shown_name(
                name,
                contents,
            ) == given_names(contents)[0]
        }),
        !stem.contains('.') ==> shown_name(Some(stem), contents) == stem,
        shown_name(None, contents) == "Unknown"@,
{
    file_name::lemma_ending_is_the_extension(stem, ending);
    if !stem.contains('.') {
        text::lemma_unsplit(stem, '.');
    }
}

/// The names that a description gives stand behind `Name=`, each in a line of its own, and come in
/// the order of the lines. A description that could not be read gives none.
pub proof fn lemma_given_names(line: Seq<char>, name: Seq<char>, rest: Seq<char>)
    requires
        !line.contains('\n') && !(line.len() > 0 && line.last() == '\r'),
    ensures
        line == "Name="@ + name ==> given_names(Some(line + seq!['\n'] + rest)) == seq![name]
            + given_names(Some(rest)),
        !text::begins_with(line, "Name="@) ==> given_names(Some(line + seq!['\n'] + rest))
            == given_names(Some(rest)),
        given_names(None).len() == 0,
{
    let prefix = "Name="@;
    let none = Seq::<Seq<char>>::empty();
    text::lemma_lines(line, rest);
    text::lemma_fields_of_both(seq![line], text::lines(rest), prefix);
    assert(none.push(line) =~= seq![line]);
    if line == prefix + name {
        text::lemma_fields(none, name, prefix);
        assert(text::fields(seq![line], prefix) =~= seq![name]);
    }
    if !text::begins_with(line, prefix) {
        text::lemma_fields(none, line, prefix);
        assert(given_names(Some(line + seq!['\n'] + rest)) =~= given_names(Some(rest)));
    }
}

/// An item is shown exactly if it has a name, and the name does not begin with a dot.
pub proof fn lemma_which_items_are_shown(name: Seq<char>)
    ensures
        is_shown(Some(name)) <==> !(name.len() > 0 && name[0] == '.'),
        !is_shown(None),
{
    reveal_strlit(".");
    if name.len() > 0 {
        assert(name.take(1)[0] == name[0]);
        if name[0] == '.' {
            assert(name.take(1) =~= "."@);
        }
    }
}

/// What is shown of an item: its name, its path, whether it is a folder, and its picture, which is
/// empty where there is none.
pub proof fn lemma_what_is_shown_of_an_item(entry: DesktopEntry)
    ensures
        ({
            let icon = icon_of(entry);
            &&& icon.name == shown_name(
                text::string_view(entry.file_name),
                text::string_view(entry.contents),
            )
            &&& icon.exec_path == entry.path@
            &&& icon.is_directory == entry.is_directory
            &&& entry.icon matches Ok(picture) ==> icon.icon_base64 == picture@
            &&& entry.icon is Err ==> icon.icon_base64.len() == 0
        }),
{
}

/// The items of two lots of entries are those of the first, then those of the second. One entry
/// gives its item where it is shown, and nothing where it is not.
pub proof fn lemma_items_of_both(a: Seq<DesktopEntry>, b: Seq<DesktopEntry>, entry: DesktopEntry)
    ensures
        icons_of(a + b) == icons_of(a) + icons_of(b),
        is_shown(text::string_view(entry.file_name)) ==> icons_of(seq![entry]) == seq![
            icon_of(entry),
        ],
        !is_shown(text::string_view(entry.file_name)) ==> icons_of(seq![entry]).len() == 0,
    decreases b.len(),
{
    assert(seq![entry].drop_last() =~= Seq::empty());
    assert(icons_of(Seq::empty()) =~= Seq::empty());
    assert(Seq::empty().push(icon_of(entry)) =~= seq![icon_of(entry)]);
    if b.len() == 0 {
        assert(a + b =~= a);
        assert(icons_of(a) + icons_of(b) =~= icons_of(a));
    } else {
        lemma_items_of_both(a, b.drop_last(), entry);
        assert((a + b).drop_last() =~= a + b.drop_last());
        assert(icons_of(a + b) =~= icons_of(a) + icons_of(b));
    }
}

proof fn lemma_portable_file(dir: Seq<char>, stem: Seq<char>, ending: Seq<char>)
    requires
        stem.len() > 0 && ending.len() > 0,
        !ending.contains('.'),
        !stem.contains('/') && !ending.contains('/'),
        platform_text::is_portable(dir + seq!['/'] + (stem + seq!['.'] + ending)),
    ensures
        name_in_path(dir + seq!['/'] + (stem + seq!['.'] + ending)) == Some(
            stem + seq!['.'] + ending,
        ),
        file_name::extension(stem + seq!['.'] + ending) == Some(ending),
        file_name::stem(stem + seq!['.'] + ending) == stem,
{
    let name = stem + seq!['.'] + ending;
    file_name::lemma_ending_is_the_extension(stem, ending);
    assert(!name.contains('/')) by {
        if name.contains('/') {
            let i = choose|i: int| 0 <= i < name.len() && name[i] == '/';
            if i < stem.len() {
                assert(stem[i] == '/');
            } else if i > stem.len() {
                assert(ending[i - stem.len() - 1] == '/');
            } else {
                assert(name[i] == '.');
            }
        }
    }
    text::lemma_unsplit(name, '/');
    text::lemma_split_at_separator(dir, name, '/');
    let parts = text::split(dir + seq!['/'] + name, '/');
    assert(parts.last() == name);
    assert(name.len() >= 3);
}

/// The type of an image goes by the ending of its path, whatever directory it lies in: a type that
/// fits a portable path is the one that goes with the ending.
pub proof fn lemma_type_of_a_path(
    dir: Seq<char>,
    stem: Seq<char>,
    ending: Seq<char>,
    mime: Seq<char>,
)
    requires
        stem.len() > 0 && ending.len() > 0,
        !ending.contains('.'),
        !stem.contains('/') && !ending.contains('/'),
        platform_text::is_portable(dir + seq!['/'] + (stem + seq!['.'] + ending)),
        mime_fits(dir + seq!['/'] + (stem + seq!['.'] + ending), mime),
    ensures
        mime == mime_of(Some(ending)),
{
    lemma_portable_file(dir, stem, ending);
}

/// An item is called by its file name without the ending, whatever directory it lies in, unless it
/// is a description that gives a name.
pub proof fn lemma_name_of_a_path(
    dir: Seq<char>,
    stem: Seq<char>,
    ending: Seq<char>,
    contents: Option<Seq<char>>,
    shown: Seq<char>,
)
    requires
        stem.len() > 0 && ending.len() > 0,
        !ending.contains('.'),
        !stem.contains('/') && !ending.contains('/'),
        platform_text::is_portable(dir + seq!['/'] + (stem + seq!['.'] + ending)),
        name_fits(dir + seq!['/'] + (stem + seq!['.'] + ending), contents, shown),
    ensures
        ending != "desktop"@ || given_names(contents).len() == 0 ==> shown == stem,
        ending == "desktop"@ && given_names(contents).len() > 0 ==> shown == given_names(
            contents,
        )[0],
{
    lemma_portable_file(dir, stem, ending);
}

/// The views of items are as many as the items, each what the item at its place holds.
pub proof fn lemma_icon_views(icons: Seq<DesktopIcon>)
    ensures
        icon_views(icons).len() == icons.len(),
        forall|i: int|
            0 <= i < icons.len() ==> {
                &&& (#[trigger] icon_views(icons)[i]).name == icons[i].name@
                &&& icon_views(icons)[i].icon_base64 == icons[i].icon_base64@
                &&& icon_views(icons)[i].exec_path == icons[i].exec_path@
                &&& icon_views(icons)[i].is_directory == icons[i].is_directory
            },
{
}

/// On every platform alike, an image has the type that goes with the ending of its path, and an
/// item a name that ends with its stem, or the name that its description gives, whichever separator
/// stands before the file name. Only a path that begins with two slashes or backslashes may lead to
/// a share instead.
pub proof fn lemma_file_by_its_ending(
    dir: Seq<char>,
    sep: char,
    stem: Seq<char>,
    ending: Seq<char>,
    mime: Seq<char>,
    contents: Option<Seq<char>>,
    shown: Seq<char>,
)
    requires
        sep == '/' || sep == '\\' || sep == ':',
        stem.len() > 0 && ending.len() > 0,
        !ending.contains('.'),
        ({
            let name = stem + seq!['.'] + ending;
            let path = dir + seq![sep] + name;
            &&& !name.contains('/') && !name.contains('\\') && !name.contains(':')
            &&& path[0] != '/' && path[0] != '\\' || path[1] != '/' && path[1] != '\\'
            &&& mime_fits(path, mime)
            &&& name_fits(path, contents, shown)
        }),
    ensures
        mime == mime_of(Some(ending)),
        ending == "desktop"@ && given_names(contents).len() > 0 ==> shown == given_names(
            contents,
        )[0],
        ending != "desktop"@ || given_names(contents).len() == 0 ==> text::ends_in(shown, stem),
{
    let name = stem + seq!['.'] + ending;
    let path = dir + seq![sep] + name;
    file_name::lemma_ending_is_the_extension(stem, ending);
    platform_text::lemma_tail_is_the_name(dir, sep, name);
    assert(name.len() >= 3);
    assert(platform_text::slashed(path)[0] == '/' ==> path[0] == '/' || path[0] == '\\');
    assert(platform_text::slashed(path)[1] == '/' ==> path[1] == '/' || path[1] == '\\');
    assert(platform_text::names_a_file(path));
}

} // verus!
