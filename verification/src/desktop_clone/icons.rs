//! Pictures for the items on the desktop.

use vstd::prelude::*;
use vstd::string::*;

use super::search;
use super::search::PathQueue;
use super::wallpaper;
use super::wallpaper::unquote;
use super::{file_to_base64, is_desktop_entry, message};
use crate::outside;
use crate::platform_text;
use crate::platform_text::utf8_lossy;
use crate::text;
use crate::text::{ends_with, fields_of, starts_with, trim, Trim};

verus! {

/// Names of the directories for the sizes of an icon theme, in the order of preference.
pub open spec fn size_name(i: int) -> Seq<char> {
    if i == 0 {
        "48x48"@
    } else if i == 1 {
        "64x64"@
    } else if i == 2 {
        "32x32"@
    } else {
        "scalable"@
    }
}

/// Names of the directories for the categories of an icon theme, in the order of preference.
pub open spec fn category_name(i: int) -> Seq<char> {
    if i == 0 {
        "apps"@
    } else if i == 1 {
        "places"@
    } else if i == 2 {
        "mimetypes"@
    } else if i == 3 {
        "devices"@
    } else {
        "actions"@
    }
}

/// The path of an icon of a theme: the categories of a size come one after the other.
pub open spec fn themed_path(base: Seq<char>, name: Seq<char>, i: int) -> Seq<char> {
    base + "/"@ + size_name(i / 5) + "/"@ + category_name(i % 5) + "/"@ + name + ".png"@
}

/// The paths at which an icon may lie under a directory. In a theme drawings are passed over, since
/// one would have to be rendered; among loose pictures a drawing ends the search too.
pub open spec fn paths_under(base: Seq<char>, name: Seq<char>) -> Seq<Seq<char>> {
    if text::ends_in(base, "pixmaps"@) {
        seq![base + "/"@ + name + ".png"@, base + "/"@ + name + ".svg"@]
    } else {
        Seq::new(20, |i: int| themed_path(base, name, i))
    }
}

/// The directory of a theme that all users share.
pub open spec fn shared_theme_dir(theme: Seq<char>) -> Seq<char> {
    "/usr/share/icons/"@ + theme
}

/// The directory of a theme of the user.
pub open spec fn own_theme_dir(home: Seq<char>, theme: Seq<char>) -> Seq<char> {
    home + "/.local/share/icons/"@ + theme
}

/// The paths at which an icon may lie, in the order of preference.
pub open spec fn icon_candidates(name: Seq<char>, theme: Seq<char>, home: Seq<char>) -> Seq<
    Seq<char>,
> {
    paths_under(shared_theme_dir(theme), name) + paths_under("/usr/share/icons/hicolor"@, name)
        + paths_under(own_theme_dir(home, theme), name) + paths_under("/usr/share/pixmaps"@, name)
}

fn add_paths_under(paths: &mut Vec<String>, base: &str, name: &str)
    ensures
        text::string_views(final(paths)@) == text::string_views(old(paths)@) + paths_under(
            base@,
            name@,
        ),
{
    let ghost first = text::string_views(paths@);
    if ends_with(base, "pixmaps") {
        let mut png = base.to_owned();
        png.append("/");
        png.append(name);
        png.append(".png");
        let mut svg = base.to_owned();
        svg.append("/");
        svg.append(name);
        svg.append(".svg");
        paths.push(png);
        paths.push(svg);
        assert(text::string_views(paths@) =~= first + paths_under(base@, name@));
        return;
    }
    let sizes: [&str; 4] = ["48x48", "64x64", "32x32", "scalable"];
    let categories: [&str; 5] = ["apps", "places", "mimetypes", "devices", "actions"];
    let ghost all = paths_under(base@, name@);
    let mut i: usize = 0;
    assert(text::string_views(paths@) =~= first + all.take(0));
    while i < 20
        invariant
            i <= 20,
            all == Seq::new(20, |i: int| themed_path(base@, name@, i)),
            sizes@.len() == 4,
            categories@.len() == 5,
            forall|k: int| 0 <= k < 4 ==> #[trigger] sizes@[k]@ == size_name(k),
            forall|k: int| 0 <= k < 5 ==> #[trigger] categories@[k]@ == category_name(k),
            text::string_views(paths@) =~= first + all.take(i as int),
        decreases 20 - i,
    {
        let size = sizes[i / 5];
        let category = categories[i % 5];
        let mut path = base.to_owned();
        path.append("/");
        path.append(size);
        path.append("/");
        path.append(category);
        path.append("/");
        path.append(name);
        path.append(".png");
        assert(path@ == themed_path(base@, name@, i as int));
        let ghost before = paths@;
        paths.push(path);
        assert(text::string_views(paths@) =~= text::string_views(before).push(path@));
        assert(all.take(i + 1) =~= all.take(i as int).push(all[i as int]));
        i += 1;
    }
    assert(all.take(20) =~= all);
}

/// Lists the paths at which an icon may lie.
pub fn icon_paths(name: &str, theme: &str, home: &str) -> (r: Vec<String>)
    ensures
        text::string_views(r@) == icon_candidates(name@, theme@, home@),
{
    let mut paths: Vec<String> = Vec::new();
    assert(text::string_views(paths@) =~= Seq::empty());
    let mut shared = "/usr/share/icons/".to_owned();
    shared.append(theme);
    let mut own = home.to_owned();
    own.append("/.local/share/icons/");
    own.append(theme);
    add_paths_under(&mut paths, shared.as_str(), name);
    add_paths_under(&mut paths, "/usr/share/icons/hicolor", name);
    add_paths_under(&mut paths, own.as_str(), name);
    add_paths_under(&mut paths, "/usr/share/pixmaps", name);
    assert(text::string_views(paths@) =~= icon_candidates(name@, theme@, home@));
    paths
}

/// The icon theme by what the program that prints the setting said, as text.
pub open spec fn theme_in(setting: Option<Seq<char>>) -> Seq<char> {
    match setting {
        Some(s) => wallpaper::unquoted(wallpaper::bare(s)),
        None => "hicolor"@,
    }
}

/// The icon theme by what the program that prints the setting said, if it succeeded.
pub open spec fn theme_of(output: Option<Seq<u8>>) -> Seq<char> {
    theme_in(
        match output {
            Some(bytes) => Some(platform_text::utf8_lossy_text(bytes)),
            None => None,
        },
    )
}

/// Reads the icon theme off its setting.
pub fn theme_in_setting(setting: Option<&str>) -> (r: String)
    ensures
        r@ == theme_in(text::str_view(setting)),
{
    match setting {
        Some(s) => unquote(trim(s, Trim::White)).to_owned(),
        None => "hicolor".to_owned(),
    }
}

/// Reads the icon theme off what the program that prints the setting said.
pub fn icon_theme(output: Option<Vec<u8>>) -> (r: String)
    ensures
        r@ == theme_of(wallpaper::bytes_view(output)),
        output matches Some(bytes) && vstd::utf8::valid_utf8(bytes@) ==> r@ == theme_in(
            Some(vstd::utf8::decode_utf8(output->0@)),
        ),
{
    match output {
        Some(bytes) => {
            let setting = utf8_lossy(bytes.as_slice());
            let known = Some(setting.as_str());
            assert(text::str_view(known) == Some(setting@));
            theme_in_setting(known)
        },
        None => theme_in_setting(None),
    }
}

/// How far a search for an icon has come.
#[derive(Clone, Copy, PartialEq, Eq, Debug, Structural)]
pub enum IconStage {
    /// The name is tried as a path.
    Direct,
    /// The theme is asked for.
    Theme,
    /// The directories of the theme are tried.
    Listed,
}

/// A search for an icon.
#[derive(Debug)]
pub struct IconSearch {
    name: String,
    stage: IconStage,
    queue: PathQueue,
}

/// What an [`IconSearch`] holds.
pub struct IconSearchView {
    pub name: Seq<char>,
    pub stage: IconStage,
    pub left: Seq<Seq<char>>,
}

impl View for IconSearch {
    type V = IconSearchView;

    closed spec fn view(&self) -> IconSearchView {
        IconSearchView { name: self.name@, stage: self.stage, left: self.queue@ }
    }
}

/// What came of the last step of a search.
#[derive(Debug)]
pub enum IconReply {
    /// The search begins.
    Started,
    /// What the program printed that prints the theme, if it succeeded, and the home directory.
    Theme { output: Option<Vec<u8>>, home: String },
    /// Whether there is a file.
    Tested { found: bool },
}

/// What an [`IconReply`] holds.
pub enum IconReplyView {
    Started,
    Theme { output: Option<Seq<u8>>, home: Seq<char> },
    Tested { found: bool },
}

impl View for IconReply {
    type V = IconReplyView;

    open spec fn view(&self) -> IconReplyView {
        match *self {
            IconReply::Started => IconReplyView::Started,
            IconReply::Theme { output, home } => IconReplyView::Theme {
                output: wallpaper::bytes_view(output),
                home: home@,
            },
            IconReply::Tested { found } => IconReplyView::Tested { found },
        }
    }
}

/// The next step of a search.
#[derive(Debug)]
pub enum IconStep {
    /// Find out whether there is a file.
    TestPath { path: String },
    /// Ask for the icon theme.
    ReadTheme,
    /// The search has ended: this file holds the picture, or there is none.
    Ended { result: Result<String, String> },
    /// The reply does not belong to the step.
    Nothing,
}

/// What an [`IconStep`] holds.
pub enum IconStepView {
    TestPath { path: Seq<char> },
    ReadTheme,
    Found { path: Seq<char> },
    NotFound { message: Seq<char> },
    Nothing,
}

impl View for IconStep {
    type V = IconStepView;

    open spec fn view(&self) -> IconStepView {
        match *self {
            IconStep::TestPath { path } => IconStepView::TestPath { path: path@ },
            IconStep::ReadTheme => IconStepView::ReadTheme,
            IconStep::Ended { result: Ok(path) } => IconStepView::Found { path: path@ },
            IconStep::Ended { result: Err(message) } => IconStepView::NotFound {
                message: message@,
            },
            IconStep::Nothing => IconStepView::Nothing,
        }
    }
}

/// A search after a step, and that step.
pub struct IconOutcome {
    pub search: IconSearchView,
    pub step: IconStepView,
}

/// What a search ends with where there is no such icon.
pub open spec fn no_icon(name: Seq<char>) -> IconStepView {
    IconStepView::NotFound { message: "Icon '"@ + name + "' not found in any theme directory"@ }
}

/// Goes on with the paths of the theme that are left.
pub open spec fn listed(search: IconSearchView) -> IconOutcome {
    if search.left.len() > 0 {
        IconOutcome { search, step: IconStepView::TestPath { path: search.left[0] } }
    } else {
        IconOutcome { search, step: no_icon(search.name) }
    }
}

/// Goes on with asking for the theme.
pub open spec fn asking_theme(name: Seq<char>) -> IconOutcome {
    IconOutcome {
        search: IconSearchView { name, stage: IconStage::Theme, left: Seq::empty() },
        step: IconStepView::ReadTheme,
    }
}

/// What follows from a reply.
pub open spec fn icon_outcome(search: IconSearchView, reply: IconReplyView) -> IconOutcome {
    match reply {
        IconReplyView::Started => if text::begins_with(search.name, "/"@) {
            IconOutcome {
                search: IconSearchView {
                    name: search.name,
                    stage: IconStage::Direct,
                    left: seq![search.name],
                },
                step: IconStepView::TestPath { path: search.name },
            }
        } else {
            asking_theme(search.name)
        },
        IconReplyView::Tested { found } if search.left.len() > 0 => if found {
            IconOutcome { search, step: IconStepView::Found { path: search.left[0] } }
        } else if search.stage == IconStage::Direct {
            asking_theme(search.name)
        } else {
            listed(IconSearchView { left: search.left.skip(1), ..search })
        },
        IconReplyView::Theme { output, home } if search.stage == IconStage::Theme => listed(
            IconSearchView {
                name: search.name,
                stage: IconStage::Listed,
                left: icon_candidates(search.name, theme_of(output), home),
            },
        ),
        _ => IconOutcome { search, step: IconStepView::Nothing },
    }
}

impl IconSearch {
    /// A search that has not begun, for an icon of this name or at this path.
    pub fn new(name: String) -> (r: IconSearch)
        ensures
            r@ == (IconSearchView {
                name: name@,
                stage: IconStage::Direct,
                left: Seq::empty(),
            }),
    {
        let r = IconSearch {
            name,
            stage: IconStage::Direct,
            queue: PathQueue::new(Vec::new()),
        };
        assert(r@.left =~= Seq::empty());
        r
    }

    fn ask_theme(&mut self) -> (r: IconStep)
        ensures
            final(self)@ == asking_theme(old(self)@.name).search,
            r@ == asking_theme(old(self)@.name).step,
    {
        self.stage = IconStage::Theme;
        self.queue = PathQueue::new(Vec::new());
        assert(self@.left =~= Seq::empty());
        IconStep::ReadTheme
    }

    fn go_on(&self) -> (r: IconStep)
        ensures
            self@ == listed(self@).search,
            r@ == listed(self@).step,
    {
        match self.queue.front() {
            Some(path) => IconStep::TestPath { path },
            None => {
                let mut m = "Icon '".to_owned();
                m.append(self.name.as_str());
                m.append("' not found in any theme directory");
                IconStep::Ended { result: Err(m) }
            },
        }
    }

    /// Looks for an icon, step by step: the caller does what the step says and hands back what
    /// came of it.
    pub fn find_linux_icon(&mut self, reply: IconReply) -> (r: IconStep)
        ensures
            final(self)@ == icon_outcome(old(self)@, reply@).search,
            r@ == icon_outcome(old(self)@, reply@).step,
    {
        let front = self.queue.front();
        match (reply, front) {
            (IconReply::Started, _) => {
                if !starts_with(self.name.as_str(), "/") {
                    return self.ask_theme();
                }
                let mut direct: Vec<String> = Vec::new();
                direct.push(self.name.clone());
                self.stage = IconStage::Direct;
                self.queue = PathQueue::new(direct);
                assert(self@.left =~= seq![self@.name]);
                IconStep::TestPath { path: self.name.clone() }
            },
            (IconReply::Tested { found }, Some(path)) => {
                if found {
                    return IconStep::Ended { result: Ok(path) };
                }
                if self.stage == IconStage::Direct {
                    return self.ask_theme();
                }
                self.queue.drop_front();
                self.go_on()
            },
            (IconReply::Theme { output, home }, _) => {
                if self.stage != IconStage::Theme {
                    return IconStep::Nothing;
                }
                let theme = icon_theme(output);
                self.stage = IconStage::Listed;
                self.queue = PathQueue::new(
                    icon_paths(self.name.as_str(), theme.as_str(), home.as_str()),
                );
                self.go_on()
            },
            _ => IconStep::Nothing,
        }
    }
}

/// What a search for an icon can find out.
pub struct IconSurroundings {
    pub theme: Option<Seq<u8>>,
    pub home: Seq<char>,
    pub there: spec_fn(Seq<char>) -> bool,
}

impl IconSurroundings {
    /// What comes of a step.
    pub open spec fn reply(self, step: IconStepView) -> IconReplyView {
        match step {
            IconStepView::TestPath { path } => IconReplyView::Tested {
                found: (self.there)(path),
            },
            IconStepView::ReadTheme => IconReplyView::Theme { output: self.theme, home: self.home },
            _ => IconReplyView::Started,
        }
    }

    /// The paths of the theme at which an icon may lie.
    pub open spec fn themed(self, name: Seq<char>) -> Seq<Seq<char>> {
        icon_candidates(name, theme_of(self.theme), self.home)
    }

    /// All paths at which an icon may lie, the name itself first where it is an absolute path.
    pub open spec fn possible(self, name: Seq<char>) -> Seq<Seq<char>> {
        if text::begins_with(name, "/"@) {
            seq![name] + self.themed(name)
        } else {
            self.themed(name)
        }
    }
}

/// The step that a search ends with, if it does so after at most so many more replies.
pub open spec fn icon_end(s: IconSurroundings, o: IconOutcome, replies: nat) -> Option<
    IconStepView,
>
    decreases replies,
{
    if o.step is Found || o.step is NotFound {
        Some(o.step)
    } else if replies == 0 {
        None
    } else {
        icon_end(s, icon_outcome(o.search, s.reply(o.step)), (replies - 1) as nat)
    }
}

/// The step that a search ends with where these paths are what is left to try.
pub open spec fn icon_end_for(
    s: IconSurroundings,
    name: Seq<char>,
    paths: Seq<Seq<char>>,
) -> IconStepView {
    match search::first_existing(paths, s.there) {
        Some(path) => IconStepView::Found { path },
        None => no_icon(name),
    }
}

proof fn lemma_listed_search_ends(s: IconSurroundings, search: IconSearchView, replies: nat)
    requires
        search.stage == IconStage::Listed,
        replies >= search.left.len(),
    ensures
        icon_end(s, listed(search), replies) == Some(icon_end_for(s, search.name, search.left)),
    decreases search.left.len(),
{
    if search.left.len() > 0 {
        if (s.there)(search.left[0]) {
            let o = listed(search);
            let o2 = icon_outcome(o.search, s.reply(o.step));
            assert(icon_end(s, o2, (replies - 1) as nat) == Some(o2.step));
        } else {
            let next = IconSearchView { left: search.left.skip(1), ..search };
            lemma_listed_search_ends(s, next, (replies - 1) as nat);
        }
    }
}

/// A search ends with the first path that leads to a file, of the name itself where it is an
/// absolute path, and those of the theme, in the order of preference. It ends without one exactly
/// if there is none.
pub proof fn lemma_search_finds_first_icon(s: IconSurroundings, search: IconSearchView)
    ensures
        icon_end(
            s,
            icon_outcome(search, IconReplyView::Started),
            (1 + s.possible(search.name).len()) as nat,
        ) == Some(icon_end_for(s, search.name, s.possible(search.name))),
{
    let name = search.name;
    let list = IconSearchView { name, stage: IconStage::Listed, left: s.themed(name) };
    let all = s.possible(name);
    let o = icon_outcome(search, IconReplyView::Started);
    lemma_listed_search_ends(s, list, s.themed(name).len() as nat);
    if text::begins_with(name, "/"@) {
        assert(all.skip(1) =~= s.themed(name));
        let o2 = icon_outcome(o.search, s.reply(o.step));
        if (s.there)(name) {
            assert(icon_end(s, o2, all.len() as nat) == Some(o2.step));
        } else {
            assert(icon_end(s, o2, all.len() as nat) == icon_end(
                s,
                listed(list),
                (all.len() - 1) as nat,
            ));
        }
    }
}

/// The bytes begin as a PNG file does.
pub open spec fn is_png(bytes: Seq<u8>) -> bool {
    bytes.len() >= 8 && bytes.take(8) == seq![
        0x89u8,
        0x50,
        0x4E,
        0x47,
        0x0D,
        0x0A,
        0x1A,
        0x0A,
    ]
}

fn begins_as_png(bytes: &[u8]) -> (r: bool)
    ensures
        r == is_png(bytes@),
        r <==> {
            &&& bytes@.len() >= 8
            &&& bytes@[0] == 0x89 && bytes@[1] == 0x50 && bytes@[2] == 0x4E && bytes@[3] == 0x47
            &&& bytes@[4] == 0x0D && bytes@[5] == 0x0A && bytes@[6] == 0x1A && bytes@[7] == 0x0A
        },
{
    if bytes.len() < 8 {
        return false;
    }
    let ghost head = bytes@.take(8);
    assert((head =~= seq![0x89u8, 0x50, 0x4E, 0x47, 0x0D, 0x0A, 0x1A, 0x0A]) <==> head[0] == 0x89
        && head[1] == 0x50 && head[2] == 0x4E && head[3] == 0x47 && head[4] == 0x0D && head[5]
        == 0x0A && head[6] == 0x1A && head[7] == 0x0A);
    bytes[0] == 0x89 && bytes[1] == 0x50 && bytes[2] == 0x4E && bytes[3] == 0x47 && bytes[4] == 0x0D
        && bytes[5] == 0x0A && bytes[6] == 0x1A && bytes[7] == 0x0A
}

/// The picture in a file that was found, in base64. Only a PNG is a picture that can be shown.
pub fn icon_picture(path: &str, read: Result<Vec<u8>, String>) -> (r: Result<String, String>)
    requires
        super::fits_base64(read),
    ensures
        match read {
            Ok(bytes) => if is_png(bytes@) {
                r matches Ok(picture) && picture@ == outside::base64_text(bytes@)
            } else {
                r matches Err(m) && m@ == "Icon file is not a PNG: "@ + path@
            },
            Err(e) => r matches Err(m) && m@ == "Failed to read file "@ + path@ + ": "@ + e@,
        },
        read matches Ok(bytes) ==> (r is Ok <==> {
            &&& bytes@.len() >= 8
            &&& bytes@[0] == 0x89 && bytes@[1] == 0x50 && bytes@[2] == 0x4E && bytes@[3] == 0x47
            &&& bytes@[4] == 0x0D && bytes@[5] == 0x0A && bytes@[6] == 0x1A && bytes@[7] == 0x0A
        }),
{
    if let Ok(bytes) = &read {
        if !begins_as_png(bytes.as_slice()) {
            return Err(message("Icon file is not a PNG: ", path));
        }
    }
    file_to_base64(path, read)
}

/// Where the picture for an item comes from.
#[derive(Debug)]
pub enum IconSource {
    /// The icon of this name or at this path.
    Named { name: String },
    /// The icon for the type of the file.
    ByType,
}

/// What an [`IconSource`] holds: the name, if there is one.
impl View for IconSource {
    type V = Option<Seq<char>>;

    open spec fn view(&self) -> Option<Seq<char>> {
        match *self {
            IconSource::Named { name } => Some(name@),
            IconSource::ByType => None,
        }
    }
}

/// The name of the icon for an item, if it does not go by the type of the file: the one that the
/// item's description names, or that of a folder.
pub open spec fn icon_name(
    name: Option<Seq<char>>,
    contents: Option<Seq<char>>,
    is_directory: bool,
) -> Option<Seq<char>> {
    let given = match contents {
        Some(c) => text::fields(text::lines(c), "Icon="@),
        None => Seq::empty(),
    };
    if super::extension_of(name) == Some("desktop"@) && given.len() > 0 {
        Some(wallpaper::bare(given[0]))
    } else if is_directory {
        Some("folder"@)
    } else {
        None
    }
}

/// Decides where the picture for an item comes from. `contents` is what the file holds, where it
/// could be read.
pub fn extract_icon(name: Option<&str>, contents: Option<&str>, is_directory: bool) -> (r:
    IconSource)
    ensures
        r@ == icon_name(text::str_view(name), text::str_view(contents), is_directory),
{
    if let Some(n) = name {
        if is_desktop_entry(n) {
            if let Some(c) = contents {
                let given = fields_of(c, "Icon=");
                assert(text::views(given@).len() == given@.len());
                if given.len() > 0 {
                    assert(text::views(given@)[0] == given@[0]@);
                    return IconSource::Named { name: trim(given[0], Trim::White).to_owned() };
                }
            }
        }
    }
    if is_directory {
        return IconSource::Named { name: "folder".to_owned() };
    }
    IconSource::ByType
}

/// The name of the icon for a type of file, by what the program printed that tells the type.
pub open spec fn type_icon_name(printed: Seq<char>) -> Seq<char> {
    wallpaper::bare(printed).map_values(
        |c: char|
            if c == '/' {
                '-'
            } else {
                c
            },
    )
}

/// Names the icon for a type of file: `application-pdf` for `application/pdf`.
pub fn icon_name_of_type(printed: &str) -> (r: String)
    ensures
        r@ == type_icon_name(printed@),
        ({
            let kind = text::trimmed(printed@, |c: char| Trim::White.takes(c));
            &&& r@.len() == kind.len()
            &&& forall|i: int|
                0 <= i < kind.len() ==> {
                    &&& kind[i] == '/' ==> #[trigger] r@[i] == '-'
                    &&& kind[i] != '/' ==> r@[i] == kind[i]
                }
        }),
{
    let kind = trim(printed, Trim::White);
    let ghost all = type_icon_name(printed@);
    let mut out = String::new();
    let n: usize = kind.unicode_len();
    let mut i: usize = 0;
    assert(out@ =~= all.take(0));
    while i < n
        invariant
            i <= n,
            n == kind@.len(),
            kind@ == wallpaper::bare(printed@),
            all == type_icon_name(printed@),
            out@ =~= all.take(i as int),
        decreases n - i,
    {
        proof {
            reveal_strlit("-");
        }
        let part = if kind.get_char(i) == '/' {
            "-"
        } else {
            kind.substring_char(i, i + 1)
        };
        assert(part@ =~= seq![all[i as int]]);
        assert(all.take(i + 1) =~= all.take(i as int) + seq![all[i as int]]);
        out.append(part);
        i += 1;
    }
    assert(all.take(n as int) =~= all);
    out
}

/// Names the icon for a type of file by the bytes that the program printed.
pub fn type_icon(stdout: &[u8]) -> (r: String)
    ensures
        r@ == type_icon_name(platform_text::utf8_lossy_text(stdout@)),
        vstd::utf8::valid_utf8(stdout@) ==> r@ == type_icon_name(
            vstd::utf8::decode_utf8(stdout@),
        ),
{
    let printed = utf8_lossy(stdout);
    icon_name_of_type(printed.as_str())
}

/// The picture for the type of a file: what was found of its icon, if the type is known.
pub fn icon_by_type(found: Option<Result<String, String>>) -> (r: Result<String, String>)
    ensures
        match found {
            Some(Ok(picture)) => r == Ok::<String, String>(picture),
            _ => r matches Err(m) && m@ == "Could not find icon for this file type"@,
        },
{
    match found {
        Some(Ok(picture)) => Ok(picture),
        _ => Err("Could not find icon for this file type".to_owned()),
    }
}

/// How running one of the macOS tools went.
#[derive(Debug)]
pub enum ToolRun {
    /// The tool could not be started.
    NotRun { reason: String },
    /// The tool said that it failed.
    Failed,
    Done,
}

/// The next step for a picture on macOS.
#[derive(Debug)]
pub enum MacIconStep {
    /// Have a thumbnail made.
    MakeThumbnail,
    /// The picture is in this file, which is to be removed.
    Take { path: String },
    Fail { message: String },
}

/// What follows from converting the picture of a file to a temporary file.
pub fn after_conversion(run: ToolRun, temporary: &str) -> (r: MacIconStep)
    ensures
        match run {
            ToolRun::NotRun { reason } => r matches MacIconStep::Fail { message } && message@
                == "Failed to run sips: "@ + reason@,
            ToolRun::Failed => r is MakeThumbnail,
            ToolRun::Done => r matches MacIconStep::Take { path } && path@ == temporary@,
        },
{
    match run {
        ToolRun::NotRun { reason } => MacIconStep::Fail {
            message: message("Failed to run sips: ", reason.as_str()),
        },
        ToolRun::Failed => MacIconStep::MakeThumbnail,
        ToolRun::Done => MacIconStep::Take { path: temporary.to_owned() },
    }
}

/// What follows from having a thumbnail made of the file of this name.
pub fn after_thumbnail(run: ToolRun, name: Option<&str>) -> (r: MacIconStep)
    ensures
        match run {
            ToolRun::NotRun { reason } => r matches MacIconStep::Fail { message } && message@
                == "Failed to run qlmanage: "@ + reason@,
            ToolRun::Failed => r matches MacIconStep::Fail { message } && message@
                == "Both sips and qlmanage failed"@,
            ToolRun::Done => r matches MacIconStep::Take { path } && path@ == "/tmp/"@ + (
            match name {
                Some(n) => n@,
                None => "icon"@,
            }) + ".png"@,
        },
{
    match run {
        ToolRun::NotRun { reason } => MacIconStep::Fail {
            message: message("Failed to run qlmanage: ", reason.as_str()),
        },
        ToolRun::Failed => MacIconStep::Fail {
            message: "Both sips and qlmanage failed".to_owned(),
        },
        ToolRun::Done => {
            let mut path = "/tmp/".to_owned();
            path.append(
                match name {
                    Some(n) => n,
                    None => "icon",
                },
            );
            path.append(".png");
            MacIconStep::Take { path }
        },
    }
}

/// Why there is no picture on Windows: the shell has none, or it has one in a form that cannot be
/// handed on.
pub fn shell_icon_error(found: bool) -> (r: String)
    ensures
        r@ == if found {
            "HICON to PNG conversion not yet implemented"@
        } else {
            "SHGetFileInfoW failed to get icon"@
        },
{
    if found {
        "HICON to PNG conversion not yet implemented".to_owned()
    } else {
        "SHGetFileInfoW failed to get icon".to_owned()
    }
}

/// The icon of a type is named by the type, whatever space is around it: a hyphen where the type
/// has a slash, and everywhere else the type's own character.
pub proof fn lemma_icon_of_a_type(front: Seq<char>, kind: Seq<char>, back: Seq<char>)
    requires
        forall|i: int| 0 <= i < front.len() ==> text::is_white(#[trigger] front[i]),
        forall|i: int| 0 <= i < back.len() ==> text::is_white(#[trigger] back[i]),
        kind.len() > 0 ==> !text::is_white(kind[0]) && !text::is_white(kind.last()),
    ensures
        ({
            let name = type_icon_name(front + kind + back);
            &&& name.len() == kind.len()
            &&& forall|i: int|
                0 <= i < kind.len() ==> {
                    &&& kind[i] == '/' ==> #[trigger] name[i] == '-'
                    &&& kind[i] != '/' ==> name[i] == kind[i]
                }
        }),
{
    wallpaper::lemma_bare(front, kind, back);
}

/// The theme is what the program printed, without the line feed and the quotes around it; the
/// common theme stands in where the program failed.
pub proof fn lemma_theme_is_read(theme: Seq<char>)
    requires
        theme.len() > 0 ==> {
            &&& theme[0] != '\'' && theme[0] != '"'
            &&& theme.last() != '\'' && theme.last() != '"'
        },
    ensures
        theme_in(Some(seq!['\''] + theme + seq!['\'', '\n'])) == theme,
        theme_in(None) == "hicolor"@,
        theme_of(None) == "hicolor"@,
{
    let quoted = seq!['\''] + theme + seq!['\''];
    let none = Seq::<char>::empty();
    wallpaper::lemma_bare(none, quoted, seq!['\n']);
    wallpaper::lemma_unquoted(theme);
    assert(none + quoted + seq!['\n'] =~= seq!['\''] + theme + seq!['\'', '\n']);
}

/// In a theme the sizes come one after the other, and in each size the categories do. `s` and `k`
/// count the sizes and the categories, of which `size` and `category` are the names.
pub proof fn lemma_themed_paths(
    base: Seq<char>,
    name: Seq<char>,
    s: int,
    size: Seq<char>,
    k: int,
    category: Seq<char>,
)
    requires
        !text::ends_in(base, "pixmaps"@),
        ({
            ||| s == 0 && size == "48x48"@
            ||| s == 1 && size == "64x64"@
            ||| s == 2 && size == "32x32"@
            ||| s == 3 && size == "scalable"@
        }),
        ({
            ||| k == 0 && category == "apps"@
            ||| k == 1 && category == "places"@
            ||| k == 2 && category == "mimetypes"@
            ||| k == 3 && category == "devices"@
            ||| k == 4 && category == "actions"@
        }),
    ensures
        paths_under(base, name).len() == 20,
        paths_under(base, name)[5 * s + k] == base + "/"@ + size + "/"@ + category + "/"@ + name
            + ".png"@,
{
    let i = 5 * s + k;
    assert(i / 5 == s && i % 5 == k);
    assert(size_name(s) == size && category_name(k) == category);
}

/// Among the loose pictures an icon is looked for as a picture, then as a drawing.
pub proof fn lemma_loose_paths(name: Seq<char>)
    ensures
        paths_under("/usr/share/pixmaps"@, name) == seq![
            "/usr/share/pixmaps"@ + "/"@ + name + ".png"@,
            "/usr/share/pixmaps"@ + "/"@ + name + ".svg"@,
        ],
        !text::ends_in("/usr/share/icons/hicolor"@, "pixmaps"@),
{
    reveal_strlit("/usr/share/icons/hicolor");
    reveal_strlit("/usr/share/pixmaps");
    reveal_strlit("pixmaps");
    let common = "/usr/share/icons/hicolor"@;
    let loose = "/usr/share/pixmaps"@;
    assert(common.skip(common.len() - 7)[6] == 'r' && "pixmaps"@[6] == 's');
    assert(loose.skip(loose.len() - 7) =~= "pixmaps"@);
}

/// An icon is looked for in the theme that all users share, then in the common theme, then in the
/// user's own theme, and last among the loose pictures.
#[verifier::rlimit(40)]
pub proof fn lemma_where_icons_are_looked_for(
    name: Seq<char>,
    theme: Seq<char>,
    home: Seq<char>,
    s: int,
    size: Seq<char>,
    k: int,
    category: Seq<char>,
)
    requires
        !text::ends_in("/usr/share/icons/"@ + theme, "pixmaps"@),
        !text::ends_in(home + "/.local/share/icons/"@ + theme, "pixmaps"@),
        ({
            ||| s == 0 && size == "48x48"@
            ||| s == 1 && size == "64x64"@
            ||| s == 2 && size == "32x32"@
            ||| s == 3 && size == "scalable"@
        }),
        ({
            ||| k == 0 && category == "apps"@
            ||| k == 1 && category == "places"@
            ||| k == 2 && category == "mimetypes"@
            ||| k == 3 && category == "devices"@
            ||| k == 4 && category == "actions"@
        }),
    ensures
        ({
            let all = icon_candidates(name, theme, home);
            &&& all.len() == 62
            &&& all[5 * s + k] == "/usr/share/icons/"@ + theme + "/"@ + size + "/"@ + category
                + "/"@ + name + ".png"@
            &&& all[20 + 5 * s + k] == "/usr/share/icons/hicolor"@ + "/"@ + size + "/"@ + category
                + "/"@ + name + ".png"@
            &&& all[40 + 5 * s + k] == home + "/.local/share/icons/"@ + theme + "/"@ + size + "/"@
                + category + "/"@ + name + ".png"@
            &&& all[60] == "/usr/share/pixmaps"@ + "/"@ + name + ".png"@
            &&& all[61] == "/usr/share/pixmaps"@ + "/"@ + name + ".svg"@
        }),
{
    let common = "/usr/share/icons/hicolor"@;
    lemma_loose_paths(name);
    lemma_themed_paths("/usr/share/icons/"@ + theme, name, s, size, k, category);
    lemma_themed_paths(common, name, s, size, k, category);
    lemma_themed_paths(home + "/.local/share/icons/"@ + theme, name, s, size, k, category);
    let i = 5 * s + k;
    let all = icon_candidates(name, theme, home);
    let first = paths_under("/usr/share/icons/"@ + theme, name);
    let second = paths_under(common, name);
    let third = paths_under(home + "/.local/share/icons/"@ + theme, name);
    let last = paths_under("/usr/share/pixmaps"@, name);
    assert(all == first + second + third + last);
    lemma_four_lists(first, second, third, last, i);
}

proof fn lemma_four_lists(
    a: Seq<Seq<char>>,
    b: Seq<Seq<char>>,
    c: Seq<Seq<char>>,
    d: Seq<Seq<char>>,
    i: int,
)
    requires
        a.len() == 20 && b.len() == 20 && c.len() == 20 && d.len() == 2,
        0 <= i < 20,
    ensures
        (a + b + c + d).len() == 62,
        (a + b + c + d)[i] == a[i],
        (a + b + c + d)[20 + i] == b[i],
        (a + b + c + d)[40 + i] == c[i],
        (a + b + c + d)[60] == d[0],
        (a + b + c + d)[61] == d[1],
{
}

/// An icon that is given by an absolute path is looked for there first, and any other only in the
/// theme. A search ends with the first path that leads to a file, and without one says so.
/// `all` are the paths that it goes through.
pub proof fn lemma_icon_is_the_first_that_exists(
    s: IconSurroundings,
    search: IconSearchView,
    all: Seq<Seq<char>>,
)
    requires
        search.name.len() > 0 && search.name[0] == '/' ==> all == seq![search.name]
            + icon_candidates(search.name, theme_of(s.theme), s.home),
        !(search.name.len() > 0 && search.name[0] == '/') ==> all == icon_candidates(
            search.name,
            theme_of(s.theme),
            s.home,
        ),
    ensures
        ({
            let end = icon_end(
                s,
                icon_outcome(search, IconReplyView::Started),
                (1 + all.len()) as nat,
            );
            &&& forall|i: int|
                0 <= i < all.len() && (s.there)(#[trigger] all[i]) && (forall|j: int|
                    0 <= j < i ==> !(s.there)(#[trigger] all[j])) ==> end == Some(
                    IconStepView::Found { path: all[i] },
                )
            &&& (forall|j: int| 0 <= j < all.len() ==> !(s.there)(#[trigger] all[j])) ==> end
                == Some(
                IconStepView::NotFound {
                    message: "Icon '"@ + search.name + "' not found in any theme directory"@,
                },
            )
        }),
{
    reveal_strlit("/");
    let name = search.name;
    assert(text::begins_with(name, "/"@) <==> name.len() > 0 && name[0] == '/') by {
        if name.len() > 0 {
            assert(name.take(1)[0] == name[0]);
            if name[0] == '/' {
                assert(name.take(1) =~= "/"@);
            }
        }
    }
    lemma_search_finds_first_icon(s, search);
    assert(all == s.possible(name));
    search::lemma_first_existing(all, s.there);
    assert forall|i: int|
        0 <= i < all.len() && (s.there)(#[trigger] all[i]) && (forall|j: int|
            0 <= j < i ==> !(s.there)(#[trigger] all[j])) implies search::first_existing(
        all,
        s.there,
    ) == Some(all[i]) by {
        let p = search::first_existing(all, s.there)->0;
        let k = choose|k: int|
            0 <= k < all.len() && #[trigger] all[k] == p && forall|j: int|
                0 <= j < k ==> !(s.there)(#[trigger] all[j]);
        if k < i {
            assert(!(s.there)(all[k]));
        }
        if i < k {
            assert(!(s.there)(all[i]));
        }
    }
}

/// The first line of a description that names an icon decides, whatever kind of item it is, with
/// the space around the name left out; lines that name none are passed over. `stem` is the name of
/// the description without its ending.
#[verifier::rlimit(40)]
pub proof fn lemma_description_names_the_icon(
    stem: Seq<char>,
    line: Seq<char>,
    icon: Seq<char>,
    rest: Seq<char>,
    is_directory: bool,
)
    requires
        stem.len() > 0,
        !line.contains('\n') && !(line.len() > 0 && line.last() == '\r'),
    ensures
        line == "Icon="@ + icon ==> icon_name(
            Some(stem + seq!['.'] + "desktop"@),
            Some(line + seq!['\n'] + rest),
            is_directory,
        ) == Some(wallpaper::bare(icon)),
        !text::begins_with(line, "Icon="@) ==> icon_name(
            Some(stem + seq!['.'] + "desktop"@),
            Some(line + seq!['\n'] + rest),
            is_directory,
        ) == icon_name(Some(stem + seq!['.'] + "desktop"@), Some(rest), is_directory),
        icon_name(Some(stem + seq!['.'] + "desktop"@), Some(Seq::empty()), is_directory)
            == if is_directory {
            Some("folder"@)
        } else {
            None
        },
{
    let prefix = "Icon="@;
    let none = Seq::<Seq<char>>::empty();
    reveal_strlit("desktop");
    assert(!"desktop"@.contains('.'));
    crate::file_name::lemma_ending_is_the_extension(stem, "desktop"@);
    text::lemma_lines(line, rest);
    text::lemma_fields_of_both(seq![line], text::lines(rest), prefix);
    assert(none.push(line) =~= seq![line]);
    assert(text::lines(Seq::empty()) =~= none);
    text::lemma_fields(none, icon, prefix);
    text::lemma_fields(none, line, prefix);
    let given = text::fields(text::lines(line + seq!['\n'] + rest), prefix);
    if line == prefix + icon {
        assert(given[0] == icon);
    }
    if !text::begins_with(line, prefix) {
        assert(given =~= text::fields(text::lines(rest), prefix));
    }
}

/// Where no description names an icon, a folder has the picture of a folder, and a file that of its
/// type.
pub proof fn lemma_icon_without_description(
    name: Option<Seq<char>>,
    contents: Option<Seq<char>>,
    is_directory: bool,
)
    requires
        contents is None || super::extension_of(name) != Some("desktop"@),
    ensures
        is_directory ==> icon_name(name, contents, is_directory) == Some("folder"@),
        !is_directory ==> icon_name(name, contents, is_directory) is None,
{
}

/// A theme by the name of the loose pictures is searched as these are.
pub proof fn lemma_paths_of_loose_pictures(base: Seq<char>, name: Seq<char>)
    requires
        text::ends_in(base, "pixmaps"@),
    ensures
        paths_under(base, name) == seq![
            base + "/"@ + name + ".png"@,
            base + "/"@ + name + ".svg"@,
        ],
{
}

/// An answer to a question that was not asked leads nowhere: a test while no path is left, and a
/// theme while none is asked for.
pub proof fn lemma_unasked_icon_answers(
    search: IconSearchView,
    found: bool,
    output: Option<Seq<u8>>,
    home: Seq<char>,
)
    ensures
        ({
            let nothing = IconOutcome { search, step: IconStepView::Nothing };
            &&& search.left.len() == 0 ==> icon_outcome(search, IconReplyView::Tested { found })
                == nothing
            &&& search.stage != IconStage::Theme ==> icon_outcome(
                search,
                IconReplyView::Theme { output, home },
            ) == nothing
        }),
{
}

/// The theme that bytes name is the theme that their text names.
pub proof fn lemma_theme_of_bytes(bytes: Seq<u8>)
    ensures
        theme_of(Some(bytes)) == theme_in(Some(platform_text::utf8_lossy_text(bytes))),
{
}

/// What replies, steps and sources hold is what their views say.
pub proof fn lemma_views_of_an_icon_search(
    bytes: Vec<u8>,
    home: String,
    path: String,
    found: bool,
)
    ensures
        IconReply::Started@ == IconReplyView::Started,
        (IconReply::Theme { output: Some(bytes), home })@ == (IconReplyView::Theme {
            output: Some(bytes@),
            home: home@,
        }),
        (IconReply::Theme { output: None, home })@ == (IconReplyView::Theme {
            output: None,
            home: home@,
        }),
        (IconReply::Tested { found })@ == (IconReplyView::Tested { found }),
        (IconStep::TestPath { path })@ == (IconStepView::TestPath { path: path@ }),
        IconStep::ReadTheme@ == IconStepView::ReadTheme,
        (IconStep::Ended { result: Ok(path) })@ == (IconStepView::Found { path: path@ }),
        (IconStep::Ended { result: Err(path) })@ == (IconStepView::NotFound { message: path@ }),
        IconStep::Nothing@ == IconStepView::Nothing,
        (IconSource::Named { name: path })@ == Some(path@),
        IconSource::ByType@ is None,
{
}

/// A thumbnail that was made lies in the temporary directory, under the name of the file with the
/// ending of a picture behind it.
pub proof fn lemma_where_a_thumbnail_lies(name: &str, r: MacIconStep)
    requires
        call_ensures(after_thumbnail, (ToolRun::Done, Some(name)), r),
    ensures
        r is Take && r->path@ == "/tmp/"@ + name@ + ".png"@,
{
}

/// A picture that was converted lies where it was asked for, and a conversion that failed is
/// followed by a thumbnail.
pub proof fn lemma_what_follows_a_conversion(run: ToolRun, temporary: &str, r: MacIconStep)
    requires
        call_ensures(after_conversion, (run, temporary), r),
    ensures
        r is MakeThumbnail <==> run is Failed,
        r is Take <==> run is Done,
        r matches MacIconStep::Take { path } ==> path@ == temporary@,
{
}

} // verus!
