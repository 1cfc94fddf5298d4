//! Where the operating system keeps its wallpaper.

use vstd::prelude::*;
use vstd::string::*;

use super::search;
use super::search::PathQueue;
use crate::percent;
use crate::percent::percent_decode;
use crate::platform_text;
use crate::platform_text::utf8_lossy;
use crate::text;
use crate::text::{fields_of, strip_prefix, trim, Trim};

verus! {

/// A text without space around it.
pub open spec fn bare(s: Seq<char>) -> Seq<char> {
    text::trimmed(s, |c: char| Trim::White.takes(c))
}

/// A text without the quotes around it, single ones outside double ones.
pub open spec fn unquoted(s: Seq<char>) -> Seq<char> {
    text::trimmed(
        text::trimmed(s, |c: char| Trim::Only { c: '\'' }.takes(c)),
        |c: char| Trim::Only { c: '"' }.takes(c),
    )
}

/// Takes away the quotes around a text.
pub fn unquote(s: &str) -> (r: &str)
    ensures
        r@ == unquoted(s@),
{
    trim(trim(s, Trim::Only { c: '\'' }), Trim::Only { c: '"' })
}

/// The path in a setting, still percent-encoded: what follows `file://` inside the quotes, or else
/// the setting as it is.
pub open spec fn encoded_path(setting: Seq<char>) -> Seq<char> {
    let inner = unquoted(bare(setting));
    if text::begins_with(inner, "file://"@) {
        inner.skip("file://"@.len() as int)
    } else {
        bare(setting)
    }
}

/// The path in a setting.
pub open spec fn path_of_setting(setting: Seq<char>) -> Seq<char> {
    platform_text::utf8_lossy_text(
        percent::decoded(vstd::utf8::encode_utf8(encoded_path(setting))),
    )
}

/// Reads the path in a setting such as `'file:///a%20b.png'`.
pub fn setting_path(setting: &str) -> (r: String)
    ensures
        r@ == path_of_setting(setting@),
        ({
            let bytes = percent::decoded(vstd::utf8::encode_utf8(encoded_path(setting@)));
            vstd::utf8::valid_utf8(bytes) ==> r@ == vstd::utf8::decode_utf8(bytes)
        }),
        !encoded_path(setting@).contains('%') ==> r@ == encoded_path(setting@),
{
    let raw = trim(setting, Trim::White);
    match strip_prefix(unquote(raw), "file://") {
        Some(path) => percent_decode(path),
        None => percent_decode(raw),
    }
}

/// How the settings program prints the address of a file.
pub open spec fn printed_address(encoded: Seq<char>) -> Seq<char> {
    "'file://"@ + encoded + "'\n"@
}

/// What is printed of an address holds the path of that address, unless the path ends with a
/// quote.
pub proof fn lemma_printed_address_is_read(encoded: Seq<char>)
    requires
        encoded.len() > 0 ==> encoded.last() != '\'' && encoded.last() != '"',
    ensures
        encoded_path(printed_address(encoded)) == encoded,
{
    reveal_strlit("'file://");
    reveal_strlit("file://");
    reveal_strlit("'\n");
    let white = |c: char| Trim::White.takes(c);
    let single = |c: char| Trim::Only { c: '\'' }.takes(c);
    let double = |c: char| Trim::Only { c: '"' }.takes(c);
    let printed = printed_address(encoded);
    let quoted = printed.drop_last();
    let opened = quoted.skip(1);
    let inner = opened.drop_last();
    assert(inner =~= "file://"@ + encoded);
    assert(text::trimmed_start(printed, white) == printed);
    assert(text::trimmed_end(printed, white) == text::trimmed_end(quoted, white));
    assert(quoted.last() == '\'');
    assert(bare(printed) == quoted);
    assert(text::trimmed_start(quoted, single) == text::trimmed_start(opened, single));
    assert(text::trimmed_start(opened, single) == opened);
    assert(opened.last() == '\'');
    assert(text::trimmed_end(opened, single) == text::trimmed_end(inner, single));
    assert(inner.last() == if encoded.len() > 0 { encoded.last() } else { '/' });
    assert(text::trimmed_end(inner, single) == inner);
    assert(text::trimmed_start(inner, double) == inner);
    assert(text::trimmed_end(inner, double) == inner);
    assert(inner.take("file://"@.len() as int) =~= "file://"@);
    assert(inner.skip("file://"@.len() as int) =~= encoded);
}

/// The path of a file comes back from its printed address, whichever characters of it were
/// percent-encoded, unless the encoded path ends with a quote.
pub proof fn lemma_path_comes_back(path: Seq<char>, encoded: Seq<char>)
    requires
        percent::encodes(vstd::utf8::encode_utf8(encoded), vstd::utf8::encode_utf8(path)),
        encoded.len() > 0 ==> encoded.last() != '\'' && encoded.last() != '"',
    ensures
        ({
            let bytes = percent::decoded(
                vstd::utf8::encode_utf8(encoded_path(printed_address(encoded))),
            );
            vstd::utf8::valid_utf8(bytes) && vstd::utf8::decode_utf8(bytes) == path
        }),
{
    lemma_printed_address_is_read(encoded);
    percent::lemma_decode_undoes_encode(
        vstd::utf8::encode_utf8(encoded),
        vstd::utf8::encode_utf8(path),
    );
    vstd::utf8::encode_utf8_valid_utf8(path);
    vstd::utf8::encode_utf8_decode_utf8(path);
}

/// The paths that a setting names, by what the program that prints it said: at most one. There is
/// none where the program failed.
pub open spec fn setting_candidates(output: Option<Seq<u8>>) -> Seq<Seq<char>> {
    match output {
        Some(bytes) => {
            let path = path_of_setting(platform_text::utf8_lossy_text(bytes));
            if path.len() > 0 {
                seq![path]
            } else {
                Seq::empty()
            }
        },
        None => Seq::empty(),
    }
}

/// The view of bytes that may not be there.
pub open spec fn bytes_view(output: Option<Vec<u8>>) -> Option<Seq<u8>> {
    match output {
        Some(bytes) => Some(bytes@),
        None => None,
    }
}

/// Lists the paths that a setting names.
pub fn paths_in_setting(output: Option<Vec<u8>>) -> (r: Vec<String>)
    ensures
        text::string_views(r@) == setting_candidates(bytes_view(output)),
        output matches Some(bytes) ==> vstd::utf8::valid_utf8(bytes@)
            ==> platform_text::utf8_lossy_text(bytes@) == vstd::utf8::decode_utf8(bytes@),
{
    let mut paths: Vec<String> = Vec::new();
    if let Some(bytes) = output {
        let setting = utf8_lossy(bytes.as_slice());
        let path = setting_path(setting.as_str());
        if !path.as_str().is_empty() {
            paths.push(path);
        }
    }
    assert(text::string_views(paths@) =~= setting_candidates(bytes_view(output)));
    paths
}

/// A path that may be written as an address.
pub open spec fn without_file_scheme(s: Seq<char>) -> Seq<char> {
    if text::begins_with(s, "file://"@) {
        s.skip("file://"@.len() as int)
    } else {
        s
    }
}

/// The paths that the Plasma configuration names, if it could be read.
pub open spec fn kde_candidates(contents: Option<Seq<char>>) -> Seq<Seq<char>> {
    match contents {
        Some(c) => text::fields(text::lines(c), "Image="@).map_values(
            |s: Seq<char>| without_file_scheme(s),
        ),
        None => Seq::empty(),
    }
}

/// Lists the paths that the Plasma configuration names.
pub fn paths_in_kde_config(contents: Option<String>) -> (r: Vec<String>)
    ensures
        text::string_views(r@) == kde_candidates(text::string_view(contents)),
{
    let mut paths: Vec<String> = Vec::new();
    if let Some(c) = &contents {
        let images = fields_of(c.as_str(), "Image=");
        let ghost all = kde_candidates(text::string_view(contents));
        let mut i: usize = 0;
        assert(text::string_views(paths@) =~= all.take(0));
        assert(text::views(images@).len() == images@.len());
        while i < images.len()
            invariant
                i <= images@.len(),
                all == text::views(images@).map_values(|s: Seq<char>| without_file_scheme(s)),
                all.len() == images@.len(),
                text::string_views(paths@) =~= all.take(i as int),
            decreases images@.len() - i,
        {
            let path = match strip_prefix(images[i], "file://") {
                Some(path) => path.to_owned(),
                None => images[i].to_owned(),
            };
            assert(text::views(images@)[i as int] == images@[i as int]@);
            assert(all[i as int] == path@);
            let ghost before = paths@;
            paths.push(path);
            assert(text::string_views(paths@) =~= text::string_views(before).push(path@));
            assert(all.take(i + 1) =~= all.take(i as int).push(all[i as int]));
            i += 1;
        }
        assert(all.take(i as int) =~= all);
    }
    assert(text::string_views(paths@) =~= kde_candidates(text::string_view(contents)));
    paths
}

/// Places that may name the wallpaper, in the order in which they are asked.
#[derive(Clone, Copy, PartialEq, Eq, Debug, Structural)]
pub enum Source {
    Gnome,
    GnomeDark,
    Kde,
}

/// A search for the wallpaper on a desktop that has several places for it.
#[derive(Debug)]
pub struct WallpaperSearch {
    source: Source,
    queue: PathQueue,
}

/// What a [`WallpaperSearch`] holds: the place that was asked last, and which of the paths that it
/// named are left.
pub struct SearchView {
    pub source: Source,
    pub left: Seq<Seq<char>>,
}

impl View for WallpaperSearch {
    type V = SearchView;

    closed spec fn view(&self) -> SearchView {
        SearchView { source: self.source, left: self.queue@ }
    }
}

/// What came of the last step of a search.
#[derive(Debug)]
pub enum SearchReply {
    /// The search begins.
    Started,
    /// What the program printed that prints the setting, if it succeeded.
    Setting { output: Option<Vec<u8>> },
    /// What the Plasma configuration holds, if it could be read.
    KdeConfig { contents: Option<String> },
    /// Whether there is a file.
    Tested { found: bool },
}

/// What a [`SearchReply`] holds.
pub enum ReplyView {
    Started,
    Setting { output: Option<Seq<u8>> },
    KdeConfig { contents: Option<Seq<char>> },
    Tested { found: bool },
}

impl View for SearchReply {
    type V = ReplyView;

    open spec fn view(&self) -> ReplyView {
        match *self {
            SearchReply::Started => ReplyView::Started,
            SearchReply::Setting { output } => ReplyView::Setting { output: bytes_view(output) },
            SearchReply::KdeConfig { contents } => ReplyView::KdeConfig {
                contents: text::string_view(contents),
            },
            SearchReply::Tested { found } => ReplyView::Tested { found },
        }
    }
}

/// The next step of a search.
#[derive(Debug)]
pub enum SearchStep {
    /// Ask for the setting, of the light or the dark style.
    ReadSetting { dark: bool },
    /// Read the Plasma configuration.
    ReadKdeConfig,
    /// Find out whether there is a file.
    TestPath { path: String },
    /// The search has ended.
    Ended { result: Result<String, String> },
    /// The reply does not belong to the step.
    Nothing,
}

/// What a [`SearchStep`] holds.
pub enum StepView {
    ReadSetting { dark: bool },
    ReadKdeConfig,
    TestPath { path: Seq<char> },
    Found { path: Seq<char> },
    NotFound { message: Seq<char> },
    Nothing,
}

impl View for SearchStep {
    type V = StepView;

    open spec fn view(&self) -> StepView {
        match *self {
            SearchStep::ReadSetting { dark } => StepView::ReadSetting { dark },
            SearchStep::ReadKdeConfig => StepView::ReadKdeConfig,
            SearchStep::TestPath { path } => StepView::TestPath { path: path@ },
            SearchStep::Ended { result: Ok(path) } => StepView::Found { path: path@ },
            SearchStep::Ended { result: Err(message) } => StepView::NotFound { message: message@ },
            SearchStep::Nothing => StepView::Nothing,
        }
    }
}

/// A search after a step, and that step.
pub struct SearchOutcome {
    pub search: SearchView,
    pub step: StepView,
}

/// What a search ends with where no place names a file.
pub open spec fn not_found() -> StepView {
    StepView::NotFound {
        message: "Could not detect wallpaper path on this Linux desktop environment"@,
    }
}

/// Goes on with the paths that are left, or else with the next place.
pub open spec fn settled(search: SearchView) -> SearchOutcome {
    if search.left.len() > 0 {
        SearchOutcome { search, step: StepView::TestPath { path: search.left[0] } }
    } else {
        match search.source {
            Source::Gnome => SearchOutcome {
                search: SearchView { source: Source::GnomeDark, left: Seq::empty() },
                step: StepView::ReadSetting { dark: true },
            },
            Source::GnomeDark => SearchOutcome {
                search: SearchView { source: Source::Kde, left: Seq::empty() },
                step: StepView::ReadKdeConfig,
            },
            Source::Kde => SearchOutcome { search, step: not_found() },
        }
    }
}

/// What follows from a reply.
pub open spec fn search_outcome(search: SearchView, reply: ReplyView) -> SearchOutcome {
    let waiting = search.left.len() == 0;
    match reply {
        ReplyView::Started => SearchOutcome {
            search: SearchView { source: Source::Gnome, left: Seq::empty() },
            step: StepView::ReadSetting { dark: false },
        },
        ReplyView::Setting { output } if waiting && search.source != Source::Kde => settled(
            SearchView { source: search.source, left: setting_candidates(output) },
        ),
        ReplyView::KdeConfig { contents } if waiting && search.source == Source::Kde => settled(
            SearchView { source: search.source, left: kde_candidates(contents) },
        ),
        ReplyView::Tested { found } if !waiting => if found {
            SearchOutcome { search, step: StepView::Found { path: search.left[0] } }
        } else {
            settled(SearchView { source: search.source, left: search.left.skip(1) })
        },
        _ => SearchOutcome { search, step: StepView::Nothing },
    }
}

impl WallpaperSearch {
    /// A search that has not begun.
    pub fn new() -> (r: WallpaperSearch)
        ensures
            r@ == (SearchView { source: Source::Gnome, left: Seq::empty() }),
    {
        let r = WallpaperSearch { source: Source::Gnome, queue: PathQueue::new(Vec::new()) };
        assert(r@.left =~= Seq::empty());
        r
    }

    fn ask(&mut self, source: Source, step: SearchStep) -> (r: SearchStep)
        ensures
            final(self)@ == (SearchView { source, left: Seq::empty() }),
            r == step,
    {
        self.source = source;
        self.queue = PathQueue::new(Vec::new());
        assert(self@.left =~= Seq::empty());
        step
    }

    fn settle(&mut self) -> (r: SearchStep)
        ensures
            final(self)@ == settled(old(self)@).search,
            r@ == settled(old(self)@).step,
    {
        if let Some(path) = self.queue.front() {
            return SearchStep::TestPath { path };
        }
        match self.source {
            Source::Gnome => self.ask(Source::GnomeDark, SearchStep::ReadSetting { dark: true }),
            Source::GnomeDark => self.ask(Source::Kde, SearchStep::ReadKdeConfig),
            Source::Kde => SearchStep::Ended {
                result: Err(
                    "Could not detect wallpaper path on this Linux desktop environment".to_owned(),
                ),
            },
        }
    }

    /// Looks for the wallpaper, step by step: the caller does what the step says and hands back
    /// what came of it.
    pub fn get_wallpaper_path(&mut self, reply: SearchReply) -> (r: SearchStep)
        ensures
            final(self)@ == search_outcome(old(self)@, reply@).search,
            r@ == search_outcome(old(self)@, reply@).step,
    {
        let front = self.queue.front();
        match (reply, front) {
            (SearchReply::Started, _) => self.ask(
                Source::Gnome,
                SearchStep::ReadSetting { dark: false },
            ),
            (SearchReply::Setting { output }, None) => {
                if self.source == Source::Kde {
                    return SearchStep::Nothing;
                }
                self.queue = PathQueue::new(paths_in_setting(output));
                self.settle()
            },
            (SearchReply::KdeConfig { contents }, None) => {
                if self.source != Source::Kde {
                    return SearchStep::Nothing;
                }
                self.queue = PathQueue::new(paths_in_kde_config(contents));
                self.settle()
            },
            (SearchReply::Tested { found }, Some(path)) => {
                if found {
                    return SearchStep::Ended { result: Ok(path) };
                }
                self.queue.drop_front();
                self.settle()
            },
            _ => SearchStep::Nothing,
        }
    }
}

/// What a search can find out: the two settings, the Plasma configuration, and which files there
/// are.
pub struct Surroundings {
    pub light: Option<Seq<u8>>,
    pub dark: Option<Seq<u8>>,
    pub kde: Option<Seq<char>>,
    pub there: spec_fn(Seq<char>) -> bool,
}

impl Surroundings {
    /// What comes of a step.
    pub open spec fn reply(self, step: StepView) -> ReplyView {
        match step {
            StepView::ReadSetting { dark } => ReplyView::Setting {
                output: if dark {
                    self.dark
                } else {
                    self.light
                },
            },
            StepView::ReadKdeConfig => ReplyView::KdeConfig { contents: self.kde },
            StepView::TestPath { path } => ReplyView::Tested { found: (self.there)(path) },
            _ => ReplyView::Started,
        }
    }

    /// The paths that are named by places after this one.
    pub open spec fn named_after(self, source: Source) -> Seq<Seq<char>> {
        match source {
            Source::Gnome => setting_candidates(self.dark) + kde_candidates(self.kde),
            Source::GnomeDark => kde_candidates(self.kde),
            Source::Kde => Seq::empty(),
        }
    }

    /// All paths that are named, in the order of the places.
    pub open spec fn named(self) -> Seq<Seq<char>> {
        setting_candidates(self.light) + self.named_after(Source::Gnome)
    }
}

/// The step that a search ends with, if it does so after at most so many more replies.
pub open spec fn search_end(s: Surroundings, o: SearchOutcome, replies: nat) -> Option<StepView>
    decreases replies,
{
    if o.step is Found || o.step is NotFound {
        Some(o.step)
    } else if replies == 0 {
        None
    } else {
        search_end(s, search_outcome(o.search, s.reply(o.step)), (replies - 1) as nat)
    }
}

/// The step that a search ends with where these paths are what is left to try.
pub open spec fn end_for(s: Surroundings, paths: Seq<Seq<char>>) -> StepView {
    match search::first_existing(paths, s.there) {
        Some(path) => StepView::Found { path },
        None => not_found(),
    }
}

spec fn places_after(source: Source) -> nat {
    match source {
        Source::Gnome => 2,
        Source::GnomeDark => 1,
        Source::Kde => 0,
    }
}

proof fn lemma_settled_search_ends(s: Surroundings, search: SearchView, replies: nat)
    requires
        replies >= places_after(search.source) + search.left.len() + s.named_after(
            search.source,
        ).len(),
    ensures
        search_end(s, settled(search), replies) == Some(
            end_for(s, search.left + s.named_after(search.source)),
        ),
    decreases places_after(search.source), search.left.len(),
{
    let after = s.named_after(search.source);
    let all = search.left + after;
    if search.left.len() > 0 {
        assert(all[0] == search.left[0]);
        assert(all.skip(1) =~= search.left.skip(1) + after);
        let next = SearchView { source: search.source, left: search.left.skip(1) };
        if (s.there)(search.left[0]) {
            let o = settled(search);
            let o2 = search_outcome(o.search, s.reply(o.step));
            assert(search_end(s, o2, (replies - 1) as nat) == Some(o2.step));
        } else {
            lemma_settled_search_ends(s, next, (replies - 1) as nat);
        }
    } else {
        assert(all =~= after);
        match search.source {
            Source::Gnome => {
                lemma_settled_search_ends(
                    s,
                    SearchView { source: Source::GnomeDark, left: setting_candidates(s.dark) },
                    (replies - 1) as nat,
                );
            },
            Source::GnomeDark => {
                let next = SearchView { source: Source::Kde, left: kde_candidates(s.kde) };
                assert(next.left + s.named_after(Source::Kde) =~= next.left);
                lemma_settled_search_ends(s, next, (replies - 1) as nat);
            },
            Source::Kde => {},
        }
    }
}

/// A search ends with the first path that leads to a file, of those that are named by the light
/// setting, the dark setting and the Plasma configuration, in this order. It ends without one
/// exactly if there is none.
pub proof fn lemma_search_finds_first_wallpaper(s: Surroundings, search: SearchView)
    ensures
        search_end(
            s,
            search_outcome(search, ReplyView::Started),
            (3 + s.named().len()) as nat,
        ) == Some(end_for(s, s.named())),
{
    let first = SearchView { source: Source::Gnome, left: setting_candidates(s.light) };
    lemma_settled_search_ends(s, first, (2 + s.named().len()) as nat);
}

/// What the Windows registry says of the wallpaper: an empty value means none.
pub fn registry_wallpaper(value: String) -> (r: Result<String, String>)
    ensures
        if value@.len() == 0 {
            r matches Err(m) && m@ == "No wallpaper set (registry value is empty)"@
        } else {
            r == Ok::<String, String>(value)
        },
{
    if value.as_str().is_empty() {
        return Err("No wallpaper set (registry value is empty)".to_owned());
    }
    Ok(value)
}

/// The wallpaper by what the script interpreter of macOS printed, as text.
pub open spec fn scripted_outcome(success: bool, out: Seq<char>, err: Seq<char>) -> Result<
    Seq<char>,
    Seq<char>,
> {
    if !success {
        Err("osascript failed: "@ + err)
    } else if bare(out).len() == 0 {
        Err("No wallpaper path returned by osascript"@)
    } else {
        Ok(bare(out))
    }
}

/// The view of a path or of what went wrong.
pub open spec fn result_view(r: Result<String, String>) -> Result<Seq<char>, Seq<char>> {
    match r {
        Ok(path) => Ok(path@),
        Err(message) => Err(message@),
    }
}

/// Reads the wallpaper off what the script interpreter of macOS printed.
pub fn scripted_wallpaper_text(success: bool, out: &str, err: &str) -> (r: Result<String, String>)
    ensures
        result_view(r) == scripted_outcome(success, out@, err@),
{
    if !success {
        return Err(super::message("osascript failed: ", err));
    }
    let path = trim(out, Trim::White);
    if path.is_empty() {
        return Err("No wallpaper path returned by osascript".to_owned());
    }
    Ok(path.to_owned())
}

/// Reads the wallpaper off what the script interpreter of macOS printed, in bytes.
pub fn scripted_wallpaper(success: bool, stdout: &[u8], stderr: &[u8]) -> (r: Result<
    String,
    String,
>)
    ensures
        result_view(r) == scripted_outcome(
            success,
            platform_text::utf8_lossy_text(stdout@),
            platform_text::utf8_lossy_text(stderr@),
        ),
        vstd::utf8::valid_utf8(stdout@) && vstd::utf8::valid_utf8(stderr@) ==> result_view(r)
            == scripted_outcome(
            success,
            vstd::utf8::decode_utf8(stdout@),
            vstd::utf8::decode_utf8(stderr@),
        ),
{
    let out = utf8_lossy(stdout);
    let err = utf8_lossy(stderr);
    scripted_wallpaper_text(success, out.as_str(), err.as_str())
}

/// Space around a text goes, and the text stays as it is.
pub proof fn lemma_bare(front: Seq<char>, s: Seq<char>, back: Seq<char>)
    requires
        forall|i: int| 0 <= i < front.len() ==> text::is_white(#[trigger] front[i]),
        forall|i: int| 0 <= i < back.len() ==> text::is_white(#[trigger] back[i]),
        s.len() > 0 ==> !text::is_white(s[0]) && !text::is_white(s.last()),
    ensures
        bare(front + s + back) == s,
{
    text::lemma_trimmed(front, s, back, |c: char| Trim::White.takes(c));
}

/// A text in single quotes, or in double ones, comes out of them, where it neither begins nor ends
/// with a quote itself. A text without quotes at its ends stays as it is.
pub proof fn lemma_unquoted(s: Seq<char>)
    requires
        s.len() > 0 ==> {
            &&& s[0] != '\'' && s[0] != '"'
            &&& s.last() != '\'' && s.last() != '"'
        },
    ensures
        unquoted(seq!['\''] + s + seq!['\'']) == s,
        unquoted(seq!['"'] + s + seq!['"']) == s,
        unquoted(s) == s,
{
    let single = |c: char| Trim::Only { c: '\'' }.takes(c);
    let double = |c: char| Trim::Only { c: '"' }.takes(c);
    let none = Seq::<char>::empty();
    let quoted = seq!['"'] + s + seq!['"'];
    assert(none + s + none =~= s);
    assert(none + quoted + none =~= quoted);
    text::lemma_trimmed(seq!['\''], s, seq!['\''], single);
    text::lemma_trimmed(none, s, none, single);
    text::lemma_trimmed(none, s, none, double);
    text::lemma_trimmed(seq!['"'], s, seq!['"'], double);
    text::lemma_trimmed(none, quoted, none, single);
}

/// A setting that is a plain path, with space around it or none, names that path; one that is a
/// path in quotes is taken with its quotes.
pub proof fn lemma_plain_setting(front: Seq<char>, path: Seq<char>, back: Seq<char>)
    requires
        forall|i: int| 0 <= i < front.len() ==> text::is_white(#[trigger] front[i]),
        forall|i: int| 0 <= i < back.len() ==> text::is_white(#[trigger] back[i]),
        path.len() > 0 && path[0] == '/',
        !text::is_white(path.last()) && path.last() != '\'' && path.last() != '"',
    ensures
        encoded_path(front + path + back) == path,
        encoded_path(front + (seq!['\''] + path + seq!['\'']) + back) == seq!['\''] + path
            + seq!['\''],
{
    let quoted = seq!['\''] + path + seq!['\''];
    lemma_bare(front, path, back);
    lemma_bare(front, quoted, back);
    lemma_unquoted(path);
    reveal_strlit("file://");
    text::lemma_begins_with("file://"@, path);
    assert("file://"@[0] == 'f' && path[0] != 'f');
}

/// An address of a file names the path behind its scheme; a path names itself.
pub proof fn lemma_file_scheme_goes(path: Seq<char>)
    ensures
        without_file_scheme("file://"@ + path) == path,
        !text::begins_with(path, "file://"@) ==> without_file_scheme(path) == path,
{
    text::lemma_begins_with("file://"@, path);
    assert(("file://"@ + path).skip("file://"@.len() as int) =~= path);
}

/// The Plasma configuration is read line by line, in order: a line that gives an image names its
/// path, written as an address or not, and any other line names nothing.
pub proof fn lemma_kde_lines(line: Seq<char>, path: Seq<char>, rest: Seq<char>)
    requires
        !line.contains('\n') && !(line.len() > 0 && line.last() == '\r'),
    ensures
        line == "Image="@ + ("file://"@ + path) ==> kde_candidates(
            Some(line + seq!['\n'] + rest),
        ) == seq![path] + kde_candidates(Some(rest)),
        line == "Image="@ + path && !text::begins_with(path, "file://"@) ==> kde_candidates(
            Some(line + seq!['\n'] + rest),
        ) == seq![path] + kde_candidates(Some(rest)),
        !text::begins_with(line, "Image="@) ==> kde_candidates(Some(line + seq!['\n'] + rest))
            == kde_candidates(Some(rest)),
        kde_candidates(None).len() == 0,
{
    let f = |s: Seq<char>| without_file_scheme(s);
    let all = line + seq!['\n'] + rest;
    let prefix = "Image="@;
    let none = Seq::<Seq<char>>::empty();
    text::lemma_lines(line, rest);
    text::lemma_fields_of_both(seq![line], text::lines(rest), prefix);
    assert(none.push(line) =~= seq![line]);
    lemma_file_scheme_goes(path);
    let fields = text::fields(text::lines(rest), prefix);
    if line == prefix + ("file://"@ + path) {
        text::lemma_fields(none, "file://"@ + path, prefix);
        assert(text::fields(seq![line], prefix) =~= seq!["file://"@ + path]);
        assert((seq!["file://"@ + path] + fields).map_values(f) =~= seq![path]
            + fields.map_values(f));
    }
    if line == prefix + path && !text::begins_with(path, "file://"@) {
        text::lemma_fields(none, path, prefix);
        assert(text::fields(seq![line], prefix) =~= seq![path]);
        assert((seq![path] + fields).map_values(f) =~= seq![path] + fields.map_values(f));
    }
    if !text::begins_with(line, prefix) {
        text::lemma_fields(none, line, prefix);
        assert(text::fields(seq![line], prefix) =~= none);
        assert(none + fields =~= fields);
    }
}

/// A setting that was printed names one path, or none where that is empty; one that could not be
/// printed names none.
pub proof fn lemma_setting_names_one_path(output: Option<Seq<u8>>)
    ensures
        setting_candidates(output).len() <= 1,
        output is None ==> setting_candidates(output).len() == 0,
        output matches Some(bytes) ==> {
            let path = path_of_setting(platform_text::utf8_lossy_text(bytes));
            &&& setting_candidates(output).len() == 1 <==> path.len() > 0
            &&& path.len() > 0 ==> setting_candidates(output)[0] == path
        },
{
}

/// The places are asked in this order: the light setting, the dark one, the Plasma configuration.
/// The search begins with the light setting, and goes to the next place when no path of this one
/// leads to a file.
pub proof fn lemma_places_in_order(s: Surroundings, search: SearchView)
    ensures
        s.named() == setting_candidates(s.light) + setting_candidates(s.dark) + kde_candidates(
            s.kde,
        ),
        search_outcome(search, ReplyView::Started).step == (StepView::ReadSetting { dark: false }),
        settled(SearchView { source: Source::Gnome, left: Seq::empty() }).step == (
        StepView::ReadSetting { dark: true }),
        settled(SearchView { source: Source::GnomeDark, left: Seq::empty() }).step
            == StepView::ReadKdeConfig,
        settled(SearchView { source: Source::Kde, left: Seq::empty() }).step == (
        StepView::NotFound {
            message: "Could not detect wallpaper path on this Linux desktop environment"@,
        }),
        s.reply(StepView::ReadSetting { dark: false }) == (ReplyView::Setting { output: s.light }),
        s.reply(StepView::ReadSetting { dark: true }) == (ReplyView::Setting { output: s.dark }),
        s.reply(StepView::ReadKdeConfig) == (ReplyView::KdeConfig { contents: s.kde }),
{
    assert(s.named() =~= setting_candidates(s.light) + setting_candidates(s.dark) + kde_candidates(
        s.kde,
    ));
}

/// The search ends with a path exactly if one that is named leads to a file, and then with the
/// first such path; otherwise it says that there is none.
pub proof fn lemma_wallpaper_is_the_first_that_exists(s: Surroundings, search: SearchView)
    ensures
        ({
            let all = setting_candidates(s.light) + setting_candidates(s.dark) + kde_candidates(
                s.kde,
            );
            let end = search_end(
                s,
                search_outcome(search, ReplyView::Started),
                (3 + all.len()) as nat,
            );
            &&& forall|i: int|
                0 <= i < all.len() && (s.there)(#[trigger] all[i]) && (forall|j: int|
                    0 <= j < i ==> !(s.there)(#[trigger] all[j])) ==> end == Some(
                    StepView::Found { path: all[i] },
                )
            &&& (forall|j: int| 0 <= j < all.len() ==> !(s.there)(#[trigger] all[j])) ==> end
                == Some(
                StepView::NotFound {
                    message: "Could not detect wallpaper path on this Linux desktop environment"@,
                },
            )
        }),
{
    lemma_places_in_order(s, search);
    lemma_search_finds_first_wallpaper(s, search);
    let all = s.named();
    search::lemma_first_existing(all, s.there);
    assert forall|i: int|
        0 <= i < all.len() && (s.there)(#[trigger] all[i]) && (forall|j: int|
            0 <= j < i ==> !(s.there)(#[trigger] all[j])) implies search::first_existing(
        all,
        s.there,
    ) == Some(all[i]) by {
        let p = search::first_existing(all, s.there)->0;
        let k = choose|k: int|
            0 <= k < all.len() && #[trigger] all[k] == p && forall|j: int|
                0 <= j < k ==> !(s.there)(#[trigger] all[j]);
        if k < i {
            assert(!(s.there)(all[k]));
        }
        if i < k {
            assert(!(s.there)(all[i]));
        }
    }
}

/// The script interpreter's answer counts only where it succeeded and printed more than space; the
/// path is what it printed without the space around it.
pub proof fn lemma_scripted_answer(
    front: Seq<char>,
    path: Seq<char>,
    back: Seq<char>,
    err: Seq<char>,
)
    requires
        forall|i: int| 0 <= i < front.len() ==> text::is_white(#[trigger] front[i]),
        forall|i: int| 0 <= i < back.len() ==> text::is_white(#[trigger] back[i]),
        path.len() > 0 ==> !text::is_white(path[0]) && !text::is_white(path.last()),
    ensures
        path.len() > 0 ==> scripted_outcome(true, front + path + back, err) == Ok::<
            Seq<char>,
            Seq<char>,
        >(path),
        path.len() == 0 ==> scripted_outcome(true, front + path + back, err) == Err::<
            Seq<char>,
            Seq<char>,
        >("No wallpaper path returned by osascript"@),
        scripted_outcome(false, path, err) == Err::<Seq<char>, Seq<char>>(
            "osascript failed: "@ + err,
        ),
{
    lemma_bare(front, path, back);
}

/// The path in an address is what follows its scheme, with quotes of either kind around the address
/// or none, and with any space around it.
pub proof fn lemma_address_in_a_setting(front: Seq<char>, path: Seq<char>, back: Seq<char>)
    requires
        forall|i: int| 0 <= i < front.len() ==> text::is_white(#[trigger] front[i]),
        forall|i: int| 0 <= i < back.len() ==> text::is_white(#[trigger] back[i]),
        path.len() > 0,
        !text::is_white(path.last()) && path.last() != '\'' && path.last() != '"',
    ensures
        encoded_path(front + ("file://"@ + path) + back) == path,
        encoded_path(front + (seq!['\''] + ("file://"@ + path) + seq!['\'']) + back) == path,
        encoded_path(front + (seq!['"'] + ("file://"@ + path) + seq!['"']) + back) == path,
{
    let address = "file://"@ + path;
    reveal_strlit("file://");
    assert(address[0] == 'f' && address.last() == path.last());
    lemma_bare(front, address, back);
    lemma_bare(front, seq!['\''] + address + seq!['\''], back);
    lemma_bare(front, seq!['"'] + address + seq!['"'], back);
    lemma_unquoted(address);
    text::lemma_begins_with("file://"@, path);
    assert(address.skip("file://"@.len() as int) =~= path);
}

/// An answer to a question that was not asked leads nowhere: a setting or a configuration while
/// paths are left, one of the other kind, and a test while none is left.
pub proof fn lemma_unasked_answers(
    search: SearchView,
    output: Option<Seq<u8>>,
    contents: Option<Seq<char>>,
    found: bool,
)
    ensures
        ({
            let nothing = SearchOutcome { search, step: StepView::Nothing };
            &&& search.left.len() > 0 || search.source == Source::Kde ==> search_outcome(
                search,
                ReplyView::Setting { output },
            ) == nothing
            &&& search.left.len() > 0 || search.source != Source::Kde ==> search_outcome(
                search,
                ReplyView::KdeConfig { contents },
            ) == nothing
            &&& search.left.len() == 0 ==> search_outcome(search, ReplyView::Tested { found })
                == nothing
        }),
{
}

/// What replies, steps and results hold is what their views say.
pub proof fn lemma_views_of_a_search(
    bytes: Vec<u8>,
    contents: String,
    path: String,
    found: bool,
    dark: bool,
)
    ensures
        bytes_view(Some(bytes)) == Some(bytes@) && bytes_view(None) is None,
        SearchReply::Started@ == ReplyView::Started,
        (SearchReply::Setting { output: Some(bytes) })@ == (ReplyView::Setting {
            output: Some(bytes@),
        }),
        (SearchReply::Setting { output: None })@ == (ReplyView::Setting { output: None }),
        (SearchReply::KdeConfig { contents: Some(contents) })@ == (ReplyView::KdeConfig {
            contents: Some(contents@),
        }),
        (SearchReply::KdeConfig { contents: None })@ == (ReplyView::KdeConfig { contents: None }),
        (SearchReply::Tested { found })@ == (ReplyView::Tested { found }),
        (SearchStep::ReadSetting { dark })@ == (StepView::ReadSetting { dark }),
        SearchStep::ReadKdeConfig@ == StepView::ReadKdeConfig,
        (SearchStep::TestPath { path })@ == (StepView::TestPath { path: path@ }),
        (SearchStep::Ended { result: Ok(path) })@ == (StepView::Found { path: path@ }),
        (SearchStep::Ended { result: Err(path) })@ == (StepView::NotFound { message: path@ }),
        SearchStep::Nothing@ == StepView::Nothing,
        result_view(Ok(path)) == Ok::<Seq<char>, Seq<char>>(path@),
        result_view(Err(path)) == Err::<Seq<char>, Seq<char>>(path@),
{
}

/// The registry names a wallpaper exactly if its value is not empty, and then just that value.
pub proof fn lemma_registry_value(value: String, r: Result<String, String>)
    requires
        call_ensures(registry_wallpaper, (value,), r),
    ensures
        r is Ok <==> value@.len() > 0,
        r matches Ok(path) ==> path@ == value@,
{
}

} // verus!
