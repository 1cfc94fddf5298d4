//! Text that the standard library makes out of bytes, code units and paths.
//!
//! Each function here hands its argument to one function of the standard library. What it claims
//! of that function is believed, not proved.

use vstd::prelude::*;

use crate::file_name;
use crate::text;
use crate::window_layer::class_name;

verus! {

/// The text that `String::from_utf8_lossy` makes of bytes.
pub uninterp spec fn utf8_lossy_text(bytes: Seq<u8>) -> Seq<char>;

/// Calls `String::from_utf8_lossy`, which replaces invalid sequences and nothing else. Bytes that
/// are valid UTF-8 become the characters that they encode. A text in front stays as it is, and
/// what follows it becomes what it becomes alone. What stands for an invalid sequence is left
/// unsaid, but that the same bytes give the same text.
#[verifier::external_body]
pub(crate) fn utf8_lossy(bytes: &[u8]) -> (r: String)
    ensures
        r@ == utf8_lossy_text(bytes@),
        vstd::utf8::valid_utf8(bytes@) ==> r@ == vstd::utf8::decode_utf8(bytes@),
        forall|a: Seq<char>, b: Seq<u8>| #[trigger]
            (vstd::utf8::encode_utf8(a) + b) == bytes@ ==> r@ == a + utf8_lossy_text(b),
{
    String::from_utf8_lossy(bytes).into_owned()
}

/// The first half of a surrogate pair.
pub open spec fn is_high_surrogate(unit: u16) -> bool {
    0xD800 <= unit < 0xDC00
}

/// The second half of a surrogate pair.
pub open spec fn is_low_surrogate(unit: u16) -> bool {
    0xDC00 <= unit < 0xE000
}

/// The text that UTF-16 code units stand for, with the replacement character in place of each
/// surrogate that is not part of a pair.
pub open spec fn utf16_lossy_text(units: Seq<u16>) -> Seq<char>
    decreases units.len(),
{
    if units.len() == 0 {
        Seq::empty()
    } else if units.len() > 1 && is_high_surrogate(units[0]) && is_low_surrogate(units[1]) {
        seq![(0x1_0000 + (units[0] - 0xD800) * 0x400 + (units[1] - 0xDC00)) as char]
            + utf16_lossy_text(units.skip(2))
    } else if is_high_surrogate(units[0]) || is_low_surrogate(units[0]) {
        seq!['\u{FFFD}'] + utf16_lossy_text(units.skip(1))
    } else {
        seq![units[0] as char] + utf16_lossy_text(units.skip(1))
    }
}

/// Calls `String::from_utf16_lossy`, which decodes UTF-16 and replaces unpaired surrogates by the
/// replacement character.
#[verifier::external_body]
pub(crate) fn utf16_lossy(units: &[u16]) -> (r: String)
    ensures
        r@ == utf16_lossy_text(units@),
{
    String::from_utf16_lossy(units)
}

proof fn lemma_utf16_begins(c: char, rest: Seq<char>)
    ensures
        class_name::utf16(seq![c] + rest) == class_name::utf16_units(c) + class_name::utf16(rest),
    decreases rest.len(),
{
    let all = seq![c] + rest;
    if rest.len() == 0 {
        assert(all.drop_last() =~= Seq::empty());
        assert(class_name::utf16(all.drop_last()) =~= Seq::empty());
        assert(class_name::utf16(rest) =~= Seq::empty());
        assert(class_name::utf16(all) =~= class_name::utf16_units(c) + class_name::utf16(rest));
    } else {
        lemma_utf16_begins(c, rest.drop_last());
        assert(all.drop_last() =~= seq![c] + rest.drop_last());
        assert(class_name::utf16(all) =~= class_name::utf16_units(c) + class_name::utf16(rest));
    }
}

proof fn lemma_character_comes_back(c: char, rest: Seq<u16>)
    ensures
        utf16_lossy_text(class_name::utf16_units(c) + rest) == seq![c] + utf16_lossy_text(rest),
{
    let units = class_name::utf16_units(c) + rest;
    if (c as u32) < 0x1_0000 {
        assert(units.skip(1) =~= rest);
    } else {
        assert(units.skip(2) =~= rest);
    }
}

/// The code units of a text stand for that text, with nothing replaced.
pub proof fn lemma_utf16_comes_back(t: Seq<char>)
    ensures
        utf16_lossy_text(class_name::utf16(t)) == t,
    decreases t.len(),
{
    if t.len() > 0 {
        let rest = t.skip(1);
        assert(t =~= seq![t[0]] + rest);
        lemma_utf16_begins(t[0], rest);
        lemma_utf16_comes_back(rest);
        lemma_character_comes_back(t[0], class_name::utf16(rest));
    }
}

/// An unpaired surrogate is replaced, and what follows it becomes what it becomes alone.
pub proof fn lemma_unpaired_surrogate_is_replaced(unit: u16, rest: Seq<u16>)
    requires
        is_low_surrogate(unit) || (is_high_surrogate(unit) && !(rest.len() > 0 && is_low_surrogate(
            rest[0],
        ))),
    ensures
        utf16_lossy_text(seq![unit] + rest) == seq!['\u{FFFD}'] + utf16_lossy_text(rest),
{
    assert((seq![unit] + rest).skip(1) =~= rest);
}

/// A path that every platform takes apart in the same way: its only separators are slashes, and
/// it names no drive, share or device.
pub open spec fn is_portable(path: Seq<char>) -> bool {
    &&& !path.contains('\\')
    &&& !path.contains(':')
    &&& !(path.len() >= 2 && path[0] == '/' && path[1] == '/')
}

/// The last of several path components, where empty ones and `.` do not count, and `..` is no
/// name.
pub open spec fn last_name(parts: Seq<Seq<char>>) -> Option<Seq<char>>
    decreases parts.len(),
{
    if parts.len() == 0 {
        None
    } else if parts.last() == Seq::<char>::empty() || parts.last() == seq!['.'] {
        last_name(parts.drop_last())
    } else if parts.last() == seq!['.', '.'] {
        None
    } else {
        Some(parts.last())
    }
}

/// The name at the end of a path where slashes alone separate its parts.
pub open spec fn unix_name(path: Seq<char>) -> Option<Seq<char>> {
    last_name(text::split(path, '/'))
}

/// The text with slashes in place of backslashes.
pub open spec fn slashed(path: Seq<char>) -> Seq<char> {
    path.map_values(
        |c: char|
            if c == '\\' {
                '/'
            } else {
                c
            },
    )
}

/// The path begins with two slashes or backslashes, as the name of a share or a device does on
/// Windows.
pub open spec fn begins_with_share(path: Seq<char>) -> bool {
    slashed(path).len() >= 2 && slashed(path)[0] == '/' && slashed(path)[1] == '/'
}

/// A path that Windows takes as it is written: backslashes alone separate its parts.
pub open spec fn is_verbatim(path: Seq<char>) -> bool {
    text::begins_with(path, seq!['\\', '\\', '?', '\\'])
}

/// The parts of a path on Windows.
pub open spec fn windows_parts(path: Seq<char>) -> Seq<Seq<char>> {
    if is_verbatim(path) {
        text::split(path, '\\')
    } else {
        text::split(slashed(path), '/')
    }
}

/// A character that separates the parts of a path on some platform.
pub open spec fn is_separator(c: char) -> bool {
    c == '/' || c == '\\' || c == ':'
}

/// What follows the last separator of any platform.
pub open spec fn tail(path: Seq<char>) -> Seq<char>
    decreases path.len(),
{
    if path.len() == 0 || is_separator(path.last()) {
        Seq::empty()
    } else {
        tail(path.drop_last()).push(path.last())
    }
}

/// How many parts, empty ones not counted, the name of a share or a device may take: a server and
/// its share, a dot and a device, a question mark and a drive, or a question mark and up to three
/// others.
pub open spec fn share_parts(parts: Seq<Seq<char>>) -> int {
    let drive = parts.len() > 1 && parts[1].len() == 2 && parts[1][1] == ':';
    if parts.len() > 0 && parts[0] == seq!['?'] && !drive {
        4
    } else {
        2
    }
}

/// The path goes on behind the name of a share or a device, and ends with a name.
pub open spec fn leaves_the_share(path: Seq<char>) -> bool {
    let parts = windows_parts(path).filter(|part: Seq<char>| part.len() > 0);
    &&& parts.len() > share_parts(parts)
    &&& parts.last() != seq!['.']
    &&& parts.last() != seq!['.', '.']
}

/// `name` may be how Windows calls the file that a path leads to. The name of a share or a device
/// in front leads to no file, and a drive in front, with its colon, is no part of a name. Of a
/// verbatim path the name is the last part, or where slashes follow a drive an end of it.
pub open spec fn may_be_windows_name(path: Seq<char>, name: Option<Seq<char>>) -> bool {
    if is_verbatim(path) {
        match name {
            Some(n) => last_name(windows_parts(path)) matches Some(part) && text::ends_in(part, n)
                && text::ends_in(n, tail(part)),
            None => !leaves_the_share(path),
        }
    } else {
        ||| name == last_name(windows_parts(path))
        ||| begins_with_share(path) && !leaves_the_share(path) && name is None
        ||| !begins_with_share(path) && path.len() >= 2 && path[1] == ':' && name == last_name(
            text::split(slashed(path.skip(2)), '/'),
        )
    }
}

/// `name` is how some platform calls the file that a path leads to.
pub open spec fn may_be_named(path: Seq<char>, name: Option<Seq<char>>) -> bool {
    name == unix_name(path) || may_be_windows_name(path, name)
}

/// Calls `Path::file_name` and keeps the name where it is text. It is the last component of the
/// path, where that is a name. Slashes separate the components, and on Windows backslashes do too,
/// but they alone in a path that begins with `\\?\`. What Windows takes for the name of a share, a
/// device or a drive is no component with a name. Where that name ends is left unsaid, but for the
/// number of parts that it may take.
#[verifier::external_body]
pub(crate) fn path_file_name(path: &str) -> (r: Option<String>)
    ensures
        may_be_named(path@, text::string_view(r)),
{
    std::path::Path::new(path).file_name().and_then(|n| n.to_str()).map(|n| n.to_string())
}

/// Every platform calls the file that a portable path leads to by the same name.
pub proof fn lemma_portable_name(path: Seq<char>, name: Option<Seq<char>>)
    requires
        is_portable(path),
        may_be_named(path, name),
    ensures
        name == unix_name(path),
{
    assert(slashed(path) =~= path) by {
        assert forall|i: int| 0 <= i < path.len() implies slashed(path)[i] == path[i] by {
            assert(path.contains(path[i]));
        }
    }
    if is_verbatim(path) {
        assert(path.take(4)[0] == path[0]);
        assert(path.contains(path[0]));
    }
    if path.len() >= 2 {
        assert(path.contains(path[1]));
    }
}

/// A name follows the last separator of any platform.
pub open spec fn ends_with_a_name(path: Seq<char>) -> bool {
    &&& tail(path).len() > 0
    &&& tail(path) != seq!['.']
    &&& tail(path) != seq!['.', '.']
}

/// A path that leads to a file by name on every platform.
pub open spec fn names_a_file(path: Seq<char>) -> bool {
    ends_with_a_name(path) && (begins_with_share(path) ==> leaves_the_share(path))
}

proof fn lemma_last_part_ends_in_the_tail(s: Seq<char>, sep: char)
    requires
        is_separator(sep),
    ensures
        text::ends_in(text::split(s, sep).last(), tail(s)),
    decreases s.len(),
{
    let part = text::split(s, sep).last();
    if s.len() == 0 || is_separator(s.last()) {
        assert(part.skip(part.len() as int) =~= Seq::empty());
    } else {
        let before = s.drop_last();
        lemma_last_part_ends_in_the_tail(before, sep);
        let shorter = text::split(before, sep).last();
        assert(part =~= shorter.push(s.last()));
        assert(part.skip(part.len() - tail(s).len()) =~= shorter.skip(
            shorter.len() - tail(before).len(),
        ).push(s.last()));
    }
}

proof fn lemma_last_part_is_the_name(s: Seq<char>, sep: char)
    requires
        is_separator(sep),
        ends_with_a_name(s),
    ensures
        last_name(text::split(s, sep)) == Some(text::split(s, sep).last()),
        text::ends_in(s, text::split(s, sep).last()),
        text::ends_in(text::split(s, sep).last(), tail(s)),
{
    file_name::lemma_last_part_ends_the_text(s, sep);
    lemma_last_part_ends_in_the_tail(s, sep);
    let part = text::split(s, sep).last();
    if part == seq!['.'] {
        assert(part.skip(part.len() - tail(s).len()) =~= seq!['.']);
    }
    if part == seq!['.', '.'] {
        if tail(s).len() == 1 {
            assert(part.skip(part.len() - tail(s).len()) =~= seq!['.']);
        } else {
            assert(part.skip(part.len() - tail(s).len()) =~= seq!['.', '.']);
        }
    }
}

proof fn lemma_slashed_tail(path: Seq<char>)
    ensures
        tail(slashed(path)) == tail(path),
    decreases path.len(),
{
    if path.len() > 0 {
        lemma_slashed_tail(path.drop_last());
        assert(slashed(path).drop_last() =~= slashed(path.drop_last()));
    }
}

proof fn lemma_slashed_end(path: Seq<char>, end: Seq<char>)
    requires
        text::ends_in(slashed(path), end),
        !end.contains('/'),
    ensures
        text::ends_in(path, end),
{
    let k = path.len() - end.len();
    assert forall|i: int| 0 <= i < end.len() implies path.skip(k)[i] == end[i] by {
        assert(slashed(path).skip(k)[i] == slashed(path)[k + i]);
        assert(end.contains(end[i]));
    }
    assert(path.skip(k) =~= end);
}

proof fn lemma_tail_behind_a_separator(path: Seq<char>, k: int)
    requires
        0 < k <= path.len(),
        is_separator(path[k - 1]),
    ensures
        tail(path.skip(k)) == tail(path),
    decreases path.len(),
{
    if k < path.len() {
        lemma_tail_behind_a_separator(path.drop_last(), k);
        assert(path.drop_last().skip(k) =~= path.skip(k).drop_last());
    }
}

proof fn lemma_slashed_name(path: Seq<char>)
    requires
        ends_with_a_name(path),
    ensures
        last_name(text::split(slashed(path), '/')) matches Some(name) && text::ends_in(path, name)
            && text::ends_in(name, tail(path)),
{
    lemma_slashed_tail(path);
    lemma_last_part_is_the_name(slashed(path), '/');
    file_name::lemma_last_part_ends_the_text(slashed(path), '/');
    lemma_slashed_end(path, text::split(slashed(path), '/').last());
}

/// Where a name follows the last separator of any platform, a platform that sees a name sees an
/// end of the path that reaches back at least to that separator. Every platform sees one, unless
/// the path is the name of a share or a device on Windows.
pub proof fn lemma_name_ends_the_path(path: Seq<char>, name: Option<Seq<char>>)
    requires
        ends_with_a_name(path),
        may_be_named(path, name),
    ensures
        name is None ==> !names_a_file(path),
        name matches Some(n) ==> text::ends_in(path, n) && text::ends_in(n, tail(path)),
{
    lemma_last_part_is_the_name(path, '/');
    lemma_last_part_is_the_name(path, '\\');
    lemma_slashed_name(path);
    if is_verbatim(path) {
        let part = text::split(path, '\\').last();
        let k = path.len() - part.len();
        file_name::lemma_last_part_ends_the_text(path, '\\');
        if k > 0 {
            lemma_tail_behind_a_separator(path, k);
        }
        if let Some(n) = name {
            assert(n.len() <= part.len() ==> path.skip(path.len() - n.len()) =~= part.skip(
                part.len() - n.len(),
            ));
        }
    }
    if path.len() >= 2 && path[1] == ':' {
        let rest = path.skip(2);
        lemma_tail_behind_a_separator(path, 2);
        lemma_slashed_name(rest);
        let end = last_name(text::split(slashed(rest), '/'))->0;
        assert(path.skip(path.len() - end.len()) =~= rest.skip(rest.len() - end.len()));
    }
}

/// A name behind a separator of some platform, which holds no separator itself, is what follows the
/// last separator of any platform.
pub proof fn lemma_tail_is_the_name(dir: Seq<char>, sep: char, name: Seq<char>)
    requires
        sep == '/' || sep == '\\' || sep == ':',
        !name.contains('/') && !name.contains('\\') && !name.contains(':'),
    ensures
        tail(dir + seq![sep] + name) == name,
{
    let path = dir + seq![sep] + name;
    let k = dir.len() + 1;
    assert(path[k - 1] == sep);
    lemma_tail_behind_a_separator(path, k as int);
    assert(path.skip(k as int) =~= name);
    lemma_tail_without_separators(name);
}

proof fn lemma_tail_without_separators(name: Seq<char>)
    requires
        !name.contains('/') && !name.contains('\\') && !name.contains(':'),
    ensures
        tail(name) == name,
    decreases name.len(),
{
    if name.len() > 0 {
        let rest = name.drop_last();
        assert(name[name.len() - 1] == name.last());
        assert(name.contains(name.last()));
        assert forall|c: char| rest.contains(c) implies name.contains(c) by {
            let i = choose|i: int| 0 <= i < rest.len() && rest[i] == c;
            assert(name[i] == c);
        }
        lemma_tail_without_separators(rest);
        assert(rest.push(name.last()) =~= name);
    }
}

} // verus!
