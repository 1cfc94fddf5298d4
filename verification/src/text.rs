//! Text taken apart: comparison, prefixes, trimming, splitting, lines and numbers.

use vstd::prelude::*;
use vstd::string::*;

verus! {

/// The characters of a text.
pub fn chars_of(s: &str) -> (r: Vec<char>)
    ensures
        r@ == s@,
{
    let mut v: Vec<char> = Vec::new();
    for c in it: s.chars()
        invariant
            it.seq() == s@,
            v@ == s@.take(it.index() as int),
    {
        v.push(c);
    }
    assert(s@.take(s@.len() as int) =~= s@);
    v
}

/// Whether two texts are the same.
pub fn same_text(a: &str, b: &str) -> (r: bool)
    ensures
        r == (a@ == b@),
{
    let x = a.as_bytes();
    let y = b.as_bytes();
    proof {
        vstd::utf8::encode_utf8_decode_utf8(a@);
        vstd::utf8::encode_utf8_decode_utf8(b@);
    }
    if x.len() != y.len() {
        return false;
    }
    let mut i: usize = 0;
    while i < x.len()
        invariant
            x@.len() == y@.len(),
            i <= x@.len(),
            x@.take(i as int) =~= y@.take(i as int),
            x@ == a.spec_bytes(),
            y@ == b.spec_bytes(),
            vstd::utf8::decode_utf8(vstd::utf8::encode_utf8(a@)) == a@,
            vstd::utf8::decode_utf8(vstd::utf8::encode_utf8(b@)) == b@,
        decreases x@.len() - i,
    {
        if x[i] != y[i] {
            return false;
        }
        assert(x@.take(i + 1) =~= x@.take(i as int).push(x@[i as int]));
        assert(y@.take(i + 1) =~= y@.take(i as int).push(y@[i as int]));
        i += 1;
    }
    assert(x@.take(i as int) =~= x@);
    assert(y@.take(i as int) =~= y@);
    true
}

/// Whether a text is one of several.
pub fn is_one_of(s: &str, options: &[&str]) -> (r: bool)
    ensures
        r <==> exists|i: int| 0 <= i < options@.len() && s@ == #[trigger] options@[i]@,
{
    let mut i: usize = 0;
    while i < options.len()
        invariant
            i <= options@.len(),
            forall|j: int| 0 <= j < i ==> s@ != #[trigger] options@[j]@,
        decreases options@.len() - i,
    {
        if same_text(s, options[i]) {
            return true;
        }
        i += 1;
    }
    false
}

/// `a` is how `b` begins.
pub open spec fn begins_with(b: Seq<char>, a: Seq<char>) -> bool {
    a.len() <= b.len() && b.take(a.len() as int) == a
}

/// Whether a text begins with another.
pub fn starts_with(s: &str, prefix: &str) -> (r: bool)
    ensures
        r == begins_with(s@, prefix@),
{
    let n: usize = prefix.unicode_len();
    if s.unicode_len() < n {
        return false;
    }
    same_text(s.substring_char(0, n), prefix)
}

/// What follows a prefix, if the text begins with it.
pub fn strip_prefix<'a>(s: &'a str, prefix: &str) -> (r: Option<&'a str>)
    ensures
        match r {
            Some(rest) => begins_with(s@, prefix@) && rest@ == s@.skip(prefix@.len() as int),
            None => !begins_with(s@, prefix@),
        },
{
    if !starts_with(s, prefix) {
        return None;
    }
    Some(s.substring_char(prefix.unicode_len(), s.unicode_len()))
}

/// `b` ends with `a`.
pub open spec fn ends_in(b: Seq<char>, a: Seq<char>) -> bool {
    a.len() <= b.len() && b.skip(b.len() - a.len()) == a
}

/// Whether a text ends with another.
pub fn ends_with(s: &str, suffix: &str) -> (r: bool)
    ensures
        r == ends_in(s@, suffix@),
{
    let n: usize = s.unicode_len();
    let k: usize = suffix.unicode_len();
    if n < k {
        return false;
    }
    same_text(s.substring_char(n - k, n), suffix)
}

/// The text without the characters at its start that `p` holds of.
pub open spec fn trimmed_start(s: Seq<char>, p: spec_fn(char) -> bool) -> Seq<char>
    decreases s.len(),
{
    if s.len() > 0 && p(s[0]) {
        trimmed_start(s.skip(1), p)
    } else {
        s
    }
}

/// The text without the characters at its end that `p` holds of.
pub open spec fn trimmed_end(s: Seq<char>, p: spec_fn(char) -> bool) -> Seq<char>
    decreases s.len(),
{
    if s.len() > 0 && p(s.last()) {
        trimmed_end(s.drop_last(), p)
    } else {
        s
    }
}

/// The text without the characters at both its ends that `p` holds of.
pub open spec fn trimmed(s: Seq<char>, p: spec_fn(char) -> bool) -> Seq<char> {
    trimmed_end(trimmed_start(s, p), p)
}

/// Space in the sense of Unicode's `White_Space` property.
pub open spec fn is_white(c: char) -> bool {
    let v = c as u32;
    ||| 0x09 <= v <= 0x0D
    ||| v == 0x20
    ||| v == 0x85
    ||| v == 0xA0
    ||| v == 0x1680
    ||| 0x2000 <= v <= 0x200A
    ||| v == 0x2028
    ||| v == 0x2029
    ||| v == 0x202F
    ||| v == 0x205F
    ||| v == 0x3000
}

/// Whether a character is space.
pub fn is_white_space(c: char) -> (r: bool)
    ensures
        r == is_white(c),
{
    let v: u32 = c as u32;
    (0x09 <= v && v <= 0x0D) || v == 0x20 || v == 0x85 || v == 0xA0 || v == 0x1680 || (0x2000 <= v
        && v <= 0x200A) || v == 0x2028 || v == 0x2029 || v == 0x202F || v == 0x205F || v == 0x3000
}

/// Which characters are trimmed away.
#[derive(Clone, Copy, PartialEq, Eq, Debug, Structural)]
pub enum Trim {
    White,
    Only { c: char },
}

impl Trim {
    pub open spec fn takes(self, c: char) -> bool {
        match self {
            Trim::White => is_white(c),
            Trim::Only { c: only } => c == only,
        }
    }

    fn test(self, c: char) -> (r: bool)
        ensures
            r == self.takes(c),
    {
        match self {
            Trim::White => is_white_space(c),
            Trim::Only { c: only } => c == only,
        }
    }
}

/// The text without the trimmed characters at its start.
pub fn trim_start(s: &str, what: Trim) -> (r: &str)
    ensures
        r@ == trimmed_start(s@, |c: char| what.takes(c)),
{
    let ghost p = |c: char| what.takes(c);
    let chars = chars_of(s);
    let mut i: usize = 0;
    assert(s@.skip(0) =~= s@);
    while i < chars.len() && what.test(chars[i])
        invariant
            chars@ == s@,
            i <= chars@.len(),
            p == (|c: char| what.takes(c)),
            trimmed_start(s@, p) == trimmed_start(s@.skip(i as int), p),
        decreases chars@.len() - i,
    {
        assert(s@.skip(i as int).skip(1) =~= s@.skip(i + 1));
        i += 1;
    }
    assert(s@.subrange(i as int, chars@.len() as int) =~= s@.skip(i as int));
    s.substring_char(i, chars.len())
}

/// The text without the trimmed characters at its end.
pub fn trim_end(s: &str, what: Trim) -> (r: &str)
    ensures
        r@ == trimmed_end(s@, |c: char| what.takes(c)),
{
    let ghost p = |c: char| what.takes(c);
    let chars = chars_of(s);
    let mut n: usize = chars.len();
    assert(s@.take(n as int) =~= s@);
    while n > 0 && what.test(chars[n - 1])
        invariant
            chars@ == s@,
            n <= chars@.len(),
            p == (|c: char| what.takes(c)),
            trimmed_end(s@, p) == trimmed_end(s@.take(n as int), p),
        decreases n,
    {
        assert(s@.take(n as int).drop_last() =~= s@.take(n - 1));
        n -= 1;
    }
    assert(s@.subrange(0, n as int) =~= s@.take(n as int));
    s.substring_char(0, n)
}

/// The text without the trimmed characters at both its ends.
pub fn trim(s: &str, what: Trim) -> (r: &str)
    ensures
        r@ == trimmed(s@, |c: char| what.takes(c)),
{
    trim_end(trim_start(s, what), what)
}

/// The text cut at every `sep`.
pub open spec fn split(s: Seq<char>, sep: char) -> Seq<Seq<char>>
    decreases s.len(),
{
    if s.len() == 0 {
        seq![Seq::empty()]
    } else {
        let parts = split(s.drop_last(), sep);
        if s.last() == sep {
            parts.push(Seq::empty())
        } else {
            parts.drop_last().push(parts.last().push(s.last()))
        }
    }
}

/// The views of several texts.
pub open spec fn views(v: Seq<&str>) -> Seq<Seq<char>> {
    v.map_values(|s: &str| s@)
}

/// The views of several owned texts.
pub open spec fn string_views(v: Seq<String>) -> Seq<Seq<char>> {
    v.map_values(|s: String| s@)
}

/// The view of a text that may not be there.
pub open spec fn str_view(s: Option<&str>) -> Option<Seq<char>> {
    match s {
        Some(s) => Some(s@),
        None => None,
    }
}

/// The view of an owned text that may not be there.
pub open spec fn string_view(s: Option<String>) -> Option<Seq<char>> {
    match s {
        Some(s) => Some(s@),
        None => None,
    }
}

/// Cuts a text at every `sep`.
pub fn split_at_char(s: &str, sep: char) -> (r: Vec<&str>)
    ensures
        views(r@) == split(s@, sep),
        r@.len() > 0,
{
    let chars = chars_of(s);
    let mut parts: Vec<&str> = Vec::new();
    let mut start: usize = 0;
    let mut i: usize = 0;
    assert(s@.subrange(0, 0) =~= Seq::empty());
    assert(split(s@.take(0), sep) =~= views(parts@).push(s@.subrange(0, 0)));
    while i < chars.len()
        invariant
            chars@ == s@,
            start <= i <= chars@.len(),
            split(s@.take(i as int), sep) =~= views(parts@).push(
                s@.subrange(start as int, i as int),
            ),
        decreases chars@.len() - i,
    {
        let ghost before = split(s@.take(i as int), sep);
        assert(s@.take(i + 1).drop_last() =~= s@.take(i as int));
        assert(s@.take(i + 1).last() == s@[i as int]);
        if chars[i] == sep {
            let part = s.substring_char(start, i);
            let ghost old_parts = parts@;
            parts.push(part);
            start = i + 1;
            assert(views(parts@) =~= views(old_parts).push(part@));
            assert(s@.subrange(start as int, i + 1) =~= Seq::empty());
        } else {
            assert(before.drop_last() =~= views(parts@));
            assert(s@.subrange(start as int, i as int).push(s@[i as int]) =~= s@.subrange(
                start as int,
                i + 1,
            ));
        }
        i += 1;
    }
    let last = s.substring_char(start, chars.len());
    let ghost old_parts = parts@;
    parts.push(last);
    assert(views(parts@) =~= views(old_parts).push(last@));
    assert(s@.take(i as int) =~= s@);
    parts
}

/// A line without the carriage return that belonged to its ending.
pub open spec fn without_cr(line: Seq<char>) -> Seq<char> {
    if line.len() > 0 && line.last() == '\r' {
        line.drop_last()
    } else {
        line
    }
}

/// The lines of a text. A line ends with a line feed, which a carriage return may precede; the
/// last line may go without an ending.
pub open spec fn lines(s: Seq<char>) -> Seq<Seq<char>> {
    let parts = split(s, '\n');
    let ended = parts.drop_last().map_values(|p: Seq<char>| without_cr(p));
    if parts.last().len() == 0 {
        ended
    } else {
        ended.push(parts.last())
    }
}

fn strip_cr(line: &str) -> (r: &str)
    ensures
        r@ == without_cr(line@),
{
    let n: usize = line.unicode_len();
    if n > 0 && line.get_char(n - 1) == '\r' {
        line.substring_char(0, n - 1)
    } else {
        assert(line@.subrange(0, n as int) =~= line@);
        line
    }
}

/// Cuts a text into its lines.
pub fn lines_of(s: &str) -> (r: Vec<&str>)
    ensures
        views(r@) == lines(s@),
{
    let parts = split_at_char(s, '\n');
    let ghost all = split(s@, '\n');
    let ghost ended = all.drop_last().map_values(|p: Seq<char>| without_cr(p));
    let mut out: Vec<&str> = Vec::new();
    let mut i: usize = 0;
    let n: usize = parts.len() - 1;
    assert(views(out@) =~= ended.take(0));
    while i < n
        invariant
            n == parts@.len() - 1,
            i <= n,
            views(parts@) == all,
            ended == all.drop_last().map_values(|p: Seq<char>| without_cr(p)),
            views(out@) =~= ended.take(i as int),
        decreases n - i,
    {
        let line = strip_cr(parts[i]);
        let ghost old_out = out@;
        out.push(line);
        assert(views(parts@)[i as int] == parts@[i as int]@);
        assert(views(out@) =~= views(old_out).push(line@));
        assert(ended.take(i + 1) =~= ended.take(i as int).push(ended[i as int]));
        i += 1;
    }
    assert(ended.take(n as int) =~= ended);
    assert(views(parts@)[n as int] == parts@[n as int]@);
    if !parts[n].is_empty() {
        let ghost old_out = out@;
        out.push(parts[n]);
        assert(views(out@) =~= views(old_out).push(parts@[n as int]@));
    }
    out
}

/// What follows the prefix in each line that begins with it, in order.
pub open spec fn fields(all: Seq<Seq<char>>, prefix: Seq<char>) -> Seq<Seq<char>>
    decreases all.len(),
{
    if all.len() == 0 {
        Seq::empty()
    } else {
        let before = fields(all.drop_last(), prefix);
        if begins_with(all.last(), prefix) {
            before.push(all.last().skip(prefix.len() as int))
        } else {
            before
        }
    }
}

/// Collects what follows the prefix in each line that begins with it.
pub fn fields_of<'a>(contents: &'a str, prefix: &str) -> (r: Vec<&'a str>)
    ensures
        views(r@) == fields(lines(contents@), prefix@),
{
    let all = lines_of(contents);
    let mut out: Vec<&'a str> = Vec::new();
    let mut i: usize = 0;
    assert(views(out@) =~= fields(views(all@).take(0), prefix@));
    while i < all.len()
        invariant
            i <= all@.len(),
            views(out@) =~= fields(views(all@).take(i as int), prefix@),
        decreases all@.len() - i,
    {
        assert(views(all@).take(i + 1).drop_last() =~= views(all@).take(i as int));
        assert(views(all@).take(i + 1).last() == all@[i as int]@);
        if let Some(rest) = strip_prefix(all[i], prefix) {
            let ghost old_out = out@;
            out.push(rest);
            assert(views(out@) =~= views(old_out).push(rest@));
        }
        i += 1;
    }
    assert(views(all@).take(i as int) =~= views(all@));
    out
}

/// The number that a text of decimal digits stands for.
pub open spec fn decimal(s: Seq<char>) -> int
    decreases s.len(),
{
    if s.len() == 0 {
        0
    } else {
        10 * decimal(s.drop_last()) + (s.last() as u32 - '0' as u32)
    }
}

/// All characters are decimal digits.
pub open spec fn all_digits(s: Seq<char>) -> bool {
    forall|i: int| 0 <= i < s.len() ==> '0' <= #[trigger] s[i] <= '9'
}

/// The digits of a number that may be written with a plus sign.
pub open spec fn unsigned_digits(s: Seq<char>) -> Seq<char> {
    if s.len() > 0 && s[0] == '+' {
        s.skip(1)
    } else {
        s
    }
}

/// The number that a text stands for: decimal digits, at least one, after a plus sign or none,
/// for a value that fits thirty-two bits.
pub open spec fn parsed_u32(s: Seq<char>) -> Option<u32> {
    let digits = unsigned_digits(s);
    if digits.len() > 0 && all_digits(digits) && decimal(digits) <= u32::MAX {
        Some(decimal(digits) as u32)
    } else {
        None
    }
}

proof fn lemma_decimal_grows(s: Seq<char>, n: int)
    requires
        0 <= n <= s.len(),
        all_digits(s),
    ensures
        0 <= decimal(s.take(n)) <= decimal(s),
    decreases s.len(),
{
    if n == s.len() {
        assert(s.take(n) =~= s);
        if n > 0 {
            assert(s.drop_last() =~= s.take(n - 1));
            assert(all_digits(s.drop_last())) by {
                assert forall|i: int| 0 <= i < s.drop_last().len() implies '0'
                    <= #[trigger] s.drop_last()[i] <= '9' by {
                    assert(s.drop_last()[i] == s[i]);
                }
            }
            lemma_decimal_grows(s.drop_last(), n - 1);
            assert(s.drop_last().take(n - 1) =~= s.drop_last());
            assert('0' <= s[n - 1] <= '9');
        }
    } else {
        assert(all_digits(s.drop_last())) by {
            assert forall|i: int| 0 <= i < s.drop_last().len() implies '0'
                <= #[trigger] s.drop_last()[i] <= '9' by {
                assert(s.drop_last()[i] == s[i]);
            }
        }
        lemma_decimal_grows(s.drop_last(), n);
        assert(s.drop_last().take(n) =~= s.take(n));
        assert('0' <= s[s.len() - 1] <= '9');
        assert(decimal(s.drop_last()) <= decimal(s));
    }
}

/// Reads an unsigned number.
pub fn parse_u32(s: &str) -> (r: Option<u32>)
    ensures
        r == parsed_u32(s@),
{
    let chars = chars_of(s);
    let start: usize = if chars.len() > 0 && chars[0] == '+' { 1 } else { 0 };
    let ghost digits = unsigned_digits(s@);
    assert(digits =~= s@.skip(start as int));
    if start == chars.len() {
        return None;
    }
    let mut value: u64 = 0;
    let mut i: usize = start;
    while i < chars.len()
        invariant
            chars@ == s@,
            start <= i <= chars@.len(),
            start < chars@.len(),
            digits == unsigned_digits(s@),
            digits =~= s@.skip(start as int),
            value == decimal(digits.take(i - start)),
            value <= u32::MAX,
            all_digits(digits.take(i - start)),
        decreases chars@.len() - i,
    {
        let c: char = chars[i];
        let ghost k = i - start;
        assert(digits[k] == c);
        if c < '0' || c > '9' {
            return None;
        }
        let d: u32 = c as u32 - '0' as u32;
        value = 10 * value + d as u64;
        proof {
            assert(digits.take(k + 1).drop_last() =~= digits.take(k));
            assert(digits.take(k + 1).last() == c);
            assert forall|j: int| 0 <= j < k + 1 implies '0' <= #[trigger] digits.take(k + 1)[j]
                <= '9' by {
                if j < k {
                    assert(digits.take(k)[j] == digits.take(k + 1)[j]);
                }
            }
        }
        if value > u32::MAX as u64 {
            proof {
                if all_digits(digits) {
                    lemma_decimal_grows(digits, k + 1);
                }
            }
            return None;
        }
        i += 1;
    }
    assert(digits.take(digits.len() as int) =~= digits);
    Some(value as u32)
}

/// A text begins with another exactly if it is that one with something behind it.
pub proof fn lemma_begins_with(a: Seq<char>, b: Seq<char>)
    ensures
        begins_with(a + b, a),
        begins_with(b, a) ==> b == a + b.skip(a.len() as int),
        b.len() < a.len() ==> !begins_with(b, a),
        forall|i: int| 0 <= i < a.len() && i < b.len() && a[i] != b[i] ==> !begins_with(b, a),
{
    assert((a + b).take(a.len() as int) =~= a);
    if begins_with(b, a) {
        assert(b =~= b.take(a.len() as int) + b.skip(a.len() as int));
        assert forall|i: int| 0 <= i < a.len() implies a[i] == b[i] by {
            assert(b.take(a.len() as int)[i] == b[i]);
        }
    }
}

/// A text ends with another exactly if it is that one with something in front of it.
pub proof fn lemma_ends_in(a: Seq<char>, b: Seq<char>)
    ensures
        ends_in(b + a, a),
        ends_in(b, a) ==> b == b.take(b.len() - a.len()) + a,
        b.len() < a.len() ==> !ends_in(b, a),
{
    assert((b + a).skip((b + a).len() - a.len()) =~= a);
    if ends_in(b, a) {
        assert(b =~= b.take(b.len() - a.len()) + b.skip(b.len() - a.len()));
    }
}

/// What is trimmed away at the start is as many characters as possible of those that are to go.
pub proof fn lemma_trimmed_start(s: Seq<char>, p: spec_fn(char) -> bool)
    ensures
        ({
            let t = trimmed_start(s, p);
            &&& t.len() <= s.len() && t == s.skip(s.len() - t.len())
            &&& forall|i: int| 0 <= i < s.len() - t.len() ==> p(#[trigger] s[i])
            &&& t.len() > 0 ==> !p(t[0])
        }),
    decreases s.len(),
{
    let t = trimmed_start(s, p);
    if s.len() > 0 && p(s[0]) {
        let rest = s.skip(1);
        lemma_trimmed_start(rest, p);
        assert(rest.skip(rest.len() - t.len()) =~= s.skip(s.len() - t.len()));
        assert forall|i: int| 0 <= i < s.len() - t.len() implies p(#[trigger] s[i]) by {
            if i > 0 {
                assert(rest[i - 1] == s[i]);
            }
        }
    } else {
        assert(s.skip(0) =~= s);
    }
}

/// What is trimmed away at the end is as many characters as possible of those that are to go.
pub proof fn lemma_trimmed_end(s: Seq<char>, p: spec_fn(char) -> bool)
    ensures
        ({
            let t = trimmed_end(s, p);
            &&& t.len() <= s.len() && t == s.take(t.len() as int)
            &&& forall|i: int| t.len() <= i < s.len() ==> p(#[trigger] s[i])
            &&& t.len() > 0 ==> !p(t.last())
        }),
    decreases s.len(),
{
    let t = trimmed_end(s, p);
    if s.len() > 0 && p(s.last()) {
        let rest = s.drop_last();
        lemma_trimmed_end(rest, p);
        assert(rest.take(t.len() as int) =~= s.take(t.len() as int));
        assert forall|i: int| t.len() <= i < s.len() implies p(#[trigger] s[i]) by {
            if i < s.len() - 1 {
                assert(rest[i] == s[i]);
            }
        }
    } else {
        assert(s.take(s.len() as int) =~= s);
    }
}

/// A text in the middle, which neither begins nor ends with a character that is to go, comes back
/// from between any characters that are to go.
pub proof fn lemma_trimmed(
    front: Seq<char>,
    middle: Seq<char>,
    back: Seq<char>,
    p: spec_fn(char) -> bool,
)
    requires
        forall|i: int| 0 <= i < front.len() ==> p(#[trigger] front[i]),
        forall|i: int| 0 <= i < back.len() ==> p(#[trigger] back[i]),
        middle.len() > 0 ==> !p(middle[0]) && !p(middle.last()),
    ensures
        trimmed(front + middle + back, p) == middle,
        trimmed_start(front + middle, p) == middle,
        trimmed_end(middle + back, p) == middle,
{
    lemma_trimmed_front(front, middle, p);
    lemma_trimmed_back(middle, back, p);
    if middle.len() > 0 {
        assert((middle + back)[0] == middle[0]);
        lemma_trimmed_front(front, middle + back, p);
        assert(front + middle + back =~= front + (middle + back));
    } else {
        let all = front + middle + back;
        assert forall|i: int| 0 <= i < all.len() implies p(#[trigger] all[i]) by {
            if i >= front.len() {
                assert(all[i] == back[i - front.len()]);
            }
        }
        assert(all + middle =~= all);
        lemma_trimmed_front(all, middle, p);
        assert(trimmed_end(middle, p) =~= middle);
    }
}

/// Characters that are to go, in front of a text that begins with none of them, are trimmed away.
pub proof fn lemma_trimmed_front(front: Seq<char>, middle: Seq<char>, p: spec_fn(char) -> bool)
    requires
        forall|i: int| 0 <= i < front.len() ==> p(#[trigger] front[i]),
        middle.len() > 0 ==> !p(middle[0]),
    ensures
        trimmed_start(front + middle, p) == middle,
    decreases front.len(),
{
    if front.len() == 0 {
        assert(front + middle =~= middle);
    } else {
        assert(p(front[0]));
        lemma_trimmed_front(front.skip(1), middle, p);
        assert((front + middle).skip(1) =~= front.skip(1) + middle);
    }
}

proof fn lemma_trimmed_back(middle: Seq<char>, back: Seq<char>, p: spec_fn(char) -> bool)
    requires
        forall|i: int| 0 <= i < back.len() ==> p(#[trigger] back[i]),
        middle.len() > 0 ==> !p(middle.last()),
    ensures
        trimmed_end(middle + back, p) == middle,
    decreases back.len(),
{
    if back.len() == 0 {
        assert(middle + back =~= middle);
    } else {
        assert(p(back[back.len() - 1]));
        lemma_trimmed_back(middle, back.drop_last(), p);
        assert((middle + back).drop_last() =~= middle + back.drop_last());
    }
}

/// The characters that count as space, each by its number.
#[verifier::rlimit(40)]
pub proof fn lemma_space(c: char)
    ensures
        Trim::White.takes(c) <==> seq![
            0x09u32,
            0x0A,
            0x0B,
            0x0C,
            0x0D,
            0x20,
            0x85,
            0xA0,
            0x1680,
            0x2000,
            0x2001,
            0x2002,
            0x2003,
            0x2004,
            0x2005,
            0x2006,
            0x2007,
            0x2008,
            0x2009,
            0x200A,
            0x2028,
            0x2029,
            0x202F,
            0x205F,
            0x3000,
        ].contains(c as u32),
{
    let all = seq![
        0x09u32,
        0x0A,
        0x0B,
        0x0C,
        0x0D,
        0x20,
        0x85,
        0xA0,
        0x1680,
        0x2000,
        0x2001,
        0x2002,
        0x2003,
        0x2004,
        0x2005,
        0x2006,
        0x2007,
        0x2008,
        0x2009,
        0x200A,
        0x2028,
        0x2029,
        0x202F,
        0x205F,
        0x3000,
    ];
    let v = c as u32;
    if 0x09 <= v <= 0x0D {
        assert(all[v - 0x09] == v);
    }
    if 0x2000 <= v <= 0x200A {
        assert(all[9 + v - 0x2000] == v);
    }
    assert(all[5] == 0x20 && all[6] == 0x85 && all[7] == 0xA0 && all[8] == 0x1680);
    assert(all[20] == 0x2028 && all[21] == 0x2029 && all[22] == 0x202F && all[23] == 0x205F);
    assert(all[24] == 0x3000);
    if all.contains(v) {
        let i = choose|i: int| 0 <= i < all.len() && all[i] == v;
        assert(all[i] == v);
    }
}

/// One character alone is trimmed where that is asked for.
pub proof fn lemma_only_one_character_goes(c: char, only: char)
    ensures
        (Trim::Only { c: only }).takes(c) <==> c == only,
{
}

/// A text without separators is one part.
pub proof fn lemma_unsplit(s: Seq<char>, sep: char)
    requires
        !s.contains(sep),
    ensures
        split(s, sep) == seq![s],
    decreases s.len(),
{
    if s.len() > 0 {
        let rest = s.drop_last();
        assert(s[s.len() - 1] == s.last());
        assert(s.last() != sep);
        assert(!rest.contains(sep)) by {
            if rest.contains(sep) {
                let i = choose|i: int| 0 <= i < rest.len() && rest[i] == sep;
                assert(s[i] == sep);
            }
        }
        lemma_unsplit(rest, sep);
        assert(rest.push(s.last()) =~= s);
        assert(split(s, sep) =~= seq![s]);
    } else {
        assert(s =~= Seq::empty());
        assert(split(s, sep) =~= seq![s]);
    }
}

/// A separator ends one part and begins the next: the parts of two texts with a separator between
/// them are the parts of the one, then those of the other.
pub proof fn lemma_split_at_separator(a: Seq<char>, b: Seq<char>, sep: char)
    ensures
        split(b, sep).len() > 0,
        split(a + seq![sep] + b, sep) == split(a, sep) + split(b, sep),
    decreases b.len(),
{
    let all = a + seq![sep] + b;
    if b.len() == 0 {
        assert(all.drop_last() =~= a);
        assert(all.last() == sep);
        assert(split(all, sep) =~= split(a, sep) + split(b, sep));
    } else {
        let c = b.drop_last();
        lemma_split_at_separator(a, c, sep);
        assert(all.drop_last() =~= a + seq![sep] + c);
        assert(all.last() == b.last());
        assert(split(all, sep) =~= split(a, sep) + split(b, sep));
    }
}

/// Texts with separators between them.
pub open spec fn joined(parts: Seq<Seq<char>>, sep: char) -> Seq<char>
    decreases parts.len(),
{
    if parts.len() == 0 {
        Seq::empty()
    } else if parts.len() == 1 {
        parts[0]
    } else {
        joined(parts.drop_last(), sep) + seq![sep] + parts.last()
    }
}

/// Texts that hold no separator come back from being joined, as many as they were and in their
/// order.
pub proof fn lemma_split_undoes_join(parts: Seq<Seq<char>>, sep: char)
    requires
        parts.len() > 0,
        forall|i: int| 0 <= i < parts.len() ==> !(#[trigger] parts[i]).contains(sep),
    ensures
        split(joined(parts, sep), sep) == parts,
    decreases parts.len(),
{
    if parts.len() == 1 {
        assert(!parts[0].contains(sep));
        lemma_unsplit(parts[0], sep);
        assert(parts =~= seq![parts[0]]);
    } else {
        let before = parts.drop_last();
        assert forall|i: int| 0 <= i < before.len() implies !(#[trigger] before[i]).contains(
            sep,
        ) by {
            assert(before[i] == parts[i]);
        }
        lemma_split_undoes_join(before, sep);
        assert(!parts[parts.len() - 1].contains(sep));
        lemma_unsplit(parts.last(), sep);
        lemma_split_at_separator(joined(before, sep), parts.last(), sep);
        assert(before + seq![parts.last()] =~= parts);
    }
}

/// A line that is ended, by a line feed alone or with a carriage return before it, is the line
/// without its ending, and what follows makes the further lines. An unended last line is a line
/// where it holds anything.
pub proof fn lemma_lines(line: Seq<char>, rest: Seq<char>)
    requires
        !line.contains('\n'),
    ensures
        !(line.len() > 0 && line.last() == '\r') ==> lines(line + seq!['\n'] + rest) == seq![line]
            + lines(rest),
        lines(line + seq!['\r', '\n'] + rest) == seq![line] + lines(rest),
        line.len() > 0 ==> lines(line) == seq![line],
        lines(Seq::empty()).len() == 0,
{
    lemma_unsplit(line, '\n');
    assert(lines(line) =~= if line.len() > 0 {
        seq![line]
    } else {
        Seq::empty()
    });
    lemma_unsplit(Seq::empty(), '\n');
    assert(lines(Seq::empty()) =~= Seq::empty());
    if !(line.len() > 0 && line.last() == '\r') {
        lemma_first_line(line, rest);
    }
    let marked = line.push('\r');
    assert(!marked.contains('\n')) by {
        if marked.contains('\n') {
            let i = choose|i: int| 0 <= i < marked.len() && marked[i] == '\n';
            assert(line[i] == '\n');
        }
    }
    lemma_first_line(marked, rest);
    assert(marked + seq!['\n'] + rest =~= line + seq!['\r', '\n'] + rest);
    assert(without_cr(marked) =~= line);
}

proof fn lemma_first_line(line: Seq<char>, rest: Seq<char>)
    requires
        !line.contains('\n'),
    ensures
        lines(line + seq!['\n'] + rest) == seq![without_cr(line)] + lines(rest),
{
    let f = |p: Seq<char>| without_cr(p);
    let all = line + seq!['\n'] + rest;
    lemma_unsplit(line, '\n');
    lemma_split_at_separator(line, rest, '\n');
    let parts = split(rest, '\n');
    assert(split(all, '\n') =~= seq![line] + parts);
    assert(split(all, '\n').last() == parts.last());
    assert(split(all, '\n').drop_last().map_values(f) =~= seq![without_cr(line)]
        + parts.drop_last().map_values(f));
    assert(lines(all) =~= seq![without_cr(line)] + lines(rest));
}

/// Fields are collected line by line, in order: a line that begins with the prefix gives what
/// follows it, and any other line gives nothing.
pub proof fn lemma_fields(before: Seq<Seq<char>>, line: Seq<char>, prefix: Seq<char>)
    ensures
        fields(before.push(prefix + line), prefix) == fields(before, prefix).push(line),
        !begins_with(line, prefix) ==> fields(before.push(line), prefix) == fields(before, prefix),
        fields(Seq::empty(), prefix).len() == 0,
{
    lemma_begins_with(prefix, line);
    assert(before.push(prefix + line).drop_last() =~= before);
    assert(before.push(line).drop_last() =~= before);
    assert((prefix + line).skip(prefix.len() as int) =~= line);
}

/// The fields of lines in two lots are the fields of the first lot, then those of the second.
pub proof fn lemma_fields_of_both(a: Seq<Seq<char>>, b: Seq<Seq<char>>, prefix: Seq<char>)
    ensures
        fields(a + b, prefix) == fields(a, prefix) + fields(b, prefix),
    decreases b.len(),
{
    if b.len() == 0 {
        assert(a + b =~= a);
        assert(fields(a, prefix) + fields(b, prefix) =~= fields(a, prefix));
    } else {
        lemma_fields_of_both(a, b.drop_last(), prefix);
        assert((a + b).drop_last() =~= a + b.drop_last());
        assert(fields(a + b, prefix) =~= fields(a, prefix) + fields(b, prefix));
    }
}

/// A further digit makes a number ten times as large and adds itself.
pub proof fn lemma_decimal(s: Seq<char>, digit: int)
    requires
        0 <= digit <= 9,
    ensures
        decimal(s.push((0x30 + digit) as char)) == 10 * decimal(s) + digit,
        decimal(Seq::empty()) == 0,
{
    assert(s.push((0x30 + digit) as char).drop_last() =~= s);
}

/// A text is read as a number exactly if it consists of one or more decimal digits, after a plus
/// sign or none, and the number they stand for fits thirty-two bits. The plus sign changes nothing.
pub proof fn lemma_what_is_a_number(s: Seq<char>)
    requires
        s.len() > 0,
    ensures
        (forall|i: int| 0 <= i < s.len() ==> '0' <= #[trigger] s[i] <= '9') ==> {
            &&& parsed_u32(s) is Some <==> decimal(s) < 0x1_0000_0000
            &&& parsed_u32(s) matches Some(n) ==> n == decimal(s)
        },
        (exists|i: int|
            0 <= i < s.len() && !('0' <= #[trigger] s[i] <= '9') && !(i == 0 && s[i]
                == '+')) ==> parsed_u32(s) is None,
        s[0] != '+' ==> parsed_u32(seq!['+'] + s) == parsed_u32(s),
        parsed_u32(seq!['+']) is None && parsed_u32(Seq::empty()) is None,
{
    if forall|i: int| 0 <= i < s.len() ==> '0' <= #[trigger] s[i] <= '9' {
        assert('0' <= s[0] <= '9');
        assert(all_digits(s));
        lemma_decimal_grows(s, 0);
    }
    if exists|i: int|
        0 <= i < s.len() && !('0' <= #[trigger] s[i] <= '9') && !(i == 0 && s[i] == '+') {
        let i = choose|i: int|
            0 <= i < s.len() && !('0' <= #[trigger] s[i] <= '9') && !(i == 0 && s[i]
                == '+');
        if s[0] == '+' {
            assert(s.skip(1)[i - 1] == s[i]);
        }
    }
    assert((seq!['+'] + s).skip(1) =~= s);
    assert(seq!['+'].skip(1) =~= Seq::empty());
}

/// The views of texts are as many as the texts, each the view of the text at its place.
pub proof fn lemma_views(a: Seq<&str>, b: Seq<String>, s: &str, t: String)
    ensures
        views(a).len() == a.len(),
        forall|i: int| 0 <= i < a.len() ==> #[trigger] views(a)[i] == a[i]@,
        string_views(b).len() == b.len(),
        forall|i: int| 0 <= i < b.len() ==> #[trigger] string_views(b)[i] == b[i]@,
        str_view(Some(s)) == Some(s@) && str_view(None) is None,
        string_view(Some(t)) == Some(t@) && string_view(None) is None,
{
}

/// Cutting a text at its separators loses nothing: joined again, the parts are the text, and none
/// of them holds a separator.
#[verifier::rlimit(40)]
pub proof fn lemma_join_undoes_split(s: Seq<char>, sep: char)
    ensures
        split(s, sep).len() > 0,
        joined(split(s, sep), sep) == s,
        forall|i: int|
            0 <= i < split(s, sep).len() ==> !(#[trigger] split(s, sep)[i]).contains(sep),
    decreases s.len(),
{
    let parts = split(s, sep);
    if s.len() == 0 {
        assert(parts[0] =~= s);
    } else {
        let rest = s.drop_last();
        let before = split(rest, sep);
        lemma_join_undoes_split(rest, sep);
        if s.last() == sep {
            assert(parts.drop_last() =~= before);
            assert(joined(parts, sep) =~= s);
            assert forall|i: int| 0 <= i < parts.len() implies !(#[trigger] parts[i]).contains(
                sep,
            ) by {
                if i < before.len() {
                    assert(parts[i] == before[i]);
                }
            }
        } else {
            let last = before.last().push(s.last());
            assert(parts.drop_last() =~= before.drop_last());
            assert(parts.last() == last);
            if before.len() == 1 {
                assert(parts[0] == last);
            }
            assert(joined(parts, sep) =~= joined(before, sep).push(s.last()));
            assert(rest.push(s.last()) =~= s);
            assert forall|i: int| 0 <= i < parts.len() implies !(#[trigger] parts[i]).contains(
                sep,
            ) by {
                if i < before.len() - 1 {
                    assert(parts[i] == before[i]);
                } else if parts[i].contains(sep) {
                    let j = choose|j: int| 0 <= j < last.len() && last[j] == sep;
                    let shorter = before[before.len() - 1];
                    assert(shorter == before.last());
                    assert(shorter[j] == sep);
                }
            }
        }
    }
}

} // verus!
