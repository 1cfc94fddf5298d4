//! Outside libraries: web addresses, base64 and JSON.
//!
//! Each function here hands its argument to one library and turns the answer into plain values.
//! What it claims of that library is believed, not proved.

use base64::Engine;
use vstd::prelude::*;

use crate::text;

verus! {

/// The reasons why `url` refuses an address.
#[verifier::external_type_specification]
#[verifier::external_body]
pub struct ExUrlParseError(url::ParseError);

/// The reasons why `serde_json` refuses a text.
#[verifier::external_type_specification]
#[verifier::external_body]
pub struct ExJsonError(serde_json::Error);

/// The host of a web address.
#[derive(Debug)]
pub enum UrlHost {
    Domain(String),
    Ipv4([u8; 4]),
    Ipv6([u16; 8]),
}

/// A web address, taken apart.
#[derive(Debug)]
pub struct ParsedUrl {
    /// The scheme, in lower case, without its colon.
    pub scheme: String,
    /// The host as text.
    pub host_str: Option<String>,
    /// The host as a name or a number.
    pub host: Option<UrlHost>,
    /// The path, percent-encoded.
    pub path: String,
    /// The address as a whole, normalised.
    pub text: String,
}

/// What a [`UrlHost`] holds.
pub enum HostView {
    Domain(Seq<char>),
    Ipv4(Seq<u8>),
    Ipv6(Seq<u16>),
}

/// What a [`ParsedUrl`] holds.
pub struct UrlView {
    pub scheme: Seq<char>,
    pub host_str: Option<Seq<char>>,
    pub host: Option<HostView>,
    pub path: Seq<char>,
    pub text: Seq<char>,
}

impl View for UrlHost {
    type V = HostView;

    open spec fn view(&self) -> HostView {
        match *self {
            UrlHost::Domain(d) => HostView::Domain(d@),
            UrlHost::Ipv4(ip) => HostView::Ipv4(ip@),
            UrlHost::Ipv6(ip) => HostView::Ipv6(ip@),
        }
    }
}

impl View for ParsedUrl {
    type V = UrlView;

    open spec fn view(&self) -> UrlView {
        UrlView {
            scheme: self.scheme@,
            host_str: match self.host_str {
                Some(h) => Some(h@),
                None => None,
            },
            host: match self.host {
                Some(h) => Some(h@),
                None => None,
            },
            path: self.path@,
            text: self.text@,
        }
    }
}

/// What `url::Url::parse` makes of a text, none where it refuses it.
pub uninterp spec fn url_parts(input: Seq<char>) -> Option<UrlView>;

/// Calls `url::Url::parse`, and reads the parts of the address off the result: `scheme`,
/// `host_str`, `host`, `path` and the address as text. An address begins with its scheme and a
/// colon.
#[verifier::external_body]
pub(crate) fn parse_url(input: &str) -> (r: Result<ParsedUrl, url::ParseError>)
    ensures
        match r {
            Ok(u) => url_parts(input@) == Some(u@),
            Err(_) => url_parts(input@) is None,
        },
        r matches Ok(u) ==> u.text@.len() > u.scheme@.len() && u.text@.take(
            (u.scheme@.len() + 1) as int,
        ) == u.scheme@.push(':'),
{
    let u = url::Url::parse(input)?;
    Ok(ParsedUrl {
        scheme: u.scheme().to_string(),
        host_str: u.host_str().map(|h| h.to_string()),
        host: match u.host() {
            Some(url::Host::Domain(d)) => Some(UrlHost::Domain(d.to_string())),
            Some(url::Host::Ipv4(ip)) => Some(UrlHost::Ipv4(ip.octets())),
            Some(url::Host::Ipv6(ip)) => Some(UrlHost::Ipv6(ip.segments())),
            None => None,
        },
        path: u.path().to_string(),
        text: u.to_string(),
    })
}

/// The character of the standard alphabet for a number below sixty-four.
pub open spec fn base64_digit(v: int) -> char {
    if v < 26 {
        ('A' as u32 + v) as char
    } else if v < 52 {
        ('a' as u32 + v - 26) as char
    } else if v < 62 {
        ('0' as u32 + v - 52) as char
    } else if v == 62 {
        '+'
    } else {
        '/'
    }
}

/// The bytes in base64: three bytes become four characters of six bits each. Where one or two bytes
/// are left, their missing bits are 0, and padding stands for the characters that hold none of
/// theirs.
pub open spec fn base64_text(bytes: Seq<u8>) -> Seq<char>
    decreases bytes.len(),
{
    let n = bytes.len();
    if n == 0 {
        Seq::empty()
    } else {
        let x = bytes[0] as int;
        let y = if n > 1 { bytes[1] as int } else { 0 };
        let z = if n > 2 { bytes[2] as int } else { 0 };
        let group = seq![
            base64_digit(x / 4),
            base64_digit(x % 4 * 16 + y / 16),
            if n > 1 { base64_digit(y % 16 * 4 + z / 64) } else { '=' },
            if n > 2 { base64_digit(z % 64) } else { '=' },
        ];
        if n <= 3 {
            group
        } else {
            group + base64_text(bytes.skip(3))
        }
    }
}

/// Characters that three bytes take each, begun triples counted as whole.
pub open spec fn base64_len(n: nat) -> nat {
    4 * ((n + 2) / 3)
}

/// A character of the standard alphabet.
pub open spec fn in_alphabet(c: char) -> bool {
    ||| 'A' <= c <= 'Z'
    ||| 'a' <= c <= 'z'
    ||| '0' <= c <= '9'
    ||| c == '+'
    ||| c == '/'
}

/// Characters of the standard alphabet, of which the last two may be padding.
pub open spec fn is_base64(t: Seq<char>) -> bool {
    forall|i: int|
        0 <= i < t.len() ==> #[trigger] in_alphabet(t[i]) || (t[i] == '=' && i >= t.len() - 2)
}

proof fn lemma_digit_is_of_the_alphabet(v: int)
    requires
        0 <= v < 64,
    ensures
        in_alphabet(base64_digit(v)),
{
}

/// Every begun triple of bytes takes four characters, all of the standard alphabet but for padding
/// at the end.
pub proof fn lemma_base64_text(bytes: Seq<u8>)
    ensures
        base64_text(bytes).len() == base64_len(bytes.len()),
        is_base64(base64_text(bytes)),
    decreases bytes.len(),
{
    let n = bytes.len();
    if n > 0 {
        let t = base64_text(bytes);
        lemma_group_is_base64(
            bytes[0],
            if n > 1 { bytes[1] } else { 0 },
            if n > 2 { bytes[2] } else { 0 },
        );
        if n > 3 {
            let rest = base64_text(bytes.skip(3));
            lemma_base64_text(bytes.skip(3));
            assert forall|i: int| 0 <= i < t.len() implies #[trigger] in_alphabet(t[i]) || (t[i]
                == '=' && i >= t.len() - 2) by {
                if i >= 4 {
                    assert(t[i] == rest[i - 4]);
                    assert(in_alphabet(rest[i - 4]) || (rest[i - 4] == '=' && i - 4 >= rest.len()
                        - 2));
                }
            }
        }
    }
}

proof fn lemma_group_is_base64(x: u8, y: u8, z: u8)
    ensures
        in_alphabet(base64_digit(x as int / 4)),
        in_alphabet(base64_digit(x as int % 4 * 16 + y as int / 16)),
        in_alphabet(base64_digit(y as int % 16 * 4 + z as int / 64)),
        in_alphabet(base64_digit(z as int % 64)),
{
    lemma_digit_is_of_the_alphabet(x as int / 4);
    lemma_digit_is_of_the_alphabet(x as int % 4 * 16 + y as int / 16);
    lemma_digit_is_of_the_alphabet(y as int % 16 * 4 + z as int / 64);
    lemma_digit_is_of_the_alphabet(z as int % 64);
}

/// Calls `encode` of `base64::engine::general_purpose::STANDARD`, which gives the bytes in base64
/// with the standard alphabet and with padding.
#[verifier::external_body]
pub(crate) fn encode_base64(bytes: &[u8]) -> (r: String)
    requires
        base64_len(bytes@.len()) <= isize::MAX,
    ensures
        r@ == base64_text(bytes@),
{
    base64::engine::general_purpose::STANDARD.encode(bytes)
}

/// The strings that `serde_json` reads from a text as an array of strings, none where it refuses
/// it.
pub uninterp spec fn json_strings(input: Seq<char>) -> Option<Seq<Seq<char>>>;

/// Calls `serde_json::from_str` for a list of strings.
#[verifier::external_body]
pub(crate) fn parse_json_strings(input: &str) -> (r: Result<Vec<String>, serde_json::Error>)
    ensures
        match r {
            Ok(v) => json_strings(input@) == Some(text::string_views(v@)),
            Err(_) => json_strings(input@) is None,
        },
{
    serde_json::from_str::<Vec<String>>(input)
}

/// What is known of an address is its scheme, its host as text and as a name or a number, its path
/// and its text, each as it is.
pub proof fn lemma_what_an_address_holds(u: ParsedUrl)
    ensures
        u@.scheme == u.scheme@ && u@.path == u.path@ && u@.text == u.text@,
        u@.host_str is None <==> u.host_str is None,
        u.host_str matches Some(h) ==> u@.host_str == Some(h@),
        u@.host is None <==> u.host is None,
        u.host matches Some(UrlHost::Domain(d)) ==> u@.host == Some(HostView::Domain(d@)),
        u.host matches Some(UrlHost::Ipv4(ip)) ==> u@.host == Some(HostView::Ipv4(ip@)),
        u.host matches Some(UrlHost::Ipv6(ip)) ==> u@.host == Some(HostView::Ipv6(ip@)),
{
}

} // verus!
