//! Percent-encoding: bytes written as a percent sign and two hexadecimal digits.

use vstd::prelude::*;
use vstd::string::*;

use crate::platform_text;
use crate::platform_text::utf8_lossy;

verus! {

/// The byte of a percent sign.
pub const PERCENT: u8 = 0x25;

/// The value of a hexadecimal digit of either case.
pub open spec fn hex_digit(b: u8) -> Option<u8> {
    if 0x30 <= b <= 0x39 {
        Some((b - 0x30) as u8)
    } else if 0x41 <= b <= 0x46 {
        Some((b - 0x41 + 10) as u8)
    } else if 0x61 <= b <= 0x66 {
        Some((b - 0x61 + 10) as u8)
    } else {
        None
    }
}

/// The value of a hexadecimal digit of either case.
pub fn hex_val(b: u8) -> (r: Option<u8>)
    ensures
        r == hex_digit(b),
        r matches Some(v) ==> v < 16,
{
    if 0x30 <= b && b <= 0x39 {
        Some(b - 0x30)
    } else if 0x41 <= b && b <= 0x46 {
        Some(b - 0x41 + 10)
    } else if 0x61 <= b && b <= 0x66 {
        Some(b - 0x61 + 10)
    } else {
        None
    }
}

/// The bytes begin with a percent sign and two hexadecimal digits.
pub open spec fn begins_escaped(bytes: Seq<u8>) -> bool {
    &&& bytes.len() >= 3
    &&& bytes[0] == PERCENT
    &&& hex_digit(bytes[1]) is Some
    &&& hex_digit(bytes[2]) is Some
}

/// The bytes, each percent sign with two hexadecimal digits behind it replaced by the byte that
/// these stand for. Other percent signs stand for themselves.
pub open spec fn decoded(bytes: Seq<u8>) -> Seq<u8>
    decreases bytes.len(),
{
    if bytes.len() == 0 {
        Seq::empty()
    } else if begins_escaped(bytes) {
        seq![(16 * hex_digit(bytes[1])->0 + hex_digit(bytes[2])->0) as u8] + decoded(bytes.skip(3))
    } else {
        seq![bytes[0]] + decoded(bytes.skip(1))
    }
}

/// Replaces each percent sign with two hexadecimal digits behind it by the byte that these stand
/// for.
pub fn percent_decode_bytes(bytes: &[u8]) -> (r: Vec<u8>)
    ensures
        r@ == decoded(bytes@),
{
    let mut result: Vec<u8> = Vec::new();
    let n: usize = bytes.len();
    let mut i: usize = 0;
    assert(bytes@.skip(0) =~= bytes@);
    while i < n
        invariant
            n == bytes@.len(),
            i <= n,
            result@ + decoded(bytes@.skip(i as int)) =~= decoded(bytes@),
        decreases n - i,
    {
        let ghost rest = bytes@.skip(i as int);
        if bytes[i] == PERCENT && n - i > 2 {
            let h = hex_val(bytes[i + 1]);
            let l = hex_val(bytes[i + 2]);
            assert(rest[1] == bytes@[i + 1] && rest[2] == bytes@[i + 2]);
            if let (Some(hv), Some(lv)) = (h, l) {
                assert(rest.skip(3) =~= bytes@.skip(i + 3));
                result.push(hv * 16 + lv);
                i += 3;
                continue ;
            }
        }
        assert(rest.skip(1) =~= bytes@.skip(i + 1));
        result.push(bytes[i]);
        i += 1;
    }
    assert(decoded(bytes@.skip(n as int)) =~= Seq::empty());
    result
}

/// Decodes a percent-encoded text. What stands in front of the first percent sign stays as it is,
/// and the rest becomes what it becomes alone.
pub fn percent_decode(s: &str) -> (r: String)
    ensures
        r@ == platform_text::utf8_lossy_text(decoded(s.spec_bytes())),
        vstd::utf8::valid_utf8(decoded(s.spec_bytes())) ==> r@ == vstd::utf8::decode_utf8(
            decoded(s.spec_bytes()),
        ),
        !s@.contains('%') ==> r@ == s@,
        forall|a: Seq<char>, b: Seq<char>| #[trigger]
            (a + b) == s@ && !a.contains('%') ==> r@ == a + platform_text::utf8_lossy_text(
                decoded(vstd::utf8::encode_utf8(b)),
            ),
{
    let bytes = s.as_bytes();
    let plain = percent_decode_bytes(bytes);
    proof {
        assert forall|a: Seq<char>, b: Seq<char>| #[trigger] (a + b) == s@ && !a.contains(
            '%',
        ) implies vstd::utf8::encode_utf8(a) + decoded(vstd::utf8::encode_utf8(b)) == plain@ by {
            lemma_text_in_front_stays(a, b);
        }
        if !s@.contains('%') {
            lemma_no_percent_byte(s@);
            lemma_plain_bytes_stay(s.spec_bytes());
            vstd::utf8::encode_utf8_valid_utf8(s@);
            vstd::utf8::encode_utf8_decode_utf8(s@);
        }
    }
    utf8_lossy(plain.as_slice())
}

/// Bytes without percent signs stay as they are.
pub proof fn lemma_plain_bytes_stay(bytes: Seq<u8>)
    requires
        !bytes.contains(PERCENT),
    ensures
        decoded(bytes) == bytes,
    decreases bytes.len(),
{
    if bytes.len() > 0 {
        assert(bytes.contains(bytes[0]));
        assert(!bytes.skip(1).contains(PERCENT)) by {
            if bytes.skip(1).contains(PERCENT) {
                let i = choose|i: int| 0 <= i < bytes.skip(1).len() && bytes.skip(1)[i] == PERCENT;
                assert(bytes[i + 1] == PERCENT);
            }
        }
        lemma_plain_bytes_stay(bytes.skip(1));
        assert(seq![bytes[0]] + bytes.skip(1) =~= bytes);
    }
}

proof fn lemma_scalar_without_percent(c: char)
    requires
        c != '%',
    ensures
        !vstd::utf8::encode_scalar(c as u32).contains(PERCENT),
{
    let v = c as u32;
    vstd::utf8::char_is_scalar(c);
    assert({
        &&& v < 0x80 ==> (v & 0x7f) as u8 == v
        &&& 0xc0u8 | ((v >> 6) & 0x1f) as u8 >= 0x80
        &&& 0xe0u8 | ((v >> 12) & 0x0f) as u8 >= 0x80
        &&& 0xf0u8 | ((v >> 18) & 0x07) as u8 >= 0x80
        &&& 0x80u8 | (v & 0x3f) as u8 >= 0x80
        &&& 0x80u8 | ((v >> 6) & 0x3f) as u8 >= 0x80
        &&& 0x80u8 | ((v >> 12) & 0x3f) as u8 >= 0x80
    }) by (bit_vector);
}

proof fn lemma_no_percent_byte(s: Seq<char>)
    requires
        !s.contains('%'),
    ensures
        !vstd::utf8::encode_utf8(s).contains(PERCENT),
    decreases s.len(),
{
    if s.len() > 0 {
        assert(s.contains(s[0]));
        let rest = s.drop_first();
        assert(!rest.contains('%')) by {
            if rest.contains('%') {
                let i = choose|i: int| 0 <= i < rest.len() && rest[i] == '%';
                assert(s[i + 1] == '%');
            }
        }
        lemma_no_percent_byte(rest);
        lemma_scalar_without_percent(s[0]);
        let all = vstd::utf8::encode_utf8(s);
        let first = vstd::utf8::encode_scalar(s[0] as u32);
        assert(all =~= first + vstd::utf8::encode_utf8(rest));
        if all.contains(PERCENT) {
            let i = choose|i: int| 0 <= i < all.len() && all[i] == PERCENT;
            if i < first.len() {
                assert(first[i] == PERCENT);
            } else {
                assert(vstd::utf8::encode_utf8(rest)[i - first.len()] == PERCENT);
            }
        }
    }
}

/// Bytes without percent signs stay in front of what the rest is decoded to.
pub proof fn lemma_plain_front_stays(a: Seq<u8>, b: Seq<u8>)
    requires
        !a.contains(PERCENT),
    ensures
        decoded(a + b) == a + decoded(b),
    decreases a.len(),
{
    if a.len() == 0 {
        assert(a + b =~= b);
        assert(a + decoded(b) =~= decoded(b));
    } else {
        assert(a.contains(a[0]));
        let rest = a.skip(1);
        assert(!rest.contains(PERCENT)) by {
            if rest.contains(PERCENT) {
                let i = choose|i: int| 0 <= i < rest.len() && rest[i] == PERCENT;
                assert(a[i + 1] == PERCENT);
            }
        }
        lemma_plain_front_stays(rest, b);
        assert((a + b).skip(1) =~= rest + b);
        assert(decoded(a + b) =~= a + decoded(b));
    }
}

proof fn lemma_encode_concat(a: Seq<char>, b: Seq<char>)
    ensures
        vstd::utf8::encode_utf8(a + b) == vstd::utf8::encode_utf8(a) + vstd::utf8::encode_utf8(b),
    decreases a.len(),
{
    if a.len() == 0 {
        assert(a + b =~= b);
        assert(vstd::utf8::encode_utf8(a) =~= Seq::empty());
        assert(Seq::<u8>::empty() + vstd::utf8::encode_utf8(b) =~= vstd::utf8::encode_utf8(b));
    } else {
        lemma_encode_concat(a.drop_first(), b);
        assert((a + b).drop_first() =~= a.drop_first() + b);
        assert(vstd::utf8::encode_utf8(a + b) =~= vstd::utf8::encode_utf8(a)
            + vstd::utf8::encode_utf8(b));
    }
}

/// A text without percent signs stays in front of what the rest is decoded to, characters of
/// several bytes among it. Where the rest is decoded to the encoding of a text, the whole is
/// decoded to the encoding of both texts, one behind the other.
pub proof fn lemma_text_in_front_stays(a: Seq<char>, b: Seq<char>)
    requires
        !a.contains('%'),
    ensures
        decoded(vstd::utf8::encode_utf8(a + b)) == vstd::utf8::encode_utf8(a) + decoded(
            vstd::utf8::encode_utf8(b),
        ),
        forall|t: Seq<char>| #[trigger]
            vstd::utf8::encode_utf8(t) == decoded(vstd::utf8::encode_utf8(b))
                ==> vstd::utf8::decode_utf8(decoded(vstd::utf8::encode_utf8(a + b))) == a + t,
{
    lemma_encode_concat(a, b);
    lemma_no_percent_byte(a);
    lemma_plain_front_stays(vstd::utf8::encode_utf8(a), vstd::utf8::encode_utf8(b));
    assert forall|t: Seq<char>| #[trigger]
        vstd::utf8::encode_utf8(t) == decoded(
            vstd::utf8::encode_utf8(b),
        ) implies vstd::utf8::decode_utf8(decoded(vstd::utf8::encode_utf8(a + b))) == a + t by {
        lemma_encode_concat(a, t);
        vstd::utf8::encode_utf8_decode_utf8(a + t);
    }
}

/// `text` is a percent-encoding of the bytes: each byte stands for itself, unless it is a percent
/// sign, or is written as a percent sign and two hexadecimal digits of either case.
pub open spec fn encodes(text: Seq<u8>, bytes: Seq<u8>) -> bool
    decreases bytes.len(),
{
    if bytes.len() == 0 {
        text.len() == 0
    } else {
        let b = bytes[0];
        ||| {
            &&& text.len() > 0
            &&& text[0] == b
            &&& b != PERCENT
            &&& encodes(text.skip(1), bytes.skip(1))
        }
        ||| {
            &&& begins_escaped(text)
            &&& hex_digit(text[1])->0 == b / 16
            &&& hex_digit(text[2])->0 == b % 16
            &&& encodes(text.skip(3), bytes.skip(1))
        }
    }
}

/// Decoding gives back what was encoded, whichever bytes the encoder left as they were, and
/// whichever case its digits have.
pub proof fn lemma_decode_undoes_encode(text: Seq<u8>, bytes: Seq<u8>)
    requires
        encodes(text, bytes),
    ensures
        decoded(text) == bytes,
    decreases bytes.len(),
{
    if bytes.len() > 0 {
        assert(seq![bytes[0]] + bytes.skip(1) =~= bytes);
        if text[0] == bytes[0] && bytes[0] != PERCENT && encodes(text.skip(1), bytes.skip(1)) {
            lemma_decode_undoes_encode(text.skip(1), bytes.skip(1));
        } else {
            lemma_decode_undoes_encode(text.skip(3), bytes.skip(1));
        }
    }
}

/// The value of a hexadecimal digit is its place among the sixteen digits, in either case.
pub proof fn lemma_hex_digits(b: u8, v: u8)
    requires
        v < 16,
    ensures
        hex_digit(b) == Some(v) <==> {
            ||| v < 10 && b == '0' as u8 + v
            ||| v >= 10 && b == 'A' as u8 + v - 10
            ||| v >= 10 && b == 'a' as u8 + v - 10
        },
        hex_digit(b) matches Some(n) ==> n < 16,
{
}

/// A percent sign and two hexadecimal digits stand for the byte whose upper and lower half they
/// are. Any other byte stands for itself, a percent sign without two such digits among them.
pub proof fn lemma_decoded_from_the_front(bytes: Seq<u8>)
    requires
        bytes.len() > 0,
    ensures
        ({
            let escaped = bytes.len() >= 3 && bytes[0] == 0x25 && hex_digit(bytes[1]) is Some
                && hex_digit(bytes[2]) is Some;
            &&& escaped ==> {
                &&& decoded(bytes).skip(1) == decoded(bytes.skip(3))
                &&& decoded(bytes).len() > 0
                &&& decoded(bytes)[0] / 16 == hex_digit(bytes[1])->0
                &&& decoded(bytes)[0] % 16 == hex_digit(bytes[2])->0
            }
            &&& !escaped ==> {
                &&& decoded(bytes).skip(1) == decoded(bytes.skip(1))
                &&& decoded(bytes).len() > 0
                &&& decoded(bytes)[0] == bytes[0]
            }
        }),
        decoded(Seq::empty()).len() == 0,
{
    assert(decoded(bytes).skip(1) =~= if begins_escaped(bytes) {
        decoded(bytes.skip(3))
    } else {
        decoded(bytes.skip(1))
    });
}

} // verus!
