//! Text taken apart, held against the standard library where that does the same.

use mywallpaper_desktop::file_name::{file_extension, file_stem};
use mywallpaper_desktop::percent::{hex_val, percent_decode, percent_decode_bytes};
use mywallpaper_desktop::text::{
    chars_of, ends_with, fields_of, is_one_of, is_white_space, lines_of, parse_u32, same_text,
    split_at_char, starts_with, strip_prefix, trim, trim_end, trim_start, Trim,
};

#[test]
fn every_white_space_is_known() {
    for v in 0..=0x10FFFFu32 {
        if let Some(c) = char::from_u32(v) {
            assert_eq!(is_white_space(c), c.is_whitespace(), "U+{:04X}", v);
        }
    }
}

#[test]
fn texts_are_compared_by_their_characters() {
    assert!(same_text("", ""));
    assert!(same_text("déjà", "déjà"));
    assert!(!same_text("deja", "déjà"));
    assert!(!same_text("abc", "abd"));
    assert!(!same_text("ab", "abc"));
    assert!(is_one_of("b", &["a", "b"]));
    assert!(!is_one_of("c", &["a", "b"]));
    assert_eq!(chars_of("aé"), vec!['a', 'é']);
}

#[test]
fn prefixes_and_suffixes() {
    assert!(starts_with("Name=x", "Name="));
    assert!(!starts_with("Nam", "Name="));
    assert_eq!(strip_prefix("file:///a", "file://"), Some("/a"));
    assert_eq!(strip_prefix("/a", "file://"), None);
    assert_eq!(strip_prefix("é1", "é"), Some("1"));
    assert!(ends_with("/usr/share/pixmaps", "pixmaps"));
    assert!(!ends_with("maps", "pixmaps"));
}

#[test]
fn trimming_is_that_of_the_standard_library() {
    for s in ["", "  ", " a b ", "\t\u{3000}x\n", "vvv1.0v", "'\"x\"'", "''"] {
        assert_eq!(trim(s, Trim::White), s.trim());
        assert_eq!(trim_start(s, Trim::Only { c: 'v' }), s.trim_start_matches('v'));
        assert_eq!(trim_end(s, Trim::Only { c: 'v' }), s.trim_end_matches('v'));
        assert_eq!(trim(s, Trim::Only { c: '\'' }), s.trim_matches('\''));
    }
}

#[test]
fn splitting_is_that_of_the_standard_library() {
    for s in ["", ".", "a.b.c", "a..b", ".a", "a.", "é.è"] {
        assert_eq!(split_at_char(s, '.'), s.split('.').collect::<Vec<&str>>());
    }
}

#[test]
fn lines_are_those_of_the_standard_library() {
    for s in ["", "\n", "a", "a\n", "a\nb", "a\r\nb\r\n", "a\rb", "a\r", "\r\n\n", "a\n\nb"] {
        assert_eq!(lines_of(s), s.lines().collect::<Vec<&str>>(), "{:?}", s);
    }
}

#[test]
fn fields_keep_their_order() {
    let entry = "[Desktop Entry]\nName=One\nIcon=x\nName=Two\n Name=Three\n";
    assert_eq!(fields_of(entry, "Name="), vec!["One", "Two"]);
    assert_eq!(fields_of(entry, "Exec="), Vec::<&str>::new());
}

#[test]
fn numbers_are_read_as_the_standard_library_does() {
    for s in [
        "", "+", "0", "7", "+7", "-7", "007", "12a", "4294967295", "4294967296", "99999999999999",
        " 1", "1 ", "++1", "٣", "00000000000000000001",
    ] {
        assert_eq!(parse_u32(s), s.parse::<u32>().ok(), "{:?}", s);
    }
}

#[test]
fn names_are_cut_as_the_standard_library_does() {
    for s in [
        "a", "a.png", "a.b.c", ".bashrc", ".a.b", "a.", "..a", "é.jpg", "a b.tar.gz", "...", "a..",
    ] {
        let path = std::path::Path::new(s);
        assert_eq!(file_extension(s), path.extension().and_then(|e| e.to_str()), "{:?}", s);
        assert_eq!(Some(file_stem(s)), path.file_stem().and_then(|e| e.to_str()), "{:?}", s);
    }
}

#[test]
fn a_name_is_its_stem_and_its_extension() {
    for s in ["a.png", "a.b.c", ".a.b", "a."] {
        let extension = file_extension(s).unwrap();
        assert_eq!(format!("{}.{}", file_stem(s), extension), s);
        assert!(!extension.contains('.'));
    }
}

#[test]
fn hexadecimal_digits_of_both_cases() {
    for b in 0..=255u8 {
        let expected = (b as char).to_digit(16).map(|v| v as u8);
        assert_eq!(hex_val(b), expected);
    }
}

#[test]
fn escapes_are_decoded() {
    assert_eq!(percent_decode("/a%20b.png"), "/a b.png");
    assert_eq!(percent_decode("%C3%A9"), "é");
    assert_eq!(percent_decode("%c3%a9"), "é");
    assert_eq!(percent_decode("100%"), "100%");
    assert_eq!(percent_decode("100%2"), "100%2");
    assert_eq!(percent_decode("%zz%41"), "%zzA");
    assert_eq!(percent_decode("%%41"), "%A");
    assert_eq!(percent_decode("%2541"), "%41");
    assert_eq!(percent_decode("%FF"), "\u{FFFD}");
}

#[test]
fn a_text_without_percent_signs_stays() {
    for s in ["", "/home/ü/a b.png", "日本"] {
        assert_eq!(percent_decode(s), s);
    }
}

#[test]
fn what_stands_in_front_of_an_escape_stays() {
    for a in ["", "/home/ü/", "日本", "a\u{FFFD}"] {
        for b in ["", "%41", "%C3%A9x", "%FF%FE", "%A9", "%E2%82", "%", "%zz"] {
            let whole = format!("{}{}", a, b);
            assert_eq!(percent_decode(&whole), format!("{}{}", a, percent_decode(b)));
        }
    }
}

#[test]
fn decoding_undoes_encoding() {
    let bytes: Vec<u8> = (0..=255u8).collect();
    for (keep_letters, lower) in [(false, false), (true, false), (false, true), (true, true)] {
        let mut encoded = String::new();
        for b in &bytes {
            if keep_letters && b.is_ascii_alphanumeric() {
                encoded.push(*b as char);
            } else {
                let digits = format!("%{:02X}", b);
                encoded.push_str(&if lower { digits.to_lowercase() } else { digits });
            }
        }
        assert_eq!(percent_decode_bytes(encoded.as_bytes()), bytes);
    }
}
