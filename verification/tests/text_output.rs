use unibox_core::output::{decode_output, output_text};
use unibox_core::text::{
    all_hex_digits, decimal_string, ends_with, parse_i64, replace_char_exec, starts_with,
    str_contains, to_ascii_lower, trim,
};

fn utf16le(text: &str) -> Vec<u8> {
    text.encode_utf16().flat_map(|word| word.to_le_bytes()).collect()
}

#[test]
fn decimal_rendering_matches_display() {
    for n in [0u64, 7, 10, 8008, 29317, 65535, u64::MAX] {
        assert_eq!(decimal_string(n), n.to_string());
    }
}

#[test]
fn signed_decimal_parsing_matches_std() {
    for text in [
        "0", "42", "+42", "-42", "007", "9223372036854775807", "-9223372036854775808",
        "9223372036854775808", "-9223372036854775809", "", "-", "+", "12a", " 1", "1 ", "--1",
    ] {
        assert_eq!(parse_i64(text), text.parse::<i64>().ok(), "{text:?}");
    }
}

#[test]
fn trimming_matches_std() {
    for text in ["  hello \n", "\t\r\n", "", "x", "\u{3000}wide\u{a0}", " a b "] {
        assert_eq!(trim(text), text.trim(), "{text:?}");
    }
}

#[test]
fn ascii_lower_case_leaves_other_characters() {
    assert_eq!(to_ascii_lower("Api_Hash IS Required"), "api_hash is required");
    assert_eq!(to_ascii_lower("ÄBC"), "Äbc");
}

#[test]
fn substring_tests() {
    assert!(str_contains("the process cannot access the file", "cannot access"));
    assert!(str_contains("abc", ""));
    assert!(!str_contains("abc", "abcd"));
    assert!(starts_with("\\\\?\\C:\\x", "\\\\?\\"));
    assert!(!starts_with("C:", "C:\\"));
    assert!(ends_with("printer.local", ".local"));
    assert!(!ends_with("local", ".local"));
}

#[test]
fn hex_digit_check() {
    assert!(all_hex_digits("0123456789abcdefABCDEF"));
    assert!(all_hex_digits(""));
    assert!(!all_hex_digits("12g4"));
}

#[test]
fn single_character_replacement_matches_std() {
    for text in ["O'Brien's", "none", "''", ""] {
        assert_eq!(replace_char_exec(text, '\'', "''"), text.replace('\'', "''"));
    }
}

#[test]
fn utf8_output_is_decoded_as_utf8() {
    assert_eq!(decode_output("active\nactive\n".as_bytes()), "active\nactive\n");
    assert_eq!(decode_output(&[]), "");
    assert_eq!(decode_output(&[b'x']), "x");
    assert_eq!(decode_output(&[0x66, 0x6f, 0xff]), "fo\u{fffd}");
}

#[test]
fn utf16_output_is_decoded_as_utf16() {
    let listing = "Ubuntu\r\nUniboxRuntime\r\n";
    assert_eq!(decode_output(&utf16le(listing)), listing);
    let mut odd = utf16le("ok");
    odd.push(0x41);
    assert_eq!(decode_output(&odd), "ok");
    assert_eq!(decode_output(&[0x41, 0x00, 0x00, 0xd8]), "A\u{fffd}");
}

#[test]
fn command_outcome_carries_output_or_error() {
    assert_eq!(output_text(true, b"done\n", b"ignored", "failed").unwrap(), "done\n");
    assert_eq!(
        output_text(false, b"out ", &utf16le("err"), "wsl failed").unwrap_err(),
        "wsl failed: out err"
    );
}

#[test]
fn utf16_listing_with_surrogate_pairs_reads_back() {
    let listing = "UniboxRuntime \u{1F600} \u{10348}\r\n";
    assert_eq!(decode_output(&utf16le(listing)), listing);
}
