//! Decoding the output of runtime commands. `wsl.exe` writes UTF-16LE,
//! the commands run inside the distribution write UTF-8.

use vstd::prelude::*;
use vstd::utf8::{decode_utf8, valid_utf8};

use crate::text::push_str;

verus! {

/// What `String::from_utf16_lossy` yields for a sequence of UTF-16 code
/// units.
pub uninterp spec fn spec_utf16_lossy(words: Seq<u16>) -> Seq<char>;

/// What `String::from_utf8_lossy` yields for a sequence of bytes.
pub uninterp spec fn spec_utf8_lossy(bytes: Seq<u8>) -> Seq<char>;

/// A UTF-16 code unit that is half of a surrogate pair.
pub open spec fn is_surrogate(w: u16) -> bool {
    0xd800 <= w && w <= 0xdfff
}

/// The UTF-16 code units of one character: itself below U+10000, else a
/// surrogate pair.
pub open spec fn utf16_units(c: char) -> Seq<u16> {
    let v = c as u32;
    if v < 0x10000 {
        seq![v as u16]
    } else {
        seq![(0xd800 + (v - 0x10000) / 1024) as u16, (0xdc00 + (v - 0x10000) % 1024) as u16]
    }
}

/// The UTF-16 encoding of a text.
pub open spec fn utf16_encode(t: Seq<char>) -> Seq<u16>
    decreases t.len(),
{
    if t.len() == 0 {
        seq![]
    } else {
        utf16_units(t[0]) + utf16_encode(t.drop_first())
    }
}

/// Decodes UTF-16 with std's `String::from_utf16_lossy`. Besides naming
/// the result, the contract states what UTF-16 defines and std documents:
/// valid UTF-16, the encoding of some text, decodes to that text, and code
/// units outside the surrogate range each stand for the character of that
/// value. What replaces unpaired surrogates is left unsaid.
#[verifier::external_body]
fn utf16_lossy(words: &[u16]) -> (r: String)
    ensures
        r@ == spec_utf16_lossy(words@),
        forall|t: Seq<char>| #[trigger] utf16_encode(t) == words@ ==> r@ == t,
        (forall|i: int| 0 <= i < words@.len() ==> !is_surrogate(#[trigger] words@[i])) ==> r@
            == words@.map_values(|w: u16| (w as u32) as char),
{
    String::from_utf16_lossy(words)
}

/// Decodes UTF-8 with std's `String::from_utf8_lossy`. Besides naming the
/// result, the contract states what std documents for valid UTF-8: the
/// bytes are decoded as they are. What replaces invalid sequences is left
/// unsaid.
#[verifier::external_body]
pub(crate) fn utf8_lossy(bytes: &[u8]) -> (r: String)
    ensures
        r@ == spec_utf8_lossy(bytes@),
        valid_utf8(bytes@) ==> r@ == decode_utf8(bytes@),
{
    String::from_utf8_lossy(bytes).to_string()
}

/// The little-endian 16-bit words of a byte sequence; a trailing odd byte
/// is dropped (`chunks_exact(2)` and `u16::from_le_bytes`).
pub open spec fn le_words(b: Seq<u8>) -> Seq<u16> {
    Seq::new(b.len() / 2, |i: int| (b[2 * i] + 256 * b[2 * i + 1]) as u16)
}

/// Command output is UTF-16LE when its second byte is zero.
pub open spec fn looks_utf16(b: Seq<u8>) -> bool {
    b.len() >= 2 && b[1] == 0
}

/// The text of a command's output.
pub open spec fn decoded_output(b: Seq<u8>) -> Seq<char> {
    if looks_utf16(b) {
        spec_utf16_lossy(le_words(b))
    } else {
        spec_utf8_lossy(b)
    }
}

/// Decodes the output of a runtime command: UTF-16LE when the second byte
/// is zero (as `wsl.exe` writes it), UTF-8 otherwise.
pub fn decode_output(bytes: &[u8]) -> (r: String)
    ensures
        r@ == decoded_output(bytes@),
        looks_utf16(bytes@) && (forall|i: int|
            0 <= i < le_words(bytes@).len() ==> !is_surrogate(#[trigger] le_words(bytes@)[i]))
            ==> r@ == le_words(bytes@).map_values(|w: u16| (w as u32) as char),
        forall|t: Seq<char>|
            looks_utf16(bytes@) && #[trigger] utf16_encode(t) == le_words(bytes@) ==> r@ == t,
        !looks_utf16(bytes@) && valid_utf8(bytes@) ==> r@ == decode_utf8(bytes@),
{
    if bytes.len() >= 2 && bytes[1] == 0 {
        let n = bytes.len() / 2;
        let mut words: Vec<u16> = Vec::new();
        let mut i: usize = 0;
        while i < n
            invariant
                n == bytes@.len() / 2,
                2 * n <= bytes.len(),
                i <= n,
                words@.len() == i,
                forall|k: int| 0 <= k < i ==> #[trigger] words@[k] == le_words(bytes@)[k],
            decreases n - i,
        {
            let lo = bytes[2 * i];
            let hi = bytes[2 * i + 1];
            let w: u16 = (hi as u16) * 256 + (lo as u16);
            words.push(w);
            i += 1;
        }
        proof {
            assert(words@ =~= le_words(bytes@));
        }
        utf16_lossy(words.as_slice())
    } else {
        utf8_lossy(bytes)
    }
}

/// Code units written little-endian, two bytes each.
pub open spec fn le_bytes(w: Seq<u16>) -> Seq<u8> {
    Seq::new(
        2 * w.len(),
        |i: int|
            if i % 2 == 0 {
                (w[i / 2] % 256) as u8
            } else {
                (w[i / 2] / 256) as u8
            },
    )
}

/// A `wsl.exe` listing, written in UTF-16LE, reads back as the text it
/// encodes: when the text starts with a Latin-1 character, its encoding
/// is recognised as UTF-16 and its words are the text's UTF-16 encoding,
/// so `decode_output` returns the text (surrogate pairs included).
pub proof fn wsl_listing_round_trip(t: Seq<char>)
    requires
        t.len() > 0,
        (t[0] as u32) < 256,
    ensures
        looks_utf16(le_bytes(utf16_encode(t))),
        le_words(le_bytes(utf16_encode(t))) == utf16_encode(t),
{
    let w = utf16_encode(t);
    let b = le_bytes(w);
    assert(w == utf16_units(t[0]) + utf16_encode(t.drop_first()));
    assert(w[0] == (t[0] as u32) as u16);
    assert(b[1] == (w[0] / 256) as u8);
    let back = le_words(b);
    assert forall|i: int| 0 <= i < w.len() implies #[trigger] back[i] == w[i] by {
        let x = w[i];
        assert(b[2 * i] == (x % 256) as u8);
        assert(b[2 * i + 1] == (x / 256) as u8);
        assert((x % 256) + 256 * (x / 256) == x) by (nonlinear_arith);
    }
    assert(back =~= w);
}

/// The outcome of a finished command: its decoded output on success,
/// otherwise `message: <stdout><stderr>`.
pub open spec fn command_outcome(success: bool, stdout: Seq<u8>, stderr: Seq<u8>, message: Seq<
    char,
>) -> Result<Seq<char>, Seq<char>> {
    if success {
        Ok(decoded_output(stdout))
    } else {
        Err(message + ": "@ + decoded_output(stdout) + decoded_output(stderr))
    }
}

/// Turns the exit status and output of a command into its result.
pub fn output_text(success: bool, stdout: &[u8], stderr: &[u8], message: &str) -> (r: Result<
    String,
    String,
>)
    ensures
        match (r, command_outcome(success, stdout@, stderr@, message@)) {
            (Ok(s), Ok(t)) => s@ == t,
            (Err(s), Err(t)) => s@ == t,
            _ => false,
        },
{
    if success {
        Ok(decode_output(stdout))
    } else {
        let err_text = decode_output(stderr);
        let out_text = decode_output(stdout);
        let mut m = crate::text::owned(message);
        push_str(&mut m, ": ");
        push_str(&mut m, out_text.as_str());
        push_str(&mut m, err_text.as_str());
        Err(m)
    }
}

} // verus!
