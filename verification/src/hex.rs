//! Lowercase hexadecimal framing: the compact text form of a signed
//! token.  Encoding and decoding are verified to be exact inverses.

use vstd::prelude::*;
use vstd::slice::slice_index_get;

verus! {

/// ASCII byte of one hexadecimal digit (`n < 16`).
pub open spec fn spec_hex_digit(n: u8) -> u8 {
    if n < 10 {
        (n + 48) as u8
    } else {
        (n + 87) as u8
    }
}

/// Value of one ASCII byte as a hexadecimal digit, if it is one.
pub open spec fn spec_hex_val(b: u8) -> Option<u8> {
    if 48 <= b <= 57 {
        Some((b - 48) as u8)
    } else if 97 <= b <= 102 {
        Some((b - 87) as u8)
    } else {
        None
    }
}

/// Both nibbles of a byte are below sixteen.
pub proof fn lemma_nibbles(b: u8)
    ensures
        b >> 4 < 16,
        b & 0xf < 16,
{
    assert(b >> 4 < 16 && b & 0xf < 16) by (bit_vector);
}

/// A digit byte reads back as its value.
pub proof fn lemma_hex_digit_val(n: u8)
    requires
        n < 16,
    ensures
        spec_hex_val(spec_hex_digit(n)) == Some(n),
        spec_hex_digit(n) < 128,
{
}

/// One hexadecimal digit as a character.
pub open spec fn spec_hex_digit_char(n: u8) -> char {
    spec_hex_digit(n) as char
}

/// Value of one character as a hexadecimal digit, if it is one.
pub open spec fn spec_hex_val_char(c: char) -> Option<u8> {
    if 48 <= c as u32 <= 57 {
        Some((c as u32 - 48) as u8)
    } else if 97 <= c as u32 <= 102 {
        Some((c as u32 - 87) as u8)
    } else {
        None
    }
}

/// The hexadecimal text of `s`, two digit characters per byte.
pub open spec fn spec_hex_text(s: Seq<u8>) -> Seq<char> {
    Seq::new(
        2 * s.len(),
        |i: int|
            if i % 2 == 0 {
                spec_hex_digit_char(s[i / 2] >> 4)
            } else {
                spec_hex_digit_char(s[i / 2] & 0xf)
            },
    )
}

/// Every position of `s` holds a hexadecimal digit character.
pub open spec fn all_hex_chars(s: Seq<char>) -> bool {
    forall|i: int| 0 <= i < s.len() ==> spec_hex_val_char(#[trigger] s[i]) is Some
}

/// The bytes a hexadecimal text stands for; `None` where the text is
/// odd-length or holds a stray character.
pub open spec fn spec_hex_decode_text(s: Seq<char>) -> Option<Seq<u8>> {
    if s.len() % 2 != 0 || !all_hex_chars(s) {
        None
    } else {
        Some(
            Seq::new(
                s.len() / 2,
                |i: int| (spec_hex_val_char(s[2 * i]).unwrap() * 16 + spec_hex_val_char(
                    s[2 * i + 1],
                ).unwrap()) as u8,
            ),
        )
    }
}

/// A digit character reads back as its value.
pub proof fn lemma_hex_digit_char_val(n: u8)
    requires
        n < 16,
    ensures
        spec_hex_val_char(spec_hex_digit_char(n)) == Some(n),
{
    lemma_hex_digit_val(n);
}

/// Decoding a hexadecimal text inverts writing it.
pub proof fn lemma_hex_text_roundtrip(s: Seq<u8>)
    ensures
        spec_hex_decode_text(spec_hex_text(s)) == Some(s),
{
    let e = spec_hex_text(s);
    assert forall|i: int| 0 <= i < e.len() implies spec_hex_val_char(#[trigger] e[i]) is Some by {
        lemma_nibbles(s[i / 2]);
        if i % 2 == 0 {
            lemma_hex_digit_char_val(s[i / 2] >> 4);
        } else {
            lemma_hex_digit_char_val(s[i / 2] & 0xf);
        }
    }
    let d = spec_hex_decode_text(e).unwrap();
    assert forall|i: int| 0 <= i < s.len() implies d[i] == s[i] by {
        assert((2 * i) % 2 == 0 && (2 * i + 1) % 2 == 1);
        assert(e[2 * i] == spec_hex_digit_char(s[i] >> 4));
        assert(e[2 * i + 1] == spec_hex_digit_char(s[i] & 0xf));
        lemma_nibbles(s[i]);
        lemma_hex_digit_char_val(s[i] >> 4);
        lemma_hex_digit_char_val(s[i] & 0xf);
        let b = s[i];
        assert((b >> 4) * 16 + (b & 0xf) == b) by (bit_vector);
    }
    assert(d =~= s);
}

/// Relies on `String`'s `FromIterator<char>`: collecting characters
/// yields the string of exactly those characters.
#[verifier::external_body]
fn string_from_chars(v: Vec<char>) -> (r: String)
    ensures
        r@ == v@,
{
    v.into_iter().collect()
}

/// Relies on `str::chars`: iterating a string yields exactly its
/// characters, in order.
#[verifier::external_body]
fn chars_of_str(s: &str) -> (r: Vec<char>)
    ensures
        r@ == s@,
{
    s.chars().collect()
}

/// Write `data` as lowercase hexadecimal text.
pub fn hex_encode_text(data: &[u8]) -> (r: String)
    ensures
        r@ == spec_hex_text(data@),
{
    let mut out: Vec<char> = Vec::new();
    let mut i: usize = 0;
    while i < data.len()
        invariant
            i <= data@.len(),
            out@.len() == 2 * i,
            forall|k: int| 0 <= k < out@.len() ==> out@[k] == spec_hex_text(data@)[k],
        decreases data@.len() - i,
    {
        let b = *slice_index_get(data, i);
        proof {
            lemma_nibbles(b);
        }
        let hi: u8 = b >> 4;
        let lo: u8 = b & 0xf;
        let hid: u8 = if hi < 10 {
            hi + 48
        } else {
            hi + 87
        };
        let lod: u8 = if lo < 10 {
            lo + 48
        } else {
            lo + 87
        };
        out.push(hid as char);
        out.push(lod as char);
        i = i + 1;
    }
    proof {
        assert(out@ =~= spec_hex_text(data@));
    }
    string_from_chars(out)
}

/// Read lowercase hexadecimal text back into bytes; `None` where the
/// text is not well-formed hexadecimal.
pub fn hex_decode_text(text: &str) -> (r: Option<Vec<u8>>)
    ensures
        match r {
            Some(v) => spec_hex_decode_text(text@) == Some(v@),
            None => spec_hex_decode_text(text@) is None,
        },
{
    let chars = chars_of_str(text);
    if chars.len() % 2 != 0 {
        return None;
    }
    let mut out: Vec<u8> = Vec::new();
    let mut i: usize = 0;
    while i < chars.len()
        invariant
            chars@ == text@,
            chars@.len() % 2 == 0,
            i <= chars@.len(),
            i % 2 == 0,
            out@.len() * 2 == i,
            forall|k: int| 0 <= k < i ==> spec_hex_val_char(#[trigger] chars@[k]) is Some,
            forall|k: int|
                0 <= k < out@.len() ==> out@[k] == (spec_hex_val_char(chars@[2 * k]).unwrap() * 16
                    + spec_hex_val_char(chars@[2 * k + 1]).unwrap()) as u8,
        decreases chars@.len() - i,
    {
        let a = chars[i];
        let b = chars[i + 1];
        let ac: u32 = a as u32;
        let bc: u32 = b as u32;
        let av: u8 = if 48 <= ac && ac <= 57 {
            (ac - 48) as u8
        } else if 97 <= ac && ac <= 102 {
            (ac - 87) as u8
        } else {
            return None;
        };
        let bv: u8 = if 48 <= bc && bc <= 57 {
            (bc - 48) as u8
        } else if 97 <= bc && bc <= 102 {
            (bc - 87) as u8
        } else {
            return None;
        };
        out.push(av * 16 + bv);
        i = i + 2;
    }
    proof {
        let d = spec_hex_decode_text(text@);
        assert(all_hex_chars(text@));
        assert(out@ =~= d.unwrap());
    }
    Some(out)
}

} // verus!
