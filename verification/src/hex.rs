//! Hex text for EPC codes: bytes to upper-case hex digits and back.
use vstd::prelude::*;
use vstd::string::StringSliceAdditionalSpecFns;
use vstd::utf8::encode_utf8;

verus! {

/// The ASCII code of the upper-case hex digit for `n` (0 to 15).
pub open spec fn hex_code(n: int) -> u8 {
    if n < 10 {
        (48 + n) as u8
    } else {
        (55 + n) as u8
    }
}

/// The two upper-case hex digits of `d`, high nibble first.
pub open spec fn hex_pair(d: u8) -> Seq<char> {
    seq![hex_code((d / 16) as int) as char, hex_code((d % 16) as int) as char]
}

/// The ASCII codes of the hex text of `b`: two upper-case digits per byte.
pub open spec fn hex_bytes(b: Seq<u8>) -> Seq<u8> {
    Seq::new(
        2 * b.len(),
        |i: int|
            if i % 2 == 0 {
                hex_code((b[i / 2] / 16) as int)
            } else {
                hex_code((b[i / 2] % 16) as int)
            },
    )
}

/// The hex text of `b`, as characters.
pub open spec fn hex_text(b: Seq<u8>) -> Seq<char> {
    Seq::new(2 * b.len(), |i: int| hex_bytes(b)[i] as char)
}

/// The value of the hex digit with ASCII code `c`, either case.
pub open spec fn hex_value(c: u8) -> Option<u8> {
    if 48 <= c <= 57 {
        Some((c - 48) as u8)
    } else if 65 <= c <= 70 {
        Some((c - 55) as u8)
    } else if 97 <= c <= 102 {
        Some((c - 87) as u8)
    } else {
        None
    }
}

/// The byte that the two-character text `hi lo` denotes in base 16, as a
/// radix-16 parse of an unsigned byte reads it: two hex digits, or a plus
/// sign and one hex digit.
pub open spec fn pair_value(hi: u8, lo: u8) -> Option<u8> {
    if hi == 43 {
        hex_value(lo)
    } else {
        match (hex_value(hi), hex_value(lo)) {
            (Some(h), Some(l)) => Some((h * 16 + l) as u8),
            _ => None,
        }
    }
}

/// The byte that the `i`-th pair of characters of `b` denotes.
pub open spec fn pair_at(b: Seq<u8>, i: int) -> Option<u8> {
    pair_value(b[2 * i], b[2 * i + 1])
}

/// The bytes that the text with UTF-8 bytes `b` denotes, two characters
/// per byte: none when the text has an odd length or any pair is not a
/// byte in base 16.
pub open spec fn hex_decode(b: Seq<u8>) -> Option<Seq<u8>> {
    if b.len() % 2 == 0 && forall|i: int| 0 <= i < b.len() / 2 ==> #[trigger] pair_at(b, i) is Some {
        Some(Seq::new((b.len() / 2) as nat, |i: int| pair_at(b, i)->Some_0))
    } else {
        None
    }
}

/// Appends a character to a string (std's `String::push`).  Trusted: the
/// character is added at the end and the rest of the string is unchanged,
/// as std documents it.
#[verifier::external_body]
fn string_push(s: &mut String, c: char)
    ensures
        final(s)@ == old(s)@.push(c),
{
    s.push(c);
}

/// The upper-case hex digit for `n`.
fn hex_digit(n: u8) -> (c: char)
    requires
        n < 16,
    ensures
        c == hex_code(n as int) as char,
{
    let table: [char; 16] = ['0', '1', '2', '3', '4', '5', '6', '7', '8', '9', 'A', 'B', 'C', 'D', 'E', 'F'];
    assert(table@ =~= seq!['0', '1', '2', '3', '4', '5', '6', '7', '8', '9', 'A', 'B', 'C', 'D', 'E', 'F']);
    let c = table[n as usize];
    assert(c == hex_code(n as int) as char);
    c
}

/// The two upper-case hex digits of `d`, e.g. `0A` for 10.
pub fn convert_to_hex(d: u8) -> (hex: String)
    ensures
        hex@ == hex_pair(d),
{
    let mut hex = String::new();
    if d < 16 {
        string_push(&mut hex, '0');
        string_push(&mut hex, hex_digit(d));
    } else {
        let temp = d / 16;
        let temp1 = d % 16;
        string_push(&mut hex, hex_digit(temp));
        string_push(&mut hex, hex_digit(temp1));
    }
    assert(hex@ =~= hex_pair(d));
    hex
}

/// The hex text of `bytes`: the hex digits of each byte in turn, as the
/// inventory sessions show an EPC.
pub fn bytes_to_hex(bytes: &Vec<u8>) -> (text: String)
    ensures
        text@ == hex_text(bytes@),
{
    let mut text = String::new();
    let mut i: usize = 0;
    while i < bytes.len()
        invariant
            i <= bytes@.len(),
            text@ == hex_text(bytes@.take(i as int)),
        decreases bytes@.len() - i,
    {
        let pair = convert_to_hex(bytes[i]);
        let ghost before = text@;
        text.append(pair.as_str());
        i = i + 1;
        assert(text@ =~= hex_text(bytes@.take(i as int))) by {
            assert(text@ == before + hex_pair(bytes@[i - 1]));
            assert forall|k: int| 0 <= k < text@.len() implies text@[k] == hex_text(
                bytes@.take(i as int),
            )[k] by {
                if k < before.len() {
                    assert(bytes@.take(i as int)[k / 2] == bytes@.take(i - 1)[k / 2]);
                }
            }
        }
    }
    assert(bytes@.take(bytes@.len() as int) =~= bytes@);
    text
}

fn hex_value_of(c: u8) -> (v: Option<u8>)
    ensures
        v == hex_value(c),
{
    if 48 <= c && c <= 57 {
        Some(c - 48)
    } else if 65 <= c && c <= 70 {
        Some(c - 55)
    } else if 97 <= c && c <= 102 {
        Some(c - 87)
    } else {
        None
    }
}

fn pair_value_of(hi: u8, lo: u8) -> (v: Option<u8>)
    ensures
        v == pair_value(hi, lo),
{
    if hi == 43 {
        hex_value_of(lo)
    } else {
        match (hex_value_of(hi), hex_value_of(lo)) {
            (Some(h), Some(l)) => Some(h * 16 + l),
            _ => None,
        }
    }
}

/// The bytes that the hex text `s` denotes, two characters per byte
/// (digits of either case, or a plus sign and one digit): `hex_decode` of
/// the text's UTF-8 bytes.
pub fn hex_to_bytes(s: &str) -> (bytes: Option<Vec<u8>>)
    ensures
        bytes is Some == hex_decode(s.spec_bytes()) is Some,
        bytes matches Some(v) ==> hex_decode(s.spec_bytes()) == Some(v@),
{
    let b = s.as_bytes();
    let n = b.len();
    if n % 2 != 0 {
        return None;
    }
    let mut out: Vec<u8> = Vec::new();
    let mut i: usize = 0;
    while i < n / 2
        invariant
            n == b@.len(),
            b@ == s.spec_bytes(),
            n % 2 == 0,
            i <= n / 2,
            out@.len() == i,
            forall|k: int| 0 <= k < i ==> #[trigger] pair_at(b@, k) is Some && out@[k] == pair_at(b@, k)->Some_0,
        decreases n / 2 - i,
    {
        match pair_value_of(b[2 * i], b[2 * i + 1]) {
            Some(v) => {
                out.push(v);
                assert(pair_at(b@, i as int) == Some(v));
            },
            None => {
                assert(pair_at(b@, i as int) is None);
                return None;
            },
        }
        i = i + 1;
    }
    assert(out@ =~= Seq::new((n / 2) as nat, |k: int| pair_at(b@, k)->Some_0));
    Some(out)
}

/// Decoding the hex text of any bytes gives the bytes back.
pub proof fn lemma_hex_roundtrip(b: Seq<u8>)
    ensures
        hex_decode(hex_bytes(b)) == Some(b),
{
    let t = hex_bytes(b);
    assert forall|i: int| 0 <= i < t.len() / 2 implies #[trigger] pair_at(t, i) == Some(b[i]) by {
        assert((2 * i) / 2 == i);
        assert((2 * i + 1) / 2 == i);
        assert((2 * i) % 2 == 0);
        assert((2 * i + 1) % 2 == 1);
        let hi = b[i] / 16;
        let lo = b[i] % 16;
        assert(hex_value(hex_code(hi as int)) == Some(hi));
        assert(hex_value(hex_code(lo as int)) == Some(lo));
    }
    assert(hex_decode(t) =~= Some(b)) by {
        assert(Seq::new((t.len() / 2) as nat, |i: int| pair_at(t, i)->Some_0) =~= b);
    }
}

/// The hex text of bytes is ASCII, so its UTF-8 encoding is `hex_bytes`,
/// and decoding that text (as `hex_to_bytes` does) gives the bytes back:
/// `hex_to_bytes` undoes `bytes_to_hex`.
pub proof fn lemma_hex_text_roundtrip(b: Seq<u8>)
    ensures
        encode_utf8(hex_text(b)) == hex_bytes(b),
        hex_decode(encode_utf8(hex_text(b))) == Some(b),
{
    let t = hex_text(b);
    assert forall|i: int| 0 <= i < t.len() implies '\0' <= #[trigger] t[i] <= '\u{7f}' by {
        assert(48 <= hex_bytes(b)[i] <= 70);
    }
    vstd::utf8::is_ascii_chars_encode_utf8(t);
    assert(encode_utf8(t) =~= hex_bytes(b));
    lemma_hex_roundtrip(b);
}

/// The hex text of a single byte is the pair of digits `convert_to_hex`
/// gives for it, and the hex text of bytes is the pairs of their digits,
/// one after the other.
pub proof fn lemma_hex_text_of_pairs(b: Seq<u8>, d: u8)
    ensures
        hex_text(seq![d]) == hex_pair(d),
        hex_text(b.push(d)) == hex_text(b) + hex_pair(d),
{
    assert(hex_text(seq![d]) =~= hex_pair(d));
    let l = hex_text(b.push(d));
    let r = hex_text(b) + hex_pair(d);
    assert forall|k: int| 0 <= k < l.len() implies l[k] == r[k] by {
        if k < 2 * b.len() {
            assert(b.push(d)[k / 2] == b[k / 2]);
        }
    }
    assert(l =~= r);
}

/// Decoded hex text has one byte for every two characters.
pub proof fn lemma_hex_decode_length(b: Seq<u8>)
    ensures
        hex_decode(b) matches Some(v) ==> 2 * v.len() == b.len(),
{
}

} // verus!
