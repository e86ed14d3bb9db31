//! Text-safe transport of encoded images: base64 and `data:` URIs.

use base64::Engine;
use vstd::prelude::*;

verus! {

/// The character that stands for the six-bit value `v` in the standard
/// base64 alphabet: `A`-`Z`, `a`-`z`, `0`-`9`, `+`, `/`.
pub open spec fn alphabet_char(v: int) -> char {
    if v < 26 {
        (v + 65) as char
    } else if v < 52 {
        (v + 71) as char
    } else if v < 62 {
        (v - 4) as char
    } else if v == 62 {
        '+'
    } else {
        '/'
    }
}

/// The six-bit value that `c` stands for, if `c` belongs to the alphabet.
pub open spec fn alphabet_index(c: char) -> Option<int> {
    let n = c as int;
    if 65 <= n <= 90 {
        Some(n - 65)
    } else if 97 <= n <= 122 {
        Some(n - 71)
    } else if 48 <= n <= 57 {
        Some(n + 4)
    } else if c == '+' {
        Some(62)
    } else if c == '/' {
        Some(63)
    } else {
        None
    }
}

/// The four characters that carry the 24 bits of three bytes, most
/// significant bits first.
pub open spec fn encode_group(a: u8, b: u8, c: u8) -> Seq<char> {
    seq![
        alphabet_char(a as int / 4),
        alphabet_char((a as int % 4) * 16 + b as int / 16),
        alphabet_char((b as int % 16) * 4 + c as int / 64),
        alphabet_char(c as int % 64),
    ]
}

/// The padded base64 text of `bytes`: one group of four characters for every
/// three bytes, the last group filled up with `=` where bytes are missing.
pub open spec fn base64_text(bytes: Seq<u8>) -> Seq<char>
    decreases bytes.len(),
{
    if bytes.len() == 0 {
        Seq::empty()
    } else if bytes.len() == 1 {
        encode_group(bytes[0], 0, 0).subrange(0, 2) + seq!['=', '=']
    } else if bytes.len() == 2 {
        encode_group(bytes[0], bytes[1], 0).subrange(0, 3) + seq!['=']
    } else {
        encode_group(bytes[0], bytes[1], bytes[2]) + base64_text(bytes.skip(3))
    }
}

/// The number of characters in the base64 text of `n` bytes.
pub open spec fn base64_len(n: nat) -> nat {
    ((n + 2) / 3 * 4) as nat
}

/// The bytes of a last group that ends in padding, if it is well formed: the
/// bits that carry no data must be zero.
pub open spec fn decode_padded_group(group: Seq<char>) -> Option<Seq<u8>> {
    let p = alphabet_index(group[0]);
    let q = alphabet_index(group[1]);
    let r = alphabet_index(group[2]);
    if group[2] == '=' {
        if p is Some && q is Some && q->0 % 16 == 0 {
            Some(seq![(p->0 * 4 + q->0 / 16) as u8])
        } else {
            None
        }
    } else if p is Some && q is Some && r is Some && r->0 % 4 == 0 {
        Some(seq![(p->0 * 4 + q->0 / 16) as u8, ((q->0 % 16) * 16 + r->0 / 4) as u8])
    } else {
        None
    }
}

/// The bytes that a padded base64 text stands for, or `None` if the text is
/// not one.
pub open spec fn base64_bytes(text: Seq<char>) -> Option<Seq<u8>>
    decreases text.len(),
{
    if text.len() == 0 {
        Some(Seq::empty())
    } else if text.len() < 4 {
        None
    } else if text.len() == 4 && text[3] == '=' {
        decode_padded_group(text)
    } else {
        let p = alphabet_index(text[0]);
        let q = alphabet_index(text[1]);
        let r = alphabet_index(text[2]);
        let s = alphabet_index(text[3]);
        let rest = base64_bytes(text.skip(4));
        if p is Some && q is Some && r is Some && s is Some && rest is Some {
            Some(
                seq![
                    (p->0 * 4 + q->0 / 16) as u8,
                    ((q->0 % 16) * 16 + r->0 / 4) as u8,
                    ((r->0 % 4) * 64 + s->0) as u8,
                ] + rest->0,
            )
        } else {
            None
        }
    }
}

/// The text of a `data:` URI that carries `bytes` as an image of the given
/// MIME subtype.
pub open spec fn data_uri_text(mime_subtype: Seq<char>, bytes: Seq<u8>) -> Seq<char> {
    "data:image/"@ + mime_subtype + ";base64,"@ + base64_text(bytes)
}

/// What precedes the data in a payload that carries a WebP image.
pub open spec fn webp_prefix() -> Seq<char> {
    "data:image/webp;base64,"@
}

/// Every six-bit value is found again from its character, and no character
/// of the alphabet is the padding sign.
pub proof fn alphabet_is_invertible(v: int)
    requires
        0 <= v < 64,
    ensures
        alphabet_index(alphabet_char(v)) == Some(v),
        alphabet_char(v) != '=',
{
}

/// The base64 text of `n` bytes has `base64_len(n)` characters.
pub proof fn base64_text_len(bytes: Seq<u8>)
    ensures
        base64_text(bytes).len() == base64_len(bytes.len()),
    decreases bytes.len(),
{
    if bytes.len() >= 3 {
        base64_text_len(bytes.skip(3));
    }
}

/// Decoding the base64 text of any bytes gives exactly those bytes back.
pub proof fn base64_round_trip(bytes: Seq<u8>)
    ensures
        base64_bytes(base64_text(bytes)) == Some(bytes),
    decreases bytes.len(),
{
    let text = base64_text(bytes);
    if bytes.len() == 0 {
    } else if bytes.len() == 1 {
        let a = bytes[0] as int;
        alphabet_is_invertible(a / 4);
        alphabet_is_invertible((a % 4) * 16);
        assert(base64_bytes(text)->0 =~= bytes);
    } else if bytes.len() == 2 {
        let a = bytes[0] as int;
        let b = bytes[1] as int;
        alphabet_is_invertible(a / 4);
        alphabet_is_invertible((a % 4) * 16 + b / 16);
        alphabet_is_invertible((b % 16) * 4);
        assert(base64_bytes(text)->0 =~= bytes);
    } else {
        let a = bytes[0] as int;
        let b = bytes[1] as int;
        let c = bytes[2] as int;
        alphabet_is_invertible(a / 4);
        alphabet_is_invertible((a % 4) * 16 + b / 16);
        alphabet_is_invertible((b % 16) * 4 + c / 64);
        alphabet_is_invertible(c % 64);
        base64_round_trip(bytes.skip(3));
        assert(text.skip(4) =~= base64_text(bytes.skip(3)));
        assert(base64_bytes(text)->0 =~= bytes);
    }
}

/// A WebP payload starts with `data:image/webp;base64,`, and what follows
/// the prefix decodes to exactly the bytes it was made from.
pub proof fn webp_payload_round_trip(bytes: Seq<u8>)
    ensures
        data_uri_text("webp"@, bytes) == webp_prefix() + base64_text(bytes),
        webp_prefix().len() == 23,
        data_uri_text("webp"@, bytes).subrange(0, 23) == webp_prefix(),
        base64_bytes(data_uri_text("webp"@, bytes).skip(23)) == Some(bytes),
{
    reveal_strlit("data:image/");
    reveal_strlit("webp");
    reveal_strlit(";base64,");
    reveal_strlit("data:image/webp;base64,");
    let payload = data_uri_text("webp"@, bytes);
    assert("data:image/"@ + "webp"@ + ";base64,"@ =~= webp_prefix());
    assert(payload =~= webp_prefix() + base64_text(bytes));
    assert(payload.subrange(0, 23) =~= webp_prefix());
    assert(payload.skip(23) =~= base64_text(bytes));
    base64_round_trip(bytes);
}

/// Whether the base64 text of `len` bytes has a length that a `usize` holds.
pub fn payload_fits(len: usize) -> (fits: bool)
    ensures
        fits == (base64_len(len as nat) <= usize::MAX),
{
    len <= usize::MAX / 4 * 3
}

/// Calls `encode` of the base64 crate's `STANDARD` engine: the standard
/// alphabet with `=` padding. The engine panics where the length of the text
/// overflows `usize`, which the precondition rules out.
#[verifier::external_body]
fn base64_encode(bytes: &[u8]) -> (text: String)
    requires
        base64_len(bytes@.len()) <= usize::MAX,
    ensures
        text@ == base64_text(bytes@),
{
    base64::engine::general_purpose::STANDARD.encode(bytes)
}

/// Wraps encoded image bytes as a `data:` URI: the scheme, the MIME subtype,
/// and the base64 text of the bytes.
pub fn to_data_uri(image: &[u8], mime_subtype: &str) -> (payload: String)
    requires
        base64_len(image@.len()) <= usize::MAX,
    ensures
        payload@ == data_uri_text(mime_subtype@, image@),
{
    let encoded = base64_encode(image);
    let mut payload = String::from_str("data:image/");
    payload.append(mime_subtype);
    payload.append(";base64,");
    payload.append(encoded.as_str());
    payload
}

/// The transport payload of a WebP image.
pub fn convert_webp_to_base64(webp_bytes: &[u8]) -> (payload: String)
    requires
        base64_len(webp_bytes@.len()) <= usize::MAX,
    ensures
        payload@ == webp_prefix() + base64_text(webp_bytes@),
{
    proof {
        webp_payload_round_trip(webp_bytes@);
    }
    to_data_uri(webp_bytes, "webp")
}

} // verus!
