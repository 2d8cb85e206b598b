//! Calls into the `base64` crate.
use vstd::prelude::*;

verus! {

/// The character of the standard base64 alphabet (RFC 4648) for the six-bit
/// value `n`: `A`-`Z`, `a`-`z`, `0`-`9`, `+`, `/`.
pub open spec fn base64_digit(n: nat) -> char {
    if n < 26 {
        (65 + n) as char
    } else if n < 52 {
        (97 + n - 26) as char
    } else if n < 62 {
        (48 + n - 52) as char
    } else if n == 62 {
        '+'
    } else {
        '/'
    }
}

/// The standard base64 encoding (RFC 4648 alphabet, with `=` padding) of
/// `data`: each group of three bytes becomes four characters of six bits
/// each; a last group of one or two bytes is padded with `=` to four.
pub open spec fn base64_encoding(data: Seq<u8>) -> Seq<char>
    decreases data.len(),
{
    if data.len() == 0 {
        seq![]
    } else if data.len() == 1 {
        let a = data[0] as nat;
        seq![base64_digit(a / 4), base64_digit((a % 4) * 16), '=', '=']
    } else if data.len() == 2 {
        let a = data[0] as nat;
        let b = data[1] as nat;
        seq![base64_digit(a / 4), base64_digit((a % 4) * 16 + b / 16), base64_digit((b % 16) * 4), '=']
    } else {
        let a = data[0] as nat;
        let b = data[1] as nat;
        let c = data[2] as nat;
        seq![
            base64_digit(a / 4),
            base64_digit((a % 4) * 16 + b / 16),
            base64_digit((b % 16) * 4 + c / 64),
            base64_digit(c % 64),
        ] + base64_encoding(data.skip(3))
    }
}

/// The bytes that standard base64 text `text` decodes to, or `None` when it is
/// not valid standard base64.
pub uninterp spec fn base64_decoding(text: Seq<u8>) -> Option<Seq<u8>>;

/// Calls `base64::encode` (the crate's `STANDARD` engine, which pads). The
/// contract claims that the text is the standard encoding
/// [`base64_encoding`] of the input bytes, and that `base64::decode` of the
/// text's bytes gives the input back (the crate's round trip).
#[verifier::external_body]
pub(crate) fn base64_encode(data: &[u8]) -> (r: String)
    ensures
        r@ == base64_encoding(data@),
        base64_decoding(vstd::utf8::encode_utf8(r@)) == Some(data@),
{
    #[allow(deprecated)]
    base64::encode(data)
}

/// Calls `base64::decode` (the crate's `STANDARD` engine, which requires
/// canonical padding and rejects trailing bits). The contract claims that
/// the outcome is a function of the input bytes, named
/// [`base64_decoding`], and, as that configuration implies, that the text
/// decodes exactly when it is the standard encoding of some bytes, which
/// it then gives back; the decode error itself is not kept.
#[verifier::external_body]
pub(crate) fn base64_decode(text: &[u8]) -> (r: Option<Vec<u8>>)
    ensures
        match r {
            Some(v) => base64_decoding(text@) == Some(v@),
            None => base64_decoding(text@) is None,
        },
        r matches Some(v) ==> text@ == vstd::utf8::encode_utf8(base64_encoding(v@)),
        r is None ==> forall|d: Seq<u8>| text@ != vstd::utf8::encode_utf8(#[trigger] base64_encoding(d)),
{
    #[allow(deprecated)]
    base64::decode(text).ok()
}

} // verus!
