//! Human-readable names of four-character pixel format codes.

use vstd::prelude::*;
use vstd::utf8::{decode_utf8, valid_utf8};

verus! {

/// What `String::from_utf8_lossy` makes of `bytes`.
pub uninterp spec fn utf8_lossy_of(bytes: Seq<u8>) -> Seq<char>;

/// Relies on `String::from_utf8_lossy`: the result depends on the bytes
/// alone, and valid UTF-8 comes back as the text it encodes.
#[verifier::external_body]
fn utf8_lossy(bytes: &[u8]) -> (r: String)
    ensures
        r@ == utf8_lossy_of(bytes@),
        valid_utf8(bytes@) ==> r@ == decode_utf8(bytes@),
{
    String::from_utf8_lossy(bytes).into_owned()
}

pub open spec fn hex_char(d: u32) -> char
    recommends
        d < 16,
{
    seq!['0', '1', '2', '3', '4', '5', '6', '7', '8', '9', 'A', 'B', 'C', 'D', 'E', 'F'][d as int]
}

/// Eight upper-case hexadecimal digits of `v`, most significant first.
pub open spec fn hex8(v: u32) -> Seq<char> {
    Seq::new(8, |i: int| hex_char((v >> ((28 - 4 * i) as u32)) & 0xF))
}

/// Relies on `format!` with `{:08X}`: `0x` and eight upper-case hex digits,
/// zero-padded.
#[verifier::external_body]
fn hex_u32(v: u32) -> (r: String)
    ensures
        r@ == seq!['0', 'x'] + hex8(v),
{
    format!("0x{v:08X}")
}

/// The four bytes of a code, most significant first.
pub open spec fn fourcc_bytes(code: u32) -> Seq<u8> {
    seq![(code >> 24u32) as u8, (code >> 16u32) as u8, (code >> 8u32) as u8, code as u8]
}

/// A code's name: its four bytes as text where the first byte is set; else
/// the packed-RGB names of the codes 32 and 24, or the code in hex.
pub fn fourcc_to_string(code: u32) -> (r: String)
    ensures
        code >= 0x0100_0000 ==> r@ == utf8_lossy_of(fourcc_bytes(code)),
        code >= 0x0100_0000 && valid_utf8(fourcc_bytes(code)) ==> r@ == decode_utf8(fourcc_bytes(code)),
        code == 32 ==> r@ == "ARGB"@,
        code == 24 ==> r@ == "RGB "@,
        code < 0x0100_0000 && code != 32 && code != 24 ==> r@ == seq!['0', 'x'] + hex8(code),
{
    if code < 0x0100_0000 {
        if code == 32 {
            "ARGB".to_owned()
        } else if code == 24 {
            "RGB ".to_owned()
        } else {
            hex_u32(code)
        }
    } else {
        let bytes: Vec<u8> = vec![(code >> 24u32) as u8, (code >> 16u32) as u8, (code >> 8u32) as u8, code as u8];
        proof {
            assert(bytes@ =~= fourcc_bytes(code));
        }
        utf8_lossy(bytes.as_slice())
    }
}

} // verus!
