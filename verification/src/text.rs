//! The textual form of a byte in the char area.

use vstd::prelude::*;
use vstd::string::StringExecFns;

verus! {

/// Relies on encoding_rs's `Encoding::decode` with `WINDOWS_1252`:
/// windows-1252 is a single-byte, ASCII-compatible encoding, so one byte in
/// the printable ASCII range is no byte-order mark and decodes to exactly
/// that character, without errors.
#[verifier::external_body]
fn decode_windows_1252_printable(byte: u8) -> (r: String)
    requires
        0x20 <= byte < 0x80,
    ensures
        r@ == seq![byte as char],
{
    let b = byte.to_le_bytes();
    let (cow, _, had_errors) = encoding_rs::WINDOWS_1252.decode(&b);
    if !had_errors {
        cow.to_string()
    } else {
        String::from(".")
    }
}

/// The text shown for a byte in the char area: a printable ASCII byte is
/// decoded through windows-1252 and shows as itself, any other byte shows
/// as a dot.
pub fn byte_to_decoded_char(byte: u8) -> (r: String)
    ensures
        0x20 <= byte < 0x80 ==> r@ == seq![byte as char],
        !(0x20 <= byte < 0x80) ==> r@ == seq!['.'],
{
    if 0x20 <= byte && byte < 0x80 {
        decode_windows_1252_printable(byte)
    } else {
        proof {
            reveal_strlit(".");
        }
        String::from_str(".")
    }
}

} // verus!
