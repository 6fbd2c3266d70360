//! Conversion of a hexadecimal text string into a byte buffer.

use vstd::prelude::*;
use vstd::string::StringSliceAdditionalSpecFns;

verus! {

/// Whether the byte is the ASCII code of a hexadecimal digit.
pub open spec fn is_hex_digit(b: u8) -> bool {
    (0x30 <= b <= 0x39) || (0x41 <= b <= 0x46) || (0x61 <= b <= 0x66)
}

/// The numeric value of an ASCII hexadecimal digit.
pub open spec fn hex_digit_val(b: u8) -> u8 {
    if 0x30 <= b <= 0x39 {
        (b - 0x30) as u8
    } else if 0x41 <= b <= 0x46 {
        (b - 0x41 + 10) as u8
    } else if 0x61 <= b <= 0x66 {
        (b - 0x61 + 10) as u8
    } else {
        0
    }
}

/// Whether every byte of `bs` that belongs to a full two-digit pair is a
/// hexadecimal digit.  A trailing unpaired byte is ignored.
pub open spec fn all_hex_pairs(bs: Seq<u8>) -> bool {
    forall|i: int| 0 <= i < 2 * (bs.len() / 2) ==> is_hex_digit(#[trigger] bs[i])
}

/// The bytes encoded by `bs`: each two-digit pair becomes one byte, high
/// digit first.
pub open spec fn hex_pairs_val(bs: Seq<u8>) -> Seq<u8> {
    Seq::new(bs.len() / 2, |i: int| (16 * hex_digit_val(bs[2 * i]) + hex_digit_val(bs[2 * i + 1])) as u8)
}

/// A byte of the input that is not a hexadecimal digit, found at
/// `index` while converting.
#[derive(Debug, Clone, Copy, PartialEq, Eq, Structural)]
pub struct HexError {
    pub index: usize,
}

/// The numeric value of one hexadecimal digit byte.
fn hex_digit(b: u8) -> (r: Option<u8>)
    ensures
        r is Some <==> is_hex_digit(b),
        r is Some ==> r == Some(hex_digit_val(b)),
{
    if 0x30 <= b && b <= 0x39 {
        Some(b - 0x30)
    } else if 0x41 <= b && b <= 0x46 {
        Some(b - 0x41 + 10)
    } else if 0x61 <= b && b <= 0x66 {
        Some(b - 0x61 + 10)
    } else {
        None
    }
}

/// Converts a string of hexadecimal digit pairs into the byte buffer they
/// encode, high digit of each pair first.  A trailing unpaired character
/// is ignored.  The first input byte that is not a hexadecimal digit is
/// reported by its position, and nothing is converted.
pub fn hex2_u8_array(hex: &str) -> (r: Result<Vec<u8>, HexError>)
    ensures
        r is Ok <==> all_hex_pairs(hex.spec_bytes()),
        r matches Ok(v) ==> v@ == hex_pairs_val(hex.spec_bytes()),
        r matches Err(e) ==> {
            &&& e.index < 2 * (hex.spec_bytes().len() / 2)
            &&& !is_hex_digit(hex.spec_bytes()[e.index as int])
            &&& forall|j: int|
                0 <= j < e.index ==> is_hex_digit(#[trigger] hex.spec_bytes()[j])
        },
{
    let bs = hex.as_bytes();
    let n = bs.len() / 2;
    let mut bytes: Vec<u8> = Vec::new();
    let mut i: usize = 0;
    while i < n
        invariant
            i <= n,
            n == bs@.len() / 2,
            2 * n <= usize::MAX,
            bs@ == hex.spec_bytes(),
            bytes@.len() == i,
            forall|j: int| 0 <= j < 2 * i ==> is_hex_digit(#[trigger] bs@[j]),
            forall|j: int|
                0 <= j < i ==> bytes@[j] == (16 * hex_digit_val(bs@[2 * j]) + hex_digit_val(
                    bs@[2 * j + 1],
                )) as u8,
        decreases n - i,
    {
        let hi = match hex_digit(bs[2 * i]) {
            Some(v) => v,
            None => {
                return Err(HexError { index: 2 * i });
            },
        };
        let lo = match hex_digit(bs[2 * i + 1]) {
            Some(v) => v,
            None => {
                return Err(HexError { index: 2 * i + 1 });
            },
        };
        bytes.push(16 * hi + lo);
        i += 1;
    }
    assert(bytes@ =~= hex_pairs_val(hex.spec_bytes()));
    Ok(bytes)
}

} // verus!
