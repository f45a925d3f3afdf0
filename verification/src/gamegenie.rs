//! Game Genie patch codes: the 6- and 8-letter cipher over a 16-letter alphabet.

use vstd::prelude::*;
use vstd::string::StringSliceAdditionalSpecFns;

verus! {

/// One decoded patch: replace PRG reads at `address` with `new_data`,
/// optionally only when the unpatched byte equals `compare_data`.
#[derive(Debug, Clone, Copy, PartialEq, Eq)]
pub struct GameGenieCode {
    pub address: u16,
    pub new_data: u8,
    pub compare_data: Option<u8>,
}

/// The nybble a code letter stands for; letters outside the alphabet decode
/// to nothing. Both letter cases are accepted.
pub open spec fn gg_nybble(b: u8) -> Option<u8> {
    if b == 0x41 || b == 0x61 { Some(0x0u8) }      // A
    else if b == 0x50 || b == 0x70 { Some(0x1u8) } // P
    else if b == 0x5A || b == 0x7A { Some(0x2u8) } // Z
    else if b == 0x4C || b == 0x6C { Some(0x3u8) } // L
    else if b == 0x47 || b == 0x67 { Some(0x4u8) } // G
    else if b == 0x49 || b == 0x69 { Some(0x5u8) } // I
    else if b == 0x54 || b == 0x74 { Some(0x6u8) } // T
    else if b == 0x59 || b == 0x79 { Some(0x7u8) } // Y
    else if b == 0x45 || b == 0x65 { Some(0x8u8) } // E
    else if b == 0x4F || b == 0x6F { Some(0x9u8) } // O
    else if b == 0x58 || b == 0x78 { Some(0xAu8) } // X
    else if b == 0x55 || b == 0x75 { Some(0xBu8) } // U
    else if b == 0x4B || b == 0x6B { Some(0xCu8) } // K
    else if b == 0x53 || b == 0x73 { Some(0xDu8) } // S
    else if b == 0x56 || b == 0x76 { Some(0xEu8) } // V
    else if b == 0x4E || b == 0x6E { Some(0xFu8) } // N
    else { None }
}

/// Every letter of the code is in the alphabet.
pub open spec fn gg_all_valid(bytes: Seq<u8>) -> bool {
    forall|i: int| 0 <= i < bytes.len() ==> #[trigger] gg_nybble(bytes[i]) is Some
}

/// The nybble sequence of a fully valid code.
pub open spec fn gg_nybbles(bytes: Seq<u8>) -> Seq<u8> {
    bytes.map_values(|b: u8| gg_nybble(b)->Some_0)
}

/// The patched address packed from nybbles 1..=5 of the code, always in PRG space.
pub open spec fn gg_address(n: Seq<u8>) -> u16 {
    0x8000u16
        | (((n[3] & 7) as u16) << 12)
        | (((n[5] & 7) as u16) << 8) | (((n[4] & 8) as u16) << 8)
        | (((n[2] & 7) as u16) << 4) | (((n[1] & 8) as u16) << 4)
        | ((n[4] & 7) as u16) | ((n[3] & 8) as u16)
}

/// The replacement byte; its low-nybble high bit comes from the last letter.
pub open spec fn gg_new_data(n: Seq<u8>) -> u8 {
    (((n[1] & 7) as u8) << 4) | (((n[0] & 8) as u8) << 4)
        | ((n[0] & 7) as u8)
        | if n.len() == 8 { (n[7] & 8) as u8 } else { (n[5] & 8) as u8 }
}

/// The compare byte of an 8-letter code.
pub open spec fn gg_compare_data(n: Seq<u8>) -> u8 {
    (((n[7] & 7) as u8) << 4) | (((n[6] & 8) as u8) << 4)
        | ((n[6] & 7) as u8) | ((n[5] & 8) as u8)
}

fn decode_gg_byte(b: u8) -> (r: Option<u8>)
    ensures
        r == gg_nybble(b),
{
    if b == 0x41 || b == 0x61 { Some(0x0) }
    else if b == 0x50 || b == 0x70 { Some(0x1) }
    else if b == 0x5A || b == 0x7A { Some(0x2) }
    else if b == 0x4C || b == 0x6C { Some(0x3) }
    else if b == 0x47 || b == 0x67 { Some(0x4) }
    else if b == 0x49 || b == 0x69 { Some(0x5) }
    else if b == 0x54 || b == 0x74 { Some(0x6) }
    else if b == 0x59 || b == 0x79 { Some(0x7) }
    else if b == 0x45 || b == 0x65 { Some(0x8) }
    else if b == 0x4F || b == 0x6F { Some(0x9) }
    else if b == 0x58 || b == 0x78 { Some(0xA) }
    else if b == 0x55 || b == 0x75 { Some(0xB) }
    else if b == 0x4B || b == 0x6B { Some(0xC) }
    else if b == 0x53 || b == 0x73 { Some(0xD) }
    else if b == 0x56 || b == 0x76 { Some(0xE) }
    else if b == 0x4E || b == 0x6E { Some(0xF) }
    else { None }
}

/// Decode a Game Genie code. Success exactly when the code is 6 or 8
/// letters of the alphabet; the record then carries the packed address,
/// replacement byte, and (for 8-letter codes) the compare byte.
pub fn parse_game_genie_code(code: &str) -> (r: Result<GameGenieCode, String>)
    ensures
        r is Ok <==> {
            &&& (code.spec_bytes().len() == 6 || code.spec_bytes().len() == 8)
            &&& gg_all_valid(code.spec_bytes())
        },
        r matches Ok(gg) ==> {
            &&& gg.address == gg_address(gg_nybbles(code.spec_bytes()))
            &&& gg.new_data == gg_new_data(gg_nybbles(code.spec_bytes()))
            &&& gg.compare_data == if code.spec_bytes().len() == 8 {
                Some(gg_compare_data(gg_nybbles(code.spec_bytes())))
            } else {
                None::<u8>
            }
        },
{
    let bytes = code.as_bytes();
    let len = bytes.len();

    if len != 6 && len != 8 {
        return Err("Code must be 6 or 8 letters long.".to_owned());
    }

    let mut nybbles: Vec<u8> = Vec::new();
    let mut i: usize = 0;
    while i < len
        invariant
            bytes@ == code.spec_bytes(),
            len == bytes@.len(),
            len == 6 || len == 8,
            i <= len,
            nybbles@.len() == i,
            forall|j: int| 0 <= j < i ==> #[trigger] gg_nybble(bytes@[j]) is Some,
            forall|j: int| 0 <= j < i ==> nybbles@[j] == gg_nybble(bytes@[j])->Some_0,
        decreases len - i,
    {
        match decode_gg_byte(bytes[i]) {
            Some(n) => nybbles.push(n),
            None => {
                proof {
                    assert(gg_nybble(bytes@[i as int]) is None);
                    assert(!gg_all_valid(bytes@));
                }
                return Err("Code contains invalid letters.".to_owned());
            }
        }
        i += 1;
    }

    proof {
        assert(nybbles@ =~= gg_nybbles(bytes@));
    }

    let address = 0x8000u16
        | (((nybbles[3] & 7) as u16) << 12u16)
        | (((nybbles[5] & 7) as u16) << 8u16) | (((nybbles[4] & 8) as u16) << 8u16)
        | (((nybbles[2] & 7) as u16) << 4u16) | (((nybbles[1] & 8) as u16) << 4u16)
        | ((nybbles[4] & 7) as u16) | ((nybbles[3] & 8) as u16);

    let new_data: u8;
    let compare_data: Option<u8>;

    if len == 8 {
        new_data = (((nybbles[1] & 7) as u8) << 4u8) | (((nybbles[0] & 8) as u8) << 4u8)
            | ((nybbles[0] & 7) as u8) | ((nybbles[7] & 8) as u8);
        compare_data = Some(
            (((nybbles[7] & 7) as u8) << 4u8) | (((nybbles[6] & 8) as u8) << 4u8)
                | ((nybbles[6] & 7) as u8) | ((nybbles[5] & 8) as u8),
        );
    } else {
        new_data = (((nybbles[1] & 7) as u8) << 4u8) | (((nybbles[0] & 8) as u8) << 4u8)
            | ((nybbles[0] & 7) as u8) | ((nybbles[5] & 8) as u8);
        compare_data = None;
    }

    Ok(GameGenieCode { address, new_data, compare_data })
}

} // verus!
