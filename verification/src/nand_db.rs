use vstd::prelude::*;
use vstd::string::StringExecFns;

use crate::text;

verus! {

// ---------------------------------------------------------------------------
// NAND flash identifier database.
//
// Pure table lookups that turn an 8-byte flash identifier into a
// human-readable manufacturer / technology / cell-type / page-size string.
// Every table is encoded as a decision chain so that the specification and
// the executable code state the same rows.
// ---------------------------------------------------------------------------

/// The manufacturer behind a JEDEC id byte.
pub open spec fn spec_manufacturer_name(id: u8) -> Seq<char> {
    if id == 0x01 {
        "Spansion"@
    } else if id == 0x04 {
        "Fujitsu"@
    } else if id == 0x07 {
        "Renesas"@
    } else if id == 0x20 {
        "STMicro"@
    } else if id == 0x2C {
        "Micron"@
    } else if id == 0x45 {
        "SanDisk"@
    } else if id == 0x4A {
        "SMIC"@
    } else if id == 0x51 {
        "Qimonda"@
    } else if id == 0x89 {
        "Intel"@
    } else if id == 0x92 {
        "ESMT(PowerChip)"@
    } else if id == 0x98 {
        "Toshiba/Kioxia"@
    } else if id == 0x9B {
        "YMTC"@
    } else if id == 0xAD {
        "SK Hynix"@
    } else if id == 0xB5 {
        "Spectek"@
    } else if id == 0xC2 {
        "Macronix"@
    } else if id == 0xC8 {
        "ESMT(MIRA-PSC)"@
    } else if id == 0xEC {
        "Samsung"@
    } else if id == 0xEF {
        "Winbond"@
    } else {
        "Unknown"@
    }
}

/// Look up the manufacturer name of a JEDEC id byte.
pub fn manufacturer_name(id: u8) -> (r: &'static str)
    ensures
        r@ == spec_manufacturer_name(id),
{
    if id == 0x01 {
        "Spansion"
    } else if id == 0x04 {
        "Fujitsu"
    } else if id == 0x07 {
        "Renesas"
    } else if id == 0x20 {
        "STMicro"
    } else if id == 0x2C {
        "Micron"
    } else if id == 0x45 {
        "SanDisk"
    } else if id == 0x4A {
        "SMIC"
    } else if id == 0x51 {
        "Qimonda"
    } else if id == 0x89 {
        "Intel"
    } else if id == 0x92 {
        "ESMT(PowerChip)"
    } else if id == 0x98 {
        "Toshiba/Kioxia"
    } else if id == 0x9B {
        "YMTC"
    } else if id == 0xAD {
        "SK Hynix"
    } else if id == 0xB5 {
        "Spectek"
    } else if id == 0xC2 {
        "Macronix"
    } else if id == 0xC8 {
        "ESMT(MIRA-PSC)"
    } else if id == 0xEC {
        "Samsung"
    } else if id == 0xEF {
        "Winbond"
    } else {
        "Unknown"
    }
}

/// Whether the 4 given bytes stand at offset `off` of `fid`.
fn pat4(fid: &[u8], off: usize, b0: u8, b1: u8, b2: u8, b3: u8) -> (r: bool)
    ensures
        r == text::spec_match_at(fid@, seq![b0, b1, b2, b3], off as int),
{
    let ghost p = seq![b0, b1, b2, b3];
    if off >= fid.len() || fid.len() - off < 4 {
        return false;
    }
    let r = fid[off] == b0 && fid[off + 1] == b1 && fid[off + 2] == b2 && fid[off + 3] == b3;
    proof {
        if r {
            assert forall|i: int| 0 <= i < p.len() implies fid@[off + i] == p[i] by {
                if i == 0 {
                } else if i == 1 {
                } else if i == 2 {
                } else {
                }
            }
        } else {
            if text::spec_match_at(fid@, p, off as int) {
                assert(fid@[off + 0] == p[0]);
                assert(fid@[off + 1] == p[1]);
                assert(fid@[off + 2] == p[2]);
                assert(fid@[off + 3] == p[3]);
                assert(false);
            }
        }
    }
    r
}

/// Whether the 5 given bytes stand at offset `off` of `fid`.
fn pat5(fid: &[u8], off: usize, b0: u8, b1: u8, b2: u8, b3: u8, b4: u8) -> (r: bool)
    ensures
        r == text::spec_match_at(fid@, seq![b0, b1, b2, b3, b4], off as int),
{
    let ghost p = seq![b0, b1, b2, b3, b4];
    if off >= fid.len() || fid.len() - off < 5 {
        return false;
    }
    let r = fid[off] == b0 && fid[off + 1] == b1 && fid[off + 2] == b2 && fid[off + 3] == b3 && fid[off + 4] == b4;
    proof {
        if r {
            assert forall|i: int| 0 <= i < p.len() implies fid@[off + i] == p[i] by {
                if i == 0 {
                } else if i == 1 {
                } else if i == 2 {
                } else if i == 3 {
                } else {
                }
            }
        } else {
            if text::spec_match_at(fid@, p, off as int) {
                assert(fid@[off + 0] == p[0]);
                assert(fid@[off + 1] == p[1]);
                assert(fid@[off + 2] == p[2]);
                assert(fid@[off + 3] == p[3]);
                assert(fid@[off + 4] == p[4]);
                assert(false);
            }
        }
    }
    r
}

/// First half of the Micron/Intel/Spectek pattern rows; first match wins.
pub open spec fn spec_micron_rows_a(fid: Seq<u8>) -> Seq<char> {
    if text::spec_match_at(fid, seq![0xC3u8, 0x08u8, 0x32u8, 0xEAu8, 0x30u8], 1) {
        "176L(B47R)"@
    } else if text::spec_match_at(fid, seq![0xD3u8, 0x89u8, 0x32u8, 0xEAu8, 0x30u8], 1) {
        "176L(B47R)"@
    } else if text::spec_match_at(fid, seq![0xE3u8, 0x8Au8, 0x32u8, 0xEAu8, 0x30u8], 1) {
        "176L(B47R)"@
    } else if text::spec_match_at(fid, seq![0xC3u8, 0x08u8, 0x32u8, 0xEAu8, 0x34u8], 1) {
        "176L(B47T)"@
    } else if text::spec_match_at(fid, seq![0xD3u8, 0x89u8, 0x32u8, 0xEAu8, 0x34u8], 1) {
        "176L(B47T)"@
    } else if text::spec_match_at(fid, seq![0xE3u8, 0x8Au8, 0x32u8, 0xEAu8, 0x34u8], 1) {
        "176L(B47T)"@
    } else if text::spec_match_at(fid, seq![0xD3u8, 0x0Cu8, 0x32u8, 0xEAu8, 0x30u8], 1) {
        "176L(N48R)"@
    } else if text::spec_match_at(fid, seq![0xE3u8, 0x8Du8, 0x32u8, 0xEAu8, 0x30u8], 1) {
        "176L(N48R)"@
    } else if text::spec_match_at(fid, seq![0xF3u8, 0x8Eu8, 0x32u8, 0xEAu8, 0x30u8], 1) {
        "176L(N48R)"@
    } else if text::spec_match_at(fid, seq![0xC3u8, 0x08u8, 0x32u8, 0xE6u8, 0x30u8], 1) {
        "232L(B57T)"@
    } else if text::spec_match_at(fid, seq![0xD3u8, 0x89u8, 0x32u8, 0xE6u8, 0x30u8], 1) {
        "232L(B57T)"@
    } else if text::spec_match_at(fid, seq![0xE3u8, 0x8Au8, 0x32u8, 0xE6u8, 0x30u8], 1) {
        "232L(B57T)"@
    } else if text::spec_match_at(fid, seq![0xD3u8, 0x08u8, 0x32u8, 0xE8u8, 0x30u8], 1) {
        "232L(B58R)"@
    } else if text::spec_match_at(fid, seq![0xE3u8, 0x89u8, 0x32u8, 0xE8u8, 0x30u8], 1) {
        "232L(B58R)"@
    } else if text::spec_match_at(fid, seq![0xF3u8, 0x8Au8, 0x32u8, 0xE8u8, 0x30u8], 1) {
        "232L(B58R)"@
    } else if text::spec_match_at(fid, seq![0xD3u8, 0x08u8, 0x32u8, 0xE8u8, 0x31u8], 1) {
        "232L(B58R)"@
    } else if text::spec_match_at(fid, seq![0xE3u8, 0x89u8, 0x32u8, 0xE8u8, 0x31u8], 1) {
        "232L(B58R)"@
    } else if text::spec_match_at(fid, seq![0xF3u8, 0x8Au8, 0x32u8, 0xE8u8, 0x31u8], 1) {
        "232L(B58R)"@
    } else if text::spec_match_at(fid, seq![0xD3u8, 0x0Cu8, 0x42u8, 0xEEu8, 0x30u8], 1) {
        "232L(N58R)"@
    } else if text::spec_match_at(fid, seq![0xE3u8, 0x8Du8, 0x42u8, 0xEEu8, 0x30u8], 1) {
        "232L(N58R)"@
    } else if text::spec_match_at(fid, seq![0xF3u8, 0x8Eu8, 0x42u8, 0xEEu8, 0x30u8], 1) {
        "232L(N58R)"@
    } else if text::spec_match_at(fid, seq![0xD3u8, 0x0Cu8, 0x42u8, 0xEEu8, 0x31u8], 1) {
        "232L(N58R)"@
    } else if text::spec_match_at(fid, seq![0xE3u8, 0x8Du8, 0x42u8, 0xEEu8, 0x31u8], 1) {
        "232L(N58R)"@
    } else if text::spec_match_at(fid, seq![0xF3u8, 0x8Eu8, 0x42u8, 0xEEu8, 0x31u8], 1) {
        "232L(N58R)"@
    } else if text::spec_match_at(fid, seq![0xD3u8, 0x08u8, 0x32u8, 0xE8u8, 0x34u8], 1) {
        "276L(B68S)"@
    } else if text::spec_match_at(fid, seq![0xE3u8, 0x89u8, 0x32u8, 0xE8u8, 0x34u8], 1) {
        "276L(B68S)"@
    } else if text::spec_match_at(fid, seq![0xF3u8, 0x8Au8, 0x32u8, 0xE8u8, 0x34u8], 1) {
        "276L(B68S)"@
    } else if text::spec_match_at(fid, seq![0xD3u8, 0x08u8, 0x32u8, 0xE8u8, 0x35u8], 1) {
        "276L(B68S)"@
    } else if text::spec_match_at(fid, seq![0xE3u8, 0x89u8, 0x32u8, 0xE8u8, 0x35u8], 1) {
        "276L(B68S)"@
    } else if text::spec_match_at(fid, seq![0xF3u8, 0x8Au8, 0x32u8, 0xE8u8, 0x35u8], 1) {
        "276L(B68S)"@
    } else if text::spec_match_at(fid, seq![0xD5u8, 0x94u8, 0x3Eu8, 0x74u8], 1) {
        "50nm(L52A)"@
    } else if text::spec_match_at(fid, seq![0xD7u8, 0xD5u8, 0x3Eu8, 0x78u8], 1) {
        "50nm(L52A)"@
    } else if text::spec_match_at(fid, seq![0x48u8, 0x00u8, 0x26u8, 0x89u8], 1) {
        "34nm(M62A)"@
    } else if text::spec_match_at(fid, seq![0x68u8, 0x01u8, 0xA6u8, 0x89u8], 1) {
        "34nm(M62A)"@
    } else if text::spec_match_at(fid, seq![0x68u8, 0x04u8, 0x46u8, 0x89u8], 1) {
        "34nm(L63B)"@
    } else if text::spec_match_at(fid, seq![0x88u8, 0x05u8, 0xC6u8, 0x89u8], 1) {
        "34nm(L63B)"@
    } else if text::spec_match_at(fid, seq![0x68u8, 0x04u8, 0x46u8, 0xA9u8], 1) {
        "34nm(L63B)"@
    } else if text::spec_match_at(fid, seq![0x68u8, 0x00u8, 0x27u8, 0xA9u8], 1) {
        "25nm(M73A)"@
    } else if text::spec_match_at(fid, seq![0x88u8, 0x01u8, 0xA7u8, 0xA9u8], 1) {
        "25nm(M73A)"@
    } else if text::spec_match_at(fid, seq![0x68u8, 0x20u8, 0x27u8, 0xA9u8], 1) {
        "25nm(M73A)"@
    } else if text::spec_match_at(fid, seq![0x68u8, 0x04u8, 0x4Au8, 0xA9u8], 1) {
        "25nm(L73A)"@
    } else if text::spec_match_at(fid, seq![0x88u8, 0x05u8, 0xCAu8, 0xA9u8], 1) {
        "25nm(L73A)"@
    } else if text::spec_match_at(fid, seq![0x88u8, 0x04u8, 0x4Bu8, 0xA9u8, 0x00u8], 1) {
        "25nm(L74A)"@
    } else if text::spec_match_at(fid, seq![0xA8u8, 0x05u8, 0xCBu8, 0xA9u8, 0x00u8], 1) {
        "25nm(L74A)"@
    } else if text::spec_match_at(fid, seq![0x88u8, 0x24u8, 0x4Bu8, 0xA9u8, 0x00u8], 1) {
        "25nm(L74A)"@
    } else if text::spec_match_at(fid, seq![0x88u8, 0x24u8, 0x4Bu8, 0xA9u8, 0x84u8], 1) {
        "20nm(L84A)"@
    } else if text::spec_match_at(fid, seq![0x64u8, 0x44u8, 0x4Bu8, 0xA9u8], 1) {
        "20nm(L84A)"@
    } else if text::spec_match_at(fid, seq![0x84u8, 0xC5u8, 0x4Bu8, 0xA9u8], 1) {
        "20nm(L84A)"@
    } else if text::spec_match_at(fid, seq![0x64u8, 0x64u8, 0x3Cu8, 0xA1u8], 1) {
        "20nm(L84C)"@
    } else if text::spec_match_at(fid, seq![0x64u8, 0x64u8, 0x3Cu8, 0xA5u8], 1) {
        "20nm(L84C)"@
    } else if text::spec_match_at(fid, seq![0x84u8, 0xE5u8, 0x3Cu8, 0xA5u8], 1) {
        "20nm(L84C)"@
    } else if text::spec_match_at(fid, seq![0x84u8, 0x64u8, 0x3Cu8, 0xA5u8], 1) {
        "20nm(L85A)"@
    } else if text::spec_match_at(fid, seq![0xA4u8, 0xE5u8, 0x3Cu8, 0xA5u8], 1) {
        "20nm(L85A)"@
    } else if text::spec_match_at(fid, seq![0x84u8, 0x64u8, 0x3Cu8, 0xA9u8], 1) {
        "20nm(L85C)"@
    } else if text::spec_match_at(fid, seq![0xA4u8, 0xE5u8, 0x3Cu8, 0xA9u8], 1) {
        "20nm(L85C)"@
    } else {
        ""@
    }
}

fn micron_rows_a(fid: &[u8]) -> (r: &'static str)
    ensures
        r@ == spec_micron_rows_a(fid@),
{
    if pat5(fid, 1, 0xC3, 0x08, 0x32, 0xEA, 0x30) {
        "176L(B47R)"
    } else if pat5(fid, 1, 0xD3, 0x89, 0x32, 0xEA, 0x30) {
        "176L(B47R)"
    } else if pat5(fid, 1, 0xE3, 0x8A, 0x32, 0xEA, 0x30) {
        "176L(B47R)"
    } else if pat5(fid, 1, 0xC3, 0x08, 0x32, 0xEA, 0x34) {
        "176L(B47T)"
    } else if pat5(fid, 1, 0xD3, 0x89, 0x32, 0xEA, 0x34) {
        "176L(B47T)"
    } else if pat5(fid, 1, 0xE3, 0x8A, 0x32, 0xEA, 0x34) {
        "176L(B47T)"
    } else if pat5(fid, 1, 0xD3, 0x0C, 0x32, 0xEA, 0x30) {
        "176L(N48R)"
    } else if pat5(fid, 1, 0xE3, 0x8D, 0x32, 0xEA, 0x30) {
        "176L(N48R)"
    } else if pat5(fid, 1, 0xF3, 0x8E, 0x32, 0xEA, 0x30) {
        "176L(N48R)"
    } else if pat5(fid, 1, 0xC3, 0x08, 0x32, 0xE6, 0x30) {
        "232L(B57T)"
    } else if pat5(fid, 1, 0xD3, 0x89, 0x32, 0xE6, 0x30) {
        "232L(B57T)"
    } else if pat5(fid, 1, 0xE3, 0x8A, 0x32, 0xE6, 0x30) {
        "232L(B57T)"
    } else if pat5(fid, 1, 0xD3, 0x08, 0x32, 0xE8, 0x30) {
        "232L(B58R)"
    } else if pat5(fid, 1, 0xE3, 0x89, 0x32, 0xE8, 0x30) {
        "232L(B58R)"
    } else if pat5(fid, 1, 0xF3, 0x8A, 0x32, 0xE8, 0x30) {
        "232L(B58R)"
    } else if pat5(fid, 1, 0xD3, 0x08, 0x32, 0xE8, 0x31) {
        "232L(B58R)"
    } else if pat5(fid, 1, 0xE3, 0x89, 0x32, 0xE8, 0x31) {
        "232L(B58R)"
    } else if pat5(fid, 1, 0xF3, 0x8A, 0x32, 0xE8, 0x31) {
        "232L(B58R)"
    } else if pat5(fid, 1, 0xD3, 0x0C, 0x42, 0xEE, 0x30) {
        "232L(N58R)"
    } else if pat5(fid, 1, 0xE3, 0x8D, 0x42, 0xEE, 0x30) {
        "232L(N58R)"
    } else if pat5(fid, 1, 0xF3, 0x8E, 0x42, 0xEE, 0x30) {
        "232L(N58R)"
    } else if pat5(fid, 1, 0xD3, 0x0C, 0x42, 0xEE, 0x31) {
        "232L(N58R)"
    } else if pat5(fid, 1, 0xE3, 0x8D, 0x42, 0xEE, 0x31) {
        "232L(N58R)"
    } else if pat5(fid, 1, 0xF3, 0x8E, 0x42, 0xEE, 0x31) {
        "232L(N58R)"
    } else if pat5(fid, 1, 0xD3, 0x08, 0x32, 0xE8, 0x34) {
        "276L(B68S)"
    } else if pat5(fid, 1, 0xE3, 0x89, 0x32, 0xE8, 0x34) {
        "276L(B68S)"
    } else if pat5(fid, 1, 0xF3, 0x8A, 0x32, 0xE8, 0x34) {
        "276L(B68S)"
    } else if pat5(fid, 1, 0xD3, 0x08, 0x32, 0xE8, 0x35) {
        "276L(B68S)"
    } else if pat5(fid, 1, 0xE3, 0x89, 0x32, 0xE8, 0x35) {
        "276L(B68S)"
    } else if pat5(fid, 1, 0xF3, 0x8A, 0x32, 0xE8, 0x35) {
        "276L(B68S)"
    } else if pat4(fid, 1, 0xD5, 0x94, 0x3E, 0x74) {
        "50nm(L52A)"
    } else if pat4(fid, 1, 0xD7, 0xD5, 0x3E, 0x78) {
        "50nm(L52A)"
    } else if pat4(fid, 1, 0x48, 0x00, 0x26, 0x89) {
        "34nm(M62A)"
    } else if pat4(fid, 1, 0x68, 0x01, 0xA6, 0x89) {
        "34nm(M62A)"
    } else if pat4(fid, 1, 0x68, 0x04, 0x46, 0x89) {
        "34nm(L63B)"
    } else if pat4(fid, 1, 0x88, 0x05, 0xC6, 0x89) {
        "34nm(L63B)"
    } else if pat4(fid, 1, 0x68, 0x04, 0x46, 0xA9) {
        "34nm(L63B)"
    } else if pat4(fid, 1, 0x68, 0x00, 0x27, 0xA9) {
        "25nm(M73A)"
    } else if pat4(fid, 1, 0x88, 0x01, 0xA7, 0xA9) {
        "25nm(M73A)"
    } else if pat4(fid, 1, 0x68, 0x20, 0x27, 0xA9) {
        "25nm(M73A)"
    } else if pat4(fid, 1, 0x68, 0x04, 0x4A, 0xA9) {
        "25nm(L73A)"
    } else if pat4(fid, 1, 0x88, 0x05, 0xCA, 0xA9) {
        "25nm(L73A)"
    } else if pat5(fid, 1, 0x88, 0x04, 0x4B, 0xA9, 0x00) {
        "25nm(L74A)"
    } else if pat5(fid, 1, 0xA8, 0x05, 0xCB, 0xA9, 0x00) {
        "25nm(L74A)"
    } else if pat5(fid, 1, 0x88, 0x24, 0x4B, 0xA9, 0x00) {
        "25nm(L74A)"
    } else if pat5(fid, 1, 0x88, 0x24, 0x4B, 0xA9, 0x84) {
        "20nm(L84A)"
    } else if pat4(fid, 1, 0x64, 0x44, 0x4B, 0xA9) {
        "20nm(L84A)"
    } else if pat4(fid, 1, 0x84, 0xC5, 0x4B, 0xA9) {
        "20nm(L84A)"
    } else if pat4(fid, 1, 0x64, 0x64, 0x3C, 0xA1) {
        "20nm(L84C)"
    } else if pat4(fid, 1, 0x64, 0x64, 0x3C, 0xA5) {
        "20nm(L84C)"
    } else if pat4(fid, 1, 0x84, 0xE5, 0x3C, 0xA5) {
        "20nm(L84C)"
    } else if pat4(fid, 1, 0x84, 0x64, 0x3C, 0xA5) {
        "20nm(L85A)"
    } else if pat4(fid, 1, 0xA4, 0xE5, 0x3C, 0xA5) {
        "20nm(L85A)"
    } else if pat4(fid, 1, 0x84, 0x64, 0x3C, 0xA9) {
        "20nm(L85C)"
    } else if pat4(fid, 1, 0xA4, 0xE5, 0x3C, 0xA9) {
        "20nm(L85C)"
    } else {
        ""
    }
}

/// Second half of the Micron/Intel/Spectek pattern rows.
pub open spec fn spec_micron_rows_b(fid: Seq<u8>) -> Seq<char> {
    if text::spec_match_at(fid, seq![0x84u8, 0x64u8, 0x54u8, 0xA9u8], 1) {
        "16nm(L95B)"@
    } else if text::spec_match_at(fid, seq![0xA4u8, 0xE5u8, 0x54u8, 0xA9u8], 1) {
        "16nm(L95B)"@
    } else if text::spec_match_at(fid, seq![0x68u8, 0x08u8, 0x56u8, 0x8Au8], 1) {
        "34nm(B63A)"@
    } else if text::spec_match_at(fid, seq![0x88u8, 0x08u8, 0x5Fu8, 0xA9u8], 1) {
        "25nm(B74A)"@
    } else if text::spec_match_at(fid, seq![0x88u8, 0x08u8, 0x5Fu8, 0x89u8], 1) {
        "25nm(B74A)"@
    } else if text::spec_match_at(fid, seq![0x88u8, 0x28u8, 0x5Fu8, 0xA9u8], 1) {
        "25nm(B74A)"@
    } else if text::spec_match_at(fid, seq![0xA8u8, 0x09u8, 0xDFu8, 0x89u8], 1) {
        "25nm(B74A)"@
    } else if text::spec_match_at(fid, seq![0xA8u8, 0x09u8, 0xDFu8, 0xA9u8], 1) {
        "25nm(B74A)"@
    } else if text::spec_match_at(fid, seq![0x84u8, 0x78u8, 0x63u8, 0xA9u8], 1) {
        "20nm(B85T)"@
    } else if text::spec_match_at(fid, seq![0x84u8, 0x78u8, 0x7Bu8, 0xA9u8], 1) {
        "20nm(B85T)"@
    } else if text::spec_match_at(fid, seq![0xA4u8, 0xF9u8, 0x63u8, 0xA9u8], 1) {
        "20nm(B85T)"@
    } else if text::spec_match_at(fid, seq![0xA4u8, 0xF9u8, 0x7Bu8, 0xA9u8], 1) {
        "20nm(B85T)"@
    } else if text::spec_match_at(fid, seq![0x84u8, 0x48u8, 0x63u8, 0xA9u8], 1) {
        "16nm(B95A)"@
    } else if text::spec_match_at(fid, seq![0x64u8, 0x44u8, 0x32u8, 0xA5u8], 1) {
        "32L(L04A)"@
    } else if text::spec_match_at(fid, seq![0x84u8, 0x44u8, 0x34u8, 0xAAu8], 1) {
        "32L(L05B)"@
    } else if text::spec_match_at(fid, seq![0x84u8, 0x58u8, 0x32u8, 0xA1u8], 1) {
        "32L(B05A)"@
    } else if text::spec_match_at(fid, seq![0xA4u8, 0x64u8, 0x34u8, 0xAAu8], 1) {
        "32L(L05A)"@
    } else if text::spec_match_at(fid, seq![0xA4u8, 0xE4u8, 0x34u8, 0x8Au8], 1) {
        "32L(L06A)"@
    } else if text::spec_match_at(fid, seq![0xA4u8, 0x64u8, 0x32u8, 0xAAu8], 1) {
        "32L(L06B)"@
    } else if text::spec_match_at(fid, seq![0xC4u8, 0xE5u8, 0x32u8, 0xAAu8], 1) {
        "32L(L06B)"@
    } else if text::spec_match_at(fid, seq![0xB4u8, 0x78u8, 0x32u8, 0xAAu8], 1) {
        "32L(B0KB)"@
    } else if text::spec_match_at(fid, seq![0xCCu8, 0xF9u8, 0x32u8, 0xAAu8], 1) {
        "32L(B0KB)"@
    } else if text::spec_match_at(fid, seq![0xA4u8, 0x08u8, 0x32u8, 0xA1u8], 1) {
        "64L(B16A)"@
    } else if text::spec_match_at(fid, seq![0xA4u8, 0x88u8, 0x32u8, 0xA1u8], 1) {
        "64L(B16A)"@
    } else if text::spec_match_at(fid, seq![0xC4u8, 0x89u8, 0x32u8, 0xA1u8], 1) {
        "64L(B16A)"@
    } else if text::spec_match_at(fid, seq![0xC4u8, 0x08u8, 0x32u8, 0xA6u8], 1) {
        "64L(B17A)"@
    } else if text::spec_match_at(fid, seq![0xD4u8, 0x89u8, 0x32u8, 0xA6u8], 1) {
        "64L(B17A)"@
    } else if text::spec_match_at(fid, seq![0xE4u8, 0x8Au8, 0x32u8, 0xA6u8], 1) {
        "64L(B17A)"@
    } else if text::spec_match_at(fid, seq![0xD4u8, 0x0Cu8, 0x32u8, 0xAAu8], 1) {
        "64L(N18A)"@
    } else if text::spec_match_at(fid, seq![0xC4u8, 0x18u8, 0x32u8, 0xA2u8], 1) {
        "96L(B27A)"@
    } else if text::spec_match_at(fid, seq![0xD4u8, 0x99u8, 0x32u8, 0xA2u8], 1) {
        "96L(B27A)"@
    } else if text::spec_match_at(fid, seq![0xE4u8, 0x9Au8, 0x32u8, 0xA2u8], 1) {
        "96L(B27A)"@
    } else if text::spec_match_at(fid, seq![0xC3u8, 0x08u8, 0x32u8, 0xE6u8, 0x00u8], 1) {
        "96L(B27B)"@
    } else if text::spec_match_at(fid, seq![0xD3u8, 0x89u8, 0x32u8, 0xE6u8], 1) {
        "96L(B27B)"@
    } else if text::spec_match_at(fid, seq![0xE3u8, 0x8Au8, 0x32u8, 0xE6u8], 1) {
        "96L(B27B)"@
    } else if text::spec_match_at(fid, seq![0xD3u8, 0x1Cu8, 0x32u8, 0xC6u8], 1) {
        "96L(N28A)"@
    } else if text::spec_match_at(fid, seq![0xD3u8, 0x9Cu8, 0x32u8, 0xC6u8], 1) {
        "96L(N28A)"@
    } else if text::spec_match_at(fid, seq![0xE3u8, 0x9Du8, 0x32u8, 0xC6u8], 1) {
        "96L(N28A)"@
    } else if text::spec_match_at(fid, seq![0xF3u8, 0x9Eu8, 0x32u8, 0xC6u8], 1) {
        "96L(N28A)"@
    } else if text::spec_match_at(fid, seq![0xA3u8, 0x60u8, 0x32u8, 0xC6u8], 1) {
        "96L(M26A)"@
    } else if text::spec_match_at(fid, seq![0xA3u8, 0x78u8, 0x32u8, 0xE5u8], 1) {
        "128L(B36R)"@
    } else if text::spec_match_at(fid, seq![0xC3u8, 0x78u8, 0x32u8, 0xEAu8], 1) {
        "128L(B37R)"@
    } else if text::spec_match_at(fid, seq![0x89u8, 0xD3u8, 0xACu8, 0x32u8, 0xC6u8], 0) {
        "144L(N38A)"@
    } else if text::spec_match_at(fid, seq![0x89u8, 0xE3u8, 0xADu8, 0x32u8, 0xC6u8], 0) {
        "144L(N38A)"@
    } else if text::spec_match_at(fid, seq![0x89u8, 0xD3u8, 0xACu8, 0x32u8, 0xC2u8], 0) {
        "144L(N38B)"@
    } else if text::spec_match_at(fid, seq![0x89u8, 0xE3u8, 0xADu8, 0x32u8, 0xC2u8], 0) {
        "144L(N38B)"@
    } else if text::spec_match_at(fid, seq![0x89u8, 0x09u8, 0x28u8, 0x32u8, 0xC2u8], 0) {
        "192L(Q5171A)"@
    } else if text::spec_match_at(fid, seq![0x89u8, 0x09u8, 0x29u8, 0x32u8, 0xC2u8], 0) {
        "192L(Q5171A)"@
    } else if text::spec_match_at(fid, seq![0x89u8, 0x09u8, 0x2Au8, 0x32u8, 0xC2u8], 0) {
        "192L(Q5171A)"@
    } else if text::spec_match_at(fid, seq![0x89u8, 0x09u8, 0x2Bu8, 0x32u8, 0xC2u8], 0) {
        "192L(Q5171A)"@
    } else if text::spec_match_at(fid, seq![0x89u8, 0x05u8, 0x04u8, 0x32u8, 0xC2u8], 0) {
        "192L(N4PA)"@
    } else if text::spec_match_at(fid, seq![0x89u8, 0x05u8, 0x05u8, 0x32u8, 0xC2u8], 0) {
        "192L(N4PA)"@
    } else if text::spec_match_at(fid, seq![0x89u8, 0x05u8, 0x06u8, 0x32u8, 0xC2u8], 0) {
        "192L(N4PA)"@
    } else if text::spec_match_at(fid, seq![0x89u8, 0x05u8, 0x07u8, 0x32u8, 0xC2u8], 0) {
        "192L(N4PA)"@
    } else {
        ""@
    }
}

fn micron_rows_b(fid: &[u8]) -> (r: &'static str)
    ensures
        r@ == spec_micron_rows_b(fid@),
{
    if pat4(fid, 1, 0x84, 0x64, 0x54, 0xA9) {
        "16nm(L95B)"
    } else if pat4(fid, 1, 0xA4, 0xE5, 0x54, 0xA9) {
        "16nm(L95B)"
    } else if pat4(fid, 1, 0x68, 0x08, 0x56, 0x8A) {
        "34nm(B63A)"
    } else if pat4(fid, 1, 0x88, 0x08, 0x5F, 0xA9) {
        "25nm(B74A)"
    } else if pat4(fid, 1, 0x88, 0x08, 0x5F, 0x89) {
        "25nm(B74A)"
    } else if pat4(fid, 1, 0x88, 0x28, 0x5F, 0xA9) {
        "25nm(B74A)"
    } else if pat4(fid, 1, 0xA8, 0x09, 0xDF, 0x89) {
        "25nm(B74A)"
    } else if pat4(fid, 1, 0xA8, 0x09, 0xDF, 0xA9) {
        "25nm(B74A)"
    } else if pat4(fid, 1, 0x84, 0x78, 0x63, 0xA9) {
        "20nm(B85T)"
    } else if pat4(fid, 1, 0x84, 0x78, 0x7B, 0xA9) {
        "20nm(B85T)"
    } else if pat4(fid, 1, 0xA4, 0xF9, 0x63, 0xA9) {
        "20nm(B85T)"
    } else if pat4(fid, 1, 0xA4, 0xF9, 0x7B, 0xA9) {
        "20nm(B85T)"
    } else if pat4(fid, 1, 0x84, 0x48, 0x63, 0xA9) {
        "16nm(B95A)"
    } else if pat4(fid, 1, 0x64, 0x44, 0x32, 0xA5) {
        "32L(L04A)"
    } else if pat4(fid, 1, 0x84, 0x44, 0x34, 0xAA) {
        "32L(L05B)"
    } else if pat4(fid, 1, 0x84, 0x58, 0x32, 0xA1) {
        "32L(B05A)"
    } else if pat4(fid, 1, 0xA4, 0x64, 0x34, 0xAA) {
        "32L(L05A)"
    } else if pat4(fid, 1, 0xA4, 0xE4, 0x34, 0x8A) {
        "32L(L06A)"
    } else if pat4(fid, 1, 0xA4, 0x64, 0x32, 0xAA) {
        "32L(L06B)"
    } else if pat4(fid, 1, 0xC4, 0xE5, 0x32, 0xAA) {
        "32L(L06B)"
    } else if pat4(fid, 1, 0xB4, 0x78, 0x32, 0xAA) {
        "32L(B0KB)"
    } else if pat4(fid, 1, 0xCC, 0xF9, 0x32, 0xAA) {
        "32L(B0KB)"
    } else if pat4(fid, 1, 0xA4, 0x08, 0x32, 0xA1) {
        "64L(B16A)"
    } else if pat4(fid, 1, 0xA4, 0x88, 0x32, 0xA1) {
        "64L(B16A)"
    } else if pat4(fid, 1, 0xC4, 0x89, 0x32, 0xA1) {
        "64L(B16A)"
    } else if pat4(fid, 1, 0xC4, 0x08, 0x32, 0xA6) {
        "64L(B17A)"
    } else if pat4(fid, 1, 0xD4, 0x89, 0x32, 0xA6) {
        "64L(B17A)"
    } else if pat4(fid, 1, 0xE4, 0x8A, 0x32, 0xA6) {
        "64L(B17A)"
    } else if pat4(fid, 1, 0xD4, 0x0C, 0x32, 0xAA) {
        "64L(N18A)"
    } else if pat4(fid, 1, 0xC4, 0x18, 0x32, 0xA2) {
        "96L(B27A)"
    } else if pat4(fid, 1, 0xD4, 0x99, 0x32, 0xA2) {
        "96L(B27A)"
    } else if pat4(fid, 1, 0xE4, 0x9A, 0x32, 0xA2) {
        "96L(B27A)"
    } else if pat5(fid, 1, 0xC3, 0x08, 0x32, 0xE6, 0x00) {
        "96L(B27B)"
    } else if pat4(fid, 1, 0xD3, 0x89, 0x32, 0xE6) {
        "96L(B27B)"
    } else if pat4(fid, 1, 0xE3, 0x8A, 0x32, 0xE6) {
        "96L(B27B)"
    } else if pat4(fid, 1, 0xD3, 0x1C, 0x32, 0xC6) {
        "96L(N28A)"
    } else if pat4(fid, 1, 0xD3, 0x9C, 0x32, 0xC6) {
        "96L(N28A)"
    } else if pat4(fid, 1, 0xE3, 0x9D, 0x32, 0xC6) {
        "96L(N28A)"
    } else if pat4(fid, 1, 0xF3, 0x9E, 0x32, 0xC6) {
        "96L(N28A)"
    } else if pat4(fid, 1, 0xA3, 0x60, 0x32, 0xC6) {
        "96L(M26A)"
    } else if pat4(fid, 1, 0xA3, 0x78, 0x32, 0xE5) {
        "128L(B36R)"
    } else if pat4(fid, 1, 0xC3, 0x78, 0x32, 0xEA) {
        "128L(B37R)"
    } else if pat5(fid, 0, 0x89, 0xD3, 0xAC, 0x32, 0xC6) {
        "144L(N38A)"
    } else if pat5(fid, 0, 0x89, 0xE3, 0xAD, 0x32, 0xC6) {
        "144L(N38A)"
    } else if pat5(fid, 0, 0x89, 0xD3, 0xAC, 0x32, 0xC2) {
        "144L(N38B)"
    } else if pat5(fid, 0, 0x89, 0xE3, 0xAD, 0x32, 0xC2) {
        "144L(N38B)"
    } else if pat5(fid, 0, 0x89, 0x09, 0x28, 0x32, 0xC2) {
        "192L(Q5171A)"
    } else if pat5(fid, 0, 0x89, 0x09, 0x29, 0x32, 0xC2) {
        "192L(Q5171A)"
    } else if pat5(fid, 0, 0x89, 0x09, 0x2A, 0x32, 0xC2) {
        "192L(Q5171A)"
    } else if pat5(fid, 0, 0x89, 0x09, 0x2B, 0x32, 0xC2) {
        "192L(Q5171A)"
    } else if pat5(fid, 0, 0x89, 0x05, 0x04, 0x32, 0xC2) {
        "192L(N4PA)"
    } else if pat5(fid, 0, 0x89, 0x05, 0x05, 0x32, 0xC2) {
        "192L(N4PA)"
    } else if pat5(fid, 0, 0x89, 0x05, 0x06, 0x32, 0xC2) {
        "192L(N4PA)"
    } else if pat5(fid, 0, 0x89, 0x05, 0x07, 0x32, 0xC2) {
        "192L(N4PA)"
    } else {
        ""
    }
}

/// The Micron/Intel/Spectek technology of an identifier, "" when no row
/// matches; rows are tried in order and the first match wins.
pub open spec fn spec_identify_micron_intel_spectek(fid: Seq<u8>) -> Seq<char> {
    if spec_micron_rows_a(fid).len() > 0 {
        spec_micron_rows_a(fid)
    } else {
        spec_micron_rows_b(fid)
    }
}

fn identify_micron_intel_spectek(fid: &[u8]) -> (r: &'static str)
    ensures
        r@ == spec_identify_micron_intel_spectek(fid@),
{
    let a = micron_rows_a(fid);
    if !a.is_empty() {
        a
    } else {
        micron_rows_b(fid)
    }
}

/// The YMTC pattern rows; first match wins.
pub open spec fn spec_ymtc_rows(fid: Seq<u8>) -> Seq<char> {
    if text::spec_match_at(fid, seq![0xC3u8, 0x48u8, 0x25u8, 0x10u8], 1) {
        "(x1-9050)"@
    } else if text::spec_match_at(fid, seq![0xD5u8, 0x58u8, 0x8Du8, 0x20u8], 1) {
        "(x2-6070)"@
    } else if text::spec_match_at(fid, seq![0xC4u8, 0x28u8, 0x49u8, 0x20u8], 1) {
        "(x2-9060)"@
    } else if text::spec_match_at(fid, seq![0xC5u8, 0x29u8, 0x49u8, 0x20u8], 1) {
        "(x2-9060)"@
    } else if text::spec_match_at(fid, seq![0xC4u8, 0x28u8, 0x49u8, 0x30u8], 1) {
        "-128L(x3-9060)"@
    } else if text::spec_match_at(fid, seq![0xC5u8, 0x29u8, 0x49u8, 0x30u8], 1) {
        "-128L(x3-9060)"@
    } else if text::spec_match_at(fid, seq![0xC5u8, 0x58u8, 0x71u8, 0x30u8], 1) {
        "-232L(x3-9070)"@
    } else if text::spec_match_at(fid, seq![0xC6u8, 0x59u8, 0x71u8, 0x30u8], 1) {
        "-232L(x3-9070)"@
    } else if text::spec_match_at(fid, seq![0xC5u8, 0x5Cu8, 0x55u8, 0x30u8], 1) {
        "-232L(x3-6070)"@
    } else {
        ""@
    }
}

fn ymtc_rows(fid: &[u8]) -> (r: &'static str)
    ensures
        r@ == spec_ymtc_rows(fid@),
{
    if pat4(fid, 1, 0xC3, 0x48, 0x25, 0x10) {
        "(x1-9050)"
    } else if pat4(fid, 1, 0xD5, 0x58, 0x8D, 0x20) {
        "(x2-6070)"
    } else if pat4(fid, 1, 0xC4, 0x28, 0x49, 0x20) {
        "(x2-9060)"
    } else if pat4(fid, 1, 0xC5, 0x29, 0x49, 0x20) {
        "(x2-9060)"
    } else if pat4(fid, 1, 0xC4, 0x28, 0x49, 0x30) {
        "-128L(x3-9060)"
    } else if pat4(fid, 1, 0xC5, 0x29, 0x49, 0x30) {
        "-128L(x3-9060)"
    } else if pat4(fid, 1, 0xC5, 0x58, 0x71, 0x30) {
        "-232L(x3-9070)"
    } else if pat4(fid, 1, 0xC6, 0x59, 0x71, 0x30) {
        "-232L(x3-9070)"
    } else if pat4(fid, 1, 0xC5, 0x5C, 0x55, 0x30) {
        "-232L(x3-6070)"
    } else {
        ""
    }
}

/// Toshiba/SanDisk technology, keyed by byte 5 masked with 0x27.
pub open spec fn spec_toshiba_tech(key: u8) -> Seq<char> {
    if key == 0x00 {
        "A19nm"@
    } else if key == 0x01 {
        "15nm"@
    } else if key == 0x02 {
        "70nm"@
    } else if key == 0x03 {
        "56nm"@
    } else if key == 0x04 {
        "43nm"@
    } else if key == 0x05 {
        "32nm"@
    } else if key == 0x06 {
        "24nm"@
    } else if key == 0x07 {
        "19nm"@
    } else if key == 0x20 {
        "48L BiCS2"@
    } else if key == 0x21 {
        "64L BiCS3"@
    } else if key == 0x22 {
        "96L BiCS4"@
    } else if key == 0x23 {
        "112L BiCS5"@
    } else if key == 0x24 {
        "162L BiCS6"@
    } else if key == 0x25 {
        "218L BiCS8"@
    } else {
        ""@
    }
}

fn toshiba_tech(key: u8) -> (r: &'static str)
    ensures
        r@ == spec_toshiba_tech(key),
{
    if key == 0x00 {
        "A19nm"
    } else if key == 0x01 {
        "15nm"
    } else if key == 0x02 {
        "70nm"
    } else if key == 0x03 {
        "56nm"
    } else if key == 0x04 {
        "43nm"
    } else if key == 0x05 {
        "32nm"
    } else if key == 0x06 {
        "24nm"
    } else if key == 0x07 {
        "19nm"
    } else if key == 0x20 {
        "48L BiCS2"
    } else if key == 0x21 {
        "64L BiCS3"
    } else if key == 0x22 {
        "96L BiCS4"
    } else if key == 0x23 {
        "112L BiCS5"
    } else if key == 0x24 {
        "162L BiCS6"
    } else if key == 0x25 {
        "218L BiCS8"
    } else {
        ""
    }
}

/// SK Hynix technology, keyed by raw byte 5.
pub open spec fn spec_hynix_tech(key: u8) -> Seq<char> {
    if key == 0x25 {
        "41nm"@
    } else if key == 0x26 {
        "32nm"@
    } else if key == 0x27 {
        "26nm"@
    } else if key == 0x28 {
        "26nm"@
    } else if key == 0x29 {
        "20nm"@
    } else if key == 0x2A {
        "20nm"@
    } else if key == 0x36 {
        "16nm"@
    } else if key == 0x37 {
        "16nm"@
    } else if key == 0x3A {
        "16nm"@
    } else if key == 0x3B {
        "16nm"@
    } else if key == 0x3C {
        "16nm"@
    } else if key == 0x3D {
        "16nm"@
    } else if key == 0x40 {
        "16nm"@
    } else if key == 0x44 {
        "16nm"@
    } else if key == 0x48 {
        "14nm"@
    } else if key == 0x49 {
        "3dv1"@
    } else if key == 0x4A {
        "14nm"@
    } else if key == 0x4B {
        "3dv2-36L"@
    } else if key == 0x50 {
        "3dv3-48L"@
    } else if key == 0x55 {
        "3dv4-72L"@
    } else if key == 0x5A {
        "3dv5-96L"@
    } else if key == 0x5B {
        "3dv5-96L"@
    } else if key == 0x60 {
        "3dv6-128L"@
    } else if key == 0x61 {
        "3dv6-128L"@
    } else if key == 0x65 {
        "3dv7-176L"@
    } else if key == 0x66 {
        "3dv7-176L"@
    } else if key == 0x76 {
        "3dv8-238L"@
    } else if key == 0x56 {
        "16nm"@
    } else if key == 0x57 {
        "16nm"@
    } else if key == 0x58 {
        "14nm"@
    } else if key == 0x64 {
        "16nm"@
    } else if key == 0x67 {
        "16nm"@
    } else if key == 0x68 {
        "16nm"@
    } else if key == 0x69 {
        "3dv1"@
    } else if key == 0x6A {
        "16nm"@
    } else if key == 0x6B {
        "3dv2-36L"@
    } else if key == 0x6C {
        "3dv3-48L"@
    } else if key == 0x6D {
        "3dv4-72L"@
    } else if key == 0x6E {
        "3dv5-96L"@
    } else if key == 0x6F {
        "3dv5-96L"@
    } else if key == 0x70 {
        "3dv6-128L"@
    } else if key == 0x71 {
        "3dv6-128L"@
    } else if key == 0x72 {
        "3dv7-176L"@
    } else if key == 0x73 {
        "3dv7-176L"@
    } else if key == 0x7A {
        "3dv8-238L"@
    } else if key == 0x7B {
        "14nm"@
    } else if key == 0x7C {
        "26nm"@
    } else if key == 0x7D {
        "20nm"@
    } else {
        ""@
    }
}

fn hynix_tech(key: u8) -> (r: &'static str)
    ensures
        r@ == spec_hynix_tech(key),
{
    if key == 0x25 {
        "41nm"
    } else if key == 0x26 {
        "32nm"
    } else if key == 0x27 {
        "26nm"
    } else if key == 0x28 {
        "26nm"
    } else if key == 0x29 {
        "20nm"
    } else if key == 0x2A {
        "20nm"
    } else if key == 0x36 {
        "16nm"
    } else if key == 0x37 {
        "16nm"
    } else if key == 0x3A {
        "16nm"
    } else if key == 0x3B {
        "16nm"
    } else if key == 0x3C {
        "16nm"
    } else if key == 0x3D {
        "16nm"
    } else if key == 0x40 {
        "16nm"
    } else if key == 0x44 {
        "16nm"
    } else if key == 0x48 {
        "14nm"
    } else if key == 0x49 {
        "3dv1"
    } else if key == 0x4A {
        "14nm"
    } else if key == 0x4B {
        "3dv2-36L"
    } else if key == 0x50 {
        "3dv3-48L"
    } else if key == 0x55 {
        "3dv4-72L"
    } else if key == 0x5A {
        "3dv5-96L"
    } else if key == 0x5B {
        "3dv5-96L"
    } else if key == 0x60 {
        "3dv6-128L"
    } else if key == 0x61 {
        "3dv6-128L"
    } else if key == 0x65 {
        "3dv7-176L"
    } else if key == 0x66 {
        "3dv7-176L"
    } else if key == 0x76 {
        "3dv8-238L"
    } else if key == 0x56 {
        "16nm"
    } else if key == 0x57 {
        "16nm"
    } else if key == 0x58 {
        "14nm"
    } else if key == 0x64 {
        "16nm"
    } else if key == 0x67 {
        "16nm"
    } else if key == 0x68 {
        "16nm"
    } else if key == 0x69 {
        "3dv1"
    } else if key == 0x6A {
        "16nm"
    } else if key == 0x6B {
        "3dv2-36L"
    } else if key == 0x6C {
        "3dv3-48L"
    } else if key == 0x6D {
        "3dv4-72L"
    } else if key == 0x6E {
        "3dv5-96L"
    } else if key == 0x6F {
        "3dv5-96L"
    } else if key == 0x70 {
        "3dv6-128L"
    } else if key == 0x71 {
        "3dv6-128L"
    } else if key == 0x72 {
        "3dv7-176L"
    } else if key == 0x73 {
        "3dv7-176L"
    } else if key == 0x7A {
        "3dv8-238L"
    } else if key == 0x7B {
        "14nm"
    } else if key == 0x7C {
        "26nm"
    } else if key == 0x7D {
        "20nm"
    } else {
        ""
    }
}

/// Samsung technology, keyed by byte 5 masked with 0x7F.
pub open spec fn spec_samsung_tech_rtl(key: u8) -> Seq<char> {
    if key == 0x40 {
        "51nm"@
    } else if key == 0x41 {
        "42nm"@
    } else if key == 0x42 {
        "32nm"@
    } else if key == 0x43 {
        "27nm"@
    } else if key == 0x44 {
        "21nm"@
    } else if key == 0x45 {
        "19nm"@
    } else if key == 0x46 {
        "16nm"@
    } else if key == 0x47 {
        "3dv1-24L"@
    } else if key == 0x48 {
        "3dv2-32L"@
    } else if key == 0x49 {
        "3dv3-48L"@
    } else if key == 0x4A {
        "14nm"@
    } else if key == 0x4B {
        "3dv4-64L"@
    } else if key == 0x4C {
        "3dv5-92L"@
    } else if key == 0x4D {
        "3dv6-136L"@
    } else if key == 0x4E {
        "3dv7-176L"@
    } else if key == 0x4F {
        "3dv8-236L"@
    } else {
        ""@
    }
}

fn samsung_tech_rtl(key: u8) -> (r: &'static str)
    ensures
        r@ == spec_samsung_tech_rtl(key),
{
    if key == 0x40 {
        "51nm"
    } else if key == 0x41 {
        "42nm"
    } else if key == 0x42 {
        "32nm"
    } else if key == 0x43 {
        "27nm"
    } else if key == 0x44 {
        "21nm"
    } else if key == 0x45 {
        "19nm"
    } else if key == 0x46 {
        "16nm"
    } else if key == 0x47 {
        "3dv1-24L"
    } else if key == 0x48 {
        "3dv2-32L"
    } else if key == 0x49 {
        "3dv3-48L"
    } else if key == 0x4A {
        "14nm"
    } else if key == 0x4B {
        "3dv4-64L"
    } else if key == 0x4C {
        "3dv5-92L"
    } else if key == 0x4D {
        "3dv6-136L"
    } else if key == 0x4E {
        "3dv7-176L"
    } else if key == 0x4F {
        "3dv8-236L"
    } else {
        ""
    }
}

/// Samsung technology rows keyed by raw byte 5.
pub open spec fn spec_samsung_tech_smi_extra(key: u8) -> Seq<char> {
    if key == 0x86 {
        "3dv6e-136L"@
    } else if key == 0x87 {
        "3dv7-176L"@
    } else {
        ""@
    }
}

fn samsung_tech_smi_extra(key: u8) -> (r: &'static str)
    ensures
        r@ == spec_samsung_tech_smi_extra(key),
{
    if key == 0x86 {
        "3dv6e-136L"
    } else if key == 0x87 {
        "3dv7-176L"
    } else {
        ""
    }
}

// ---------------------------------------------------------------------------
// Derived attributes.
// ---------------------------------------------------------------------------

/// The cell type of an identifier: two bits of byte 2, with special rules
/// for Micron/Intel/Spectek parts and one YMTC QLC part.
pub open spec fn spec_cell_type(fid: Seq<u8>) -> Seq<char> {
    let cell_bits = (fid[2] >> 2) & 3;
    if (fid[0] == 0x2Cu8 || fid[0] == 0x89u8 || fid[0] == 0xB5u8) && (fid[1] == 0x05u8
        || fid[1] == 0x09u8) {
        if cell_bits == 1 {
            "TLC"@
        } else if cell_bits == 2 {
            "QLC"@
        } else if cell_bits == 3 {
            "PLC"@
        } else {
            ""@
        }
    } else if fid[0] == 0x9Bu8 && fid.len() >= 5 && fid[1] == 0xD5u8 && fid[2] == 0x58u8
        && fid[3] == 0x8Du8 && fid[4] == 0x20u8 {
        "QLC"@
    } else {
        if cell_bits == 0 {
            "SLC"@
        } else if cell_bits == 1 {
            "MLC"@
        } else if cell_bits == 2 {
            "TLC"@
        } else {
            "QLC"@
        }
    }
}

/// The cell type of an identifier.
pub fn cell_type(fid: &[u8]) -> (r: &'static str)
    requires
        fid@.len() >= 4,
    ensures
        r@ == spec_cell_type(fid@),
{
    let cell_bits = (fid[2] >> 2) & 3;
    if (fid[0] == 0x2C || fid[0] == 0x89 || fid[0] == 0xB5) && (fid[1] == 0x05 || fid[1]
        == 0x09) {
        if cell_bits == 1 {
            "TLC"
        } else if cell_bits == 2 {
            "QLC"
        } else if cell_bits == 3 {
            "PLC"
        } else {
            ""
        }
    } else if fid[0] == 0x9B && fid.len() >= 5 && fid[1] == 0xD5 && fid[2] == 0x58
        && fid[3] == 0x8D && fid[4] == 0x20 {
        "QLC"
    } else {
        if cell_bits == 0 {
            "SLC"
        } else if cell_bits == 1 {
            "MLC"
        } else if cell_bits == 2 {
            "TLC"
        } else {
            "QLC"
        }
    }
}

/// The page size of an identifier, from two bits of byte 3, for the
/// manufacturers whose parts encode it there.
pub open spec fn spec_page_size(fid: Seq<u8>) -> Seq<char> {
    if fid[0] == 0x98u8 || fid[0] == 0x45u8 || fid[0] == 0xECu8 || fid[0] == 0xADu8 {
        let bits = fid[3] & 3;
        if bits == 0 {
            "2k"@
        } else if bits == 1 {
            "4k"@
        } else if bits == 2 {
            "8k"@
        } else {
            "16k"@
        }
    } else if fid[0] == 0x9Bu8 {
        if fid[3] & 1 == 0 {
            "8k"@
        } else {
            "16k"@
        }
    } else {
        ""@
    }
}

/// The page size of an identifier.
pub fn page_size(fid: &[u8]) -> (r: &'static str)
    requires
        fid@.len() >= 4,
    ensures
        r@ == spec_page_size(fid@),
{
    if fid[0] == 0x98 || fid[0] == 0x45 || fid[0] == 0xEC || fid[0] == 0xAD {
        let bits = fid[3] & 3;
        if bits == 0 {
            "2k"
        } else if bits == 1 {
            "4k"
        } else if bits == 2 {
            "8k"
        } else {
            "16k"
        }
    } else if fid[0] == 0x9B {
        if fid[3] & 1 == 0 {
            "8k"
        } else {
            "16k"
        }
    } else {
        ""
    }
}

/// The YMTC generation string, from three bits of byte 4.
pub open spec fn spec_ymtc_gen(fid: Seq<u8>) -> Seq<char> {
    let gen_bits = if fid.len() > 4 {
        (fid[4] >> 4) & 7
    } else {
        0u8
    };
    if gen_bits == 1 {
        "3dv2-64L"@
    } else if gen_bits == 2 {
        "3dv3-128L"@
    } else if gen_bits == 3 {
        "3dv4"@
    } else if gen_bits == 4 {
        "3dv5"@
    } else {
        ""@
    }
}

/// The YMTC technology: the generation string followed by the pattern-row
/// description, either part possibly empty.
pub open spec fn spec_identify_ymtc(fid: Seq<u8>) -> Seq<char> {
    spec_ymtc_gen(fid) + spec_ymtc_rows(fid)
}

fn identify_ymtc(fid: &[u8]) -> (r: String)
    ensures
        r@ == spec_identify_ymtc(fid@),
{
    let gen_bits = if fid.len() > 4 {
        (fid[4] >> 4) & 7
    } else {
        0u8
    };
    let gs = if gen_bits == 1 {
        "3dv2-64L"
    } else if gen_bits == 2 {
        "3dv3-128L"
    } else if gen_bits == 3 {
        "3dv4"
    } else if gen_bits == 4 {
        "3dv5"
    } else {
        ""
    };
    let mut out = String::from_str(gs);
    out.append(ymtc_rows(fid));
    out
}

/// The Toshiba/SanDisk technology, keyed by byte 5 masked with 0x27.
pub open spec fn spec_identify_toshiba_sandisk(fid: Seq<u8>) -> Seq<char> {
    if fid.len() < 6 {
        ""@
    } else {
        spec_toshiba_tech(fid[5] & 0x27)
    }
}

fn identify_toshiba_sandisk(fid: &[u8]) -> (r: &'static str)
    ensures
        r@ == spec_identify_toshiba_sandisk(fid@),
{
    if fid.len() < 6 {
        ""
    } else {
        toshiba_tech(fid[5] & 0x27)
    }
}

/// The SK Hynix technology, keyed by raw byte 5.
pub open spec fn spec_identify_hynix(fid: Seq<u8>) -> Seq<char> {
    if fid.len() < 6 {
        ""@
    } else {
        spec_hynix_tech(fid[5])
    }
}

fn identify_hynix(fid: &[u8]) -> (r: &'static str)
    ensures
        r@ == spec_identify_hynix(fid@),
{
    if fid.len() < 6 {
        ""
    } else {
        hynix_tech(fid[5])
    }
}

/// The Samsung technology: the raw-byte rows first, then the masked table.
pub open spec fn spec_identify_samsung(fid: Seq<u8>) -> Seq<char> {
    if fid.len() < 6 {
        ""@
    } else if spec_samsung_tech_smi_extra(fid[5]).len() > 0 {
        spec_samsung_tech_smi_extra(fid[5])
    } else {
        spec_samsung_tech_rtl(fid[5] & 0x7F)
    }
}

fn identify_samsung(fid: &[u8]) -> (r: &'static str)
    ensures
        r@ == spec_identify_samsung(fid@),
{
    if fid.len() < 6 {
        ""
    } else {
        let raw = fid[5];
        let extra = samsung_tech_smi_extra(raw);
        if !extra.is_empty() {
            extra
        } else {
            samsung_tech_rtl(raw & 0x7F)
        }
    }
}

/// The technology description for an identifier, by manufacturer.
pub open spec fn spec_tech(fid: Seq<u8>) -> Seq<char> {
    if fid[0] == 0x2Cu8 || fid[0] == 0x89u8 || fid[0] == 0xB5u8 {
        spec_identify_micron_intel_spectek(fid)
    } else if fid[0] == 0x9Bu8 {
        spec_identify_ymtc(fid)
    } else if fid[0] == 0x98u8 || fid[0] == 0x45u8 {
        spec_identify_toshiba_sandisk(fid)
    } else if fid[0] == 0xADu8 {
        spec_identify_hynix(fid)
    } else if fid[0] == 0xECu8 {
        spec_identify_samsung(fid)
    } else {
        ""@
    }
}

/// A description part preceded by a space, or nothing when it is empty.
pub open spec fn spec_opt_part(s: Seq<char>) -> Seq<char> {
    if s.len() > 0 {
        " "@ + s
    } else {
        s
    }
}

/// The full description of an identifier: manufacturer, then technology,
/// cell type and page size where known; "Unknown" for short identifiers.
pub open spec fn spec_describe(fid: Seq<u8>) -> Seq<char> {
    if fid.len() < 6 {
        "Unknown"@
    } else {
        spec_manufacturer_name(fid[0]) + spec_opt_part(spec_tech(fid)) + spec_opt_part(
            spec_cell_type(fid)) + spec_opt_part(spec_page_size(fid))
    }
}

/// Describe a flash identifier in words.
pub fn describe_flash(flash_id: &[u8]) -> (r: String)
    ensures
        r@ == spec_describe(flash_id@),
{
    if flash_id.len() < 6 {
        return String::from_str("Unknown");
    }
    let mfr_id = flash_id[0];
    let mut out = String::from_str(manufacturer_name(mfr_id));
    let tech: String = if mfr_id == 0x2C || mfr_id == 0x89 || mfr_id == 0xB5 {
        String::from_str(identify_micron_intel_spectek(flash_id))
    } else if mfr_id == 0x9B {
        identify_ymtc(flash_id)
    } else if mfr_id == 0x98 || mfr_id == 0x45 {
        String::from_str(identify_toshiba_sandisk(flash_id))
    } else if mfr_id == 0xAD {
        String::from_str(identify_hynix(flash_id))
    } else if mfr_id == 0xEC {
        String::from_str(identify_samsung(flash_id))
    } else {
        String::from_str("")
    };
    if !tech.as_str().is_empty() {
        out.append(" ");
        out.append(tech.as_str());
    }
    let cell = cell_type(flash_id);
    if !cell.is_empty() {
        out.append(" ");
        out.append(cell);
    }
    let page = page_size(flash_id);
    if !page.is_empty() {
        out.append(" ");
        out.append(page);
    }
    proof {
        let fid = flash_id@;
        let m = spec_manufacturer_name(fid[0]);
        let t = spec_opt_part(spec_tech(fid));
        let c = spec_opt_part(spec_cell_type(fid));
        let p = spec_opt_part(spec_page_size(fid));
        assert(out@ =~= m + t + c + p);
    }
    out
}

// ---------------------------------------------------------------------------
// Hex rendering.
// ---------------------------------------------------------------------------

/// One identifier byte as "0x" plus two lower-case hex digits, as bytes.
pub open spec fn spec_hex_item(b: u8) -> Seq<u8> {
    seq![0x30u8, 0x78u8] + text::spec_hex_byte(b)
}

/// The first `n` identifier bytes rendered and joined with commas.
pub open spec fn spec_hex_list(s: Seq<u8>, n: int) -> Seq<u8>
    decreases n,
{
    if n <= 0 {
        Seq::empty()
    } else if n == 1 {
        spec_hex_item(s[0])
    } else {
        spec_hex_list(s, n - 1) + seq![0x2Cu8] + spec_hex_item(s[n - 1])
    }
}

/// The comma-joined hex rendering of a flash identifier.
pub open spec fn spec_format_hex(s: Seq<u8>) -> Seq<char> {
    text::spec_chars(spec_hex_list(s, s.len() as int))
}

/// Render a flash identifier as comma-separated "0x.." bytes.
pub fn format_flash_id_hex(flash_id: &[u8]) -> (r: String)
    ensures
        r@ == spec_format_hex(flash_id@),
{
    let mut out: Vec<u8> = Vec::new();
    let mut i: usize = 0;
    while i < flash_id.len()
        invariant
            i <= flash_id.len(),
            out@ == spec_hex_list(flash_id@, i as int),
        decreases flash_id.len() - i,
    {
        let ghost pre = out@;
        if i > 0 {
            out.push(0x2C);
        }
        out.push(0x30);
        out.push(0x78);
        text::push_hex_byte(&mut out, flash_id[i]);
        proof {
            if i == 0 {
                assert(out@ =~= spec_hex_list(flash_id@, 1));
            } else {
                assert(out@ =~= spec_hex_list(flash_id@, i + 1));
            }
        }
        i += 1;
    }
    ascii_string_of(&out)
}

/// Helper: the byte vector rendered as a string.
fn ascii_string_of(bytes: &Vec<u8>) -> (r: String)
    ensures
        r@ == text::spec_chars(bytes@),
{
    text::ascii_string(bytes.as_slice())
}

} // verus!
