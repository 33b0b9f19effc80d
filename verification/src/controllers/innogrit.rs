use vstd::prelude::*;

use crate::bank;
use crate::bank::FlashIdResult;
use crate::controllers::from_nvme;
use crate::controllers::spec_from_nvme;
use crate::controllers::NvmeStep;
use crate::nvme::spec_admin_cmd;
use crate::nvme::spec_le16;
use crate::nvme::NvmeDevice;
use crate::nvme::NvmeError;
use crate::nvme::NvmeRequest;
use crate::text;

verus! {

// ---------------------------------------------------------------------------
// Innogrit (NVMe): one vendor read keyed by two magic parameter words.  A
// 16-bit device id at 0x62E selects between two hardware generations with
// different bank-table offsets and sizes; entries are 6 bytes, padded to
// the fixed 8-byte identifier.
// ---------------------------------------------------------------------------

/// The "GRIT" magic parameter word.
pub const GRIT_MAGIC: u32 = 0x54495247;

/// The "INNO" magic parameter word.
pub const INNO_MAGIC: u32 = 0x4F4E4E49;

/// The vendor read: opcode 0xF2 with the two magic words, 4096 bytes.
pub fn flash_id_request() -> (r: NvmeRequest)
    ensures
        spec_admin_cmd(r.cmd, 0xF2, 0, 0x400, 0, 0, 0, 0x54495247, 0x4F4E4E49, 4096),
        r.direction is FromDevice,
{
    let dev = NvmeDevice {  };
    dev.admin_read(0xF2, 0, 0x400, 0, 0, 0, GRIT_MAGIC, INNO_MAGIC, 4096)
}

/// The bank-table offset the device id selects.
pub open spec fn spec_fid_offset(did: u16) -> int {
    if did == 0x5208 || did == 0x5216 {
        0x548
    } else {
        0x24E
    }
}

/// The bank-table size the device id selects.
pub open spec fn spec_max_banks(did: u16) -> int {
    if did == 0x5208 || did == 0x5216 {
        32
    } else {
        64
    }
}

/// The banks of a response: 6-byte entries at the selected offset,
/// numbered by slot index, kept when non-empty, padded to 8 bytes.
pub open spec fn spec_innogrit_banks(d: Seq<u8>) -> Seq<(u32, Seq<u8>)> {
    let did = spec_le16(d, 0x62E);
    bank::spec_scan(d, spec_fid_offset(did), 6, false, false, spec_max_banks(did))
}

/// The controller name: "IG" followed by the decimal device id.
pub open spec fn spec_innogrit_name(d: Seq<u8>) -> Seq<char> {
    "IG"@ + text::spec_chars(text::spec_dec_digits(spec_le16(d, 0x62E) as nat))
}

/// Run the Innogrit extraction: one vendor read, then the generation
/// dispatch and bank scan.
pub fn read_flash_id(resp: &Option<Result<Vec<u8>, NvmeError>>) -> (s: NvmeStep)
    requires
        resp matches Some(r) ==> (r matches Ok(d) ==> d@.len() == 4096),
    ensures
        resp is None ==> (s matches NvmeStep::Issue(q) && spec_admin_cmd(q.cmd, 0xF2, 0,
            0x400, 0, 0, 0, 0x54495247, 0x4F4E4E49, 4096) && q.direction is FromDevice),
        resp matches Some(r) ==> (r matches Err(e) ==> (s matches NvmeStep::Done(x)
            && x matches Err(f) && f == spec_from_nvme(*e))),
        resp matches Some(r) ==> (r matches Ok(d) ==> (s matches NvmeStep::Done(x)
            && x matches Ok(res) && res.controller_name@ == spec_innogrit_name(d@)
            && bank::banks_match(res.banks@, spec_innogrit_banks(d@)))),
{
    match resp {
        None => NvmeStep::Issue(flash_id_request()),
        Some(Err(e)) => NvmeStep::Done(Err(from_nvme(e))),
        Some(Ok(d)) => {
            let did = d[0x62E] as u16 + d[0x62F] as u16 * 0x100;
            let (fid_offset, max_banks): (usize, usize) = if did == 0x5208 || did
                == 0x5216 {
                (0x548, 32)
            } else {
                (0x24E, 64)
            };
            let digits = text::dec_u32(did as u32);
            let mut name = String::from_str("IG");
            let digit_str = text::ascii_string(digits.as_slice());
            name.append(digit_str.as_str());
            let banks = bank::scan_banks(d.as_slice(), fid_offset, 6, max_banks, false,
                false);
            NvmeStep::Done(Ok(FlashIdResult { controller_name: name, banks }))
        },
    }
}

} // verus!
