use vstd::prelude::*;

use crate::ata::spec_cdb_ext;
use crate::ata::AtaDevice;
use crate::ata::AtaError;
use crate::ata::SgRequest;
use crate::bank;
use crate::bank::FlashIdError;
use crate::bank::FlashIdResult;
use crate::controllers::from_ata;
use crate::controllers::spec_from_ata;
use crate::controllers::AtaStep;
use crate::bank::FlashBank;
use crate::text;

verus! {

/// The Realtek SATA firmware prefixes.
pub open spec fn spec_rtl_sata_fw_hit(fw: Seq<char>) -> bool {
    text::spec_starts_with_c(fw, "REALTEK_RL6468"@) || text::spec_starts_with_c(fw,
        "REALTEK_RL6531"@) || text::spec_starts_with_c(fw, "REALTEK_RL6643"@)
}

/// Match the firmware string against the Realtek SATA prefixes.
pub fn detect_from_firmware(fw: &str) -> (r: Option<&'static str>)
    requires
        fw.is_ascii(),
    ensures
        text::spec_starts_with_c(fw@, "REALTEK_RL6468"@) ==> (r matches Some(n) && n@
            == "RTS5732"@),
        !text::spec_starts_with_c(fw@, "REALTEK_RL6468"@) && text::spec_starts_with_c(
            fw@, "REALTEK_RL6531"@) ==> (r matches Some(n) && n@ == "RTS5733"@),
        !text::spec_starts_with_c(fw@, "REALTEK_RL6468"@) && !text::spec_starts_with_c(
            fw@, "REALTEK_RL6531"@) && text::spec_starts_with_c(fw@, "REALTEK_RL6643"@)
            ==> (r matches Some(n) && n@ == "RTS5735"@),
        !spec_rtl_sata_fw_hit(fw@) ==> r is None,
{
    proof {
        reveal_strlit("REALTEK_RL6468");
        reveal_strlit("REALTEK_RL6531");
        reveal_strlit("REALTEK_RL6643");
    }
    if text::str_starts_with(fw, "REALTEK_RL6468") {
        Some("RTS5732")
    } else if text::str_starts_with(fw, "REALTEK_RL6531") {
        Some("RTS5733")
    } else if text::str_starts_with(fw, "REALTEK_RL6643") {
        Some("RTS5735")
    } else {
        None
    }
}

// ---------------------------------------------------------------------------
// Realtek (SATA): a 48-bit setup command, then two alternate extended
// reads with different feature and LBA encodings; the bank scan of the
// first read that yields anything wins.
// ---------------------------------------------------------------------------

/// The setup command sent before the reads.
pub fn fid_prefix() -> (r: SgRequest)
    ensures
        r.cdb@ == spec_cdb_ext(3, 0x20, 0xFC, 0x50, 0xFF, 0x00, 0x00, 0x00, 0xE0, 0x00,
            0xFF, 0x00, 0x00, 0x00),
        r.direction is NoData,
{
    let dev = AtaDevice {  };
    dev.ata_no_data_ext(0xFC, 0x50, 0xFF, 0x00, 0x00, 0x00, 0xE0, 0x00, 0xFF, 0x00, 0x00,
        0x00)
}

/// The primary extended flash-id read.
pub fn read_fid() -> (r: SgRequest)
    ensures
        r.cdb@ == spec_cdb_ext(4, 0x2E, 0xFA, 0x01, 0x01, 0x20, 0x04, 0xF0, 0xE0, 0x00,
            0x00, 0xAF, 0x00, 0x00),
        r.direction is FromDevice,
        r.data_len == 512,
{
    let dev = AtaDevice {  };
    dev.ata_read_ext(0xFA, 0x01, 0x01, 0x20, 0x04, 0xF0, 0xE0, 0x00, 0x00, 0xAF, 0x00,
        0x00, 512)
}

/// The alternate extended flash-id read.
pub fn read_fid2() -> (r: SgRequest)
    ensures
        r.cdb@ == spec_cdb_ext(4, 0x2E, 0xFA, 0x41, 0x01, 0x00, 0x00, 0x00, 0xE0, 0x00,
            0x00, 0x00, 0x00, 0x00),
        r.direction is FromDevice,
        r.data_len == 512,
{
    let dev = AtaDevice {  };
    dev.ata_read_ext(0xFA, 0x41, 0x01, 0x00, 0x00, 0x00, 0xE0, 0x00, 0x00, 0x00, 0x00,
        0x00, 512)
}

/// The banks of a response: slots of 8 bytes from the start, scanning
/// stops at the first empty slot, at most 8 slots.
pub open spec fn spec_rtl_sata_banks(d: Seq<u8>) -> Seq<(u32, Seq<u8>)> {
    bank::spec_scan(d, 0, 8, false, true, 8)
}

/// Scan a response buffer for banks.
pub fn extract_banks(d: &[u8]) -> (banks: Vec<FlashBank>)
    requires
        d@.len() >= 64,
    ensures
        bank::banks_match(banks@, spec_rtl_sata_banks(d@)),
{
    bank::scan_banks(d, 0, 8, 8, false, true)
}

/// The primary read did not decide: it failed or yielded no banks.
pub open spec fn spec_fid1_miss(o: Option<Vec<u8>>) -> bool {
    match o {
        Some(d) => spec_rtl_sata_banks(d@).len() == 0,
        None => true,
    }
}

/// Run the Realtek SATA extraction: the setup command, the primary read,
/// then the alternate read.  A read reply of nothing stands for a failed
/// read, which falls through to the next alternative.
pub fn read_flash_id(
    prefix: &Option<Result<Vec<u8>, AtaError>>,
    fid1: &Option<Option<Vec<u8>>>,
    fid2: &Option<Option<Vec<u8>>>,
) -> (s: AtaStep)
    requires
        fid1 matches Some(o) ==> (o matches Some(d) ==> d@.len() == 512),
        fid2 matches Some(o) ==> (o matches Some(d) ==> d@.len() == 512),
    ensures
        prefix is None ==> (s matches AtaStep::Issue(q) && q.cdb@ == spec_cdb_ext(3, 0x20,
            0xFC, 0x50, 0xFF, 0x00, 0x00, 0x00, 0xE0, 0x00, 0xFF, 0x00, 0x00, 0x00)),
        prefix matches Some(p) ==> (p matches Err(e) ==> (s matches AtaStep::Done(x)
            && x matches Err(f) && f == spec_from_ata(*e))),
        prefix matches Some(p) ==> (p is Ok ==> (fid1 is None ==> (s matches
        AtaStep::Issue(q) && q.cdb@ == spec_cdb_ext(4, 0x2E, 0xFA, 0x01, 0x01, 0x20,
        0x04, 0xF0, 0xE0, 0x00, 0x00, 0xAF, 0x00, 0x00)))),
        prefix matches Some(p) ==> (p is Ok ==> (fid1 matches Some(o) ==> (o matches
        Some(d) ==> (spec_rtl_sata_banks(d@).len() > 0 ==> (s matches AtaStep::Done(x)
            && x matches Ok(res) && res.controller_name@ == "Realtek SATA"@
            && bank::banks_match(res.banks@, spec_rtl_sata_banks(d@))))))),
        prefix matches Some(p) ==> (p is Ok ==> (fid1 matches Some(o) ==> (
        spec_fid1_miss(*o) ==> (fid2 is None ==> (s matches AtaStep::Issue(q) && q.cdb@
            == spec_cdb_ext(4, 0x2E, 0xFA, 0x41, 0x01, 0x00, 0x00, 0x00, 0xE0, 0x00,
        0x00, 0x00, 0x00, 0x00)))))),
        prefix matches Some(p) ==> (p is Ok ==> (fid1 matches Some(o) ==> (
        spec_fid1_miss(*o) ==> (fid2 matches Some(o2) ==> (o2 matches Some(d2) ==> (
        spec_rtl_sata_banks(d2@).len() > 0 ==> (s matches AtaStep::Done(x) && x matches
        Ok(res) && res.controller_name@ == "Realtek SATA (ext)"@ && bank::banks_match(
        res.banks@, spec_rtl_sata_banks(d2@))))))))),
        prefix matches Some(p) ==> (p is Ok ==> (fid1 matches Some(o) ==> (
        spec_fid1_miss(*o) ==> (fid2 matches Some(o2) ==> ((match *o2 {
            Some(d2) => spec_rtl_sata_banks(d2@).len() == 0,
            None => true,
        }) ==> (s matches AtaStep::Done(x) && x matches Err(f) && f is EmptyData)))))),
{
    match prefix {
        None => AtaStep::Issue(fid_prefix()),
        Some(Err(e)) => AtaStep::Done(Err(from_ata(e))),
        Some(Ok(_)) => {
            match fid1 {
                None => {
                    return AtaStep::Issue(read_fid());
                },
                Some(Some(d)) => {
                    let banks = extract_banks(d.as_slice());
                    if banks.len() > 0 {
                        return AtaStep::Done(Ok(FlashIdResult {
                            controller_name: String::from_str("Realtek SATA"),
                            banks,
                        }));
                    }
                },
                Some(None) => {},
            }
            match fid2 {
                None => AtaStep::Issue(read_fid2()),
                Some(Some(d2)) => {
                    let banks = extract_banks(d2.as_slice());
                    if banks.len() > 0 {
                        return AtaStep::Done(Ok(FlashIdResult {
                            controller_name: String::from_str("Realtek SATA (ext)"),
                            banks,
                        }));
                    }
                    AtaStep::Done(Err(FlashIdError::EmptyData))
                },
                Some(None) => AtaStep::Done(Err(FlashIdError::EmptyData)),
            }
        },
    }
}

} // verus!
