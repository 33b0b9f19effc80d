use vstd::prelude::*;

use crate::ata::spec_cdb;
use crate::ata::AtaDevice;
use crate::ata::AtaError;
use crate::ata::SgRequest;
use crate::bank;
use crate::bank::FlashBank;
use crate::bank::FlashIdError;
use crate::bank::FlashIdResult;
use crate::controllers::from_ata;
use crate::controllers::spec_from_ata;
use crate::controllers::AtaStep;
use crate::text;

verus! {

/// The Silicon Motion SATA firmware prefixes.
pub open spec fn spec_smi_sata_fw_hit(fw: Seq<char>) -> bool {
    text::spec_starts_with_c(fw, "SM2246AA-"@) || text::spec_starts_with_c(fw,
        "SM2256AB-"@) || text::spec_starts_with_c(fw, "SM2258AB-"@)
        || text::spec_starts_with_c(fw, "SM2259AB-"@) || text::spec_starts_with_c(fw,
        "SM2259AC-"@)
}

/// Match the firmware string against the Silicon Motion SATA prefixes.
pub fn detect_from_firmware(fw: &str) -> (r: Option<&'static str>)
    requires
        fw.is_ascii(),
    ensures
        text::spec_starts_with_c(fw@, "SM2246AA-"@) ==> (r matches Some(n) && n@
            == "SM2246EN/XT"@),
        !text::spec_starts_with_c(fw@, "SM2246AA-"@) && text::spec_starts_with_c(fw@,
            "SM2256AB-"@) ==> (r matches Some(n) && n@ == "SM2256/S"@),
        !text::spec_starts_with_c(fw@, "SM2246AA-"@) && !text::spec_starts_with_c(fw@,
            "SM2256AB-"@) && text::spec_starts_with_c(fw@, "SM2258AB-"@) ==> (r matches
        Some(n) && n@ == "SM2258/XT"@),
        !text::spec_starts_with_c(fw@, "SM2246AA-"@) && !text::spec_starts_with_c(fw@,
            "SM2256AB-"@) && !text::spec_starts_with_c(fw@, "SM2258AB-"@)
            && text::spec_starts_with_c(fw@, "SM2259AB-"@) ==> (r matches Some(n) && n@
            == "SM2259/XT"@),
        !text::spec_starts_with_c(fw@, "SM2246AA-"@) && !text::spec_starts_with_c(fw@,
            "SM2256AB-"@) && !text::spec_starts_with_c(fw@, "SM2258AB-"@)
            && !text::spec_starts_with_c(fw@, "SM2259AB-"@) && text::spec_starts_with_c(
            fw@, "SM2259AC-"@) ==> (r matches Some(n) && n@ == "SM2259XT2"@),
        !spec_smi_sata_fw_hit(fw@) ==> r is None,
{
    proof {
        reveal_strlit("SM2246AA-");
        reveal_strlit("SM2256AB-");
        reveal_strlit("SM2258AB-");
        reveal_strlit("SM2259AB-");
        reveal_strlit("SM2259AC-");
    }
    if text::str_starts_with(fw, "SM2246AA-") {
        Some("SM2246EN/XT")
    } else if text::str_starts_with(fw, "SM2256AB-") {
        Some("SM2256/S")
    } else if text::str_starts_with(fw, "SM2258AB-") {
        Some("SM2258/XT")
    } else if text::str_starts_with(fw, "SM2259AB-") {
        Some("SM2259/XT")
    } else if text::str_starts_with(fw, "SM2259AC-") {
        Some("SM2259XT2")
    } else {
        None
    }
}

// ---------------------------------------------------------------------------
// Silicon Motion (SATA): a SMART-framed flash-id read first, then two
// magic-LBA READ SECTORS attempts.
// ---------------------------------------------------------------------------

/// The SMART-framed flash-id read.
pub fn read_smart_fid() -> (r: SgRequest)
    ensures
        r.cdb@ == spec_cdb(4, 0x2E, 0xB0, 0x00, 1, 0x00, 0x4F, 0xC2, 0x40),
        r.direction is FromDevice,
        r.data_len == 512,
{
    let dev = AtaDevice {  };
    dev.ata_read(0xB0, 0x00, 1, 0x00, 0x4F, 0xC2, 0x40, 512)
}

/// The READ SECTORS request of one magic LBA.
pub fn read_magic_lba(lba_high: u8, lba_mid: u8, lba_low: u8) -> (r: SgRequest)
    ensures
        r.cdb@ == spec_cdb(4, 0x2E, 0x20, 0x00, 1, lba_low, lba_mid, lba_high, 0xE0),
        r.direction is FromDevice,
        r.data_len == 512,
{
    let dev = AtaDevice {  };
    dev.ata_read(0x20, 0x00, 1, lba_low, lba_mid, lba_high, 0xE0, 512)
}

/// Some byte of the SMART response is neither 0x00 nor 0xFF.
pub open spec fn spec_smart_live(d: Seq<u8>) -> bool {
    exists|i: int| 0 <= i < d.len() && d[i] != 0x00u8 && d[i] != 0xFFu8
}

/// The SMART path yields a single bank: the response is live and its
/// first 8 bytes are not sentinel-empty.
pub open spec fn spec_smart_hit(d: Seq<u8>) -> bool {
    spec_smart_live(d) && !bank::spec_bank_empty(d.take(8))
}

/// The banks of a magic-LBA response: slots of 8 bytes from the start,
/// scanning stops at the first empty slot, at most 16 slots.
pub open spec fn spec_smi_sata_banks(d: Seq<u8>) -> Seq<(u32, Seq<u8>)> {
    bank::spec_scan(d, 0, 8, false, true, 16)
}

/// Whether some byte is neither sentinel value.
fn smart_live(d: &[u8]) -> (r: bool)
    ensures
        r == spec_smart_live(d@),
{
    let mut i: usize = 0;
    while i < d.len()
        invariant
            i <= d.len(),
            forall|j: int| 0 <= j < i ==> (d@[j] == 0x00u8 || d@[j] == 0xFFu8),
        decreases d.len() - i,
    {
        if d[i] != 0x00 && d[i] != 0xFF {
            return true;
        }
        i += 1;
    }
    false
}

/// Run the Silicon Motion SATA extraction: the SMART flash-id read first
/// (its failure is ignored), then the two magic-LBA reads in order.
pub fn read_flash_id(
    smart: &Option<Option<Vec<u8>>>,
    r1: &Option<Result<Vec<u8>, AtaError>>,
    r5: &Option<Result<Vec<u8>, AtaError>>,
) -> (s: AtaStep)
    requires
        smart matches Some(o) ==> (o matches Some(d) ==> d@.len() == 512),
        r1 matches Some(r) ==> (r matches Ok(d) ==> d@.len() == 512),
        r5 matches Some(r) ==> (r matches Ok(d) ==> d@.len() == 512),
    ensures
        smart is None ==> (s matches AtaStep::Issue(q) && q.cdb@ == spec_cdb(4, 0x2E,
            0xB0, 0x00, 1, 0x00, 0x4F, 0xC2, 0x40)),
        smart matches Some(o) ==> (o matches Some(d) ==> (spec_smart_hit(d@) ==> (
        s matches AtaStep::Done(x) && x matches Ok(res) && res.controller_name@
            == "SM2259/XT (SMART FID)"@ && res.banks@.len() == 1 && res.banks@[0
        ].bank_num == 0 && res.banks@[0].flash_id@ == d@.take(8)))),
        smart matches Some(o) ==> (spec_smart_miss(*o) ==> (r1 is None ==> (s matches
        AtaStep::Issue(q) && q.cdb@ == spec_cdb(4, 0x2E, 0x20, 0x00, 1, 0xAA, 0x00, 0x00,
        0xE0)))),
        smart matches Some(o) ==> (spec_smart_miss(*o) ==> (r1 matches Some(a) ==> (
        a matches Err(e) ==> (s matches AtaStep::Done(x) && x matches Err(f) && f
            == spec_from_ata(*e))))),
        smart matches Some(o) ==> (spec_smart_miss(*o) ==> (r1 matches Some(a) ==> (a
            is Ok ==> (r5 is None ==> (s matches AtaStep::Issue(q) && q.cdb@ == spec_cdb(
        4, 0x2E, 0x20, 0x00, 1, 0xAA, 0x55, 0x00, 0xE0)))))),
        smart matches Some(o) ==> (spec_smart_miss(*o) ==> (r1 matches Some(a) ==> (a
            is Ok ==> (r5 matches Some(b) ==> (b matches Err(e) ==> (s matches
        AtaStep::Done(x) && x matches Err(f) && f == spec_from_ata(*e))))))),
        smart matches Some(o) ==> (spec_smart_miss(*o) ==> (r1 matches Some(a) ==> (
        a matches Ok(d1) ==> (r5 matches Some(b) ==> (b matches Ok(d5) ==> ((
        spec_smi_sata_banks(d1@).len() > 0 ==> (s matches AtaStep::Done(x) && x matches
        Ok(res) && res.controller_name@ == "SM2259/XT (R1)"@ && bank::banks_match(
        res.banks@, spec_smi_sata_banks(d1@)))) && ((spec_smi_sata_banks(d1@).len() == 0
            && spec_smi_sata_banks(d5@).len() > 0) ==> (s matches AtaStep::Done(x)
            && x matches Ok(res) && res.controller_name@ == "SM2259/XT (R5)"@
            && bank::banks_match(res.banks@, spec_smi_sata_banks(d5@)))) && ((
        spec_smi_sata_banks(d1@).len() == 0 && spec_smi_sata_banks(d5@).len() == 0) ==> (
        s matches AtaStep::Done(x) && x matches Err(f) && f is EmptyData)))))))),
{
    match smart {
        None => AtaStep::Issue(read_smart_fid()),
        Some(o) => {
            match o {
                Some(d) => {
                    if smart_live(d.as_slice()) {
                        let first8 = &d.as_slice()[0..8];
                        proof {
                            assert(first8@ =~= d@.take(8));
                        }
                        if !bank::is_bank_empty(first8) {
                            let id = bank::read_slot_id(d.as_slice(), 0, 8);
                            proof {
                                assert(id@ =~= d@.take(8));
                            }
                            let mut banks: Vec<FlashBank> = Vec::new();
                            banks.push(FlashBank { bank_num: 0, flash_id: id });
                            return AtaStep::Done(Ok(FlashIdResult {
                                controller_name: String::from_str(
                                    "SM2259/XT (SMART FID)"),
                                banks,
                            }));
                        }
                    }
                },
                None => {},
            }
            match r1 {
                None => AtaStep::Issue(read_magic_lba(0x00, 0x00, 0xAA)),
                Some(Err(e)) => AtaStep::Done(Err(from_ata(e))),
                Some(Ok(d1)) => match r5 {
                    None => AtaStep::Issue(read_magic_lba(0x00, 0x55, 0xAA)),
                    Some(Err(e)) => AtaStep::Done(Err(from_ata(e))),
                    Some(Ok(d5)) => {
                        let banks1 = bank::scan_banks(d1.as_slice(), 0, 8, 16, false,
                            true);
                        if banks1.len() > 0 {
                            return AtaStep::Done(Ok(FlashIdResult {
                                controller_name: String::from_str("SM2259/XT (R1)"),
                                banks: banks1,
                            }));
                        }
                        let banks5 = bank::scan_banks(d5.as_slice(), 0, 8, 16, false,
                            true);
                        if banks5.len() > 0 {
                            return AtaStep::Done(Ok(FlashIdResult {
                                controller_name: String::from_str("SM2259/XT (R5)"),
                                banks: banks5,
                            }));
                        }
                        AtaStep::Done(Err(FlashIdError::EmptyData))
                    },
                },
            }
        },
    }
}

/// The SMART path did not decide: the read failed or its data misses.
pub open spec fn spec_smart_miss(o: Option<Vec<u8>>) -> bool {
    match o {
        Some(d) => !spec_smart_hit(d@),
        None => true,
    }
}

} // verus!
