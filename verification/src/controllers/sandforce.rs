use vstd::prelude::*;

use crate::ata::spec_cdb;
use crate::ata::AtaDevice;
use crate::ata::AtaError;
use crate::ata::SgRequest;
use crate::bank;
use crate::bank::FlashIdError;
use crate::bank::FlashIdResult;
use crate::controllers::from_ata;
use crate::controllers::spec_from_ata;
use crate::controllers::zero_vec;
use crate::controllers::AtaStep;

verus! {

// ---------------------------------------------------------------------------
// SandForce (SATA): a SMART WRITE LOG to one vendor log address requests
// the flash identifiers; a SMART READ LOG from another returns them.  A
// response made solely of 0x00 and 0xFF bytes is rejected outright.
// ---------------------------------------------------------------------------

/// The payload of the flash-id request log.
pub open spec fn spec_request_payload() -> Seq<u8> {
    Seq::new(512, |i: int|
        if i == 0 {
            0x01u8
        } else if i == 1 {
            0x34u8
        } else if i == 2 {
            0xC0u8
        } else {
            0u8
        })
}

/// SMART WRITE LOG to the given vendor log address.
pub fn smart_write_log(log_addr: u8, payload: &[u8]) -> (r: SgRequest)
    requires
        payload@.len() <= u32::MAX,
    ensures
        r.cdb@ == spec_cdb(5, 0x26, 0xB0, 0xD6, 0x01, log_addr, 0x4F, 0xC2, 0x00),
        r.direction is ToDevice,
        r.data_out@ == payload@,
{
    let dev = AtaDevice {  };
    dev.ata_write(0xB0, 0xD6, 0x01, log_addr, 0x4F, 0xC2, 0x00, payload)
}

/// SMART READ LOG from the given vendor log address.
pub fn smart_read_log(log_addr: u8) -> (r: SgRequest)
    ensures
        r.cdb@ == spec_cdb(4, 0x2E, 0xB0, 0xD5, 0x01, log_addr, 0x4F, 0xC2, 0x00),
        r.direction is FromDevice,
        r.data_len == 512,
{
    let dev = AtaDevice {  };
    dev.ata_read(0xB0, 0xD5, 0x01, log_addr, 0x4F, 0xC2, 0x00, 512)
}

/// Every byte is one of the two sentinel values.
pub open spec fn spec_all_sentinel(d: Seq<u8>) -> bool {
    forall|i: int| 0 <= i < d.len() ==> (d[i] == 0x00u8 || d[i] == 0xFFu8)
}

/// Whether every byte is 0x00 or 0xFF.
pub fn all_sentinel(d: &[u8]) -> (r: bool)
    ensures
        r == spec_all_sentinel(d@),
{
    let mut i: usize = 0;
    while i < d.len()
        invariant
            i <= d.len(),
            forall|j: int| 0 <= j < i ==> (d@[j] == 0x00u8 || d@[j] == 0xFFu8),
        decreases d.len() - i,
    {
        if d[i] != 0x00 && d[i] != 0xFF {
            return false;
        }
        i += 1;
    }
    true
}

/// The banks of a response: slots of 8 bytes from the start, scanning
/// stops at the first empty slot, at most 16 slots.
pub open spec fn spec_sandforce_banks(d: Seq<u8>) -> Seq<(u32, Seq<u8>)> {
    bank::spec_scan(d, 0, 8, false, true, 16)
}

/// Run the SandForce extraction: the request write, the response read,
/// the sentinel check, then the slot scan.
pub fn read_flash_id(
    wlog: &Option<Result<Vec<u8>, AtaError>>,
    rlog: &Option<Result<Vec<u8>, AtaError>>,
) -> (s: AtaStep)
    requires
        rlog matches Some(r) ==> (r matches Ok(d) ==> d@.len() == 512),
    ensures
        wlog is None ==> (s matches AtaStep::Issue(q) && q.cdb@ == spec_cdb(5, 0x26, 0xB0,
            0xD6, 0x01, 0xE0, 0x4F, 0xC2, 0x00) && q.direction is ToDevice && q.data_out@
            == spec_request_payload()),
        wlog matches Some(w) ==> (w matches Err(e) ==> (s matches AtaStep::Done(x)
            && x matches Err(f) && f == spec_from_ata(*e))),
        wlog matches Some(w) ==> (w is Ok ==> (rlog is None ==> (s matches AtaStep::Issue(
            q) && q.cdb@ == spec_cdb(4, 0x2E, 0xB0, 0xD5, 0x01, 0xE1, 0x4F, 0xC2, 0x00)
            && q.direction is FromDevice))),
        wlog matches Some(w) ==> (w is Ok ==> (rlog matches Some(r) ==> (r matches Err(e)
            ==> (s matches AtaStep::Done(x) && x matches Err(f) && f == spec_from_ata(
            *e))))),
        wlog matches Some(w) ==> (w is Ok ==> (rlog matches Some(r) ==> (r matches Ok(d)
            ==> ((spec_all_sentinel(d@) || spec_sandforce_banks(d@).len() == 0) ==> (
        s matches AtaStep::Done(x) && x matches Err(f) && f is EmptyData))))),
        wlog matches Some(w) ==> (w is Ok ==> (rlog matches Some(r) ==> (r matches Ok(d)
            ==> ((!spec_all_sentinel(d@) && spec_sandforce_banks(d@).len() > 0) ==> (
        s matches AtaStep::Done(x) && x matches Ok(res) && res.controller_name@
            == "SandForce"@ && bank::banks_match(res.banks@, spec_sandforce_banks(
        d@))))))),
{
    match wlog {
        None => {
            let mut payload = zero_vec(512);
            payload[0] = 0x01;
            payload[1] = 0x34;
            payload[2] = 0xC0;
            proof {
                assert(payload@ =~= spec_request_payload());
            }
            AtaStep::Issue(smart_write_log(0xE0, payload.as_slice()))
        },
        Some(Err(e)) => AtaStep::Done(Err(from_ata(e))),
        Some(Ok(_)) => match rlog {
            None => AtaStep::Issue(smart_read_log(0xE1)),
            Some(Err(e)) => AtaStep::Done(Err(from_ata(e))),
            Some(Ok(d)) => {
                if all_sentinel(d.as_slice()) {
                    return AtaStep::Done(Err(FlashIdError::EmptyData));
                }
                let banks = bank::scan_banks(d.as_slice(), 0, 8, 16, false, true);
                if banks.len() == 0 {
                    AtaStep::Done(Err(FlashIdError::EmptyData))
                } else {
                    AtaStep::Done(Ok(FlashIdResult {
                        controller_name: String::from_str("SandForce"),
                        banks,
                    }))
                }
            },
        },
    }
}

} // verus!
