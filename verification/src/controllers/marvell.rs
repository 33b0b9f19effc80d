use vstd::prelude::*;

use crate::bank;
use crate::bank::FlashIdError;
use crate::bank::FlashIdResult;
use crate::controllers::from_nvme;
use crate::controllers::spec_from_nvme;
use crate::controllers::spec_name_or;
use crate::controllers::zero_vec;
use crate::controllers::NvmeStep;
use crate::nvme::spec_admin_cmd;
use crate::nvme::NvmeDevice;
use crate::nvme::NvmeError;
use crate::nvme::NvmeRequest;
use crate::text;

verus! {

// ---------------------------------------------------------------------------
// Marvell 88NV1160/1140 (NVMe): verify the 6-byte firmware signature first,
// then send a one-flag-byte request write and read the bank table at the
// same vendor address tuple.
// ---------------------------------------------------------------------------

/// The firmware-info read: opcode 0xFE, cdw15=0xA1, 512 bytes.
pub fn fw_info_request() -> (r: NvmeRequest)
    ensures
        spec_admin_cmd(r.cmd, 0xFE, 0, 0x80, 0, 0, 0, 0, 0xA1, 512),
        r.direction is FromDevice,
{
    let dev = NvmeDevice {  };
    dev.admin_read(0xFE, 0, 0x80, 0, 0, 0, 0, 0xA1, 512)
}

/// The firmware buffer starts with one of the two known signatures.
pub open spec fn spec_marvell_sig(d: Seq<u8>) -> bool {
    text::spec_starts_with(d, text::spec_ascii_bytes("DM1160"@)) || text::spec_starts_with(
        d, text::spec_ascii_bytes("DM1140"@))
}

/// The flash-id request write: opcode 0xFD, one flag byte set.
pub fn request_write() -> (r: NvmeRequest)
    ensures
        spec_admin_cmd(r.cmd, 0xFD, 0, 0x80, 0, 0, 0, 0x6299, 0x50, 512),
        r.direction is ToDevice,
        r.data_out@.len() == 512,
        r.data_out@[0] == 0x01u8,
        forall|i: int| 1 <= i < 512 ==> r.data_out@[i] == 0u8,
{
    let dev = NvmeDevice {  };
    let mut payload = zero_vec(512);
    payload[0] = 0x01;
    dev.admin_write(0xFD, 0, 0x80, 0, 0, 0, 0x6299, 0x50, payload.as_slice())
}

/// The flash-id read: opcode 0xFE at the same vendor address, 1024 bytes.
pub fn fid_read_request() -> (r: NvmeRequest)
    ensures
        spec_admin_cmd(r.cmd, 0xFE, 0, 0x100, 0, 0, 0, 0x6299, 0x50, 1024),
        r.direction is FromDevice,
{
    let dev = NvmeDevice {  };
    dev.admin_read(0xFE, 0, 0x100, 0, 0, 0, 0x6299, 0x50, 1024)
}

/// The firmware name in the firmware buffer: the printable run from the
/// start, capped at 64 bytes, trimmed; "Marvell 88NV1160" when empty.
pub open spec fn spec_marvell_name(d: Seq<u8>) -> Seq<char> {
    let run = text::spec_run_len(d, 0, text::pred_printable());
    let end = if run < 64 {
        run
    } else {
        64
    };
    spec_name_or(d.take(end), "Marvell 88NV1160"@)
}

/// Extract the firmware name.
pub fn extract_fw_name(d: &[u8]) -> (r: String)
    ensures
        r@ == spec_marvell_name(d@),
{
    let mut end: usize = 0;
    while end < d.len() && (0x21 <= d[end] && d[end] <= 0x7E || d[end] == 0x20)
        invariant
            end <= d.len(),
            forall|j: int|
                0 <= j < end ==> (text::spec_graphic(d@[j]) || d@[j] == 0x20u8),
        decreases d.len() - end,
    {
        end += 1;
    }
    proof {
        text::lemma_run_len(d@, 0, end as int, text::pred_printable());
    }
    let cap = if end < 64 {
        end
    } else {
        64
    };
    let name = text::clean_trimmed_string(&d[0..cap]);
    if name.as_str().is_empty() {
        String::from_str("Marvell 88NV1160")
    } else {
        name
    }
}

/// The banks of a flash-id response: 64 slots of 8 bytes from the start,
/// numbered by slot index, kept when non-empty.
pub open spec fn spec_marvell_banks(d: Seq<u8>) -> Seq<(u32, Seq<u8>)> {
    bank::spec_scan(d, 0, 8, false, false, 64)
}

/// Run the Marvell extraction: firmware check, request write, bank read.
pub fn read_flash_id(
    fw: &Option<Result<Vec<u8>, NvmeError>>,
    req: &Option<Result<Vec<u8>, NvmeError>>,
    fid: &Option<Result<Vec<u8>, NvmeError>>,
) -> (s: NvmeStep)
    requires
        fid matches Some(r) ==> (r matches Ok(d) ==> d@.len() == 1024),
    ensures
        fw is None ==> (s matches NvmeStep::Issue(q) && spec_admin_cmd(q.cmd, 0xFE, 0,
            0x80, 0, 0, 0, 0, 0xA1, 512) && q.direction is FromDevice),
        fw matches Some(c) ==> (c matches Err(e) ==> (s matches NvmeStep::Done(x)
            && x matches Err(f) && f == spec_from_nvme(*e))),
        fw matches Some(c) ==> (c matches Ok(d) ==> (!spec_marvell_sig(d@) ==> (s matches
        NvmeStep::Done(x) && x matches Err(f) && f is ProtocolMismatch))),
        fw matches Some(c) ==> (c matches Ok(d) ==> ((spec_marvell_sig(d@) && req is None)
            ==> (s matches NvmeStep::Issue(q) && spec_admin_cmd(q.cmd, 0xFD, 0, 0x80, 0,
            0, 0, 0x6299, 0x50, 512) && q.direction is ToDevice))),
        fw matches Some(c) ==> (c matches Ok(d) ==> (spec_marvell_sig(d@) ==> (req matches
        Some(w) ==> (w matches Err(e) ==> (s matches NvmeStep::Done(x) && x matches Err(
        f) && f == spec_from_nvme(*e)))))),
        fw matches Some(c) ==> (c matches Ok(d) ==> (spec_marvell_sig(d@) ==> (req matches
        Some(w) ==> ((w is Ok && fid is None) ==> (s matches NvmeStep::Issue(q)
            && spec_admin_cmd(q.cmd, 0xFE, 0, 0x100, 0, 0, 0, 0x6299, 0x50, 1024)
            && q.direction is FromDevice))))),
        fw matches Some(c) ==> (c matches Ok(d) ==> (spec_marvell_sig(d@) ==> (req matches
        Some(w) ==> (w is Ok ==> (fid matches Some(r) ==> (r matches Err(e) ==> (
        s matches NvmeStep::Done(x) && x matches Err(f) && f == spec_from_nvme(
        *e)))))))),
        fw matches Some(c) ==> (c matches Ok(d) ==> (spec_marvell_sig(d@) ==> (req matches
        Some(w) ==> (w is Ok ==> (fid matches Some(r) ==> (r matches Ok(d2) ==> (
        s matches NvmeStep::Done(x) && x matches Ok(res) && res.controller_name@
            == spec_marvell_name(d@) && bank::banks_match(res.banks@, spec_marvell_banks(
            d2@))))))))),
{
    proof {
        reveal_strlit("DM1160");
        reveal_strlit("DM1140");
    }
    match fw {
        None => NvmeStep::Issue(fw_info_request()),
        Some(Err(e)) => NvmeStep::Done(Err(from_nvme(e))),
        Some(Ok(d)) => {
            let sig = text::bytes_start_with(d.as_slice(), text::str_bytes("DM1160"))
                || text::bytes_start_with(d.as_slice(), text::str_bytes("DM1140"));
            if !sig {
                NvmeStep::Done(Err(FlashIdError::ProtocolMismatch))
            } else {
                match req {
                    None => NvmeStep::Issue(request_write()),
                    Some(Err(e)) => NvmeStep::Done(Err(from_nvme(e))),
                    Some(Ok(_)) => match fid {
                        None => NvmeStep::Issue(fid_read_request()),
                        Some(Err(e)) => NvmeStep::Done(Err(from_nvme(e))),
                        Some(Ok(d2)) => {
                            let name = extract_fw_name(d.as_slice());
                            let banks = bank::scan_banks(d2.as_slice(), 0, 8, 64, false,
                                false);
                            NvmeStep::Done(Ok(FlashIdResult {
                                controller_name: name,
                                banks,
                            }))
                        },
                    },
                }
            }
        },
    }
}

} // verus!
