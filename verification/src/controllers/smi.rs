use vstd::prelude::*;

use crate::bank;
use crate::bank::FlashIdResult;
use crate::controllers::from_nvme;
use crate::controllers::spec_from_nvme;
use crate::controllers::spec_name_or;
use crate::controllers::NvmeStep;
use crate::nvme::spec_admin_cmd;
use crate::nvme::NvmeDevice;
use crate::nvme::NvmeError;
use crate::nvme::NvmeRequest;
use crate::text;

verus! {

// ---------------------------------------------------------------------------
// Silicon Motion (NVMe): one vendor read returns a 2048-byte buffer with a
// bank table in [0x30, 0x1F0) and the controller name at 0x1F0.  A slot
// becomes a bank only when it is non-empty and its first byte is a known
// JEDEC manufacturer code.
// ---------------------------------------------------------------------------

/// The vendor flash-id read: opcode 0xC2, 2048 bytes.
pub fn flash_id_request() -> (r: NvmeRequest)
    ensures
        spec_admin_cmd(r.cmd, 0xC2, 0, 0x200, 0, 0x40, 0x01, 0, 0, 2048),
        r.direction is FromDevice,
{
    let dev = NvmeDevice {  };
    dev.admin_read(0xC2, 0, 0x200, 0, 0x40, 0x01, 0, 0, 2048)
}

/// The controller name found in the tail of the response: the bytes up to
/// the first NUL, cleaned and trimmed, or "SMI" when that leaves nothing.
pub open spec fn spec_smi_name(tail: Seq<u8>) -> Seq<char> {
    spec_name_or(tail.take(text::spec_run_len(tail, 0, text::pred_nonzero())), "SMI"@)
}

/// Extract the controller name from the response tail.
pub fn extract_controller_name(data: &[u8]) -> (r: String)
    ensures
        r@ == spec_smi_name(data@),
{
    let mut end: usize = 0;
    while end < data.len() && data[end] != 0
        invariant
            end <= data.len(),
            forall|j: int| 0 <= j < end ==> data@[j] != 0u8,
        decreases data.len() - end,
    {
        end += 1;
    }
    proof {
        text::lemma_run_len(data@, 0, end as int, text::pred_nonzero());
    }
    let name = text::clean_trimmed_string(&data[0..end]);
    if name.as_str().is_empty() {
        String::from_str("SMI")
    } else {
        name
    }
}

/// The banks of a response: slots of 8 bytes from 0x30 to 0x1F0, numbered
/// by slot index, kept when non-empty with a known manufacturer byte.
pub open spec fn spec_smi_banks(d: Seq<u8>) -> Seq<(u32, Seq<u8>)> {
    bank::spec_scan(d, 0x30, 8, true, false, 56)
}

/// Run the Silicon Motion extraction: issue the vendor read, then turn its
/// response into the bank table and controller name.
pub fn read_flash_id(resp: &Option<Result<Vec<u8>, NvmeError>>) -> (s: NvmeStep)
    requires
        resp matches Some(r) ==> (r matches Ok(d) ==> d@.len() == 2048),
    ensures
        resp is None ==> (s matches NvmeStep::Issue(q) && spec_admin_cmd(q.cmd, 0xC2, 0,
            0x200, 0, 0x40, 0x01, 0, 0, 2048) && q.direction is FromDevice),
        resp matches Some(r) ==> (r matches Err(e) ==> (s matches NvmeStep::Done(x)
            && x matches Err(f) && f == spec_from_nvme(*e))),
        resp matches Some(r) ==> (r matches Ok(d) ==> (s matches NvmeStep::Done(x)
            && x matches Ok(res) && res.controller_name@ == spec_smi_name(d@.subrange(
            0x1F0, 2048)) && bank::banks_match(res.banks@, spec_smi_banks(d@)))),
{
    match resp {
        None => NvmeStep::Issue(flash_id_request()),
        Some(Err(e)) => NvmeStep::Done(Err(from_nvme(e))),
        Some(Ok(d)) => {
            let name = extract_controller_name(&d.as_slice()[0x1F0..2048]);
            let banks = bank::scan_banks(d.as_slice(), 0x30, 8, 56, true, false);
            NvmeStep::Done(Ok(FlashIdResult { controller_name: name, banks }))
        },
    }
}

} // verus!
