use vstd::prelude::*;

use crate::bank;
use crate::bank::FlashIdResult;
use crate::controllers::from_nvme;
use crate::controllers::spec_from_nvme;
use crate::controllers::zero_vec;
use crate::controllers::NvmeStep;
use crate::nvme::spec_admin_cmd;
use crate::nvme::NvmeDevice;
use crate::nvme::NvmeError;
use crate::nvme::NvmeRequest;

verus! {

// ---------------------------------------------------------------------------
// Tenafe (NVMe): write a fixed configuration template, then read back a
// 4096-byte buffer whose bank table starts at 0x50, 32 slots of 8 bytes.
// ---------------------------------------------------------------------------

/// The fixed configuration template the extraction starts with.
pub open spec fn spec_config_payload() -> Seq<u8> {
    Seq::new(4096, |i: int|
        if i == 0x00 {
            0x03u8
        } else if i == 0x02 {
            0x0Cu8
        } else if i == 0x04 {
            0x01u8
        } else if i == 0x08 {
            0x08u8
        } else if i == 0x0D {
            0x04u8
        } else if i == 0x11 {
            0x04u8
        } else {
            0u8
        })
}

/// Build the configuration template.
pub fn config_payload() -> (v: Vec<u8>)
    ensures
        v@ == spec_config_payload(),
{
    let mut v = zero_vec(4096);
    v[0x00] = 0x03;
    v[0x02] = 0x0C;
    v[0x04] = 0x01;
    v[0x08] = 0x08;
    v[0x0D] = 0x04;
    v[0x11] = 0x04;
    proof {
        assert(v@ =~= spec_config_payload());
    }
    v
}

/// The configuration write: opcode 0xC1 on namespace 1.
pub fn config_request() -> (r: NvmeRequest)
    ensures
        spec_admin_cmd(r.cmd, 0xC1, 1, 0x400, 0, 0x08, 0, 0, 0, 4096),
        r.direction is ToDevice,
        r.data_out@ == spec_config_payload(),
{
    let dev = NvmeDevice {  };
    let payload = config_payload();
    dev.admin_write(0xC1, 1, 0x400, 0, 0x08, 0, 0, 0, payload.as_slice())
}

/// The flash-id read: opcode 0xC2 on namespace 1, 4096 bytes.
pub fn flash_id_request() -> (r: NvmeRequest)
    ensures
        spec_admin_cmd(r.cmd, 0xC2, 1, 0x400, 0, 0x08, 0, 0, 0, 4096),
        r.direction is FromDevice,
{
    let dev = NvmeDevice {  };
    dev.admin_read(0xC2, 1, 0x400, 0, 0x08, 0, 0, 0, 4096)
}

/// The banks of a response: 32 slots of 8 bytes from 0x50, numbered by
/// slot index, kept when non-empty.
pub open spec fn spec_tenafe_banks(d: Seq<u8>) -> Seq<(u32, Seq<u8>)> {
    bank::spec_scan(d, 0x50, 8, false, false, 32)
}

/// Run the Tenafe extraction: the configuration write, the flash-id read,
/// then the fixed-offset bank scan.
pub fn read_flash_id(
    cfg: &Option<Result<Vec<u8>, NvmeError>>,
    data: &Option<Result<Vec<u8>, NvmeError>>,
) -> (s: NvmeStep)
    requires
        data matches Some(r) ==> (r matches Ok(d) ==> d@.len() == 4096),
    ensures
        cfg is None ==> (s matches NvmeStep::Issue(q) && spec_admin_cmd(q.cmd, 0xC1, 1,
            0x400, 0, 0x08, 0, 0, 0, 4096) && q.direction is ToDevice && q.data_out@
            == spec_config_payload()),
        cfg matches Some(c) ==> (c matches Err(e) ==> (s matches NvmeStep::Done(x)
            && x matches Err(f) && f == spec_from_nvme(*e))),
        cfg matches Some(c) ==> ((c is Ok && data is None) ==> (s matches NvmeStep::Issue(
            q) && spec_admin_cmd(q.cmd, 0xC2, 1, 0x400, 0, 0x08, 0, 0, 0, 4096)
            && q.direction is FromDevice)),
        cfg matches Some(c) ==> (c is Ok ==> (data matches Some(r) ==> (r matches Err(e)
            ==> (s matches NvmeStep::Done(x) && x matches Err(f) && f == spec_from_nvme(
            *e))))),
        cfg matches Some(c) ==> (c is Ok ==> (data matches Some(r) ==> (r matches Ok(d)
            ==> (s matches NvmeStep::Done(x) && x matches Ok(res)
            && res.controller_name@ == "Tenafe TC2200/TC2201"@ && bank::banks_match(
            res.banks@, spec_tenafe_banks(d@)))))),
{
    match cfg {
        None => NvmeStep::Issue(config_request()),
        Some(Err(e)) => NvmeStep::Done(Err(from_nvme(e))),
        Some(Ok(_)) => match data {
            None => NvmeStep::Issue(flash_id_request()),
            Some(Err(e)) => NvmeStep::Done(Err(from_nvme(e))),
            Some(Ok(d)) => {
                let banks = bank::scan_banks(d.as_slice(), 0x50, 8, 32, false, false);
                NvmeStep::Done(Ok(FlashIdResult {
                    controller_name: String::from_str("Tenafe TC2200/TC2201"),
                    banks,
                }))
            },
        },
    }
}

} // verus!
