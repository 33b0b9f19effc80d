use vstd::prelude::*;

use crate::bank;
use crate::bank::FlashBank;
use crate::bank::FlashIdResult;
use crate::controllers::from_nvme;
use crate::controllers::spec_from_nvme;
use crate::controllers::zero_vec;
use crate::nvme::spec_admin_cmd;
use crate::nvme::NvmeDevice;
use crate::nvme::NvmeError;
use crate::nvme::NvmeRequest;
use crate::text;

verus! {

// ---------------------------------------------------------------------------
// Maxio (NVMe): a prepare write selects what the following read returns.
// After one bulk read that carries the controller model, 8 channels times
// 8 chip enables are enumerated; a failed prepare or read skips the slot.
// ---------------------------------------------------------------------------

/// The prepare write: opcode 0xC1 with sub-command, channel and chip
/// enable at fixed payload offsets.
pub open spec fn spec_c1_payload(subcmd: u8, channel: u8, ce: u8) -> Seq<u8> {
    Seq::new(512, |i: int|
        if i == 0 {
            0xFFu8
        } else if i == 1 {
            0xE5u8
        } else if i == 2 {
            subcmd
        } else if i == 3 {
            channel
        } else if i == 4 {
            ce
        } else {
            0u8
        })
}

/// Build the prepare write for one sub-command, channel and chip enable.
pub fn send_c1(subcmd: u8, channel: u8, ce: u8) -> (r: NvmeRequest)
    ensures
        spec_admin_cmd(r.cmd, 0xC1, 0, 0x80, 0, 0x001234FF, 0x01, 0, 0, 512),
        r.direction is ToDevice,
        r.data_out@ == spec_c1_payload(subcmd, channel, ce),
{
    let dev = NvmeDevice {  };
    let mut payload = zero_vec(512);
    payload[0] = 0xFF;
    payload[1] = 0xE5;
    payload[2] = subcmd;
    payload[3] = channel;
    payload[4] = ce;
    proof {
        assert(payload@ =~= spec_c1_payload(subcmd, channel, ce));
    }
    dev.admin_write(0xC1, 0, 0x80, 0, 0x001234FF, 0x01, 0, 0, payload.as_slice())
}

/// The bulk read that carries the controller model: opcode 0xC2.
pub fn bulk_request() -> (r: NvmeRequest)
    ensures
        spec_admin_cmd(r.cmd, 0xC2, 0, 0x400, 0, 0x123486, 0x08, 0, 0, 4096),
        r.direction is FromDevice,
{
    let dev = NvmeDevice {  };
    dev.admin_read(0xC2, 0, 0x400, 0, 0x123486, 0x08, 0, 0, 4096)
}

/// The per-slot read that follows a prepare write.
pub fn slot_read_request() -> (r: NvmeRequest)
    ensures
        spec_admin_cmd(r.cmd, 0xC2, 0, 0x80, 0, 0x123436, 0x01, 0, 0, 512),
        r.direction is FromDevice,
{
    let dev = NvmeDevice {  };
    dev.admin_read(0xC2, 0, 0x80, 0, 0x123436, 0x01, 0, 0, 512)
}

/// The controller name found in the bulk response, by the first matching
/// model tag, or "Maxio MAP" when none occurs.
pub open spec fn spec_maxio_name(d: Seq<u8>) -> Seq<char> {
    if text::spec_contains(d, text::spec_ascii_bytes(",MAP1602"@)) {
        "MAP1602"@
    } else if text::spec_contains(d, text::spec_ascii_bytes(",MAP1601"@)) {
        "MAP1601"@
    } else if text::spec_contains(d, text::spec_ascii_bytes(",MAP1202"@)) {
        "MAP1202"@
    } else if text::spec_contains(d, text::spec_ascii_bytes(",MAP1201"@)) {
        "MAP1201"@
    } else if text::spec_contains(d, text::spec_ascii_bytes(",MAP1003"@)) {
        "MAP1003"@
    } else if text::spec_contains(d, text::spec_ascii_bytes(",MAP1002"@)) {
        "MAP1002"@
    } else if text::spec_contains(d, text::spec_ascii_bytes(",MAP1001"@)) {
        "MAP1001"@
    } else {
        "Maxio MAP"@
    }
}

/// Extract the controller name from the bulk response.
pub fn extract_controller_name(d: &[u8]) -> (r: String)
    ensures
        r@ == spec_maxio_name(d@),
{
    proof {
        reveal_strlit(",MAP1602");
        reveal_strlit(",MAP1601");
        reveal_strlit(",MAP1202");
        reveal_strlit(",MAP1201");
        reveal_strlit(",MAP1003");
        reveal_strlit(",MAP1002");
        reveal_strlit(",MAP1001");
    }
    if text::bytes_contain(d, text::str_bytes(",MAP1602")) {
        String::from_str("MAP1602")
    } else if text::bytes_contain(d, text::str_bytes(",MAP1601")) {
        String::from_str("MAP1601")
    } else if text::bytes_contain(d, text::str_bytes(",MAP1202")) {
        String::from_str("MAP1202")
    } else if text::bytes_contain(d, text::str_bytes(",MAP1201")) {
        String::from_str("MAP1201")
    } else if text::bytes_contain(d, text::str_bytes(",MAP1003")) {
        String::from_str("MAP1003")
    } else if text::bytes_contain(d, text::str_bytes(",MAP1002")) {
        String::from_str("MAP1002")
    } else if text::bytes_contain(d, text::str_bytes(",MAP1001")) {
        String::from_str("MAP1001")
    } else {
        String::from_str("Maxio MAP")
    }
}

/// The next move of the Maxio extraction.
pub enum MaxioStep {
    /// Submit the initial prepare write.
    Prepare(NvmeRequest),
    /// Submit the bulk model read.
    Bulk(NvmeRequest),
    /// Prepare one slot and, if the prepare succeeds, read it; hand back
    /// the slot data, or nothing when either call failed.
    Slot(NvmeRequest, NvmeRequest),
    /// The extraction is finished.
    Done(Result<FlashIdResult, crate::bank::FlashIdError>),
}

/// How many of the first `k` slot attempts completed both calls.
pub open spec fn spec_slot_count(slots: Seq<Option<Vec<u8>>>, k: int) -> int
    decreases k,
{
    if k <= 0 {
        0
    } else {
        spec_slot_count(slots, k - 1) + if slots[k - 1] is Some {
            1int
        } else {
            0int
        }
    }
}

/// The banks of the slot replies: a completed slot with a non-empty first
/// 8 bytes becomes a bank, numbered by the count of completed slots before
/// it.
pub open spec fn spec_maxio_banks(slots: Seq<Option<Vec<u8>>>, k: int) -> Seq<
    (u32, Seq<u8>),
>
    decreases k,
{
    if k <= 0 {
        Seq::empty()
    } else {
        let pre = spec_maxio_banks(slots, k - 1);
        match slots[k - 1] {
            Some(d) => if !bank::spec_bank_empty(d@.take(8)) {
                pre.push((spec_slot_count(slots, k - 1) as u32, d@.take(8)))
            } else {
                pre
            },
            None => pre,
        }
    }
}

/// Collect the banks of the slot replies.
fn collect_banks(slots: &Vec<Option<Vec<u8>>>) -> (banks: Vec<FlashBank>)
    requires
        slots@.len() <= 64,
        forall|i: int|
            0 <= i < slots@.len() ==> (#[trigger] slots@[i] matches Some(d) ==> d@.len()
                == 512),
    ensures
        bank::banks_match(banks@, spec_maxio_banks(slots@, slots@.len() as int)),
{
    let mut banks: Vec<FlashBank> = Vec::new();
    let mut count: u32 = 0;
    let mut k: usize = 0;
    while k < slots.len()
        invariant
            k <= slots@.len() <= 64,
            forall|i: int|
                0 <= i < slots@.len() ==> (#[trigger] slots@[i] matches Some(d)
                    ==> d@.len() == 512),
            count == spec_slot_count(slots@, k as int),
            count <= k,
            bank::banks_match(banks@, spec_maxio_banks(slots@, k as int)),
        decreases slots.len() - k,
    {
        match &slots[k] {
            Some(d) => {
                let first8 = &d.as_slice()[0..8];
                proof {
                    assert(first8@ =~= d@.take(8));
                }
                if !bank::is_bank_empty(first8) {
                    let id = bank::read_slot_id(d.as_slice(), 0, 8);
                    proof {
                        assert(id@ =~= d@.take(8));
                    }
                    banks.push(FlashBank { bank_num: count, flash_id: id });
                }
                count += 1;
            },
            None => {},
        }
        k += 1;
    }
    banks
}

/// Run the Maxio extraction: the initial prepare, the bulk model read,
/// then 64 slot attempts over 8 channels times 8 chip enables.
pub fn read_flash_id(
    prep: &Option<Result<Vec<u8>, NvmeError>>,
    bulk: &Option<Result<Vec<u8>, NvmeError>>,
    slots: &Vec<Option<Vec<u8>>>,
) -> (s: MaxioStep)
    requires
        slots@.len() <= 64,
        forall|i: int|
            0 <= i < slots@.len() ==> (#[trigger] slots@[i] matches Some(d) ==> d@.len()
                == 512),
    ensures
        prep is None ==> (s matches MaxioStep::Prepare(q) && spec_admin_cmd(q.cmd, 0xC1,
            0, 0x80, 0, 0x001234FF, 0x01, 0, 0, 512) && q.direction is ToDevice
            && q.data_out@ == spec_c1_payload(0x86, 0, 0)),
        prep matches Some(p) ==> (p matches Err(e) ==> (s matches MaxioStep::Done(x)
            && x matches Err(f) && f == spec_from_nvme(*e))),
        prep matches Some(p) ==> (p is Ok ==> (bulk is None ==> (s matches
        MaxioStep::Bulk(q) && spec_admin_cmd(q.cmd, 0xC2, 0, 0x400, 0, 0x123486, 0x08, 0,
        0, 4096) && q.direction is FromDevice))),
        prep matches Some(p) ==> (p is Ok ==> (bulk matches Some(b) ==> (b matches Err(e)
            ==> (s matches MaxioStep::Done(x) && x matches Err(f) && f == spec_from_nvme(
            *e))))),
        prep matches Some(p) ==> (p is Ok ==> (bulk matches Some(b) ==> (b is Ok
            && slots@.len() < 64 ==> (s matches MaxioStep::Slot(w, r2)
            && spec_admin_cmd(w.cmd, 0xC1, 0, 0x80, 0, 0x001234FF, 0x01, 0, 0, 512)
            && w.data_out@ == spec_c1_payload(0x36, (slots@.len() / 8) as u8, (
        slots@.len() % 8) as u8) && spec_admin_cmd(r2.cmd, 0xC2, 0, 0x80, 0, 0x123436,
        0x01, 0, 0, 512))))),
        prep matches Some(p) ==> (p is Ok ==> (bulk matches Some(b) ==> (b matches Ok(d)
            ==> (slots@.len() == 64 ==> (s matches MaxioStep::Done(x) && x matches Ok(
        res) && res.controller_name@ == spec_maxio_name(d@) && bank::banks_match(
        res.banks@, spec_maxio_banks(slots@, 64))))))),
{
    match prep {
        None => MaxioStep::Prepare(send_c1(0x86, 0, 0)),
        Some(Err(e)) => MaxioStep::Done(Err(from_nvme(e))),
        Some(Ok(_)) => match bulk {
            None => MaxioStep::Bulk(bulk_request()),
            Some(Err(e)) => MaxioStep::Done(Err(from_nvme(e))),
            Some(Ok(d)) => {
                if slots.len() < 64 {
                    let ch = (slots.len() / 8) as u8;
                    let ce = (slots.len() % 8) as u8;
                    MaxioStep::Slot(send_c1(0x36, ch, ce), slot_read_request())
                } else {
                    let name = extract_controller_name(d.as_slice());
                    let banks = collect_banks(slots);
                    MaxioStep::Done(Ok(FlashIdResult { controller_name: name, banks }))
                }
            },
        },
    }
}

} // verus!
