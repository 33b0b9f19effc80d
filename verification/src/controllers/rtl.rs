use vstd::prelude::*;

use crate::bank;
use crate::bank::FlashIdError;
use crate::bank::FlashIdResult;
use crate::controllers::NvmeStep;
use crate::detect::RtlVariant;
use crate::nvme::spec_admin_cmd;
use crate::nvme::NvmeDevice;
use crate::nvme::NvmeRequest;

verus! {

// ---------------------------------------------------------------------------
// Realtek (NVMe): every read attempt needs a fresh unlock command first,
// because vendor reads can invalidate the unlock.  The first-generation
// read is always tried first: its commands also work on second-generation
// silicon, while second-generation commands can hang some revisions.  The
// first attempt that yields a non-empty bank table wins.
// ---------------------------------------------------------------------------

/// The unlock command sent before every read attempt.
pub fn unlock_request() -> (r: NvmeRequest)
    ensures
        spec_admin_cmd(r.cmd, 0xFC, 0, 0, 0, 0, 0x0050FFFF, 0, 0, 0),
        r.direction is NoData,
{
    let dev = NvmeDevice {  };
    dev.admin_no_data(0xFC, 0, 0, 0, 0, 0x0050FFFF, 0, 0)
}

/// The flash-id read of one protocol generation.
pub fn fid_request(v: RtlVariant) -> (r: NvmeRequest)
    ensures
        v == RtlVariant::V1 ==> spec_admin_cmd(r.cmd, 0xFA, 0, 0x80, 0, 0, 0x00410000, 0,
            0, 512),
        v == RtlVariant::V2 ==> spec_admin_cmd(r.cmd, 0xFA, 0, 0x80, 0, 0xAFF03860,
            0x00010001, 0, 0, 512),
        r.direction is FromDevice,
{
    let dev = NvmeDevice {  };
    match v {
        RtlVariant::V1 => dev.admin_read(0xFA, 0, 0x80, 0, 0, 0x00410000, 0, 0, 512),
        RtlVariant::V2 => dev.admin_read(0xFA, 0, 0x80, 0, 0xAFF03860, 0x00010001, 0, 0,
            512),
    }
}

/// The banks of a read attempt: 64 slots of 8 bytes, numbered by slot
/// index, kept when non-empty with a known manufacturer byte.
pub open spec fn spec_rtl_banks(d: Seq<u8>) -> Seq<(u32, Seq<u8>)> {
    bank::spec_scan(d, 0, 8, true, false, 64)
}

/// How many attempts the variant plan holds: the first generation alone,
/// or the first generation followed by the second.
pub open spec fn spec_plan_len(v: RtlVariant) -> int {
    if v == RtlVariant::V1 {
        1
    } else {
        2
    }
}

/// Attempt `k` yielded data with a non-empty bank table.
pub open spec fn spec_attempt_hit(attempts: Seq<Option<Vec<u8>>>, k: int) -> bool {
    attempts[k] matches Some(d) && spec_rtl_banks(d@).len() > 0
}

/// The first winning attempt among the first `n`, or -1.
pub open spec fn spec_first_hit(attempts: Seq<Option<Vec<u8>>>, n: int) -> int
    decreases n,
{
    if n <= 0 {
        -1
    } else {
        let p = spec_first_hit(attempts, n - 1);
        if p >= 0 {
            p
        } else if spec_attempt_hit(attempts, n - 1) {
            n - 1
        } else {
            -1
        }
    }
}

/// The controller name each attempt resolves to.
pub open spec fn spec_attempt_name(k: int) -> Seq<char> {
    if k == 0 {
        "RTS5762/63"@
    } else {
        "RTS5765/66/72"@
    }
}

/// Run the Realtek extraction: unlock-and-read attempts in generation
/// order, stopping at the first attempt with a non-empty bank table.
/// A reply of nothing stands for a failed unlock or read.
pub fn read_flash_id(variant: &RtlVariant, attempts: &Vec<Option<Vec<u8>>>) -> (s:
    NvmeStep)
    requires
        attempts@.len() <= spec_plan_len(*variant),
        forall|i: int|
            0 <= i < attempts@.len() ==> (#[trigger] attempts@[i] matches Some(d)
                ==> d@.len() == 512),
    ensures
        spec_first_hit(attempts@, attempts@.len() as int) >= 0 ==> (s matches
        NvmeStep::Done(x) && x matches Ok(res) && ({
            let k = spec_first_hit(attempts@, attempts@.len() as int);
            &&& res.controller_name@ == spec_attempt_name(k)
            &&& attempts@[k] matches Some(d) && bank::banks_match(res.banks@,
                spec_rtl_banks(d@))
        })),
        spec_first_hit(attempts@, attempts@.len() as int) < 0 && attempts@.len()
            < spec_plan_len(*variant) ==> (s matches NvmeStep::Issue(q)
            && spec_admin_cmd(q.cmd, 0xFC, 0, 0, 0, 0, 0x0050FFFF, 0, 0, 0)),
        spec_first_hit(attempts@, attempts@.len() as int) < 0 && attempts@.len()
            == spec_plan_len(*variant) ==> (s matches NvmeStep::Done(x) && x matches Err(
        f) && f is EmptyData),
{
    let mut k: usize = 0;
    while k < attempts.len()
        invariant
            k <= attempts@.len(),
            forall|i: int|
                0 <= i < attempts@.len() ==> (#[trigger] attempts@[i] matches Some(d)
                    ==> d@.len() == 512),
            spec_first_hit(attempts@, k as int) < 0,
        decreases attempts.len() - k,
    {
        match &attempts[k] {
            Some(d) => {
                let banks = bank::scan_banks(d.as_slice(), 0, 8, 64, true, false);
                if banks.len() > 0 {
                    proof {
                        assert(spec_attempt_hit(attempts@, k as int));
                        lemma_first_hit_found(attempts@, k as int, attempts@.len() as int);
                    }
                    let name = if k == 0 {
                        String::from_str("RTS5762/63")
                    } else {
                        String::from_str("RTS5765/66/72")
                    };
                    return NvmeStep::Done(Ok(FlashIdResult {
                        controller_name: name,
                        banks,
                    }));
                }
            },
            None => {},
        }
        k += 1;
    }
    if attempts.len() < if matches!(variant, RtlVariant::V1) {
        1
    } else {
        2
    } {
        NvmeStep::Issue(unlock_request())
    } else {
        NvmeStep::Done(Err(FlashIdError::EmptyData))
    }
}

/// Once a winning attempt is found at `k` with none before it, it is the
/// first hit of any longer prefix.
proof fn lemma_first_hit_found(attempts: Seq<Option<Vec<u8>>>, k: int, n: int)
    requires
        0 <= k < n <= attempts.len(),
        spec_first_hit(attempts, k) < 0,
        spec_attempt_hit(attempts, k),
    ensures
        spec_first_hit(attempts, n) == k,
    decreases n - k,
{
    if n > k + 1 {
        lemma_first_hit_found(attempts, k, n - 1);
    }
}

/// The read request that follows a successful unlock for attempt `k`.
pub fn attempt_read_request(k: usize) -> (r: NvmeRequest)
    ensures
        k == 0 ==> spec_admin_cmd(r.cmd, 0xFA, 0, 0x80, 0, 0, 0x00410000, 0, 0, 512),
        k != 0 ==> spec_admin_cmd(r.cmd, 0xFA, 0, 0x80, 0, 0xAFF03860, 0x00010001, 0, 0,
            512),
        r.direction is FromDevice,
{
    if k == 0 {
        fid_request(RtlVariant::V1)
    } else {
        fid_request(RtlVariant::V2)
    }
}

} // verus!
