use vstd::prelude::*;

use crate::ata::spec_cdb;
use crate::ata::AtaDevice;
use crate::ata::SgRequest;
use crate::bank;
use crate::bank::FlashIdError;
use crate::bank::FlashIdResult;
use crate::controllers::AtaStep;

verus! {

// ---------------------------------------------------------------------------
// Yeestor / SiliconGo (SATA): READ DMA with a distinguishing device
// register value, cycling five magic LBA patterns.  The first pattern
// whose response starts with an allow-listed JEDEC manufacturer byte and
// yields non-empty banks wins.
// ---------------------------------------------------------------------------

/// The (LBA mid, LBA low) magic pattern of attempt `k`.
pub open spec fn spec_magic_lba(k: int) -> (u8, u8) {
    if k == 0 {
        (0x55u8, 0x00u8)
    } else if k == 1 {
        (0x00u8, 0x55u8)
    } else if k == 2 {
        (0xAAu8, 0x00u8)
    } else if k == 3 {
        (0x00u8, 0xAAu8)
    } else {
        (0x55u8, 0xAAu8)
    }
}

/// The READ DMA request of one magic pattern.
pub fn read_magic_dma(lba_mid: u8, lba_low: u8) -> (r: SgRequest)
    ensures
        r.cdb@ == spec_cdb(6, 0x2E, 0xC8, 0x00, 1, lba_low, lba_mid, 0x00, 0x40),
        r.direction is FromDevice,
        r.data_len == 512,
{
    let dev = AtaDevice {  };
    dev.ata_dma_read(0xC8, 0x00, 1, lba_low, lba_mid, 0x00, 0x40, 512)
}

/// The manufacturer bytes this family accepts as a first response byte.
pub open spec fn spec_yeestor_jedec(b: u8) -> bool {
    b == 0x2C || b == 0x89 || b == 0xAD || b == 0x45 || b == 0xEC || b == 0x98 || b
        == 0xC8 || b == 0x9B || b == 0x01
}

/// Whether the byte is on this family's allow list.
pub fn is_yeestor_jedec(b: u8) -> (r: bool)
    ensures
        r == spec_yeestor_jedec(b),
{
    b == 0x2C || b == 0x89 || b == 0xAD || b == 0x45 || b == 0xEC || b == 0x98 || b
        == 0xC8 || b == 0x9B || b == 0x01
}

/// The banks of a response: slots of 8 bytes from the start, scanning
/// stops at the first empty slot, at most 16 slots.
pub open spec fn spec_yeestor_banks(d: Seq<u8>) -> Seq<(u32, Seq<u8>)> {
    bank::spec_scan(d, 0, 8, false, true, 16)
}

/// Attempt `k` yielded data whose first byte is allow-listed and whose
/// bank table is non-empty.
pub open spec fn spec_attempt_hit(attempts: Seq<Option<Vec<u8>>>, k: int) -> bool {
    attempts[k] matches Some(d) && spec_yeestor_jedec(d@[0]) && spec_yeestor_banks(
        d@).len() > 0
}

/// The first winning attempt among the first `n`, or -1.
pub open spec fn spec_first_hit(attempts: Seq<Option<Vec<u8>>>, n: int) -> int
    decreases n,
{
    if n <= 0 {
        -1
    } else {
        let p = spec_first_hit(attempts, n - 1);
        if p >= 0 {
            p
        } else if spec_attempt_hit(attempts, n - 1) {
            n - 1
        } else {
            -1
        }
    }
}

/// The display name of the winning pattern.
pub open spec fn spec_yeestor_name(k: int) -> Seq<char> {
    if k == 0 {
        "Yeestor/SiliconGo (DMA 0x5500)"@
    } else if k == 1 {
        "Yeestor/SiliconGo (DMA 0x0055)"@
    } else if k == 2 {
        "Yeestor/SiliconGo (DMA 0xAA00)"@
    } else if k == 3 {
        "Yeestor/SiliconGo (DMA 0x00AA)"@
    } else {
        "Yeestor/SiliconGo (DMA 0x55AA)"@
    }
}

/// Run the Yeestor extraction: magic-pattern reads in fixed order, taking
/// the first response that passes the allow list and yields banks.  A
/// reply of nothing stands for a failed read.
pub fn read_flash_id(attempts: &Vec<Option<Vec<u8>>>) -> (s: AtaStep)
    requires
        attempts@.len() <= 5,
        forall|i: int|
            0 <= i < attempts@.len() ==> (#[trigger] attempts@[i] matches Some(d)
                ==> d@.len() == 512),
    ensures
        spec_first_hit(attempts@, attempts@.len() as int) >= 0 ==> (s matches
        AtaStep::Done(x) && x matches Ok(res) && ({
            let k = spec_first_hit(attempts@, attempts@.len() as int);
            &&& res.controller_name@ == spec_yeestor_name(k)
            &&& attempts@[k] matches Some(d) && bank::banks_match(res.banks@,
                spec_yeestor_banks(d@))
        })),
        spec_first_hit(attempts@, attempts@.len() as int) < 0 && attempts@.len() < 5 ==> (
        s matches AtaStep::Issue(q) && q.cdb@ == spec_cdb(6, 0x2E, 0xC8, 0x00, 1,
        spec_magic_lba(attempts@.len() as int).1, spec_magic_lba(
            attempts@.len() as int).0, 0x00, 0x40) && q.direction is FromDevice),
        spec_first_hit(attempts@, attempts@.len() as int) < 0 && attempts@.len() == 5
            ==> (s matches AtaStep::Done(x) && x matches Err(f) && f is EmptyData),
{
    let mut k: usize = 0;
    while k < attempts.len()
        invariant
            k <= attempts@.len(),
            attempts@.len() <= 5,
            forall|i: int|
                0 <= i < attempts@.len() ==> (#[trigger] attempts@[i] matches Some(d)
                    ==> d@.len() == 512),
            spec_first_hit(attempts@, k as int) < 0,
        decreases attempts.len() - k,
    {
        match &attempts[k] {
            Some(d) => {
                if is_yeestor_jedec(d.as_slice()[0]) {
                    let banks = bank::scan_banks(d.as_slice(), 0, 8, 16, false, true);
                    if banks.len() > 0 {
                        proof {
                            assert(spec_attempt_hit(attempts@, k as int));
                            lemma_first_hit_found(attempts@, k as int,
                                attempts@.len() as int);
                        }
                        let name = if k == 0 {
                            String::from_str("Yeestor/SiliconGo (DMA 0x5500)")
                        } else if k == 1 {
                            String::from_str("Yeestor/SiliconGo (DMA 0x0055)")
                        } else if k == 2 {
                            String::from_str("Yeestor/SiliconGo (DMA 0xAA00)")
                        } else if k == 3 {
                            String::from_str("Yeestor/SiliconGo (DMA 0x00AA)")
                        } else {
                            String::from_str("Yeestor/SiliconGo (DMA 0x55AA)")
                        };
                        return AtaStep::Done(Ok(FlashIdResult {
                            controller_name: name,
                            banks,
                        }));
                    }
                }
            },
            None => {},
        }
        k += 1;
    }
    if attempts.len() < 5 {
        let (mid, low) = if attempts.len() == 0 {
            (0x55, 0x00)
        } else if attempts.len() == 1 {
            (0x00, 0x55)
        } else if attempts.len() == 2 {
            (0xAA, 0x00)
        } else if attempts.len() == 3 {
            (0x00, 0xAA)
        } else {
            (0x55, 0xAA)
        };
        AtaStep::Issue(read_magic_dma(mid, low))
    } else {
        AtaStep::Done(Err(FlashIdError::EmptyData))
    }
}

/// Once a winning attempt is found at `k` with none before it, it is the
/// first hit of any longer prefix.
proof fn lemma_first_hit_found(attempts: Seq<Option<Vec<u8>>>, k: int, n: int)
    requires
        0 <= k < n <= attempts.len(),
        spec_first_hit(attempts, k) < 0,
        spec_attempt_hit(attempts, k),
    ensures
        spec_first_hit(attempts, n) == k,
    decreases n - k,
{
    if n > k + 1 {
        lemma_first_hit_found(attempts, k, n - 1);
    }
}

} // verus!
