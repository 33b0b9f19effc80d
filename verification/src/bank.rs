use vstd::prelude::*;

verus! {

// ---------------------------------------------------------------------------
// Flash banks and the shared slot-scan engine.
//
// Every controller family ultimately produces a table of candidate 8-byte
// flash identifiers.  A populated slot is distinguished from a sentinel-empty
// one by `is_bank_empty`; some families additionally require the first byte
// to be a known JEDEC manufacturer code.
// ---------------------------------------------------------------------------

/// One physical flash chip-enable slot: an ordinal index and the raw
/// 8-byte identifier read from it.
#[derive(Clone)]
pub struct FlashBank {
    pub bank_num: u32,
    pub flash_id: [u8; 8],
}

/// The final product of one extraction run: the controller's display name
/// and the banks in extraction order.
#[derive(Clone)]
pub struct FlashIdResult {
    pub controller_name: String,
    pub banks: Vec<FlashBank>,
}

/// Why an extraction run produced no result.
pub enum FlashIdError {
    /// The device-control call itself failed; carries the OS error code.
    Transport { errno: i32 },
    /// Fatal host or driver status on the pass-through channel.
    Status { host: u16, driver: u16 },
    /// The device accepted the I/O but rejected the command itself.
    Rejected { status: u8, error: u8 },
    /// The response does not carry the expected vendor signature.
    ProtocolMismatch,
    /// Every candidate slot was sentinel-empty or failed validation.
    EmptyData,
}

impl FlashIdError {
    /// A short human-readable description of the error class.
    pub fn message(&self) -> (r: String)
        ensures
            self is Transport ==> r@ == "device-control call failed"@,
            self is Status ==> r@ == "fatal host or driver status"@,
            self is Rejected ==> r@ == "command rejected by the device"@,
            self is ProtocolMismatch ==> r@
                == "response does not match the expected vendor signature"@,
            self is EmptyData ==> r@ == "no flash ID data in the response"@,
    {
        match self {
            FlashIdError::Transport { errno: _ } => String::from_str(
                "device-control call failed",
            ),
            FlashIdError::Status { host: _, driver: _ } => String::from_str(
                "fatal host or driver status",
            ),
            FlashIdError::Rejected { status: _, error: _ } => String::from_str(
                "command rejected by the device",
            ),
            FlashIdError::ProtocolMismatch => String::from_str(
                "response does not match the expected vendor signature",
            ),
            FlashIdError::EmptyData => String::from_str("no flash ID data in the response"),
        }
    }
}

/// True iff every byte of `data` is 0x00, or every byte is 0xFF
/// (vacuously true for an empty sequence).
pub open spec fn spec_bank_empty(data: Seq<u8>) -> bool {
    (forall|i: int| 0 <= i < data.len() ==> data[i] == 0x00u8) || (forall|i: int|
        0 <= i < data.len() ==> data[i] == 0xFFu8)
}

/// A slot is empty when it is all 0x00 or all 0xFF.
pub fn is_bank_empty(data: &[u8]) -> (r: bool)
    ensures
        r == spec_bank_empty(data@),
{
    let mut all_zero = true;
    let mut all_ff = true;
    let mut i: usize = 0;
    while i < data.len()
        invariant
            i <= data.len(),
            all_zero == (forall|j: int| 0 <= j < i ==> data@[j] == 0x00u8),
            all_ff == (forall|j: int| 0 <= j < i ==> data@[j] == 0xFFu8),
        decreases data.len() - i,
    {
        if data[i] != 0x00 {
            all_zero = false;
        }
        if data[i] != 0xFF {
            all_ff = false;
        }
        i += 1;
    }
    all_zero || all_ff
}

/// Known JEDEC NAND manufacturer codes.
pub open spec fn spec_known_manufacturer(id: u8) -> bool {
    id == 0x01 || id == 0x04 || id == 0x07 || id == 0x20 || id == 0x2C || id == 0x45 || id
        == 0x4A || id == 0x51 || id == 0x89 || id == 0x92 || id == 0x98 || id == 0x9B || id
        == 0xAD || id == 0xB5 || id == 0xC2 || id == 0xC8 || id == 0xEC || id == 0xEF
}

/// Whether `id` is a known JEDEC manufacturer byte.
pub fn is_known_manufacturer(id: u8) -> (r: bool)
    ensures
        r == spec_known_manufacturer(id),
{
    id == 0x01 || id == 0x04 || id == 0x07 || id == 0x20 || id == 0x2C || id == 0x45 || id
        == 0x4A || id == 0x51 || id == 0x89 || id == 0x92 || id == 0x98 || id == 0x9B || id
        == 0xAD || id == 0xB5 || id == 0xC2 || id == 0xC8 || id == 0xEC || id == 0xEF
}

/// The candidate bytes of slot `i` in a table that starts at `start` and
/// holds entries of `elen` bytes.
pub open spec fn spec_slot(buf: Seq<u8>, start: int, elen: int, i: int) -> Seq<u8> {
    buf.subrange(start + i * elen, start + i * elen + elen)
}

/// A short entry padded with zero bytes to the fixed 8-byte identifier.
pub open spec fn spec_pad8(s: Seq<u8>) -> Seq<u8> {
    Seq::new(8, |i: int| if i < s.len() { s[i] } else { 0u8 })
}

/// Whether slot `i` passes validation: it is not sentinel-empty and, where
/// required, its first byte is a known manufacturer code.
pub open spec fn spec_slot_ok(
    buf: Seq<u8>,
    start: int,
    elen: int,
    require_known: bool,
    i: int,
) -> bool {
    let sl = spec_slot(buf, start, elen, i);
    !spec_bank_empty(sl) && (!require_known || spec_known_manufacturer(sl[0]))
}

/// The banks collected from the first `n` slots, as (bank number, raw bytes)
/// pairs.  With `stop` set, scanning halts at the first slot that fails
/// validation; otherwise failing slots are skipped and numbering continues
/// by slot index.
pub open spec fn spec_scan(
    buf: Seq<u8>,
    start: int,
    elen: int,
    require_known: bool,
    stop: bool,
    n: int,
) -> Seq<(u32, Seq<u8>)>
    decreases n,
{
    if n <= 0 {
        Seq::empty()
    } else {
        let pre = spec_scan(buf, start, elen, require_known, stop, n - 1);
        if stop && pre.len() < n - 1 {
            pre
        } else if spec_slot_ok(buf, start, elen, require_known, n - 1) {
            pre.push(((n - 1) as u32, spec_pad8(spec_slot(buf, start, elen, n - 1))))
        } else {
            pre
        }
    }
}

/// One byte of the padded identifier of a slot.
fn slot_byte(buf: &[u8], off: usize, elen: usize, j: usize) -> (b: u8)
    requires
        j < 8,
        elen <= 8,
        off + elen <= buf.len(),
    ensures
        b == spec_pad8(buf@.subrange(off as int, off + elen))[j as int],
{
    if j < elen {
        buf[off + j]
    } else {
        0
    }
}

/// Read the padded 8-byte identifier of the slot at `off`.
pub fn read_slot_id(buf: &[u8], off: usize, elen: usize) -> (id: [u8; 8])
    requires
        1 <= elen <= 8,
        off + elen <= buf.len(),
    ensures
        id@ == spec_pad8(buf@.subrange(off as int, off + elen)),
{
    let id: [u8; 8] = [
        slot_byte(buf, off, elen, 0),
        slot_byte(buf, off, elen, 1),
        slot_byte(buf, off, elen, 2),
        slot_byte(buf, off, elen, 3),
        slot_byte(buf, off, elen, 4),
        slot_byte(buf, off, elen, 5),
        slot_byte(buf, off, elen, 6),
        slot_byte(buf, off, elen, 7),
    ];
    proof {
        assert(id@ =~= spec_pad8(buf@.subrange(off as int, off + elen)));
    }
    id
}

/// Whether two identifiers hold the same bytes.
pub fn ids_equal(a: &[u8; 8], b: &[u8; 8]) -> (r: bool)
    ensures
        r == (a@ == b@),
{
    let mut i: usize = 0;
    while i < 8
        invariant
            i <= 8,
            forall|j: int| 0 <= j < i ==> a@[j] == b@[j],
        decreases 8 - i,
    {
        if a[i] != b[i] {
            return false;
        }
        i += 1;
    }
    proof {
        assert(a@ =~= b@);
    }
    true
}

/// The relation between an executable bank vector and its specification.
pub open spec fn banks_match(banks: Seq<FlashBank>, s: Seq<(u32, Seq<u8>)>) -> bool {
    banks.len() == s.len() && (forall|i: int|
        0 <= i < s.len() ==> banks[i].bank_num == s[i].0 && banks[i].flash_id@ == s[i].1)
}

/// Scan a fixed table of identifier slots.
pub fn scan_banks(
    buf: &[u8],
    start: usize,
    elen: usize,
    max: usize,
    require_known: bool,
    stop: bool,
) -> (banks: Vec<FlashBank>)
    requires
        1 <= elen <= 8,
        start + max * elen <= buf.len(),
    ensures
        banks_match(banks@, spec_scan(buf@, start as int, elen as int, require_known, stop,
            max as int)),
{
    let mut banks: Vec<FlashBank> = Vec::new();
    let mut i: usize = 0;
    while i < max
        invariant
            i <= max,
            1 <= elen <= 8,
            start + max * elen <= buf.len(),
            banks_match(banks@, spec_scan(buf@, start as int, elen as int, require_known,
                stop, i as int)),
            stop ==> banks@.len() == i,
        decreases max - i,
    {
        proof {
            assert(start + i * elen + elen <= start + max * elen) by (nonlinear_arith)
                requires
                    i < max,
                    elen >= 1,
                    start >= 0,
            ;
        }
        let off = start + i * elen;
        let entry = &buf[off..off + elen];
        proof {
            assert(entry@ == spec_slot(buf@, start as int, elen as int, i as int));
        }
        let empty = is_bank_empty(entry);
        let ok = !empty && (!require_known || is_known_manufacturer(entry[0]));
        if ok {
            let id = read_slot_id(buf, off, elen);
            let bank = FlashBank { bank_num: i as u32, flash_id: id };
            banks.push(bank);
        } else {
            if stop {
                proof {
                    lemma_scan_stable(buf@, start as int, elen as int, require_known,
                        i as int + 1, max as int);
                }
                return banks;
            }
        }
        i += 1;
    }
    banks
}

/// Every bank a slot scan yields is populated: its padded identifier is
/// never all 0x00 or all 0xFF, because sentinel-empty slots are filtered
/// before a candidate becomes visible.
pub proof fn lemma_scan_banks_populated(
    buf: Seq<u8>,
    start: int,
    elen: int,
    require_known: bool,
    stop: bool,
    n: int,
)
    requires
        1 <= elen <= 8,
        0 <= start,
        start + n * elen <= buf.len(),
    ensures
        forall|i: int|
            0 <= i < spec_scan(buf, start, elen, require_known, stop, n).len()
                ==> !spec_bank_empty(
                #[trigger] spec_scan(buf, start, elen, require_known, stop, n)[i].1),
    decreases n,
{
    if n > 0 {
        assert((n - 1) * elen <= n * elen) by (nonlinear_arith)
            requires
                elen >= 1,
                n >= 1,
        ;
        lemma_scan_banks_populated(buf, start, elen, require_known, stop, n - 1);
        let pre = spec_scan(buf, start, elen, require_known, stop, n - 1);
        let sl = spec_slot(buf, start, elen, n - 1);
        if spec_slot_ok(buf, start, elen, require_known, n - 1) && !(stop && pre.len() < n
            - 1) {
            assert(start + (n - 1) * elen + elen <= buf.len()) by (nonlinear_arith)
                requires
                    elen >= 1,
                    n >= 1,
                    start + n * elen <= buf.len(),
            ;
            assert(sl.len() == elen);
            let id = spec_pad8(sl);
            assert(!spec_bank_empty(sl));
            assert(!(forall|k: int| 0 <= k < sl.len() ==> sl[k] == 0x00u8));
            let k0 = choose|k: int| 0 <= k < sl.len() && sl[k] != 0x00u8;
            assert(id[k0] != 0x00u8);
            if elen < 8 {
                assert(id[7] == 0u8);
            } else {
                assert(id =~= sl);
                let k1 = choose|k: int| 0 <= k < sl.len() && sl[k] != 0xFFu8;
                assert(id[k1] != 0xFFu8);
            }
            assert(!spec_bank_empty(id));
        }
    }
}

/// Once a stop-style scan has halted, later slots add nothing.
proof fn lemma_scan_stable(
    buf: Seq<u8>,
    start: int,
    elen: int,
    require_known: bool,
    i: int,
    n: int,
)
    requires
        0 <= i <= n,
        spec_scan(buf, start, elen, require_known, true, i).len() < i,
    ensures
        spec_scan(buf, start, elen, require_known, true, n) == spec_scan(buf, start, elen,
            require_known, true, i),
    decreases n - i,
{
    if n > i {
        lemma_scan_stable(buf, start, elen, require_known, i, n - 1);
    }
}

} // verus!
