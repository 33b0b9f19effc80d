use vstd::prelude::*;

use crate::ata::spec_cdb;
use crate::ata::AtaDevice;
use crate::ata::SgRequest;
use crate::bank;
use crate::bank::FlashBank;
use crate::bank::FlashIdError;
use crate::bank::FlashIdResult;
use crate::controllers::zero_vec;
use crate::text;

verus! {

// ---------------------------------------------------------------------------
// JMicron / Maxio (SATA): two best-effort unlock SET FEATURES commands,
// then a vendor write-read pair fetches a firmware-id blob.  The blob
// names the controller; for the two supported parts it also carries a
// per-channel lookup table whose non-terminator entries drive one
// write-read round trip each.
// ---------------------------------------------------------------------------

/// The supported controller kinds the firmware blob resolves to.
#[derive(Debug, Clone)]
pub enum JmController {
    Mas1102,
    Mas0902,
    Jmf(String),
}

/// The display name of a controller kind.
pub open spec fn spec_display_name(c: JmController) -> Seq<char> {
    match c {
        JmController::Mas1102 => "MAS1102"@,
        JmController::Mas0902 => "MAS0902"@,
        JmController::Jmf(n) => n@,
    }
}

impl JmController {
    /// The display name.
    pub fn display_name(&self) -> (r: &str)
        ensures
            r@ == spec_display_name(*self),
    {
        match self {
            JmController::Mas1102 => "MAS1102",
            JmController::Mas0902 => "MAS0902",
            JmController::Jmf(name) => name.as_str(),
        }
    }
}

/// The index of the first controller pattern that occurs in the firmware
/// blob, or -1.
pub open spec fn spec_jm_pattern_idx(fw: Seq<u8>) -> int {
    if text::spec_contains(fw, text::spec_ascii_bytes(",MA1102"@)) {
        0
    } else if text::spec_contains(fw, text::spec_ascii_bytes(",DM1102"@)) {
        1
    } else if text::spec_contains(fw, text::spec_ascii_bytes(",MK8215"@)) {
        2
    } else if text::spec_contains(fw, text::spec_ascii_bytes(",DM9343"@)) {
        3
    } else if text::spec_contains(fw, text::spec_ascii_bytes(",805"@)) {
        4
    } else if text::spec_contains(fw, text::spec_ascii_bytes(",670"@)) {
        5
    } else if text::spec_contains(fw, text::spec_ascii_bytes(",667"@)) {
        6
    } else if text::spec_contains(fw, text::spec_ascii_bytes(",662"@)) {
        7
    } else if text::spec_contains(fw, text::spec_ascii_bytes(",661"@)) {
        8
    } else if text::spec_contains(fw, text::spec_ascii_bytes(",61X"@)) {
        9
    } else if text::spec_contains(fw, text::spec_ascii_bytes(",608"@)) {
        10
    } else if text::spec_contains(fw, text::spec_ascii_bytes(",607"@)) {
        11
    } else if text::spec_contains(fw, text::spec_ascii_bytes(",606"@)) {
        12
    } else if text::spec_contains(fw, text::spec_ascii_bytes(",605"@)) {
        13
    } else {
        -1
    }
}

/// The JMF model name of pattern indexes 4 and up.
pub open spec fn spec_jmf_name(k: int) -> Seq<char> {
    if k == 4 {
        "MK8115"@
    } else if k == 5 {
        "JMF670"@
    } else if k == 6 {
        "JMF667"@
    } else if k == 7 {
        "JMF662"@
    } else if k == 8 {
        "JMF661"@
    } else if k == 9 {
        "JMF612"@
    } else if k == 10 {
        "JMF608"@
    } else if k == 11 {
        "JMF607"@
    } else if k == 12 {
        "JMF606"@
    } else {
        "JMF605"@
    }
}

/// Resolve the controller kind from the firmware blob, first matching
/// pattern wins.
pub fn detect(fw_response: &[u8]) -> (r: Option<JmController>)
    ensures
        spec_jm_pattern_idx(fw_response@) == -1 ==> r is None,
        (spec_jm_pattern_idx(fw_response@) == 0 || spec_jm_pattern_idx(fw_response@) == 1)
            ==> (r matches Some(c) && c is Mas1102),
        (spec_jm_pattern_idx(fw_response@) == 2 || spec_jm_pattern_idx(fw_response@) == 3)
            ==> (r matches Some(c) && c is Mas0902),
        spec_jm_pattern_idx(fw_response@) >= 4 ==> (r matches Some(c) && c matches
        JmController::Jmf(n) && n@ == spec_jmf_name(spec_jm_pattern_idx(fw_response@))),
{
    proof {
        reveal_strlit(",MA1102");
        reveal_strlit(",DM1102");
        reveal_strlit(",MK8215");
        reveal_strlit(",DM9343");
        reveal_strlit(",805");
        reveal_strlit(",670");
        reveal_strlit(",667");
        reveal_strlit(",662");
        reveal_strlit(",661");
        reveal_strlit(",61X");
        reveal_strlit(",608");
        reveal_strlit(",607");
        reveal_strlit(",606");
        reveal_strlit(",605");
    }
    if text::bytes_contain(fw_response, text::str_bytes(",MA1102")) {
        Some(JmController::Mas1102)
    } else if text::bytes_contain(fw_response, text::str_bytes(",DM1102")) {
        Some(JmController::Mas1102)
    } else if text::bytes_contain(fw_response, text::str_bytes(",MK8215")) {
        Some(JmController::Mas0902)
    } else if text::bytes_contain(fw_response, text::str_bytes(",DM9343")) {
        Some(JmController::Mas0902)
    } else if text::bytes_contain(fw_response, text::str_bytes(",805")) {
        Some(JmController::Jmf(String::from_str("MK8115")))
    } else if text::bytes_contain(fw_response, text::str_bytes(",670")) {
        Some(JmController::Jmf(String::from_str("JMF670")))
    } else if text::bytes_contain(fw_response, text::str_bytes(",667")) {
        Some(JmController::Jmf(String::from_str("JMF667")))
    } else if text::bytes_contain(fw_response, text::str_bytes(",662")) {
        Some(JmController::Jmf(String::from_str("JMF662")))
    } else if text::bytes_contain(fw_response, text::str_bytes(",661")) {
        Some(JmController::Jmf(String::from_str("JMF661")))
    } else if text::bytes_contain(fw_response, text::str_bytes(",61X")) {
        Some(JmController::Jmf(String::from_str("JMF612")))
    } else if text::bytes_contain(fw_response, text::str_bytes(",608")) {
        Some(JmController::Jmf(String::from_str("JMF608")))
    } else if text::bytes_contain(fw_response, text::str_bytes(",607")) {
        Some(JmController::Jmf(String::from_str("JMF607")))
    } else if text::bytes_contain(fw_response, text::str_bytes(",606")) {
        Some(JmController::Jmf(String::from_str("JMF606")))
    } else if text::bytes_contain(fw_response, text::str_bytes(",605")) {
        Some(JmController::Jmf(String::from_str("JMF605")))
    } else {
        None
    }
}

/// The two best-effort unlock SET FEATURES commands; their outcomes are
/// ignored.
pub fn unlock() -> (r: (SgRequest, SgRequest))
    ensures
        r.0.cdb@ == spec_cdb(3, 0x20, 0xEF, 0xDA, 0x41, 0x00, 0x00, 0x00, 0xE0),
        r.1.cdb@ == spec_cdb(3, 0x20, 0xEF, 0xDC, 0x4A, 0x00, 0x00, 0x00, 0xE0),
        r.0.direction is NoData,
        r.1.direction is NoData,
{
    let dev = AtaDevice {  };
    (
        dev.ata_no_data(0xEF, 0xDA, 0x41, 0x00, 0x00, 0x00, 0xE0),
        dev.ata_no_data(0xEF, 0xDC, 0x4A, 0x00, 0x00, 0x00, 0xE0),
    )
}

/// The vendor payload of a firmware-id request.
pub open spec fn spec_fw_payload(subcmd: u8, param: u8) -> Seq<u8> {
    Seq::new(512, |i: int|
        if i == 0 {
            0xFFu8
        } else if i == 1 {
            0xE5u8
        } else if i == 2 {
            subcmd
        } else if i == 3 {
            param
        } else {
            0u8
        })
}

/// The write half of a firmware-id request.
pub fn fw_id_write_request(subcmd: u8, param: u8) -> (r: SgRequest)
    ensures
        r.cdb@ == spec_cdb(5, 0x26, 0x88, 0x12, 1, 0xFF, 0x00, 0x00, 0xE0),
        r.direction is ToDevice,
        r.data_out@ == spec_fw_payload(subcmd, param),
{
    let dev = AtaDevice {  };
    let mut payload = zero_vec(512);
    payload[0] = 0xFF;
    payload[1] = 0xE5;
    payload[2] = subcmd;
    payload[3] = param;
    proof {
        assert(payload@ =~= spec_fw_payload(subcmd, param));
    }
    dev.ata_write(0x88, 0x12, 1, 0xFF, 0x00, 0x00, 0xE0, payload.as_slice())
}

/// The read half of a firmware-id request: 8 sectors.
pub fn fw_id_read_request(subcmd: u8) -> (r: SgRequest)
    ensures
        r.cdb@ == spec_cdb(4, 0x2E, 0x86, subcmd, 8, 0x12, 0x00, 0x00, 0xE0),
        r.direction is FromDevice,
        r.data_len == 4096,
{
    let dev = AtaDevice {  };
    dev.ata_read(0x86, subcmd, 8, 0x12, 0x00, 0x00, 0xE0, 4096)
}

/// The sub-command and parameter of firmware-id attempt `k`.
pub open spec fn spec_fw_attempt(k: int) -> (u8, u8) {
    if k == 0 {
        (0x86u8, 0x03u8)
    } else {
        (0x04u8, 0xFFu8)
    }
}

/// Attempt `k` yielded a blob with a non-zero byte.
pub open spec fn spec_fw_hit(attempts: Seq<Option<Vec<u8>>>, k: int) -> bool {
    attempts[k] matches Some(d) && crate::detect::spec_any_nonzero(d@)
}

/// The first winning firmware-id attempt among the first `n`, or -1.
pub open spec fn spec_fw_first_hit(attempts: Seq<Option<Vec<u8>>>, n: int) -> int
    decreases n,
{
    if n <= 0 {
        -1
    } else {
        let p = spec_fw_first_hit(attempts, n - 1);
        if p >= 0 {
            p
        } else if spec_fw_hit(attempts, n - 1) {
            n - 1
        } else {
            -1
        }
    }
}

/// The next move when fetching the firmware-id blob.
pub enum JmFwStep {
    /// Submit the two unlock commands; their outcomes do not matter.
    Unlock(SgRequest, SgRequest),
    /// Submit the write, then (if it succeeds) the read of one attempt;
    /// hand back the blob, or nothing when either call failed.
    Attempt(SgRequest, SgRequest),
    /// The fetch is finished.
    Done(Result<Vec<u8>, FlashIdError>),
}

/// Fetch the firmware-id blob: unlock first, then up to two write-read
/// attempts; the first non-zero blob wins.
pub fn read_firmware_id(unlocked: bool, attempts: &Vec<Option<Vec<u8>>>) -> (s: JmFwStep)
    requires
        attempts@.len() <= 2,
    ensures
        !unlocked ==> (s matches JmFwStep::Unlock(a, b) && a.cdb@ == spec_cdb(3, 0x20,
            0xEF, 0xDA, 0x41, 0x00, 0x00, 0x00, 0xE0) && b.cdb@ == spec_cdb(3, 0x20,
            0xEF, 0xDC, 0x4A, 0x00, 0x00, 0x00, 0xE0)),
        unlocked && spec_fw_first_hit(attempts@, attempts@.len() as int) >= 0 ==> (
        s matches JmFwStep::Done(x) && x matches Ok(d) && ({
            let k = spec_fw_first_hit(attempts@, attempts@.len() as int);
            attempts@[k] matches Some(w) && d@ == w@
        })),
        unlocked && spec_fw_first_hit(attempts@, attempts@.len() as int) < 0
            && attempts@.len() < 2 ==> (s matches JmFwStep::Attempt(w, r2) && w.data_out@
            == spec_fw_payload(spec_fw_attempt(attempts@.len() as int).0, spec_fw_attempt(
            attempts@.len() as int).1) && w.cdb@ == spec_cdb(5, 0x26, 0x88, 0x12, 1, 0xFF,
            0x00, 0x00, 0xE0) && r2.cdb@ == spec_cdb(4, 0x2E, 0x86, spec_fw_attempt(
            attempts@.len() as int).0, 8, 0x12, 0x00, 0x00, 0xE0)),
        unlocked && spec_fw_first_hit(attempts@, attempts@.len() as int) < 0
            && attempts@.len() == 2 ==> (s matches JmFwStep::Done(x) && x matches Err(f)
            && f is EmptyData),
{
    if !unlocked {
        let (a, b) = unlock();
        return JmFwStep::Unlock(a, b);
    }
    let mut k: usize = 0;
    while k < attempts.len()
        invariant
            unlocked,
            k <= attempts@.len(),
            spec_fw_first_hit(attempts@, k as int) < 0,
        decreases attempts.len() - k,
    {
        match &attempts[k] {
            Some(d) => {
                if crate::detect::any_nonzero(d.as_slice()) {
                    proof {
                        assert(spec_fw_hit(attempts@, k as int));
                        lemma_fw_first_hit_found(attempts@, k as int,
                            attempts@.len() as int);
                    }
                    return JmFwStep::Done(Ok(vstd::slice::slice_to_vec(d.as_slice())));
                }
            },
            None => {},
        }
        k += 1;
    }
    if attempts.len() < 2 {
        let (subcmd, param) = if attempts.len() == 0 {
            (0x86, 0x03)
        } else {
            (0x04, 0xFF)
        };
        JmFwStep::Attempt(fw_id_write_request(subcmd, param), fw_id_read_request(subcmd))
    } else {
        JmFwStep::Done(Err(FlashIdError::EmptyData))
    }
}

proof fn lemma_fw_first_hit_found(attempts: Seq<Option<Vec<u8>>>, k: int, n: int)
    requires
        0 <= k < n <= attempts.len(),
        spec_fw_first_hit(attempts, k) < 0,
        spec_fw_hit(attempts, k),
    ensures
        spec_fw_first_hit(attempts, n) == k,
    decreases n - k,
{
    if n > k + 1 {
        lemma_fw_first_hit_found(attempts, k, n - 1);
    }
}

// ---------------------------------------------------------------------------
// Per-channel extraction.
// ---------------------------------------------------------------------------

/// The non-terminator entries among the first `m` lookup-table positions.
pub open spec fn spec_jm_entries(fw: Seq<u8>, toff: int, m: int) -> Seq<u8>
    decreases m,
{
    if m <= 0 {
        Seq::empty()
    } else {
        let pre = spec_jm_entries(fw, toff, m - 1);
        let off = toff + m - 1;
        if 0 <= off < fw.len() && fw[off] != 0xFFu8 {
            pre.push(fw[off])
        } else {
            pre
        }
    }
}

/// Collect the non-terminator lookup-table entries.
pub fn jm_entries(fw: &[u8], toff: usize) -> (v: Vec<u8>)
    ensures
        v@ == spec_jm_entries(fw@, toff as int, 32),
{
    let mut v: Vec<u8> = Vec::new();
    let mut i: usize = 0;
    while i < 32
        invariant
            i <= 32,
            v@ == spec_jm_entries(fw@, toff as int, i as int),
        decreases 32 - i,
    {
        if toff < fw.len() && i < fw.len() - toff {
            let e = fw[toff + i];
            if e != 0xFF {
                v.push(e);
            }
        }
        i += 1;
    }
    v
}

/// The vendor payload of one per-channel request.
pub open spec fn spec_channel_payload(channel: u8, raw_entry: u8) -> Seq<u8> {
    Seq::new(512, |i: int|
        if i == 0 {
            0xFFu8
        } else if i == 1 {
            0xE5u8
        } else if i == 2 {
            0x36u8
        } else if i == 7 {
            channel
        } else if i == 0x1C {
            raw_entry
        } else {
            0u8
        })
}

/// The write half of one per-channel request.
pub fn channel_write_request(channel: u8, raw_entry: u8) -> (r: SgRequest)
    ensures
        r.cdb@ == spec_cdb(5, 0x26, 0x88, 0x12, 0x34, 0xFF, 0x00, 0x00, 0xE0),
        r.direction is ToDevice,
        r.data_out@ == spec_channel_payload(channel, raw_entry),
{
    let dev = AtaDevice {  };
    let mut payload = zero_vec(512);
    payload[0] = 0xFF;
    payload[1] = 0xE5;
    payload[2] = 0x36;
    payload[7] = channel;
    payload[0x1C] = raw_entry;
    proof {
        assert(payload@ =~= spec_channel_payload(channel, raw_entry));
    }
    dev.ata_write(0x88, 0x12, 0x34, 0xFF, 0x00, 0x00, 0xE0, payload.as_slice())
}

/// The read half of one per-channel request.
pub fn channel_read_request() -> (r: SgRequest)
    ensures
        r.cdb@ == spec_cdb(4, 0x2E, 0x86, 0x36, 0x34, 0x12, 0x00, 0x00, 0xE0),
        r.direction is FromDevice,
        r.data_len == 512,
{
    let dev = AtaDevice {  };
    dev.ata_read(0x86, 0x36, 0x34, 0x12, 0x00, 0x00, 0xE0, 512)
}

/// The banks of the per-channel replies: reply `k` answers the `k`-th
/// non-terminator entry; its first 7 bytes, zero-padded to 8, become a
/// bank when not sentinel-empty.
pub open spec fn spec_jm_banks(slots: Seq<Option<Vec<u8>>>, k: int) -> Seq<(u32, Seq<u8>)>
    decreases k,
{
    if k <= 0 {
        Seq::empty()
    } else {
        let pre = spec_jm_banks(slots, k - 1);
        match slots[k - 1] {
            Some(d) => {
                let id = bank::spec_pad8(d@.take(7));
                if !bank::spec_bank_empty(id) {
                    pre.push(((k - 1) as u32, id))
                } else {
                    pre
                }
            },
            None => pre,
        }
    }
}

/// Collect the banks of the per-channel replies.
fn collect_jm_banks(slots: &Vec<Option<Vec<u8>>>) -> (banks: Vec<FlashBank>)
    requires
        forall|i: int|
            0 <= i < slots@.len() ==> (#[trigger] slots@[i] matches Some(d) ==> d@.len()
                == 512),
        slots@.len() <= 32,
    ensures
        bank::banks_match(banks@, spec_jm_banks(slots@, slots@.len() as int)),
{
    let mut banks: Vec<FlashBank> = Vec::new();
    let mut k: usize = 0;
    while k < slots.len()
        invariant
            k <= slots@.len() <= 32,
            forall|i: int|
                0 <= i < slots@.len() ==> (#[trigger] slots@[i] matches Some(d)
                    ==> d@.len() == 512),
            bank::banks_match(banks@, spec_jm_banks(slots@, k as int)),
        decreases slots.len() - k,
    {
        match &slots[k] {
            Some(d) => {
                let id = bank::read_slot_id(d.as_slice(), 0, 7);
                let first7 = &d.as_slice()[0..7];
                proof {
                    assert(id@ =~= bank::spec_pad8(d@.take(7)));
                    assert(first7@ =~= d@.take(7));
                    assert(crate::detect::spec_any_nonzero(first7@)
                        == !bank::spec_bank_empty(id@)) by {
                        assert(id@[7] == 0u8);
                        if crate::detect::spec_any_nonzero(first7@) {
                            let w = choose|i: int|
                                0 <= i < first7@.len() && first7@[i] != 0u8;
                            assert(id@[w] != 0u8);
                            assert(id@[7] != 0xFFu8);
                        } else {
                            assert forall|i: int| 0 <= i < 8 implies id@[i] == 0u8 by {
                                if i < 7 {
                                    assert(first7@[i] == 0u8);
                                }
                            }
                        }
                    }
                }
                if crate::detect::any_nonzero(first7) {
                    banks.push(FlashBank { bank_num: k as u32, flash_id: id });
                }
            },
            None => {},
        }
        k += 1;
    }
    banks
}

/// The NAND model string embedded in the firmware blob for a controller:
/// the model-text run at its fixed offset, capped, trimmed.
pub open spec fn spec_jm_nand(fw: Seq<u8>, off: int, max_len: int) -> Seq<u8> {
    if off >= fw.len() {
        Seq::empty()
    } else {
        let limit = if off + max_len < fw.len() {
            max_len
        } else {
            fw.len() - off
        };
        let run = text::spec_run_len(fw, off, text::pred_model_text());
        let e = if run < limit {
            run
        } else {
            limit
        };
        text::spec_trim(fw.subrange(off, off + e))
    }
}

/// Read the NAND model string at `off`, capped at `max_len` bytes.
fn jm_nand_string(fw: &[u8], off: usize, max_len: usize) -> (r: Vec<u8>)
    ensures
        r@ == spec_jm_nand(fw@, off as int, max_len as int),
{
    if off >= fw.len() {
        let v: Vec<u8> = Vec::new();
        return v;
    }
    let limit: usize = if fw.len() - off > max_len {
        max_len
    } else {
        fw.len() - off
    };
    let mut end: usize = off;
    while end < fw.len() && 0x20 <= fw[end] && fw[end] <= 0x7A
        invariant
            off <= end <= fw.len(),
            forall|j: int| off <= j < end ==> (0x20u8 <= fw@[j] && fw@[j] <= 0x7Au8),
        decreases fw.len() - end,
    {
        end += 1;
    }
    proof {
        text::lemma_run_len(fw@, off as int, end as int, text::pred_model_text());
    }
    let e: usize = if end - off < limit {
        end - off
    } else {
        limit
    };
    text::trim_bytes(&fw[off..off + e])
}

/// The display name of a supported controller with the NAND model string
/// appended in parentheses when present.
pub open spec fn spec_jm_controller_name(c: JmController, fw: Seq<u8>) -> Seq<char> {
    let nand = spec_jm_nand(fw, spec_nand_offset(c), spec_nand_max_len(c));
    if nand.len() == 0 {
        spec_display_name(c)
    } else {
        spec_display_name(c) + " ("@ + text::spec_chars(nand) + ")"@
    }
}

/// The NAND-string offset of a controller kind.
pub open spec fn spec_nand_offset(c: JmController) -> int {
    match c {
        JmController::Mas1102 => 0x894,
        JmController::Mas0902 => 0x568,
        JmController::Jmf(_) => 0x4A8,
    }
}

/// The NAND-string length cap of a controller kind.
pub open spec fn spec_nand_max_len(c: JmController) -> int {
    match c {
        JmController::Mas1102 => 80,
        JmController::Mas0902 => 32,
        JmController::Jmf(_) => 16,
    }
}

/// Build the controller display name from the firmware blob.
pub fn build_controller_name(controller: &JmController, fw_response: &[u8]) -> (r: String)
    ensures
        r@ == spec_jm_controller_name(*controller, fw_response@),
{
    let (off, max_len): (usize, usize) = match controller {
        JmController::Mas1102 => (0x894, 80),
        JmController::Mas0902 => (0x568, 32),
        JmController::Jmf(_) => (0x4A8, 16),
    };
    let nand = jm_nand_string(fw_response, off, max_len);
    let mut out = String::from_str(controller.display_name());
    if nand.len() == 0 {
        proof {
            assert(out@ =~= spec_jm_controller_name(*controller, fw_response@));
        }
        return out;
    }
    let nand_str = text::ascii_string(nand.as_slice());
    out.append(" (");
    out.append(nand_str.as_str());
    out.append(")");
    proof {
        assert(out@ =~= spec_jm_controller_name(*controller, fw_response@));
    }
    out
}

/// The next move of the per-channel extraction.
pub enum JmStep {
    /// Submit the write, then (if it succeeds) the read of one channel
    /// slot; hand back the data, or nothing when either call failed.
    Slot(SgRequest, SgRequest),
    /// The extraction is finished.
    Done(Result<FlashIdResult, FlashIdError>),
}

/// Run the per-channel extraction over the firmware blob's lookup table:
/// one write-read round trip per non-terminator entry.
pub fn read_flash_id(fw_response: &[u8], slots: &Vec<Option<Vec<u8>>>) -> (s: JmStep)
    requires
        slots@.len() <= spec_jm_entries(fw_response@, spec_jm_table_offset_of(
            fw_response@), 32).len(),
        forall|i: int|
            0 <= i < slots@.len() ==> (#[trigger] slots@[i] matches Some(d) ==> d@.len()
                == 512),
    ensures
        spec_jm_pattern_idx(fw_response@) == -1 ==> (s matches JmStep::Done(x)
            && x matches Err(f) && f is ProtocolMismatch),
        spec_jm_pattern_idx(fw_response@) >= 4 ==> (s matches JmStep::Done(x)
            && x matches Err(f) && f is ProtocolMismatch),
        (0 <= spec_jm_pattern_idx(fw_response@) && spec_jm_pattern_idx(fw_response@) < 4)
            ==> ({
            let toff = spec_jm_table_offset_of(fw_response@);
            let entries = spec_jm_entries(fw_response@, toff, 32);
            &&& slots@.len() < entries.len() ==> (s matches JmStep::Slot(w, r2)
                && w.data_out@ == spec_channel_payload(entries[slots@.len() as int]
                >> spec_jm_ce_shift_of(fw_response@), entries[slots@.len() as int])
                && w.cdb@ == spec_cdb(5, 0x26, 0x88, 0x12, 0x34, 0xFF, 0x00, 0x00, 0xE0)
                && r2.cdb@ == spec_cdb(4, 0x2E, 0x86, 0x36, 0x34, 0x12, 0x00, 0x00,
            0xE0))
            &&& slots@.len() == entries.len() ==> (s matches JmStep::Done(x) && x matches
            Ok(res) && res.controller_name@ == spec_jm_controller_name(
                spec_jm_controller_of(fw_response@), fw_response@) && bank::banks_match(
                res.banks@, spec_jm_banks(slots@, slots@.len() as int)))
        }),
{
    let controller = match detect(fw_response) {
        None => {
            return JmStep::Done(Err(FlashIdError::ProtocolMismatch));
        },
        Some(c) => c,
    };
    let (toff, ce_shift): (usize, u8) = match &controller {
        JmController::Mas1102 => (0x474, 3),
        JmController::Mas0902 => (0x450, 4),
        JmController::Jmf(_) => {
            return JmStep::Done(Err(FlashIdError::ProtocolMismatch));
        },
    };
    let entries = jm_entries(fw_response, toff);
    if slots.len() < entries.len() {
        let entry = entries[slots.len()];
        let channel = entry >> ce_shift;
        JmStep::Slot(channel_write_request(channel, entry), channel_read_request())
    } else {
        proof {
            lemma_jm_entries_len(fw_response@, toff as int, 32);
        }
        let name = build_controller_name(&controller, fw_response);
        let banks = collect_jm_banks(slots);
        JmStep::Done(Ok(FlashIdResult { controller_name: name, banks }))
    }
}

/// An entry list never holds more entries than table positions.
proof fn lemma_jm_entries_len(fw: Seq<u8>, toff: int, m: int)
    requires
        0 <= m,
    ensures
        spec_jm_entries(fw, toff, m).len() <= m,
    decreases m,
{
    if m > 0 {
        lemma_jm_entries_len(fw, toff, m - 1);
    }
}

/// The supported controller the firmware blob resolves to, for the
/// specification of the per-channel run.
pub open spec fn spec_jm_controller_of(fw: Seq<u8>) -> JmController {
    if spec_jm_pattern_idx(fw) == 0 || spec_jm_pattern_idx(fw) == 1 {
        JmController::Mas1102
    } else {
        JmController::Mas0902
    }
}

/// The lookup-table offset the firmware blob selects.
pub open spec fn spec_jm_table_offset_of(fw: Seq<u8>) -> int {
    if spec_jm_pattern_idx(fw) == 0 || spec_jm_pattern_idx(fw) == 1 {
        0x474
    } else {
        0x450
    }
}

/// The chip-enable shift the firmware blob selects.
pub open spec fn spec_jm_ce_shift_of(fw: Seq<u8>) -> u8 {
    if spec_jm_pattern_idx(fw) == 0 || spec_jm_pattern_idx(fw) == 1 {
        3
    } else {
        4
    }
}

} // verus!
