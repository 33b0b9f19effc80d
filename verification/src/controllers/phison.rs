use vstd::prelude::*;

use crate::bank;
use crate::bank::FlashIdError;
use crate::bank::FlashIdResult;
use crate::bank::FlashBank;
use crate::controllers::from_nvme;
use crate::controllers::spec_from_nvme;
use crate::controllers::NvmeStep;
use crate::nvme::spec_admin_cmd;
use crate::nvme::NvmeDevice;
use crate::nvme::NvmeError;
use crate::nvme::NvmeRequest;
use crate::text;

verus! {

// ---------------------------------------------------------------------------
// Phison (NVMe): every vendor read carries a 16-bit CRC (CCITT polynomial
// 0x1021, MSB first, initial value 0) of a 64-byte command template in its
// last parameter word.  The system-info response must carry the literal
// vendor signature; flash identifiers are embedded at fixed offsets, with a
// per-bank read fallback when none are.
// ---------------------------------------------------------------------------

/// One shift-and-conditionally-xor round of the CRC.
pub open spec fn spec_crc_round(c: u16) -> u16 {
    if c & 0x8000 != 0 {
        (c << 1) ^ 0x1021
    } else {
        c << 1
    }
}

/// `k` CRC rounds.
pub open spec fn spec_crc_rounds(c: u16, k: nat) -> u16
    decreases k,
{
    if k == 0 {
        c
    } else {
        spec_crc_round(spec_crc_rounds(c, (k - 1) as nat))
    }
}

/// Fold one byte into the CRC.
pub open spec fn spec_crc_update(c: u16, b: u8) -> u16 {
    spec_crc_rounds(c ^ ((b as u16) << 8), 8)
}

/// The CRC of the first `n` bytes, starting from 0.
pub open spec fn spec_crc16(s: Seq<u8>, n: int) -> u16
    decreases n,
{
    if n <= 0 {
        0
    } else {
        spec_crc_update(spec_crc16(s, n - 1), s[n - 1])
    }
}

/// The CRC of the first 60 template bytes, byte-swapped and placed in the
/// upper half of the parameter word.
pub open spec fn spec_phison_crc(s: Seq<u8>) -> u32 {
    let c = spec_crc16(s, 60);
    ((((c >> 8) | ((c & 0xFF) << 8)) as u32) << 16)
}

/// Compute the CRC parameter word over a 64-byte command template.
pub fn phison_crc(buf: &[u8]) -> (r: u32)
    requires
        buf@.len() == 64,
    ensures
        r == spec_phison_crc(buf@),
{
    let mut crc: u16 = 0;
    let mut i: usize = 0;
    while i < 60
        invariant
            i <= 60,
            buf@.len() == 64,
            crc == spec_crc16(buf@, i as int),
        decreases 60 - i,
    {
        let mut c = crc ^ ((buf[i] as u16) << 8);
        let mut k: usize = 0;
        while k < 8
            invariant
                k <= 8,
                c == spec_crc_rounds(crc ^ ((buf@[i as int] as u16) << 8), k as nat),
            decreases 8 - k,
        {
            if c & 0x8000 != 0 {
                c = (c << 1) ^ 0x1021;
            } else {
                c = c << 1;
            }
            k += 1;
        }
        crc = c;
        i += 1;
    }
    let swapped = (crc >> 8) | ((crc & 0xFF) << 8);
    (swapped as u32) << 16
}

/// The CRC is a function of the first 60 template bytes alone: identical
/// prefixes give identical parameter words.
pub proof fn lemma_phison_crc_deterministic(a: Seq<u8>, b: Seq<u8>)
    requires
        a.len() >= 60,
        b.len() >= 60,
        a.subrange(0, 60) == b.subrange(0, 60),
    ensures
        spec_phison_crc(a) == spec_phison_crc(b),
{
    lemma_crc16_prefix(a, b, 60);
}

/// The CRC of the first `n` bytes depends only on those bytes.
proof fn lemma_crc16_prefix(a: Seq<u8>, b: Seq<u8>, n: int)
    requires
        n <= a.len(),
        n <= b.len(),
        a.subrange(0, n) == b.subrange(0, n),
    ensures
        spec_crc16(a, n) == spec_crc16(b, n),
    decreases n,
{
    if n > 0 {
        assert(a.subrange(0, n - 1) =~= a.subrange(0, n).subrange(0, n - 1));
        assert(b.subrange(0, n - 1) =~= b.subrange(0, n).subrange(0, n - 1));
        lemma_crc16_prefix(a, b, n - 1);
        assert(a[n - 1] == a.subrange(0, n)[n - 1]);
        assert(b[n - 1] == b.subrange(0, n)[n - 1]);
    }
}

/// The 64-byte command template: the opcode, then three parameter words in
/// little-endian order at their fixed offsets.
pub open spec fn spec_template(opcode: u8, cdw10: u32, cdw12: u32, cdw13: u32) -> Seq<u8> {
    Seq::new(64, |i: int|
        if i == 0 {
            opcode
        } else if i == 0x28 {
            (cdw10 % 0x100) as u8
        } else if i == 0x29 {
            (cdw10 / 0x100 % 0x100) as u8
        } else if i == 0x2A {
            (cdw10 / 0x10000 % 0x100) as u8
        } else if i == 0x2B {
            (cdw10 / 0x1000000 % 0x100) as u8
        } else if i == 0x30 {
            (cdw12 % 0x100) as u8
        } else if i == 0x31 {
            (cdw12 / 0x100 % 0x100) as u8
        } else if i == 0x32 {
            (cdw12 / 0x10000 % 0x100) as u8
        } else if i == 0x33 {
            (cdw12 / 0x1000000 % 0x100) as u8
        } else if i == 0x34 {
            (cdw13 % 0x100) as u8
        } else if i == 0x35 {
            (cdw13 / 0x100 % 0x100) as u8
        } else if i == 0x36 {
            (cdw13 / 0x10000 % 0x100) as u8
        } else if i == 0x37 {
            (cdw13 / 0x1000000 % 0x100) as u8
        } else {
            0u8
        })
}

/// The CRC parameter word of the command with the given parameters.
pub open spec fn spec_build_cmd(opcode: u8, cdw10: u32, cdw12: u32, cdw13: u32) -> u32 {
    spec_phison_crc(spec_template(opcode, cdw10, cdw12, cdw13))
}

/// Build the command template and compute its CRC parameter word.
pub fn build_cmd(opcode: u8, cdw10: u32, cdw12: u32, cdw13: u32) -> (r: u32)
    ensures
        r == spec_build_cmd(opcode, cdw10, cdw12, cdw13),
{
    let mut buf = crate::controllers::zero_vec(64);
    buf[0] = opcode;
    buf[0x28] = (cdw10 % 0x100) as u8;
    buf[0x29] = (cdw10 / 0x100 % 0x100) as u8;
    buf[0x2A] = (cdw10 / 0x10000 % 0x100) as u8;
    buf[0x2B] = (cdw10 / 0x1000000 % 0x100) as u8;
    buf[0x30] = (cdw12 % 0x100) as u8;
    buf[0x31] = (cdw12 / 0x100 % 0x100) as u8;
    buf[0x32] = (cdw12 / 0x10000 % 0x100) as u8;
    buf[0x33] = (cdw12 / 0x1000000 % 0x100) as u8;
    buf[0x34] = (cdw13 % 0x100) as u8;
    buf[0x35] = (cdw13 / 0x100 % 0x100) as u8;
    buf[0x36] = (cdw13 / 0x10000 % 0x100) as u8;
    buf[0x37] = (cdw13 / 0x1000000 % 0x100) as u8;
    proof {
        assert(buf@ =~= spec_template(opcode, cdw10, cdw12, cdw13));
    }
    phison_crc(buf.as_slice())
}

/// The system-info read: opcode 0xD2 with its CRC parameter word.
pub fn sysinfo_request() -> (r: NvmeRequest)
    ensures
        spec_admin_cmd(r.cmd, 0xD2, 0, 0x400, 0, 0x80, 0, 0, spec_build_cmd(0xD2, 0x400,
            0x80, 0), 4096),
        r.direction is FromDevice,
{
    let dev = NvmeDevice {  };
    let cdw15 = build_cmd(0xD2, 0x400, 0x80, 0);
    dev.admin_read(0xD2, 0, 0x400, 0, 0x80, 0, 0, cdw15, 4096)
}

/// The per-bank fallback read for one bank index.
pub fn bank_request(bank_idx: u32) -> (r: NvmeRequest)
    requires
        bank_idx < 8,
    ensures
        spec_admin_cmd(r.cmd, 0xD2, 0, 0x80, 0, (bank_idx * 0x100 + 0x90) as u32, 0, 0,
            spec_build_cmd(0xD2, 0x80, (bank_idx * 0x100 + 0x90) as u32, 0), 512),
        r.direction is FromDevice,
{
    let dev = NvmeDevice {  };
    let cdw12 = bank_idx * 0x100 + 0x90;
    let cdw15 = build_cmd(0xD2, 0x80, cdw12, 0);
    dev.admin_read(0xD2, 0, 0x80, 0, cdw12, 0, 0, cdw15, 512)
}

/// The response carries the literal vendor signature.
pub open spec fn spec_phison_sig(d: Seq<u8>) -> bool {
    text::spec_contains(d, text::spec_ascii_bytes("PhIsOnNo"@))
}

/// The controller name embedded in the system info: the printable run (at
/// most 16 bytes) at the first "PS50" occurrence, else at the first "PS31"
/// occurrence, else "Phison".
pub open spec fn spec_phison_name(d: Seq<u8>) -> Seq<char> {
    let pos50 = text::spec_find_from(d.take(d.len() - 2), text::spec_ascii_bytes("PS50"@),
        0);
    let pos31 = text::spec_find_from(d, text::spec_ascii_bytes("PS31"@), 0);
    if pos50 >= 0 {
        spec_name_run(d, pos50)
    } else if pos31 >= 0 {
        spec_name_run(d, pos31)
    } else {
        "Phison"@
    }
}

/// The printable run at `pos`, capped at 16 bytes.
pub open spec fn spec_name_run(d: Seq<u8>, pos: int) -> Seq<char> {
    let run = text::spec_run_len(d, pos, text::pred_graphic());
    let e = if run < 16 {
        run
    } else {
        16
    };
    text::spec_chars(d.subrange(pos, pos + e))
}

/// Read the printable run at `pos`, capped at 16 bytes.
fn name_run(d: &[u8], pos: usize) -> (r: String)
    requires
        pos <= d@.len(),
    ensures
        r@ == spec_name_run(d@, pos as int),
{
    let mut end: usize = pos;
    while end < d.len() && 0x21 <= d[end] && d[end] <= 0x7E
        invariant
            pos <= end <= d.len(),
            forall|j: int| pos <= j < end ==> text::spec_graphic(d@[j]),
        decreases d.len() - end,
    {
        end += 1;
    }
    proof {
        text::lemma_run_len(d@, pos as int, end as int, text::pred_graphic());
    }
    let cap = if end - pos < 16 {
        end
    } else {
        pos + 16
    };
    text::ascii_string(&d[pos..cap])
}

/// Extract the controller name from the system info.
pub fn extract_controller_name(d: &[u8]) -> (r: String)
    requires
        d@.len() >= 6,
    ensures
        r@ == spec_phison_name(d@),
{
    proof {
        reveal_strlit("PS50");
        reveal_strlit("PS31");
    }
    let head = &d[0..d.len() - 2];
    match text::bytes_find(head, text::str_bytes("PS50")) {
        Some(pos) => name_run(d, pos),
        None => match text::bytes_find(d, text::str_bytes("PS31")) {
            Some(pos) => name_run(d, pos),
            None => String::from_str("Phison"),
        },
    }
}

/// The banks embedded in the system info: candidate slots at seven fixed
/// offsets, kept when non-empty with a known manufacturer byte, duplicates
/// dropped, numbered in discovery order.
pub open spec fn spec_sysinfo_banks(d: Seq<u8>, k: int) -> Seq<(u32, Seq<u8>)>
    decreases k,
{
    if k <= 0 {
        Seq::empty()
    } else {
        let pre = spec_sysinfo_banks(d, k - 1);
        let off = 0x70 + 8 * (k - 1);
        let sl = d.subrange(off, off + 8);
        if !bank::spec_bank_empty(sl) && bank::spec_known_manufacturer(sl[0])
            && !spec_has_id(pre, sl) {
            pre.push((pre.len() as u32, sl))
        } else {
            pre
        }
    }
}

/// The identifier already occurs in the collected banks.
pub open spec fn spec_has_id(pre: Seq<(u32, Seq<u8>)>, sl: Seq<u8>) -> bool {
    exists|j: int| 0 <= j < pre.len() && pre[j].1 == sl
}

/// Collect the banks embedded in the system info.
pub fn extract_sysinfo_flash_ids(d: &[u8]) -> (banks: Vec<FlashBank>)
    requires
        d@.len() == 4096,
    ensures
        bank::banks_match(banks@, spec_sysinfo_banks(d@, 7)),
{
    let mut banks: Vec<FlashBank> = Vec::new();
    let mut k: usize = 0;
    while k < 7
        invariant
            k <= 7,
            d@.len() == 4096,
            bank::banks_match(banks@, spec_sysinfo_banks(d@, k as int)),
        decreases 7 - k,
    {
        let off = 0x70 + 8 * k;
        let cand = &d[off..off + 8];
        proof {
            assert(cand@ == d@.subrange(0x70 + 8 * (k as int), 0x70 + 8 * (k as int)
                + 8));
        }
        if !bank::is_bank_empty(cand) && bank::is_known_manufacturer(cand[0]) {
            let id = bank::read_slot_id(d, off, 8);
            proof {
                assert(id@ =~= cand@);
            }
            let mut dup = false;
            let mut j: usize = 0;
            while j < banks.len()
                invariant
                    j <= banks@.len(),
                    dup == (exists|q: int| 0 <= q < j && banks@[q].flash_id@ == id@),
                decreases banks@.len() - j,
            {
                if bank::ids_equal(&banks[j].flash_id, &id) {
                    dup = true;
                }
                j += 1;
            }
            if !dup {
                let n = banks.len() as u32;
                banks.push(FlashBank { bank_num: n, flash_id: id });
            }
        }
        k += 1;
    }
    banks
}

/// The banks the per-bank fallback reads yielded: reply `k` answers bank
/// `k`; a successful, non-empty first-8-bytes reply becomes a bank.
pub open spec fn spec_fallback_banks(replies: Seq<Option<Vec<u8>>>, k: int) -> Seq<
    (u32, Seq<u8>),
>
    decreases k,
{
    if k <= 0 {
        Seq::empty()
    } else {
        let pre = spec_fallback_banks(replies, k - 1);
        match replies[k - 1] {
            Some(d) => if !bank::spec_bank_empty(d@.take(8)) {
                pre.push(((k - 1) as u32, d@.take(8)))
            } else {
                pre
            },
            None => pre,
        }
    }
}

/// Collect the banks of the fallback replies.
fn collect_fallback_banks(replies: &Vec<Option<Vec<u8>>>) -> (banks: Vec<FlashBank>)
    requires
        forall|i: int|
            0 <= i < replies@.len() ==> (#[trigger] replies@[i] matches Some(d) ==> d@.len() == 512),
    ensures
        bank::banks_match(banks@, spec_fallback_banks(replies@, replies@.len() as int)),
{
    let mut banks: Vec<FlashBank> = Vec::new();
    let mut k: usize = 0;
    while k < replies.len()
        invariant
            k <= replies@.len(),
            forall|i: int|
                0 <= i < replies@.len() ==> (#[trigger] replies@[i] matches Some(d) ==> d@.len()
                    == 512),
            bank::banks_match(banks@, spec_fallback_banks(replies@, k as int)),
        decreases replies.len() - k,
    {
        match &replies[k] {
            Some(d) => {
                let first8 = &d.as_slice()[0..8];
                if !bank::is_bank_empty(first8) {
                    let id = bank::read_slot_id(d.as_slice(), 0, 8);
                    proof {
                        assert(id@ =~= d@.take(8));
                        assert(first8@ =~= d@.take(8));
                    }
                    banks.push(FlashBank { bank_num: k as u32, flash_id: id });
                } else {
                    proof {
                        assert(first8@ =~= d@.take(8));
                    }
                }
            },
            None => {},
        }
        k += 1;
    }
    banks
}

/// Run the Phison extraction: the CRC-carrying system-info read, the
/// signature check, the embedded-bank scan, and the per-bank fallback.
pub fn read_flash_id(
    sysinfo: &Option<Result<Vec<u8>, NvmeError>>,
    bank_replies: &Vec<Option<Vec<u8>>>,
) -> (s: NvmeStep)
    requires
        sysinfo matches Some(r) ==> (r matches Ok(d) ==> d@.len() == 4096),
        bank_replies@.len() <= 8,
        forall|i: int|
            0 <= i < bank_replies@.len() ==> (#[trigger] bank_replies@[i] matches Some(d) ==> d@.len()
                == 512),
    ensures
        sysinfo is None ==> (s matches NvmeStep::Issue(q) && spec_admin_cmd(q.cmd, 0xD2,
            0, 0x400, 0, 0x80, 0, 0, spec_build_cmd(0xD2, 0x400, 0x80, 0), 4096)
            && q.direction is FromDevice),
        sysinfo matches Some(r) ==> (r matches Err(e) ==> (s matches NvmeStep::Done(x)
            && x matches Err(f) && f == spec_from_nvme(*e))),
        sysinfo matches Some(r) ==> (r matches Ok(d) ==> (!spec_phison_sig(d@) ==> (
        s matches NvmeStep::Done(x) && x matches Err(f) && f is ProtocolMismatch))),
        sysinfo matches Some(r) ==> (r matches Ok(d) ==> ((spec_phison_sig(d@)
            && spec_sysinfo_banks(d@, 7).len() > 0) ==> (s matches NvmeStep::Done(x)
            && x matches Ok(res) && res.controller_name@ == spec_phison_name(d@)
            && bank::banks_match(res.banks@, spec_sysinfo_banks(d@, 7))))),
        sysinfo matches Some(r) ==> (r matches Ok(d) ==> ((spec_phison_sig(d@)
            && spec_sysinfo_banks(d@, 7).len() == 0 && bank_replies@.len() < 8) ==> (
        s matches NvmeStep::Issue(q) && spec_admin_cmd(q.cmd, 0xD2, 0, 0x80, 0, (
        bank_replies@.len() * 0x100 + 0x90) as u32, 0, 0, spec_build_cmd(0xD2, 0x80, (
        bank_replies@.len() * 0x100 + 0x90) as u32, 0), 512) && q.direction
            is FromDevice))),
        sysinfo matches Some(r) ==> (r matches Ok(d) ==> ((spec_phison_sig(d@)
            && spec_sysinfo_banks(d@, 7).len() == 0 && bank_replies@.len() == 8) ==> (
        s matches NvmeStep::Done(x) && x matches Ok(res) && res.controller_name@
            == spec_phison_name(d@) && bank::banks_match(res.banks@,
        spec_fallback_banks(bank_replies@, 8))))),
{
    proof {
        reveal_strlit("PhIsOnNo");
    }
    match sysinfo {
        None => NvmeStep::Issue(sysinfo_request()),
        Some(Err(e)) => NvmeStep::Done(Err(from_nvme(e))),
        Some(Ok(d)) => {
            if !text::bytes_contain(d.as_slice(), text::str_bytes("PhIsOnNo")) {
                return NvmeStep::Done(Err(FlashIdError::ProtocolMismatch));
            }
            let embedded = extract_sysinfo_flash_ids(d.as_slice());
            if embedded.len() > 0 {
                let name = extract_controller_name(d.as_slice());
                return NvmeStep::Done(Ok(FlashIdResult {
                    controller_name: name,
                    banks: embedded,
                }));
            }
            if bank_replies.len() < 8 {
                return NvmeStep::Issue(bank_request(bank_replies.len() as u32));
            }
            let name = extract_controller_name(d.as_slice());
            let banks = collect_fallback_banks(bank_replies);
            NvmeStep::Done(Ok(FlashIdResult { controller_name: name, banks }))
        },
    }
}

} // verus!
