use vstd::prelude::*;

use crate::bank;
use crate::bank::FlashBank;
use crate::bank::FlashIdResult;

verus! {

// ---------------------------------------------------------------------------
// Some SATA controllers embed a NAND flash identifier in vendor-specific
// words of the IDENTIFY DEVICE data: 8 bytes at a fixed offset, no byte
// swap, validated against the JEDEC allow list minus one code.
// ---------------------------------------------------------------------------

/// Where the embedded identifier sits in the 512-byte IDENTIFY data.
pub const ATA_ID_FID_OFFSET: usize = 0x127;

/// The manufacturer bytes this fallback accepts.
pub open spec fn spec_identify_jedec(b: u8) -> bool {
    bank::spec_known_manufacturer(b) && b != 0x51
}

/// Whether the byte is on this fallback's allow list.
pub fn is_identify_jedec(b: u8) -> (r: bool)
    ensures
        r == spec_identify_jedec(b),
{
    bank::is_known_manufacturer(b) && b != 0x51
}

/// The candidate bytes in the IDENTIFY data.
pub open spec fn spec_identify_candidate(d: Seq<u8>) -> Seq<u8> {
    d.subrange(0x127, 0x12F)
}

/// The embedded identifier passes: non-empty and allow-listed.
pub open spec fn spec_identify_hit(d: Seq<u8>) -> bool {
    !bank::spec_bank_empty(spec_identify_candidate(d)) && spec_identify_jedec(
        spec_identify_candidate(d)[0])
}

/// Check the IDENTIFY data for an embedded flash identifier.
pub fn extract_from_identify(id_data: &[u8]) -> (r: Option<FlashIdResult>)
    requires
        id_data@.len() == 512,
    ensures
        spec_identify_hit(id_data@) ==> (r matches Some(res) && res.controller_name@
            == "SATA (from ATA IDENTIFY)"@ && res.banks@.len() == 1 && res.banks@[0
        ].bank_num == 0 && res.banks@[0].flash_id@ == spec_identify_candidate(id_data@)),
        !spec_identify_hit(id_data@) ==> r is None,
{
    let fid = &id_data[0x127..0x12F];
    proof {
        assert(fid@ == spec_identify_candidate(id_data@));
    }
    if bank::is_bank_empty(fid) {
        return None;
    }
    if !is_identify_jedec(fid[0]) {
        return None;
    }
    let id = bank::read_slot_id(id_data, 0x127, 8);
    proof {
        assert(id@ =~= spec_identify_candidate(id_data@));
    }
    let mut banks: Vec<FlashBank> = Vec::new();
    banks.push(FlashBank { bank_num: 0, flash_id: id });
    Some(FlashIdResult {
        controller_name: String::from_str("SATA (from ATA IDENTIFY)"),
        banks,
    })
}

} // verus!
