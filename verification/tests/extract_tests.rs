use ssd_flash_id::bank::{is_bank_empty, is_known_manufacturer, FlashIdError};
use ssd_flash_id::controllers::{
    innogrit, jm_sata, marvell, maxio, phison, rtl, sandforce, smi, smi_sata, tenafe,
    yeestor, AtaStep, NvmeStep, SataFamily, SataPlan,
};
use ssd_flash_id::controllers::ata_identify_fid::extract_from_identify;
use ssd_flash_id::controllers::{sata_next_family, sata_plan};
use ssd_flash_id::controllers::rtl_sata;
use ssd_flash_id::detect::{
    controller_family_display, detect, resolve_nvme_controller_type, ControllerType,
    ProbeData, RtlVariant,
};
use ssd_flash_id::nvme::{ControllerInfo, NvmeError};

#[test]
fn bank_empty_definition() {
    assert!(is_bank_empty(&[]));
    assert!(is_bank_empty(&[0x00]));
    assert!(is_bank_empty(&[0xFF]));
    assert!(is_bank_empty(&[0x00, 0x00, 0x00]));
    assert!(is_bank_empty(&[0xFF, 0xFF]));
    assert!(!is_bank_empty(&[0x00, 0xFF]));
    assert!(!is_bank_empty(&[0x98, 0x00]));
    assert!(!is_bank_empty(&[0x2C]));
}

#[test]
fn known_manufacturer_bytes() {
    assert!(is_known_manufacturer(0x98));
    assert!(is_known_manufacturer(0x2C));
    assert!(is_known_manufacturer(0x51));
    assert!(!is_known_manufacturer(0x00));
    assert!(!is_known_manufacturer(0xFF));
}

#[test]
fn phison_crc_vector() {
    // Hand-checked vector for the system-info command template.
    assert_eq!(phison::build_cmd(0xD2, 0x400, 0x80, 0), 0x2EBB0000);
}

#[test]
fn phison_crc_deterministic_and_sensitive() {
    let zeros = [0u8; 64];
    assert_eq!(phison::phison_crc(&zeros), phison::phison_crc(&zeros));
    assert_eq!(phison::phison_crc(&zeros), 0x0);
    let mut flipped = zeros;
    flipped[5] = 1;
    assert_eq!(phison::phison_crc(&flipped), 0x35250000);
    assert_ne!(phison::phison_crc(&zeros), phison::phison_crc(&flipped));
    // A change beyond the first 60 bytes does not participate.
    let mut tail = zeros;
    tail[63] = 0xAA;
    assert_eq!(phison::phison_crc(&zeros), phison::phison_crc(&tail));
}

#[test]
fn phison_signature_gate() {
    let sysinfo = vec![0u8; 4096];
    let step = phison::read_flash_id(&Some(Ok(sysinfo)), &Vec::new());
    assert!(matches!(
        step,
        NvmeStep::Done(Err(FlashIdError::ProtocolMismatch))
    ));
}

#[test]
fn phison_fallback_walk() {
    let mut sysinfo = vec![0u8; 4096];
    for (i, b) in b"PhIsOnNo".iter().enumerate() {
        sysinfo[0x200 + i] = *b;
    }
    // No embedded identifiers: the extractor asks for per-bank reads.
    let resp = Some(Ok(sysinfo));
    let step = phison::read_flash_id(&resp, &Vec::new());
    match step {
        NvmeStep::Issue(q) => {
            assert_eq!(q.cmd.opcode, 0xD2);
            assert_eq!(q.cmd.cdw10, 0x80);
            assert_eq!(q.cmd.cdw12, 0x90);
        }
        _ => panic!("expected a per-bank read"),
    }
    // One bank answers, the others fail.
    let mut replies: Vec<Option<Vec<u8>>> = Vec::new();
    let mut bank0 = vec![0u8; 512];
    bank0[0] = 0x98;
    bank0[1] = 0x3A;
    replies.push(Some(bank0));
    for _ in 1..8 {
        replies.push(None);
    }
    match phison::read_flash_id(&resp, &replies) {
        NvmeStep::Done(Ok(res)) => {
            assert_eq!(res.controller_name, "Phison");
            assert_eq!(res.banks.len(), 1);
            assert_eq!(res.banks[0].bank_num, 0);
            assert_eq!(res.banks[0].flash_id[0], 0x98);
        }
        _ => panic!("expected a result"),
    }
}

#[test]
fn phison_embedded_banks_and_name() {
    let mut sysinfo = vec![0u8; 4096];
    for (i, b) in b"PhIsOnNo".iter().enumerate() {
        sysinfo[0x200 + i] = *b;
    }
    for (i, b) in b"PS5013-E13".iter().enumerate() {
        sysinfo[0x300 + i] = *b;
    }
    // Two identical candidates and one distinct one: duplicates collapse.
    let fid = [0x98, 0x3A, 0x94, 0x93, 0x76, 0x51, 0x00, 0x00];
    sysinfo[0x70..0x78].copy_from_slice(&fid);
    sysinfo[0x78..0x80].copy_from_slice(&fid);
    let fid2 = [0x2C, 0xB5, 0x78, 0x32, 0xAA, 0x00, 0x00, 0x00];
    sysinfo[0x80..0x88].copy_from_slice(&fid2);
    match phison::read_flash_id(&Some(Ok(sysinfo)), &Vec::new()) {
        NvmeStep::Done(Ok(res)) => {
            assert_eq!(res.controller_name, "PS5013-E13");
            assert_eq!(res.banks.len(), 2);
            assert_eq!(res.banks[0].flash_id, fid);
            assert_eq!(res.banks[1].flash_id, fid2);
            assert_eq!(res.banks[0].bank_num, 0);
            assert_eq!(res.banks[1].bank_num, 1);
        }
        _ => panic!("expected a result"),
    }
}

#[test]
fn smi_single_bank_window() {
    // A synthetic response with one populated slot at 0x30 yields exactly
    // one bank with bank number 0.
    let mut buf = vec![0u8; 2048];
    let payload = [0x98, 0x3A, 0x94, 0x93, 0x76, 0x00, 0x00, 0x00];
    buf[0x30..0x38].copy_from_slice(&payload);
    match smi::read_flash_id(&Some(Ok(buf))) {
        NvmeStep::Done(Ok(res)) => {
            assert_eq!(res.banks.len(), 1);
            assert_eq!(res.banks[0].bank_num, 0);
            assert_eq!(res.banks[0].flash_id, payload);
            assert_eq!(res.controller_name, "SMI");
        }
        _ => panic!("expected a result"),
    }
    // All sentinel slots: zero banks.
    let empty = vec![0u8; 2048];
    match smi::read_flash_id(&Some(Ok(empty))) {
        NvmeStep::Done(Ok(res)) => assert_eq!(res.banks.len(), 0),
        _ => panic!("expected a result"),
    }
}

#[test]
fn smi_transport_error_propagates() {
    match smi::read_flash_id(&Some(Err(NvmeError { errno: 5 }))) {
        NvmeStep::Done(Err(FlashIdError::Transport { errno })) => assert_eq!(errno, 5),
        _ => panic!("expected a transport error"),
    }
}

#[test]
fn detect_priority_realtek_over_smi() {
    // A Realtek firmware prefix wins even when the model also matches a
    // Silicon Motion fragment and the vendor id is the SMI id.
    let info = ControllerInfo {
        vid: 0x2646,
        ssvid: 0x2646,
        serial: String::from("S"),
        model: String::from("SM2262EN SSD"),
        firmware: String::from("REALTEK_RL6447A"),
    };
    let probes = ProbeData {
        phison: None,
        maxio_c1: None,
        maxio_c2: None,
        marvell: None,
        innogrit: None,
    };
    match detect(&info, &probes) {
        Some(ControllerType::Realtek(name, v)) => {
            assert_eq!(name, "RTS5762/63");
            assert_eq!(v, RtlVariant::V1);
        }
        _ => panic!("expected Realtek"),
    }
}

#[test]
fn detect_probe_order_first_positive_wins() {
    let info = ControllerInfo {
        vid: 0,
        ssvid: 0,
        serial: String::new(),
        model: String::new(),
        firmware: String::new(),
    };
    let mut phison_buf = vec![0u8; 4096];
    for (i, b) in b"PhIsOnNo".iter().enumerate() {
        phison_buf[100 + i] = *b;
    }
    let mut maxio_buf = vec![0u8; 4096];
    for (i, b) in b",MAP1602".iter().enumerate() {
        maxio_buf[10 + i] = *b;
    }
    let probes = ProbeData {
        phison: Some(phison_buf),
        maxio_c1: Some(maxio_buf),
        maxio_c2: None,
        marvell: None,
        innogrit: None,
    };
    assert!(matches!(detect(&info, &probes), Some(ControllerType::Phison(_))));
}

#[test]
fn sata_auto_detect_order() {
    // With no firmware hint, families are tried in the fixed
    // least-invasive-first order, and only after a failure does the next
    // one get a turn.
    assert_eq!(sata_next_family(0), Some(SataFamily::Yeestor));
    assert_eq!(sata_next_family(1), Some(SataFamily::SmiSata));
    assert_eq!(sata_next_family(2), Some(SataFamily::SandForce));
    assert_eq!(sata_next_family(3), Some(SataFamily::JmSata));
    assert_eq!(sata_next_family(4), Some(SataFamily::RtlSata));
    assert_eq!(sata_next_family(5), Some(SataFamily::IdentifyFid));
    assert_eq!(sata_next_family(6), None);
}

#[test]
fn sata_plan_honours_firmware_hints() {
    assert_eq!(sata_plan("SM2259AB-XYZ"), SataPlan::Single(SataFamily::SmiSata));
    assert_eq!(sata_plan("REALTEK_RL6468B"), SataPlan::Single(SataFamily::RtlSata));
    assert_eq!(sata_plan("OTHERFW1"), SataPlan::Chain);
}

#[test]
fn tenafe_walkthrough() {
    match tenafe::read_flash_id(&None, &None) {
        NvmeStep::Issue(q) => {
            assert_eq!(q.cmd.opcode, 0xC1);
            assert_eq!(q.cmd.nsid, 1);
            assert_eq!(q.data_out.len(), 4096);
            assert_eq!(q.data_out[0], 0x03);
            assert_eq!(q.data_out[0x11], 0x04);
        }
        _ => panic!("expected the configuration write"),
    }
    let mut buf = vec![0u8; 4096];
    buf[0x50] = 0xEC;
    buf[0x58 + 1] = 0xA1;
    match tenafe::read_flash_id(&Some(Ok(Vec::new())), &Some(Ok(buf))) {
        NvmeStep::Done(Ok(res)) => {
            assert_eq!(res.controller_name, "Tenafe TC2200/TC2201");
            assert_eq!(res.banks.len(), 2);
            assert_eq!(res.banks[0].bank_num, 0);
            assert_eq!(res.banks[1].bank_num, 1);
        }
        _ => panic!("expected a result"),
    }
}

#[test]
fn innogrit_generation_dispatch() {
    // Device id 0x5216 selects the 32-slot table at 0x548 and names the
    // part in decimal.
    let mut buf = vec![0u8; 4096];
    buf[0x62E] = 0x16;
    buf[0x62F] = 0x52;
    buf[0x548] = 0xAD;
    buf[0x549] = 0x5A;
    match innogrit::read_flash_id(&Some(Ok(buf))) {
        NvmeStep::Done(Ok(res)) => {
            assert_eq!(res.controller_name, "IG21014");
            assert_eq!(res.banks.len(), 1);
            assert_eq!(res.banks[0].flash_id, [0xAD, 0x5A, 0, 0, 0, 0, 0, 0]);
        }
        _ => panic!("expected a result"),
    }
}

#[test]
fn marvell_signature_mismatch() {
    let buf = vec![0u8; 512];
    match marvell::read_flash_id(&Some(Ok(buf)), &None, &None) {
        NvmeStep::Done(Err(FlashIdError::ProtocolMismatch)) => {}
        _ => panic!("expected a protocol mismatch"),
    }
}

#[test]
fn marvell_walkthrough() {
    let mut fw = vec![0u8; 512];
    for (i, b) in b"DM1160-B1 FW".iter().enumerate() {
        fw[i] = *b;
    }
    match marvell::read_flash_id(&Some(Ok(fw.clone())), &None, &None) {
        NvmeStep::Issue(q) => {
            assert_eq!(q.cmd.opcode, 0xFD);
            assert_eq!(q.data_out[0], 0x01);
        }
        _ => panic!("expected the request write"),
    }
    let mut fid = vec![0u8; 1024];
    fid[0] = 0x45;
    fid[1] = 0x3C;
    match marvell::read_flash_id(&Some(Ok(fw)), &Some(Ok(Vec::new())), &Some(Ok(fid))) {
        NvmeStep::Done(Ok(res)) => {
            assert_eq!(res.controller_name, "DM1160-B1 FW");
            assert_eq!(res.banks.len(), 1);
        }
        _ => panic!("expected a result"),
    }
}

#[test]
fn maxio_walkthrough() {
    match maxio::read_flash_id(&None, &None, &Vec::new()) {
        maxio::MaxioStep::Prepare(q) => {
            assert_eq!(q.cmd.opcode, 0xC1);
            assert_eq!(q.data_out[2], 0x86);
        }
        _ => panic!("expected the prepare write"),
    }
    let prep = Some(Ok(Vec::new()));
    let mut bulk = vec![0u8; 4096];
    for (i, b) in b",MAP1202".iter().enumerate() {
        bulk[40 + i] = *b;
    }
    let bulk = Some(Ok(bulk));
    match maxio::read_flash_id(&prep, &bulk, &Vec::new()) {
        maxio::MaxioStep::Slot(w, r) => {
            assert_eq!(w.cmd.opcode, 0xC1);
            assert_eq!(w.data_out[2], 0x36);
            assert_eq!(w.data_out[3], 0);
            assert_eq!(w.data_out[4], 0);
            assert_eq!(r.cmd.opcode, 0xC2);
        }
        _ => panic!("expected a slot attempt"),
    }
    // 64 slots: one succeeds with data, one succeeds empty, the rest fail.
    let mut slots: Vec<Option<Vec<u8>>> = Vec::new();
    let mut d = vec![0u8; 512];
    d[0] = 0xEC;
    d[1] = 0xA1;
    slots.push(Some(d));
    slots.push(Some(vec![0u8; 512]));
    for _ in 2..64 {
        slots.push(None);
    }
    match maxio::read_flash_id(&prep, &bulk, &slots) {
        maxio::MaxioStep::Done(Ok(res)) => {
            assert_eq!(res.controller_name, "MAP1202");
            assert_eq!(res.banks.len(), 1);
            assert_eq!(res.banks[0].bank_num, 0);
        }
        _ => panic!("expected a result"),
    }
}

#[test]
fn rtl_tries_first_generation_first() {
    // A V2 controller still starts with the V1 attempt.
    match rtl::read_flash_id(&RtlVariant::V2, &Vec::new()) {
        NvmeStep::Issue(q) => assert_eq!(q.cmd.opcode, 0xFC),
        _ => panic!("expected the unlock command"),
    }
    let req = rtl::attempt_read_request(0);
    assert_eq!(req.cmd.cdw13, 0x00410000);
    let req2 = rtl::attempt_read_request(1);
    assert_eq!(req2.cmd.cdw12, 0xAFF03860);
    // First attempt empty, second attempt carries a bank.
    let mut d = vec![0u8; 512];
    d[0] = 0x98;
    d[1] = 0x3A;
    let attempts = vec![Some(vec![0u8; 512]), Some(d)];
    match rtl::read_flash_id(&RtlVariant::V2, &attempts) {
        NvmeStep::Done(Ok(res)) => {
            assert_eq!(res.controller_name, "RTS5765/66/72");
            assert_eq!(res.banks.len(), 1);
        }
        _ => panic!("expected a result"),
    }
    // A V1 plan that stays empty gives up after one attempt.
    let attempts = vec![Some(vec![0u8; 512])];
    assert!(matches!(
        rtl::read_flash_id(&RtlVariant::V1, &attempts),
        NvmeStep::Done(Err(FlashIdError::EmptyData))
    ));
}

#[test]
fn sandforce_rejects_sentinel_response() {
    let w = Some(Ok(Vec::new()));
    // A response of alternating sentinel bytes is rejected outright even
    // though it is not all one value.
    let mut d = vec![0u8; 512];
    for i in 0..512 {
        if i % 2 == 0 {
            d[i] = 0xFF;
        }
    }
    assert!(matches!(
        sandforce::read_flash_id(&w, &Some(Ok(d))),
        AtaStep::Done(Err(FlashIdError::EmptyData))
    ));
    let mut good = vec![0u8; 512];
    good[0] = 0x2C;
    good[1] = 0x64;
    match sandforce::read_flash_id(&w, &Some(Ok(good))) {
        AtaStep::Done(Ok(res)) => {
            assert_eq!(res.controller_name, "SandForce");
            assert_eq!(res.banks.len(), 1);
        }
        _ => panic!("expected a result"),
    }
}

#[test]
fn yeestor_pattern_order_and_allow_list() {
    match yeestor::read_flash_id(&Vec::new()) {
        AtaStep::Issue(q) => {
            // First magic pattern: LBA mid 0x55, low 0x00, READ DMA 0xC8.
            assert_eq!(q.cdb[10], 0x55);
            assert_eq!(q.cdb[8], 0x00);
            assert_eq!(q.cdb[14], 0xC8);
            assert_eq!(q.cdb[13], 0x40);
        }
        _ => panic!("expected the first magic read"),
    }
    // A response whose first byte is not allow-listed is skipped.
    let mut bad = vec![0u8; 512];
    bad[0] = 0x51;
    bad[1] = 0x22;
    let attempts = vec![Some(bad)];
    assert!(matches!(yeestor::read_flash_id(&attempts), AtaStep::Issue(_)));
    let mut good = vec![0u8; 512];
    good[0] = 0x2C;
    good[1] = 0x44;
    let attempts = vec![None, Some(good)];
    match yeestor::read_flash_id(&attempts) {
        AtaStep::Done(Ok(res)) => {
            assert_eq!(res.controller_name, "Yeestor/SiliconGo (DMA 0x0055)");
            assert_eq!(res.banks.len(), 1);
        }
        _ => panic!("expected a result"),
    }
}

#[test]
fn smi_sata_smart_path_and_fallbacks() {
    match smi_sata::read_flash_id(&None, &None, &None) {
        AtaStep::Issue(q) => {
            assert_eq!(q.cdb[14], 0xB0);
            assert_eq!(q.cdb[10], 0x4F);
            assert_eq!(q.cdb[12], 0xC2);
        }
        _ => panic!("expected the SMART read"),
    }
    let mut smart = vec![0u8; 512];
    smart[0] = 0x98;
    smart[1] = 0x3A;
    match smi_sata::read_flash_id(&Some(Some(smart)), &None, &None) {
        AtaStep::Done(Ok(res)) => {
            assert_eq!(res.controller_name, "SM2259/XT (SMART FID)");
            assert_eq!(res.banks.len(), 1);
        }
        _ => panic!("expected a result"),
    }
    // A failed SMART read falls back to the magic-LBA reads.
    let mut r1 = vec![0u8; 512];
    r1[0] = 0xAD;
    r1[1] = 0x5A;
    match smi_sata::read_flash_id(&Some(None), &Some(Ok(r1)), &Some(Ok(vec![0u8; 512]))) {
        AtaStep::Done(Ok(res)) => assert_eq!(res.controller_name, "SM2259/XT (R1)"),
        _ => panic!("expected a result"),
    }
}

#[test]
fn smi_sata_firmware_prefixes() {
    assert_eq!(smi_sata::detect_from_firmware("SM2259AB-123"), Some("SM2259/XT"));
    assert_eq!(smi_sata::detect_from_firmware("XYZ"), None);
}

#[test]
fn jm_firmware_id_walk() {
    match jm_sata::read_firmware_id(false, &Vec::new()) {
        jm_sata::JmFwStep::Unlock(a, b) => {
            assert_eq!(a.cdb[14], 0xEF);
            assert_eq!(a.cdb[4], 0xDA);
            assert_eq!(b.cdb[4], 0xDC);
        }
        _ => panic!("expected the unlock pair"),
    }
    match jm_sata::read_firmware_id(true, &Vec::new()) {
        jm_sata::JmFwStep::Attempt(w, r) => {
            assert_eq!(w.data_out[2], 0x86);
            assert_eq!(w.data_out[3], 0x03);
            assert_eq!(r.cdb[4], 0x86);
        }
        _ => panic!("expected the first attempt"),
    }
    // An all-zero blob does not count; the second attempt follows.
    let attempts = vec![Some(vec![0u8; 4096])];
    match jm_sata::read_firmware_id(true, &attempts) {
        jm_sata::JmFwStep::Attempt(w, _) => assert_eq!(w.data_out[2], 0x04),
        _ => panic!("expected the second attempt"),
    }
    let mut blob = vec![0u8; 4096];
    blob[0] = 1;
    let attempts = vec![Some(blob)];
    match jm_sata::read_firmware_id(true, &attempts) {
        jm_sata::JmFwStep::Done(Ok(d)) => assert_eq!(d[0], 1),
        _ => panic!("expected the blob"),
    }
    assert!(matches!(
        jm_sata::read_firmware_id(true, &vec![None, None]),
        jm_sata::JmFwStep::Done(Err(FlashIdError::EmptyData))
    ));
}

#[test]
fn jm_detect_and_channel_walk() {
    let mut fw = vec![0u8; 4096];
    for (i, b) in b"JM605,MA1102,X".iter().enumerate() {
        fw[0x100 + i] = *b;
    }
    assert!(matches!(
        jm_sata::detect(&fw),
        Some(jm_sata::JmController::Mas1102)
    ));
    // Table at 0x474 for MAS1102; one entry, terminators elsewhere.
    for i in 0..32 {
        fw[0x474 + i] = 0xFF;
    }
    fw[0x474] = 0x0B; // channel 1 with chip-enable shift 3
    match jm_sata::read_flash_id(&fw, &Vec::new()) {
        jm_sata::JmStep::Slot(w, r) => {
            assert_eq!(w.data_out[2], 0x36);
            assert_eq!(w.data_out[7], 0x0B >> 3);
            assert_eq!(w.data_out[0x1C], 0x0B);
            assert_eq!(r.cdb[4], 0x36);
        }
        _ => panic!("expected a channel slot"),
    }
    let mut slot = vec![0u8; 512];
    slot[0] = 0x98;
    slot[1] = 0x3A;
    match jm_sata::read_flash_id(&fw, &vec![Some(slot)]) {
        jm_sata::JmStep::Done(Ok(res)) => {
            assert_eq!(res.controller_name, "MAS1102");
            assert_eq!(res.banks.len(), 1);
            // The identifier keeps 7 bytes and pads the eighth with zero.
            assert_eq!(res.banks[0].flash_id[7], 0);
        }
        _ => panic!("expected a result"),
    }
    assert!(matches!(
        jm_sata::read_flash_id(&vec![0u8; 4096], &Vec::new()),
        jm_sata::JmStep::Done(Err(FlashIdError::ProtocolMismatch))
    ));
}

#[test]
fn rtl_sata_walkthrough() {
    assert_eq!(rtl_sata::detect_from_firmware("REALTEK_RL6531X"), Some("RTS5733"));
    match rtl_sata::read_flash_id(&None, &None, &None) {
        AtaStep::Issue(q) => {
            assert_eq!(q.cdb[14], 0xFC);
            assert_eq!(q.cdb[1] & 1, 1);
        }
        _ => panic!("expected the setup command"),
    }
    let pre = Some(Ok(Vec::new()));
    let mut d = vec![0u8; 512];
    d[0] = 0xEC;
    d[1] = 0xA2;
    match rtl_sata::read_flash_id(&pre, &Some(Some(d)), &None) {
        AtaStep::Done(Ok(res)) => assert_eq!(res.controller_name, "Realtek SATA"),
        _ => panic!("expected a result"),
    }
    // A failed primary read falls through to the alternate encoding.
    match rtl_sata::read_flash_id(&pre, &Some(None), &None) {
        AtaStep::Issue(q) => assert_eq!(q.cdb[4], 0x41),
        _ => panic!("expected the alternate read"),
    }
}

#[test]
fn identify_embedded_fallback() {
    let mut id = vec![0u8; 512];
    id[0x127] = 0x98;
    id[0x128] = 0x3A;
    let res = extract_from_identify(&id).expect("embedded identifier");
    assert_eq!(res.controller_name, "SATA (from ATA IDENTIFY)");
    assert_eq!(res.banks.len(), 1);
    assert_eq!(res.banks[0].flash_id[0], 0x98);
    // Empty or unlisted candidates yield nothing.
    assert!(extract_from_identify(&vec![0u8; 512]).is_none());
    let mut bad = vec![0u8; 512];
    bad[0x127] = 0x51; // excluded from this fallback's allow list
    bad[0x128] = 0x3A;
    assert!(extract_from_identify(&bad).is_none());
}

#[test]
fn error_messages_name_the_class() {
    assert_eq!(
        FlashIdError::Transport { errno: 5 }.message(),
        "device-control call failed"
    );
    assert_eq!(
        FlashIdError::ProtocolMismatch.message(),
        "response does not match the expected vendor signature"
    );
    assert_eq!(
        FlashIdError::EmptyData.message(),
        "no flash ID data in the response"
    );
}

#[test]
fn controller_type_accessors() {
    let ct = resolve_nvme_controller_type("phison").expect("known family");
    assert_eq!(ct.name(), "Phison (forced)");
    assert_eq!(ct.family(), "phison");
    assert_eq!(controller_family_display(&ct), "Phison");
    assert!(resolve_nvme_controller_type("nosuch").is_none());
}
