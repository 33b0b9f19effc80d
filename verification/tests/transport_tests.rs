use ssd_flash_id::ata::{
    build_cdb, build_cdb_ext, classify_sg_reply, errno_text, parse_ata_identify,
    ata_string_trim, AtaDevice, AtaError, SgDirection, SgReply,
};
use ssd_flash_id::nvme::{ascii_trim, parse_identify, AdminDirection, NvmeAdminCmd, NvmeDevice};

#[test]
fn cdb_pio_read_layout() {
    // PIO data-in (protocol 4), read byte 2, IDENTIFY-style register values.
    let f = 0x17;
    let c = 0x2A;
    let (lo, mid, hi) = (0x11, 0x22, 0x33);
    let cdb = build_cdb(4, 0x2E, 0xEC, f, c, lo, mid, hi, 0xE0);
    assert_eq!(
        cdb,
        [0x85, 0x08, 0x2E, 0, f, 0, c, 0, lo, 0, mid, 0, hi, 0xE0, 0xEC, 0]
    );
}

#[test]
fn cdb_ext_interleaves_previous_and_current() {
    // With every previous byte 0x11 and every current byte 0x22, the
    // register area of the CDB alternates 0x11, 0x22.
    let cdb = build_cdb_ext(
        4, 0x2E, 0xEC, 0x22, 0x22, 0x22, 0x22, 0x22, 0xE0, 0x11, 0x11, 0x11, 0x11, 0x11,
    );
    assert_eq!(cdb[1], 4 * 2 + 1);
    assert_eq!(cdb[1] & 1, 1);
    for k in 0..5 {
        assert_eq!(cdb[3 + 2 * k], 0x11);
        assert_eq!(cdb[4 + 2 * k], 0x22);
    }
}

#[test]
fn ata_read_request_framing() {
    let dev = AtaDevice {};
    let r = dev.ata_read(0xEC, 0, 1, 0, 0, 0, 0xE0, 512);
    assert_eq!(r.cmd_len, 16);
    assert_eq!(r.sense_len, 32);
    assert_eq!(r.timeout_ms, 10_000);
    assert_eq!(r.data_len, 512);
    assert_eq!(r.direction.sg_dxfer(), -3);
    assert_eq!(r.cdb[0], 0x85);
    assert_eq!(r.cdb[14], 0xEC);
    assert!(matches!(r.direction, SgDirection::FromDevice));
}

#[test]
fn ata_identify_request() {
    let dev = AtaDevice {};
    let r = dev.ata_identify();
    assert_eq!(r.cdb, [0x85, 0x08, 0x2E, 0, 0, 0, 1, 0, 0, 0, 0, 0, 0, 0xE0, 0xEC, 0]);
    assert_eq!(r.data_len, 512);
}

fn ok_reply(data: Vec<u8>) -> SgReply {
    SgReply {
        ioctl_ok: true,
        errno: 0,
        host_status: 0,
        driver_status: 0,
        sense: Vec::new(),
        data,
    }
}

#[test]
fn classify_clean_completion_is_ok() {
    let r = ok_reply(vec![0u8; 8]);
    assert!(classify_sg_reply(&r).is_ok());
}

#[test]
fn classify_ioctl_failure() {
    let mut r = ok_reply(Vec::new());
    r.ioctl_ok = false;
    r.errno = 5;
    assert!(matches!(classify_sg_reply(&r), Err(AtaError::Ioctl { errno: 5 })));
}

#[test]
fn classify_host_status_failure() {
    let mut r = ok_reply(Vec::new());
    r.host_status = 0x0001;
    assert!(matches!(
        classify_sg_reply(&r),
        Err(AtaError::Status { host: 0x0001, driver: 0 })
    ));
}

#[test]
fn classify_driver_sense_alone_is_expected() {
    // DRIVER_SENSE (0x08) is expected when check-condition is requested.
    let mut r = ok_reply(Vec::new());
    r.driver_status = 0x08;
    assert!(classify_sg_reply(&r).is_ok());
}

#[test]
fn classify_rejected_command() {
    // Descriptor-format sense with an ATA status-return descriptor whose
    // status has bit 0 set: the command was rejected, not transported
    // wrongly.
    let mut sense = vec![0u8; 32];
    sense[0] = 0x72;
    sense[8] = 0x09;
    sense[9] = 0x0C;
    sense[11] = 0x04; // ATA error register
    sense[21] = 0x51; // ATA status register, bit 0 set
    let r = SgReply {
        ioctl_ok: true,
        errno: 0,
        host_status: 0,
        driver_status: 0x08,
        sense,
        data: Vec::new(),
    };
    assert!(matches!(
        classify_sg_reply(&r),
        Err(AtaError::Rejected { status: 0x51, error: 0x04 })
    ));
}

#[test]
fn classify_missing_descriptor_is_success() {
    // Sense data without the ATA status descriptor counts as success even
    // with check-condition requested.
    let mut sense = vec![0u8; 32];
    sense[0] = 0x70; // fixed format, not descriptor format
    sense[21] = 0x51;
    let r = SgReply {
        ioctl_ok: true,
        errno: 0,
        host_status: 0,
        driver_status: 0x08,
        sense,
        data: Vec::new(),
    };
    assert!(classify_sg_reply(&r).is_ok());
}

#[test]
fn ata_text_field_round_trip() {
    // "AB" padded with spaces and stored with the high byte of each word
    // first comes back as "AB" after swap and trim.
    let stored = [0x42, 0x41, 0x20, 0x20];
    assert_eq!(ata_string_trim(&stored), "AB");
    // Each adjacent pair is swapped before filtering and trimming.
    let raw = [0x41, 0x20, 0x42, 0x20];
    assert_eq!(ata_string_trim(&raw), "A B");
}

#[test]
fn parse_ata_identify_fields() {
    let mut data = vec![0x20u8; 512];
    // Model at words 27..46, stored high byte first within each pair.
    data[54] = b'M';
    data[55] = b'S';
    data[56] = b'D';
    data[57] = b'S';
    let id = parse_ata_identify(&data);
    assert_eq!(id.model, "SMSD");
    assert_eq!(id.serial, "");
    assert_eq!(id.firmware, "");
}

#[test]
fn nvme_admin_read_fields() {
    let dev = NvmeDevice {};
    let r = dev.admin_read(0xC2, 0, 0x200, 0, 0x40, 0x01, 0, 0, 2048);
    assert_eq!(r.cmd.opcode, 0xC2);
    assert_eq!(r.cmd.nsid, 0);
    assert_eq!(r.cmd.cdw10, 0x200);
    assert_eq!(r.cmd.cdw12, 0x40);
    assert_eq!(r.cmd.cdw13, 0x01);
    assert_eq!(r.cmd.data_len, 2048);
    assert_eq!(r.cmd.timeout_ms, 10_000);
    assert_eq!(r.cmd.addr, 0);
    assert!(matches!(r.direction, AdminDirection::FromDevice));
}

#[test]
fn nvme_admin_cmd_zeroed() {
    let c = NvmeAdminCmd::zeroed();
    assert_eq!(c.opcode, 0);
    assert_eq!(c.nsid, 0);
    assert_eq!(c.cdw15, 0);
    assert_eq!(c.timeout_ms, 0);
}

#[test]
fn nvme_identify_controller_request() {
    let dev = NvmeDevice {};
    let r = dev.identify_controller();
    assert_eq!(r.cmd.opcode, 0x06);
    assert_eq!(r.cmd.cdw10, 1);
    assert_eq!(r.cmd.data_len, 4096);
}

#[test]
fn parse_identify_fields() {
    let mut data = vec![0u8; 4096];
    data[0] = 0x46;
    data[1] = 0x26; // vid 0x2646 little-endian
    data[2] = 0x01;
    data[3] = 0x00;
    for (i, b) in b"SN123".iter().enumerate() {
        data[4 + i] = *b;
    }
    for (i, b) in b"Some Model".iter().enumerate() {
        data[24 + i] = *b;
    }
    for (i, b) in b"FW1.0".iter().enumerate() {
        data[64 + i] = *b;
    }
    let info = parse_identify(&data);
    assert_eq!(info.vid, 0x2646);
    assert_eq!(info.ssvid, 0x0001);
    assert_eq!(info.serial, "SN123");
    assert_eq!(info.model, "Some Model");
    assert_eq!(info.firmware, "FW1.0");
}

#[test]
fn ascii_trim_replaces_and_trims() {
    // Would fail if the string builder handed its input back unchanged:
    // the non-printable byte must become a space and the padding must go.
    let raw = [0x01, 0x41, 0x42, 0x02, 0x43, 0x20, 0x20];
    assert_eq!(ascii_trim(&raw), "AB C");
}

#[test]
fn errno_messages() {
    assert_eq!(errno_text(13), "permission denied");
    assert_eq!(errno_text(19), "no such device");
    assert_eq!(errno_text(12345), "unknown error");
}
