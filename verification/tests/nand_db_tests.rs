use ssd_flash_id::nand_db::{cell_type, describe_flash, format_flash_id_hex, manufacturer_name};

#[test]
fn test_manufacturer_names() {
    assert_eq!(manufacturer_name(0x2C), "Micron");
    assert_eq!(manufacturer_name(0x89), "Intel");
    assert_eq!(manufacturer_name(0xEC), "Samsung");
    assert_eq!(manufacturer_name(0xFF), "Unknown");
}

#[test]
fn test_format_hex() {
    let id = [0x89, 0xD3, 0xAC, 0x32, 0xC6, 0x00, 0x00, 0x00];
    assert_eq!(
        format_flash_id_hex(&id),
        "0x89,0xd3,0xac,0x32,0xc6,0x00,0x00,0x00"
    );
}

#[test]
fn test_intel_144l() {
    let id = [0x89, 0xD3, 0xAC, 0x32, 0xC6, 0x00, 0x00, 0x00];
    let desc = describe_flash(&id);
    assert!(desc.contains("Intel"));
    assert!(desc.contains("144L(N38A)"));
    assert!(desc.contains("QLC"));
}

#[test]
fn test_micron_176l() {
    let id = [0x2C, 0xC3, 0x08, 0x32, 0xEA, 0x30, 0x00, 0x00];
    let desc = describe_flash(&id);
    assert!(desc.contains("Micron"));
    assert!(desc.contains("176L(B47R)"));
}

#[test]
fn test_samsung_rtl() {
    let id = [0xEC, 0xA1, 0x08, 0x02, 0x00, 0x4E, 0x00, 0x00];
    let desc = describe_flash(&id);
    assert!(desc.contains("Samsung"));
    assert!(desc.contains("3dv7-176L"));
    assert!(desc.contains("8k"));
}

#[test]
fn test_samsung_smi_extra() {
    let id = [0xEC, 0xA1, 0x08, 0x02, 0x00, 0x86, 0x00, 0x00];
    let desc = describe_flash(&id);
    assert!(desc.contains("Samsung"));
    assert!(desc.contains("3dv6e-136L"));
}

#[test]
fn test_toshiba_bics5() {
    let id = [0x98, 0xA1, 0x08, 0x02, 0x00, 0x23, 0x00, 0x00];
    let desc = describe_flash(&id);
    assert!(desc.contains("Toshiba/Kioxia"));
    assert!(desc.contains("112L BiCS5"));
    assert!(desc.contains("8k"));
}

#[test]
fn test_hynix_3dv7() {
    let id = [0xAD, 0xA1, 0x08, 0x02, 0x00, 0x65, 0x00, 0x00];
    let desc = describe_flash(&id);
    assert!(desc.contains("SK Hynix"));
    assert!(desc.contains("3dv7-176L"));
}

#[test]
fn test_ymtc_qlc_special() {
    let id = [0x9B, 0xD5, 0x58, 0x8D, 0x20, 0x00, 0x00, 0x00];
    let desc = describe_flash(&id);
    assert!(desc.contains("YMTC"));
    assert!(desc.contains("QLC"));
}

#[test]
fn test_intel_special_cell_type() {
    let id = [0x89, 0x09, 0x28, 0x32, 0xC2, 0x00, 0x00, 0x00];
    let desc = describe_flash(&id);
    assert!(desc.contains("Intel"));
    assert!(desc.contains("192L(Q5171A)"));
    assert!(desc.contains("QLC"));
}

#[test]
fn test_cell_type_general() {
    assert_eq!(cell_type(&[0xEC, 0x00, 0x00, 0x00, 0x00, 0x00]), "SLC");
    assert_eq!(cell_type(&[0xEC, 0x00, 0x04, 0x00, 0x00, 0x00]), "MLC");
    assert_eq!(cell_type(&[0xEC, 0x00, 0x08, 0x00, 0x00, 0x00]), "TLC");
    assert_eq!(cell_type(&[0xEC, 0x00, 0x0C, 0x00, 0x00, 0x00]), "QLC");
}

#[test]
fn test_short_id() {
    assert_eq!(describe_flash(&[0x89, 0x00, 0x00]), "Unknown");
}
