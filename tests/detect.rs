use disk_boot::disk::boot::{Boot, FieldValue, Line};
use disk_boot::disk::{retrieve_boot, BootRecord, DetectError, Format, UNSUPPORTED_MESSAGE};

fn blank_image() -> Vec<u8> {
    vec![0u8; 1108]
}

fn field(lines: &[Line], name: &str) -> Option<FieldValue> {
    lines.iter().find_map(|l| match l {
        Line::Field(n, v) if *n == name => Some(*v),
        _ => None,
    })
}

fn mbr_image() -> Vec<u8> {
    let mut image = blank_image();
    image[510] = 0x55;
    image[511] = 0xaa;
    image[446] = 0x80;
    image[446 + 4] = 0x83;
    image[446 + 8..446 + 12].copy_from_slice(&0x0000_0800u32.to_le_bytes());
    image[446 + 12..446 + 16].copy_from_slice(&0x0010_0000u32.to_le_bytes());
    image
}

#[test]
fn mbr_happy_path() {
    let record = retrieve_boot(&mbr_image()).unwrap();
    assert!(matches!(record, BootRecord::Mbr(_)));
    assert!(record.verify());
    let lines = record.render();
    assert_eq!(lines[0], Line::Heading("Printing boot Structure Master Boot Record!"));
    assert_eq!(field(&lines, "bootable"), Some(FieldValue::Flag(true)));
    assert_eq!(field(&lines, "partition_type"), Some(FieldValue::Hex(0x83)));
    assert_eq!(field(&lines, "lba"), Some(FieldValue::Decimal(2048)));
    assert_eq!(field(&lines, "size"), Some(FieldValue::Decimal(1_048_576)));
}

#[test]
fn ntfs_happy_path() {
    let mut image = blank_image();
    image[3..11].copy_from_slice(b"NTFS    ");
    image[11] = 0x00;
    image[12] = 0x02;
    let record = retrieve_boot(&image).unwrap();
    assert!(matches!(record, BootRecord::Ntfs(_)));
    let lines = record.render();
    assert_eq!(lines[0], Line::Heading("Printing boot Structure NTFS Boot Record!"));
    assert_eq!(field(&lines, "Bytes Per Sector"), Some(FieldValue::Decimal(512)));
}

#[test]
fn fat_happy_path() {
    let mut image = blank_image();
    image[3..11].copy_from_slice(b"MSDOS5.0");
    image[32..36].copy_from_slice(&0x0010_0000u32.to_le_bytes());
    let record = retrieve_boot(&image).unwrap();
    assert!(matches!(record, BootRecord::Fat(_)));
    let lines = record.render();
    assert_eq!(lines[0], Line::Heading("Printing boot Structure FAT Boot Record!"));
    assert_eq!(field(&lines, "Sector Count (large)"), Some(FieldValue::Decimal(1_048_576)));
    assert_eq!(field(&lines, "Sector Count (small)"), Some(FieldValue::Decimal(0)));
}

#[test]
fn ext_happy_path() {
    let mut image = blank_image();
    image[1080] = 0x53;
    image[1081] = 0xef;
    image[1024..1028].copy_from_slice(&0x0000_0100u32.to_le_bytes());
    let record = retrieve_boot(&image).unwrap();
    assert!(matches!(record, BootRecord::Ext(_)));
    let lines = record.render();
    assert_eq!(lines[0], Line::Heading("Printing boot Structure EXT Super Block!"));
    assert_eq!(field(&lines, "Inode Count"), Some(FieldValue::Decimal(256)));
    assert_eq!(field(&lines, "Signature"), Some(FieldValue::Decimal(61267)));
}

#[test]
fn ambiguous_mbr_and_ext() {
    let mut image = mbr_image();
    image[1080] = 0x53;
    image[1081] = 0xef;
    assert!(matches!(retrieve_boot(&image), Ok(BootRecord::Mbr(_))));
}

#[test]
fn ntfs_before_fat() {
    let mut image = blank_image();
    image[3..11].copy_from_slice(b"NTFS    ");
    image[19] = 0x10;
    assert!(matches!(retrieve_boot(&image), Ok(BootRecord::Ntfs(_))));
}

#[test]
fn fat_before_ext() {
    let mut image = blank_image();
    image[19] = 0x10;
    image[1080] = 0x53;
    image[1081] = 0xef;
    assert!(matches!(retrieve_boot(&image), Ok(BootRecord::Fat(_))));
}

#[test]
fn unsupported_image() {
    let result = retrieve_boot(&blank_image());
    assert!(matches!(result, Err(DetectError::Unsupported)));
    assert_eq!(
        UNSUPPORTED_MESSAGE,
        "Could not find a working structure for this disk! Either this file is not a disk or is a disk type not supported!"
    );
}

#[test]
fn swapped_boot_signature_is_not_mbr() {
    let mut image = blank_image();
    image[510] = 0xaa;
    image[511] = 0x55;
    assert!(matches!(retrieve_boot(&image), Err(DetectError::Unsupported)));
}

#[test]
fn short_image_stops_at_mbr() {
    let image = vec![0u8; 511];
    assert!(matches!(
        retrieve_boot(&image),
        Err(DetectError::Truncated { format: Format::Mbr, offset: 446, length: 66 })
    ));
    assert!(matches!(
        retrieve_boot(&[]),
        Err(DetectError::Truncated { format: Format::Mbr, .. })
    ));
}

#[test]
fn short_image_stops_at_ext() {
    let image = vec![0u8; 1107];
    assert!(matches!(
        retrieve_boot(&image),
        Err(DetectError::Truncated { format: Format::Ext, offset: 1024, length: 84 })
    ));
}

#[test]
fn short_image_with_ntfs_tag_detected() {
    let mut image = vec![0u8; 512];
    image[3..11].copy_from_slice(b"NTFS    ");
    assert!(matches!(retrieve_boot(&image), Ok(BootRecord::Ntfs(_))));
}

#[test]
fn detection_repeats_identically() {
    let images = [mbr_image(), blank_image(), {
        let mut image = blank_image();
        image[1080] = 0x53;
        image[1081] = 0xef;
        image[1030] = 7;
        image
    }];
    for image in images.iter() {
        let first = retrieve_boot(image).map(|r| r.render());
        let second = retrieve_boot(image).map(|r| r.render());
        assert_eq!(first, second);
    }
}
