use disk_boot::disk::boot::{Boot, FieldValue, Line};
use disk_boot::disk::ext::Superblock;
use disk_boot::disk::fat::FatBoot;
use disk_boot::disk::mbr::{Mbr, Partition};
use disk_boot::disk::ntfs::NtfsBoot;
use disk_boot::disk::source::read_exact;
use disk_boot::helper::{slice_to_u16, slice_to_u32, slice_to_u64};

#[test]
fn u16_round_trip() {
    for v in [0u16, 1, 0x00ff, 0x0100, 0x1234, 0xaa55, 0xef53, u16::MAX] {
        assert_eq!(slice_to_u16(&v.to_le_bytes(), true), v);
        assert_eq!(slice_to_u16(&v.to_be_bytes(), false), v);
    }
}

#[test]
fn u32_round_trip() {
    for v in [0u32, 1, 0x800, 0x0010_0000, 0x1234_5678, 0xdead_beef, u32::MAX] {
        assert_eq!(slice_to_u32(&v.to_le_bytes(), true), v);
        assert_eq!(slice_to_u32(&v.to_be_bytes(), false), v);
    }
}

#[test]
fn u64_round_trip() {
    for v in [0u64, 1, 0x0102_0304_0506_0708, 0x8000_0000_0000_0000, u64::MAX] {
        assert_eq!(slice_to_u64(&v.to_le_bytes(), true), v);
        assert_eq!(slice_to_u64(&v.to_be_bytes(), false), v);
    }
}

#[test]
fn byte_order_flag_selects_endianness() {
    assert_eq!(slice_to_u16(&[0x34, 0x12], true), 0x1234);
    assert_eq!(slice_to_u16(&[0x34, 0x12], false), 0x3412);
    assert_eq!(slice_to_u32(&[0x78, 0x56, 0x34, 0x12], true), 0x1234_5678);
    assert_eq!(slice_to_u32(&[0x78, 0x56, 0x34, 0x12], false), 0x7856_3412);
    assert_eq!(
        slice_to_u64(&[1, 2, 3, 4, 5, 6, 7, 8], true),
        0x0807_0605_0403_0201
    );
    assert_eq!(
        slice_to_u64(&[1, 2, 3, 4, 5, 6, 7, 8], false),
        0x0102_0304_0506_0708
    );
}

#[test]
fn read_exact_bounds() {
    let image: Vec<u8> = (0u8..10).collect();
    assert_eq!(read_exact(&image, 2, 3), Some(&image[2..5]));
    assert_eq!(read_exact(&image, 0, 10), Some(&image[..]));
    assert_eq!(read_exact(&image, 10, 0), Some(&image[10..10]));
    assert_eq!(read_exact(&image, 8, 3), None);
    assert_eq!(read_exact(&image, 11, 0), None);
    assert_eq!(read_exact(&image, u64::MAX, 2), None);
}

#[test]
fn partition_fields() {
    let entry = [
        0x80, 0x01, 0x02, 0x03, 0x83, 0x04, 0x05, 0x06, 0x00, 0x08, 0x00, 0x00, 0x00, 0x00, 0x10,
        0x00,
    ];
    let p = Partition::from_bytes(&entry);
    assert!(p.bootable);
    assert_eq!(p.chs_start, 0x03_0201);
    assert_eq!(p.partition_type, 0x83);
    assert_eq!(p.chs_end, 0x06_0504);
    assert_eq!(p.lba, 2048);
    assert_eq!(p.size, 1_048_576);
    assert!(p.verify());
    let lines = p.render();
    assert_eq!(lines.len(), 7);
    assert_eq!(lines[0], Line::Heading("Printing boot Structure Master Boot Record!"));
    assert_eq!(lines[1], Line::Field("bootable", FieldValue::Flag(true)));
    assert_eq!(lines[2], Line::Field("chs_start", FieldValue::Decimal(0x03_0201)));
    assert_eq!(lines[3], Line::Field("partition_type", FieldValue::Hex(0x83)));
    assert_eq!(lines[4], Line::Field("chs_end", FieldValue::Decimal(0x06_0504)));
    assert_eq!(lines[5], Line::Field("lba", FieldValue::Decimal(2048)));
    assert_eq!(lines[6], Line::Field("size", FieldValue::Decimal(1_048_576)));
    let mut other = entry;
    other[0] = 0x00;
    assert!(!Partition::from_bytes(&other).bootable);
    other[0] = 0x81;
    assert!(!Partition::from_bytes(&other).bootable);
}

#[test]
fn mbr_entries_and_signature_offsets() {
    let mut image = vec![0u8; 512];
    for k in 0..4usize {
        image[446 + 16 * k + 4] = 0x10 + k as u8;
        image[446 + 16 * k + 8] = k as u8 + 1;
    }
    image[510] = 0x55;
    image[511] = 0xaa;
    let m = Mbr::new(&image, 446).unwrap();
    assert_eq!(m.partition_1.partition_type, 0x10);
    assert_eq!(m.partition_2.partition_type, 0x11);
    assert_eq!(m.partition_3.partition_type, 0x12);
    assert_eq!(m.partition_4.partition_type, 0x13);
    assert_eq!(m.partition_1.lba, 1);
    assert_eq!(m.partition_4.lba, 4);
    assert_eq!(m.signature, 0xaa55);
    assert!(m.verify());
    image[510] = 0xaa;
    image[511] = 0x55;
    assert!(!Mbr::new(&image, 446).unwrap().verify());
    assert!(Mbr::new(&image[..511], 446).is_none());
}

#[test]
fn mbr_listing_layout() {
    let mut image = vec![0u8; 512];
    image[510] = 0x55;
    image[511] = 0xaa;
    let lines = Mbr::new(&image, 446).unwrap().render();
    assert_eq!(lines.len(), 1 + 4 * 8);
    assert_eq!(lines[0], Line::Heading("Printing boot Structure Master Boot Record!"));
    assert_eq!(lines[1], Line::Heading("First Partition!"));
    assert_eq!(lines[2], Line::Heading("Printing boot Structure Master Boot Record!"));
    assert_eq!(lines[3], Line::Field("bootable", FieldValue::Flag(false)));
    assert_eq!(lines[9], Line::Heading("Second Partition!"));
    assert_eq!(lines[17], Line::Heading("Third Partition!"));
    assert_eq!(lines[25], Line::Heading("Fourth Partition!"));
    assert_eq!(lines[26], Line::Heading("Printing boot Structure Master Boot Record!"));
}

fn ntfs_sector() -> Vec<u8> {
    let mut b = vec![0u8; 80];
    b[3..11].copy_from_slice(b"NTFS    ");
    b
}

#[test]
fn ntfs_fields_little_endian() {
    let mut b = ntfs_sector();
    b[11] = 0x00;
    b[12] = 0x02;
    b[14] = 0x01;
    b[15] = 0x02;
    b[26] = 0xff;
    b[27] = 0x01;
    b[40..48].copy_from_slice(&0x0102_0304_0506_0708u64.to_le_bytes());
    b[65] = 7;
    b[67] = 9;
    b[68..76].copy_from_slice(&0x1122_3344_5566_7788u64.to_le_bytes());
    b[76..80].copy_from_slice(&0xcafe_f00du32.to_le_bytes());
    let n = NtfsBoot::from_bytes(&b);
    assert_eq!(&n.oem_sys, b"NTFS    ");
    assert_eq!(n.bytes_per_sector, 512);
    assert_eq!(n.res_sector, 0x0201);
    assert_eq!(n.heads, 0x01ff);
    assert_eq!(n.sector_count_xl, 0x0102_0304_0506_0708);
    assert_eq!(n.reserved_2, [7, 0, 9]);
    assert_eq!(n.serial, 0x1122_3344_5566_7788);
    assert_eq!(n.checksum, 0xcafe_f00d);
    assert!(n.verify());
}

#[test]
fn ntfs_tag_checked_at_every_position() {
    for i in 3..11 {
        let mut b = ntfs_sector();
        b[i] = b'X';
        assert!(!NtfsBoot::from_bytes(&b).verify());
    }
    let mut b = ntfs_sector();
    b[3..11].copy_from_slice(b"NTFS\0\0\0\0");
    assert!(!NtfsBoot::from_bytes(&b).verify());
}

#[test]
fn fat_counts_exclusive() {
    let mut b = vec![0u8; 36];
    b[3..11].copy_from_slice(b"MSDOS5.0");
    assert!(!FatBoot::from_bytes(&b).verify());
    b[19] = 0x40;
    assert!(FatBoot::from_bytes(&b).verify());
    b[34] = 0x10;
    assert!(!FatBoot::from_bytes(&b).verify());
    b[19] = 0;
    let f = FatBoot::from_bytes(&b);
    assert!(f.verify());
    assert_eq!(f.sector_count_l, 1_048_576);
    assert_eq!(&f.oem, b"MSDOS5.0");
}

#[test]
fn fat_reserved_sectors_two_bytes() {
    let mut b = vec![0u8; 36];
    b[14] = 0x20;
    b[15] = 0x01;
    b[26] = 0x10;
    b[27] = 0x01;
    let f = FatBoot::from_bytes(&b);
    assert_eq!(f.reserved_sectors, 0x0120);
    assert_eq!(f.heads_on_media, 0x0110);
}

#[test]
fn ext_field_offsets() {
    let mut b = vec![0u8; 84];
    for k in 0..13u32 {
        let at = 4 * k as usize;
        b[at..at + 4].copy_from_slice(&(k + 1).to_le_bytes());
    }
    b[56] = 0x53;
    b[57] = 0xef;
    b[82] = 0x34;
    b[83] = 0x12;
    let s = Superblock::from_bytes(&b);
    assert_eq!(s.inode_count, 1);
    assert_eq!(s.block_count, 2);
    assert_eq!(s.inodes_per_group, 11);
    assert_eq!(s.last_written_time, 13);
    assert_eq!(s.signature, 0xef53);
    assert_eq!(s.group_id, 0x1234);
    assert!(s.verify());
    assert!(Superblock::new(&b, 1).is_none());
}
