//! The FAT boot sector.

use vstd::prelude::*;

use crate::disk::boot::{Boot, FieldValue, Line};
use crate::disk::source::{fits, read_exact, window};
use crate::helper::{le_at, slice_to_u16, slice_to_u32};

verus! {

/// Bytes of the BIOS Parameter Block that the record covers.
pub const FAT_LENGTH: u64 = 36;

/// Whether exactly one of the small (bytes 19..21) and large (bytes 32..36)
/// sector counts of the parameter block `b` is zero.
pub open spec fn counts_match(b: Seq<u8>) -> bool {
    (le_at(b, 19, 2) == 0) != (le_at(b, 32, 4) == 0)
}

/// The BIOS Parameter Block at the start of a FAT volume.
pub struct FatBoot {
    pub oem: [u8; 8],
    pub bytes_per_sector: u16,
    pub sectors_per_cluster: u8,
    pub reserved_sectors: u16,
    pub table_count: u8,
    pub directory_entries: u16,
    pub sector_count_s: u16,
    pub media_type: u8,
    pub sectors_per_fat: u16,
    pub sectors_per_track: u16,
    pub heads_on_media: u16,
    pub hidden_sectors: u32,
    pub sector_count_l: u32,
}

/// The extended boot record that follows the parameter block on FAT12 and FAT16.
pub struct FatBoot12_16 {
    pub drive_number: u8,
    pub nt_flags: u8,
    pub signature: u8,
    pub volume_id: u32,
    pub volume_label: [u8; 11],
    pub system_id: [u8; 8],
}

/// The extended boot record that follows the parameter block on FAT32.
pub struct FatBoot32 {
    pub sectors_per_fat: u32,
    pub flags: u16,
    pub fat_version: u16,
    pub root_cluster: u32,
    pub fs_info_sector: u16,
    pub backup_sector: u16,
    pub zeros: [u8; 12],
    pub drive_num: u8,
    pub flags_nt: u8,
    pub signature: u8,
    pub volume_id: u32,
    pub volume_label: [u8; 11],
    pub system_id: [u8; 8],
}

impl FatBoot {
    /// Whether every field holds what the 36 header bytes `b` give at its offset.
    pub open spec fn decoded_from(self, b: Seq<u8>) -> bool {
        &&& self.oem@ == b.subrange(3, 11)
        &&& self.bytes_per_sector == le_at(b, 11, 2)
        &&& self.sectors_per_cluster == b[13]
        &&& self.reserved_sectors == le_at(b, 14, 2)
        &&& self.table_count == b[16]
        &&& self.directory_entries == le_at(b, 17, 2)
        &&& self.sector_count_s == le_at(b, 19, 2)
        &&& self.media_type == b[21]
        &&& self.sectors_per_fat == le_at(b, 22, 2)
        &&& self.sectors_per_track == le_at(b, 24, 2)
        &&& self.heads_on_media == le_at(b, 26, 2)
        &&& self.hidden_sectors == le_at(b, 28, 4)
        &&& self.sector_count_l == le_at(b, 32, 4)
    }

    /// Two records decoded from the same bytes are equal.
    pub proof fn lemma_decoded_unique(self, other: Self, b: Seq<u8>)
        requires
            self.decoded_from(b),
            other.decoded_from(b),
        ensures
            self == other,
    {
        assert(self.oem =~= other.oem);
    }

    /// Decodes the 36 header bytes `b`.
    pub fn from_bytes(b: &[u8]) -> (r: FatBoot)
        requires
            b@.len() == FAT_LENGTH,
        ensures
            r.decoded_from(b@),
    {
        let r = FatBoot {
            oem: [b[3], b[4], b[5], b[6], b[7], b[8], b[9], b[10]],
            bytes_per_sector: slice_to_u16(&b[11..13], true),
            sectors_per_cluster: b[13],
            reserved_sectors: slice_to_u16(&b[14..16], true),
            table_count: b[16],
            directory_entries: slice_to_u16(&b[17..19], true),
            sector_count_s: slice_to_u16(&b[19..21], true),
            media_type: b[21],
            sectors_per_fat: slice_to_u16(&b[22..24], true),
            sectors_per_track: slice_to_u16(&b[24..26], true),
            heads_on_media: slice_to_u16(&b[26..28], true),
            hidden_sectors: slice_to_u32(&b[28..32], true),
            sector_count_l: slice_to_u32(&b[32..36], true),
        };
        assert(r.oem@ =~= b@.subrange(3, 11));
        r
    }

    /// Decodes the parameter block that starts at `start` in `image`, or gives
    /// `None` where the image ends before its 36 bytes.
    pub fn new(image: &[u8], start: u64) -> (r: Option<FatBoot>)
        ensures
            match r {
                Some(f) => fits(image@, start as int, FAT_LENGTH as int) && f.decoded_from(
                    window(image@, start as int, FAT_LENGTH as int),
                ),
                None => !fits(image@, start as int, FAT_LENGTH as int),
            },
    {
        match read_exact(image, start, FAT_LENGTH) {
            Some(b) => Some(FatBoot::from_bytes(b)),
            None => None,
        }
    }
}

impl Boot for FatBoot {
    open spec fn spec_lines(&self) -> Seq<Line> {
        seq![
            Line::Heading("Printing boot Structure FAT Boot Record!"),
            Line::Field("Bytes Per Sector", FieldValue::Decimal(self.bytes_per_sector as u64)),
            Line::Field("Sectors Per Cluster", FieldValue::Decimal(self.sectors_per_cluster as u64)),
            Line::Field("Reserved Sectors", FieldValue::Decimal(self.reserved_sectors as u64)),
            Line::Field("Table Count", FieldValue::Decimal(self.table_count as u64)),
            Line::Field("Root Entry Count", FieldValue::Decimal(self.directory_entries as u64)),
            Line::Field("Sector Count (small)", FieldValue::Decimal(self.sector_count_s as u64)),
            Line::Field("Media Type", FieldValue::Decimal(self.media_type as u64)),
            Line::Field("Sectors Per Table", FieldValue::Decimal(self.sectors_per_fat as u64)),
            Line::Field("Sectors per Track", FieldValue::Decimal(self.sectors_per_track as u64)),
            Line::Field("Head Count", FieldValue::Decimal(self.heads_on_media as u64)),
            Line::Field("Hidden Sectors", FieldValue::Decimal(self.hidden_sectors as u64)),
            Line::Field("Sector Count (large)", FieldValue::Decimal(self.sector_count_l as u64)),
        ]
    }

    open spec fn spec_verify(&self) -> bool {
        (self.sector_count_l == 0) != (self.sector_count_s == 0)
    }

    fn render(&self) -> (r: Vec<Line>) {
        let r = vec![
            Line::Heading("Printing boot Structure FAT Boot Record!"),
            Line::Field("Bytes Per Sector", FieldValue::Decimal(self.bytes_per_sector as u64)),
            Line::Field("Sectors Per Cluster", FieldValue::Decimal(self.sectors_per_cluster as u64)),
            Line::Field("Reserved Sectors", FieldValue::Decimal(self.reserved_sectors as u64)),
            Line::Field("Table Count", FieldValue::Decimal(self.table_count as u64)),
            Line::Field("Root Entry Count", FieldValue::Decimal(self.directory_entries as u64)),
            Line::Field("Sector Count (small)", FieldValue::Decimal(self.sector_count_s as u64)),
            Line::Field("Media Type", FieldValue::Decimal(self.media_type as u64)),
            Line::Field("Sectors Per Table", FieldValue::Decimal(self.sectors_per_fat as u64)),
            Line::Field("Sectors per Track", FieldValue::Decimal(self.sectors_per_track as u64)),
            Line::Field("Head Count", FieldValue::Decimal(self.heads_on_media as u64)),
            Line::Field("Hidden Sectors", FieldValue::Decimal(self.hidden_sectors as u64)),
            Line::Field("Sector Count (large)", FieldValue::Decimal(self.sector_count_l as u64)),
        ];
        assert(r@ =~= self.spec_lines());
        r
    }

    fn verify(&self) -> (r: bool) {
        (self.sector_count_l == 0) != (self.sector_count_s == 0)
    }
}

} // verus!
