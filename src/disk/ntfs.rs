//! The NTFS boot sector.

use vstd::prelude::*;

use crate::disk::boot::{Boot, FieldValue, Line};
use crate::disk::source::{fits, read_exact, window};
use crate::helper::{le_at, slice_to_u16, slice_to_u32, slice_to_u64};

verus! {

/// Bytes of the boot sector that the record covers.
pub const NTFS_LENGTH: u64 = 80;

/// The OEM tag of an NTFS volume: `NTFS` and four spaces.
pub open spec fn ntfs_oem() -> Seq<u8> {
    seq![0x4e, 0x54, 0x46, 0x53, 0x20, 0x20, 0x20, 0x20]
}

/// Whether the boot sector `b` carries the NTFS OEM tag at bytes 3..11.
pub open spec fn oem_matches(b: Seq<u8>) -> bool {
    b.subrange(3, 11) == ntfs_oem()
}

/// The first 80 bytes of an NTFS boot sector.
pub struct NtfsBoot {
    pub oem_sys: [u8; 8],
    pub bytes_per_sector: u16,
    pub sector_per_cluster: u8,
    pub res_sector: u16,
    pub table_count: u8,
    pub root_entry_count: u16,
    pub sector_count_s: u16,
    pub media_type: u8,
    pub sectors_p_table: u16,
    pub sectors_p_track: u16,
    pub heads: u16,
    pub hidden_sectors: u32,
    pub sector_count_l: u32,
    pub reserved: u32,
    pub sector_count_xl: u64,
    pub mast_table_cluster_1: u64,
    pub mast_table_cluster_2: u64,
    pub clusters_p_record: u8,
    pub reserved_2: [u8; 3],
    pub serial: u64,
    pub checksum: u32,
}

impl NtfsBoot {
    /// Whether every field holds what the 80 header bytes `b` give at its offset.
    pub open spec fn decoded_from(self, b: Seq<u8>) -> bool {
        &&& self.oem_sys@ == b.subrange(3, 11)
        &&& self.bytes_per_sector == le_at(b, 11, 2)
        &&& self.sector_per_cluster == b[13]
        &&& self.res_sector == le_at(b, 14, 2)
        &&& self.table_count == b[16]
        &&& self.root_entry_count == le_at(b, 17, 2)
        &&& self.sector_count_s == le_at(b, 19, 2)
        &&& self.media_type == b[21]
        &&& self.sectors_p_table == le_at(b, 22, 2)
        &&& self.sectors_p_track == le_at(b, 24, 2)
        &&& self.heads == le_at(b, 26, 2)
        &&& self.hidden_sectors == le_at(b, 28, 4)
        &&& self.sector_count_l == le_at(b, 32, 4)
        &&& self.reserved == le_at(b, 36, 4)
        &&& self.sector_count_xl == le_at(b, 40, 8)
        &&& self.mast_table_cluster_1 == le_at(b, 48, 8)
        &&& self.mast_table_cluster_2 == le_at(b, 56, 8)
        &&& self.clusters_p_record == b[64]
        &&& self.reserved_2@ == b.subrange(65, 68)
        &&& self.serial == le_at(b, 68, 8)
        &&& self.checksum == le_at(b, 76, 4)
    }

    /// Two records decoded from the same bytes are equal.
    pub proof fn lemma_decoded_unique(self, other: Self, b: Seq<u8>)
        requires
            self.decoded_from(b),
            other.decoded_from(b),
        ensures
            self == other,
    {
        assert(self.oem_sys =~= other.oem_sys);
        assert(self.reserved_2 =~= other.reserved_2);
    }

    /// Decodes the 80 header bytes `b`.
    pub fn from_bytes(b: &[u8]) -> (r: NtfsBoot)
        requires
            b@.len() == NTFS_LENGTH,
        ensures
            r.decoded_from(b@),
    {
        let r = NtfsBoot {
            oem_sys: [b[3], b[4], b[5], b[6], b[7], b[8], b[9], b[10]],
            bytes_per_sector: slice_to_u16(&b[11..13], true),
            sector_per_cluster: b[13],
            res_sector: slice_to_u16(&b[14..16], true),
            table_count: b[16],
            root_entry_count: slice_to_u16(&b[17..19], true),
            sector_count_s: slice_to_u16(&b[19..21], true),
            media_type: b[21],
            sectors_p_table: slice_to_u16(&b[22..24], true),
            sectors_p_track: slice_to_u16(&b[24..26], true),
            heads: slice_to_u16(&b[26..28], true),
            hidden_sectors: slice_to_u32(&b[28..32], true),
            sector_count_l: slice_to_u32(&b[32..36], true),
            reserved: slice_to_u32(&b[36..40], true),
            sector_count_xl: slice_to_u64(&b[40..48], true),
            mast_table_cluster_1: slice_to_u64(&b[48..56], true),
            mast_table_cluster_2: slice_to_u64(&b[56..64], true),
            clusters_p_record: b[64],
            reserved_2: [b[65], b[66], b[67]],
            serial: slice_to_u64(&b[68..76], true),
            checksum: slice_to_u32(&b[76..80], true),
        };
        assert(r.oem_sys@ =~= b@.subrange(3, 11));
        assert(r.reserved_2@ =~= b@.subrange(65, 68));
        r
    }

    /// Decodes the boot sector that starts at `start` in `image`, or gives
    /// `None` where the image ends before its 80 bytes.
    pub fn new(image: &[u8], start: u64) -> (r: Option<NtfsBoot>)
        ensures
            match r {
                Some(n) => fits(image@, start as int, NTFS_LENGTH as int) && n.decoded_from(
                    window(image@, start as int, NTFS_LENGTH as int),
                ),
                None => !fits(image@, start as int, NTFS_LENGTH as int),
            },
    {
        match read_exact(image, start, NTFS_LENGTH) {
            Some(b) => Some(NtfsBoot::from_bytes(b)),
            None => None,
        }
    }
}

impl Boot for NtfsBoot {
    open spec fn spec_lines(&self) -> Seq<Line> {
        seq![
            Line::Heading("Printing boot Structure NTFS Boot Record!"),
            Line::Field("Bytes Per Sector", FieldValue::Decimal(self.bytes_per_sector as u64)),
            Line::Field("Sectors Per Cluster", FieldValue::Decimal(self.sector_per_cluster as u64)),
            Line::Field("Reserved Sectors", FieldValue::Decimal(self.res_sector as u64)),
            Line::Field("Table Count", FieldValue::Decimal(self.table_count as u64)),
            Line::Field("Root Entry Count", FieldValue::Decimal(self.root_entry_count as u64)),
            Line::Field("Sector Count (small)", FieldValue::Decimal(self.sector_count_s as u64)),
            Line::Field("Media Type", FieldValue::Decimal(self.media_type as u64)),
            Line::Field("Sectors Per Table", FieldValue::Decimal(self.sectors_p_table as u64)),
            Line::Field("Sectors per Track", FieldValue::Decimal(self.sectors_p_track as u64)),
            Line::Field("Head Count", FieldValue::Decimal(self.heads as u64)),
            Line::Field("Hidden Sectors", FieldValue::Decimal(self.hidden_sectors as u64)),
            Line::Field("Sector Count (large)", FieldValue::Decimal(self.sector_count_l as u64)),
            Line::Field("Sector Count (x-large)", FieldValue::Decimal(self.sector_count_xl)),
            Line::Field("Master Table Cluster 1", FieldValue::Decimal(self.mast_table_cluster_1)),
            Line::Field("Master Table Cluster 2", FieldValue::Decimal(self.mast_table_cluster_2)),
            Line::Field("Clusters Per Record", FieldValue::Decimal(self.clusters_p_record as u64)),
            Line::Field("Serial", FieldValue::Decimal(self.serial)),
            Line::Field("Checksum", FieldValue::Decimal(self.checksum as u64)),
        ]
    }

    open spec fn spec_verify(&self) -> bool {
        self.oem_sys@ == ntfs_oem()
    }

    fn render(&self) -> (r: Vec<Line>) {
        let r = vec![
            Line::Heading("Printing boot Structure NTFS Boot Record!"),
            Line::Field("Bytes Per Sector", FieldValue::Decimal(self.bytes_per_sector as u64)),
            Line::Field("Sectors Per Cluster", FieldValue::Decimal(self.sector_per_cluster as u64)),
            Line::Field("Reserved Sectors", FieldValue::Decimal(self.res_sector as u64)),
            Line::Field("Table Count", FieldValue::Decimal(self.table_count as u64)),
            Line::Field("Root Entry Count", FieldValue::Decimal(self.root_entry_count as u64)),
            Line::Field("Sector Count (small)", FieldValue::Decimal(self.sector_count_s as u64)),
            Line::Field("Media Type", FieldValue::Decimal(self.media_type as u64)),
            Line::Field("Sectors Per Table", FieldValue::Decimal(self.sectors_p_table as u64)),
            Line::Field("Sectors per Track", FieldValue::Decimal(self.sectors_p_track as u64)),
            Line::Field("Head Count", FieldValue::Decimal(self.heads as u64)),
            Line::Field("Hidden Sectors", FieldValue::Decimal(self.hidden_sectors as u64)),
            Line::Field("Sector Count (large)", FieldValue::Decimal(self.sector_count_l as u64)),
            Line::Field("Sector Count (x-large)", FieldValue::Decimal(self.sector_count_xl)),
            Line::Field("Master Table Cluster 1", FieldValue::Decimal(self.mast_table_cluster_1)),
            Line::Field("Master Table Cluster 2", FieldValue::Decimal(self.mast_table_cluster_2)),
            Line::Field("Clusters Per Record", FieldValue::Decimal(self.clusters_p_record as u64)),
            Line::Field("Serial", FieldValue::Decimal(self.serial)),
            Line::Field("Checksum", FieldValue::Decimal(self.checksum as u64)),
        ];
        assert(r@ =~= self.spec_lines());
        r
    }

    fn verify(&self) -> (r: bool) {
        let r = self.oem_sys[0] == 0x4e && self.oem_sys[1] == 0x54 && self.oem_sys[2] == 0x46
            && self.oem_sys[3] == 0x53 && self.oem_sys[4] == 0x20 && self.oem_sys[5] == 0x20
            && self.oem_sys[6] == 0x20 && self.oem_sys[7] == 0x20;
        assert(r ==> self.oem_sys@ =~= ntfs_oem());
        r
    }
}

} // verus!
