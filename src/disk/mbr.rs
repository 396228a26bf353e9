//! The master boot record: its partition table and boot signature.

use vstd::prelude::*;

use crate::disk::boot::{Boot, FieldValue, Line};
use crate::disk::source::{fits, read_exact, window};
use crate::helper::{le_at, le_value, slice_to_u16, slice_to_u32};

verus! {

/// Bytes of one partition table entry.
pub const PARTITION_LENGTH: u64 = 16;

/// Bytes from the start of the partition table to the end of the sector:
/// four entries and the boot signature.
pub const MBR_LENGTH: u64 = 66;

/// The boot signature, read little-endian from the last two bytes of the sector.
pub const MBR_MAGIC: u16 = 0xaa55;

/// Whether the partition table bytes `b` end in the boot signature.
pub open spec fn signature_matches(b: Seq<u8>) -> bool {
    le_at(b, 64, 2) == MBR_MAGIC
}

/// One entry of the partition table.
pub struct Partition {
    pub bootable: bool,
    pub chs_start: u32,
    pub partition_type: u8,
    pub chs_end: u32,
    pub lba: u32,
    pub size: u32,
}

/// The partition table of a master boot record and the signature after it.
pub struct Mbr {
    pub partition_1: Partition,
    pub partition_2: Partition,
    pub partition_3: Partition,
    pub partition_4: Partition,
    pub signature: u16,
}

/// Decodes the three-byte little-endian CHS address that starts at `at` in `b`.
fn chs_at(b: &[u8], at: usize) -> (r: u32)
    requires
        at + 3 <= b@.len(),
    ensures
        r == le_at(b@, at as int, 3),
{
    proof {
        reveal_with_fuel(le_value, 4);
    }
    (b[at] as u32) + (b[at + 1] as u32) * 0x100 + (b[at + 2] as u32) * 0x1_0000
}

impl Partition {
    /// Whether every field holds what the 16 entry bytes `b` give at its offset.
    pub open spec fn decoded_from(self, b: Seq<u8>) -> bool {
        &&& self.bootable == (b[0] == 0x80)
        &&& self.chs_start == le_at(b, 1, 3)
        &&& self.partition_type == b[4]
        &&& self.chs_end == le_at(b, 5, 3)
        &&& self.lba == le_at(b, 8, 4)
        &&& self.size == le_at(b, 12, 4)
    }

    /// Two records decoded from the same bytes are equal.
    pub proof fn lemma_decoded_unique(self, other: Self, b: Seq<u8>)
        requires
            self.decoded_from(b),
            other.decoded_from(b),
        ensures
            self == other,
    {
    }

    /// Decodes the 16 entry bytes `b`.
    pub fn from_bytes(b: &[u8]) -> (r: Partition)
        requires
            b@.len() == PARTITION_LENGTH,
        ensures
            r.decoded_from(b@),
    {
        Partition {
            bootable: b[0] == 0x80,
            chs_start: chs_at(b, 1),
            partition_type: b[4],
            chs_end: chs_at(b, 5),
            lba: slice_to_u32(&b[8..12], true),
            size: slice_to_u32(&b[12..16], true),
        }
    }

    /// Decodes the entry that starts at `start` in `image`, or gives `None`
    /// where the image ends before its 16 bytes.
    pub fn new(image: &[u8], start: u64) -> (r: Option<Partition>)
        ensures
            match r {
                Some(p) => fits(image@, start as int, PARTITION_LENGTH as int) && p.decoded_from(
                    window(image@, start as int, PARTITION_LENGTH as int),
                ),
                None => !fits(image@, start as int, PARTITION_LENGTH as int),
            },
    {
        match read_exact(image, start, PARTITION_LENGTH) {
            Some(b) => Some(Partition::from_bytes(b)),
            None => None,
        }
    }
}

impl Mbr {
    /// Whether the entries and the signature hold what the 66 bytes `b`,
    /// from the start of the partition table to the end of the sector, give.
    pub open spec fn decoded_from(self, b: Seq<u8>) -> bool {
        &&& self.partition_1.decoded_from(b.subrange(0, 16))
        &&& self.partition_2.decoded_from(b.subrange(16, 32))
        &&& self.partition_3.decoded_from(b.subrange(32, 48))
        &&& self.partition_4.decoded_from(b.subrange(48, 64))
        &&& self.signature == le_at(b, 64, 2)
    }

    /// Two records decoded from the same bytes are equal.
    pub proof fn lemma_decoded_unique(self, other: Self, b: Seq<u8>)
        requires
            self.decoded_from(b),
            other.decoded_from(b),
        ensures
            self == other,
    {
        self.partition_1.lemma_decoded_unique(other.partition_1, b.subrange(0, 16));
        self.partition_2.lemma_decoded_unique(other.partition_2, b.subrange(16, 32));
        self.partition_3.lemma_decoded_unique(other.partition_3, b.subrange(32, 48));
        self.partition_4.lemma_decoded_unique(other.partition_4, b.subrange(48, 64));
    }

    /// Decodes the 66 bytes `b` from the start of the partition table to the
    /// end of the sector.
    pub fn from_bytes(b: &[u8]) -> (r: Mbr)
        requires
            b@.len() == MBR_LENGTH,
        ensures
            r.decoded_from(b@),
    {
        Mbr {
            partition_1: Partition::from_bytes(&b[0..16]),
            partition_2: Partition::from_bytes(&b[16..32]),
            partition_3: Partition::from_bytes(&b[32..48]),
            partition_4: Partition::from_bytes(&b[48..64]),
            signature: slice_to_u16(&b[64..66], true),
        }
    }

    /// Decodes the partition table that starts at `start` in `image`, with the
    /// signature 64 bytes after it, or gives `None` where the image ends before
    /// the signature.
    pub fn new(image: &[u8], start: u64) -> (r: Option<Mbr>)
        ensures
            match r {
                Some(m) => fits(image@, start as int, MBR_LENGTH as int) && m.decoded_from(
                    window(image@, start as int, MBR_LENGTH as int),
                ),
                None => !fits(image@, start as int, MBR_LENGTH as int),
            },
    {
        match read_exact(image, start, MBR_LENGTH) {
            Some(b) => Some(Mbr::from_bytes(b)),
            None => None,
        }
    }
}

impl Boot for Partition {
    open spec fn spec_lines(&self) -> Seq<Line> {
        seq![
            Line::Heading("Printing boot Structure Master Boot Record!"),
            Line::Field("bootable", FieldValue::Flag(self.bootable)),
            Line::Field("chs_start", FieldValue::Decimal(self.chs_start as u64)),
            Line::Field("partition_type", FieldValue::Hex(self.partition_type)),
            Line::Field("chs_end", FieldValue::Decimal(self.chs_end as u64)),
            Line::Field("lba", FieldValue::Decimal(self.lba as u64)),
            Line::Field("size", FieldValue::Decimal(self.size as u64)),
        ]
    }

    open spec fn spec_verify(&self) -> bool {
        true
    }

    fn render(&self) -> (r: Vec<Line>) {
        let r = vec![
            Line::Heading("Printing boot Structure Master Boot Record!"),
            Line::Field("bootable", FieldValue::Flag(self.bootable)),
            Line::Field("chs_start", FieldValue::Decimal(self.chs_start as u64)),
            Line::Field("partition_type", FieldValue::Hex(self.partition_type)),
            Line::Field("chs_end", FieldValue::Decimal(self.chs_end as u64)),
            Line::Field("lba", FieldValue::Decimal(self.lba as u64)),
            Line::Field("size", FieldValue::Decimal(self.size as u64)),
        ];
        assert(r@ =~= self.spec_lines());
        r
    }

    fn verify(&self) -> (r: bool) {
        true
    }
}

impl Boot for Mbr {
    open spec fn spec_lines(&self) -> Seq<Line> {
        seq![
            Line::Heading("Printing boot Structure Master Boot Record!"),
            Line::Heading("First Partition!"),
        ] + self.partition_1.spec_lines() + seq![Line::Heading("Second Partition!")]
            + self.partition_2.spec_lines() + seq![Line::Heading("Third Partition!")]
            + self.partition_3.spec_lines() + seq![Line::Heading("Fourth Partition!")]
            + self.partition_4.spec_lines()
    }

    open spec fn spec_verify(&self) -> bool {
        self.signature == MBR_MAGIC
    }

    fn render(&self) -> (r: Vec<Line>) {
        let mut r = vec![
            Line::Heading("Printing boot Structure Master Boot Record!"),
            Line::Heading("First Partition!"),
        ];
        let mut lines = self.partition_1.render();
        r.append(&mut lines);
        r.push(Line::Heading("Second Partition!"));
        let mut lines = self.partition_2.render();
        r.append(&mut lines);
        r.push(Line::Heading("Third Partition!"));
        let mut lines = self.partition_3.render();
        r.append(&mut lines);
        r.push(Line::Heading("Fourth Partition!"));
        let mut lines = self.partition_4.render();
        r.append(&mut lines);
        assert(r@ =~= self.spec_lines());
        r
    }

    fn verify(&self) -> (r: bool) {
        self.signature == MBR_MAGIC
    }
}

} // verus!
