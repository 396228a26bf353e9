//! The superblock of the second-extended filesystem family.

use vstd::prelude::*;

use crate::disk::boot::{Boot, FieldValue, Line};
use crate::disk::source::{fits, read_exact, window};
use crate::helper::{le_at, slice_to_u16, slice_to_u32};

verus! {

/// Where the superblock starts in a volume.
pub const EXT_OFFSET: u64 = 1024;

/// Bytes of the superblock that the record covers.
pub const EXT_LENGTH: u64 = 84;

/// The magic number of an ext superblock.
pub const EXT_MAGIC: u16 = 0xef53;

/// Whether the superblock bytes `b` carry the ext magic number at bytes 56..58.
pub open spec fn signature_matches(b: Seq<u8>) -> bool {
    le_at(b, 56, 2) == EXT_MAGIC
}

/// The leading 84 bytes of an ext superblock.
pub struct Superblock {
    pub inode_count: u32,
    pub block_count: u32,
    pub superuser_blocks: u32,
    pub unallocated_blocks: u32,
    pub allocated_blocks: u32,
    pub superblock_loc: u32,
    pub log_2_block_size: u32,
    pub log_2_frag_size: u32,
    pub blocks_per_group: u32,
    pub fragments_per_group: u32,
    pub inodes_per_group: u32,
    pub last_mount_time: u32,
    pub last_written_time: u32,
    pub mount_count_check: u16,
    pub mount_limit_check: u16,
    pub signature: u16,
    pub state: u16,
    pub state_response: u16,
    pub minor_version: u16,
    pub last_check: u32,
    pub force_check: u32,
    pub os_id: u32,
    pub major_version: u32,
    pub user_id: u16,
    pub group_id: u16,
}

impl Superblock {
    /// Whether every field holds what the 84 superblock bytes `b` give at its offset.
    pub open spec fn decoded_from(self, b: Seq<u8>) -> bool {
        &&& self.inode_count == le_at(b, 0, 4)
        &&& self.block_count == le_at(b, 4, 4)
        &&& self.superuser_blocks == le_at(b, 8, 4)
        &&& self.unallocated_blocks == le_at(b, 12, 4)
        &&& self.allocated_blocks == le_at(b, 16, 4)
        &&& self.superblock_loc == le_at(b, 20, 4)
        &&& self.log_2_block_size == le_at(b, 24, 4)
        &&& self.log_2_frag_size == le_at(b, 28, 4)
        &&& self.blocks_per_group == le_at(b, 32, 4)
        &&& self.fragments_per_group == le_at(b, 36, 4)
        &&& self.inodes_per_group == le_at(b, 40, 4)
        &&& self.last_mount_time == le_at(b, 44, 4)
        &&& self.last_written_time == le_at(b, 48, 4)
        &&& self.mount_count_check == le_at(b, 52, 2)
        &&& self.mount_limit_check == le_at(b, 54, 2)
        &&& self.signature == le_at(b, 56, 2)
        &&& self.state == le_at(b, 58, 2)
        &&& self.state_response == le_at(b, 60, 2)
        &&& self.minor_version == le_at(b, 62, 2)
        &&& self.last_check == le_at(b, 64, 4)
        &&& self.force_check == le_at(b, 68, 4)
        &&& self.os_id == le_at(b, 72, 4)
        &&& self.major_version == le_at(b, 76, 4)
        &&& self.user_id == le_at(b, 80, 2)
        &&& self.group_id == le_at(b, 82, 2)
    }

    /// Two records decoded from the same bytes are equal.
    pub proof fn lemma_decoded_unique(self, other: Self, b: Seq<u8>)
        requires
            self.decoded_from(b),
            other.decoded_from(b),
        ensures
            self == other,
    {
    }

    /// Decodes the 84 superblock bytes `b`.
    pub fn from_bytes(b: &[u8]) -> (r: Superblock)
        requires
            b@.len() == EXT_LENGTH,
        ensures
            r.decoded_from(b@),
    {
        Superblock {
            inode_count: slice_to_u32(&b[0..4], true),
            block_count: slice_to_u32(&b[4..8], true),
            superuser_blocks: slice_to_u32(&b[8..12], true),
            unallocated_blocks: slice_to_u32(&b[12..16], true),
            allocated_blocks: slice_to_u32(&b[16..20], true),
            superblock_loc: slice_to_u32(&b[20..24], true),
            log_2_block_size: slice_to_u32(&b[24..28], true),
            log_2_frag_size: slice_to_u32(&b[28..32], true),
            blocks_per_group: slice_to_u32(&b[32..36], true),
            fragments_per_group: slice_to_u32(&b[36..40], true),
            inodes_per_group: slice_to_u32(&b[40..44], true),
            last_mount_time: slice_to_u32(&b[44..48], true),
            last_written_time: slice_to_u32(&b[48..52], true),
            mount_count_check: slice_to_u16(&b[52..54], true),
            mount_limit_check: slice_to_u16(&b[54..56], true),
            signature: slice_to_u16(&b[56..58], true),
            state: slice_to_u16(&b[58..60], true),
            state_response: slice_to_u16(&b[60..62], true),
            minor_version: slice_to_u16(&b[62..64], true),
            last_check: slice_to_u32(&b[64..68], true),
            force_check: slice_to_u32(&b[68..72], true),
            os_id: slice_to_u32(&b[72..76], true),
            major_version: slice_to_u32(&b[76..80], true),
            user_id: slice_to_u16(&b[80..82], true),
            group_id: slice_to_u16(&b[82..84], true),
        }
    }

    /// Decodes the superblock that starts at `start` in `image`, or gives
    /// `None` where the image ends before its 84 bytes.
    pub fn new(image: &[u8], start: u64) -> (r: Option<Superblock>)
        ensures
            match r {
                Some(s) => fits(image@, start as int, EXT_LENGTH as int) && s.decoded_from(
                    window(image@, start as int, EXT_LENGTH as int),
                ),
                None => !fits(image@, start as int, EXT_LENGTH as int),
            },
    {
        match read_exact(image, start, EXT_LENGTH) {
            Some(b) => Some(Superblock::from_bytes(b)),
            None => None,
        }
    }
}

impl Boot for Superblock {
    open spec fn spec_lines(&self) -> Seq<Line> {
        seq![
            Line::Heading("Printing boot Structure EXT Super Block!"),
            Line::Field("Inode Count", FieldValue::Decimal(self.inode_count as u64)),
            Line::Field("Block Count", FieldValue::Decimal(self.block_count as u64)),
            Line::Field("SuperUser Blocks", FieldValue::Decimal(self.superuser_blocks as u64)),
            Line::Field("Unallocated Blocks", FieldValue::Decimal(self.unallocated_blocks as u64)),
            Line::Field("Allocated Blocks", FieldValue::Decimal(self.allocated_blocks as u64)),
            Line::Field("Superblock Location", FieldValue::Decimal(self.superblock_loc as u64)),
            Line::Field("Block Size (log b2)", FieldValue::Decimal(self.log_2_block_size as u64)),
            Line::Field("Fragment Size (log b2)", FieldValue::Decimal(self.log_2_frag_size as u64)),
            Line::Field("Blocks Per Group", FieldValue::Decimal(self.blocks_per_group as u64)),
            Line::Field("Fragments Per Group", FieldValue::Decimal(self.fragments_per_group as u64)),
            Line::Field("Inodes per Group", FieldValue::Decimal(self.inodes_per_group as u64)),
            Line::Field("Last Mount Time", FieldValue::Decimal(self.last_mount_time as u64)),
            Line::Field("Last Written Time", FieldValue::Decimal(self.last_written_time as u64)),
            Line::Field("Mount Count Check", FieldValue::Decimal(self.mount_count_check as u64)),
            Line::Field("Mount Limit Check", FieldValue::Decimal(self.mount_limit_check as u64)),
            Line::Field("Signature", FieldValue::Decimal(self.signature as u64)),
            Line::Field("State", FieldValue::Decimal(self.state as u64)),
            Line::Field("State Response", FieldValue::Decimal(self.state_response as u64)),
            Line::Field("Minor Version", FieldValue::Decimal(self.minor_version as u64)),
            Line::Field("Last Check", FieldValue::Decimal(self.last_check as u64)),
            Line::Field("Force Check", FieldValue::Decimal(self.force_check as u64)),
            Line::Field("OS ID", FieldValue::Decimal(self.os_id as u64)),
            Line::Field("Major Version", FieldValue::Decimal(self.major_version as u64)),
            Line::Field("User ID", FieldValue::Decimal(self.user_id as u64)),
            Line::Field("Group ID", FieldValue::Decimal(self.group_id as u64)),
        ]
    }

    open spec fn spec_verify(&self) -> bool {
        self.signature == EXT_MAGIC
    }

    fn render(&self) -> (r: Vec<Line>) {
        let r = vec![
            Line::Heading("Printing boot Structure EXT Super Block!"),
            Line::Field("Inode Count", FieldValue::Decimal(self.inode_count as u64)),
            Line::Field("Block Count", FieldValue::Decimal(self.block_count as u64)),
            Line::Field("SuperUser Blocks", FieldValue::Decimal(self.superuser_blocks as u64)),
            Line::Field("Unallocated Blocks", FieldValue::Decimal(self.unallocated_blocks as u64)),
            Line::Field("Allocated Blocks", FieldValue::Decimal(self.allocated_blocks as u64)),
            Line::Field("Superblock Location", FieldValue::Decimal(self.superblock_loc as u64)),
            Line::Field("Block Size (log b2)", FieldValue::Decimal(self.log_2_block_size as u64)),
            Line::Field("Fragment Size (log b2)", FieldValue::Decimal(self.log_2_frag_size as u64)),
            Line::Field("Blocks Per Group", FieldValue::Decimal(self.blocks_per_group as u64)),
            Line::Field("Fragments Per Group", FieldValue::Decimal(self.fragments_per_group as u64)),
            Line::Field("Inodes per Group", FieldValue::Decimal(self.inodes_per_group as u64)),
            Line::Field("Last Mount Time", FieldValue::Decimal(self.last_mount_time as u64)),
            Line::Field("Last Written Time", FieldValue::Decimal(self.last_written_time as u64)),
            Line::Field("Mount Count Check", FieldValue::Decimal(self.mount_count_check as u64)),
            Line::Field("Mount Limit Check", FieldValue::Decimal(self.mount_limit_check as u64)),
            Line::Field("Signature", FieldValue::Decimal(self.signature as u64)),
            Line::Field("State", FieldValue::Decimal(self.state as u64)),
            Line::Field("State Response", FieldValue::Decimal(self.state_response as u64)),
            Line::Field("Minor Version", FieldValue::Decimal(self.minor_version as u64)),
            Line::Field("Last Check", FieldValue::Decimal(self.last_check as u64)),
            Line::Field("Force Check", FieldValue::Decimal(self.force_check as u64)),
            Line::Field("OS ID", FieldValue::Decimal(self.os_id as u64)),
            Line::Field("Major Version", FieldValue::Decimal(self.major_version as u64)),
            Line::Field("User ID", FieldValue::Decimal(self.user_id as u64)),
            Line::Field("Group ID", FieldValue::Decimal(self.group_id as u64)),
        ];
        assert(r@ =~= self.spec_lines());
        r
    }

    fn verify(&self) -> (r: bool) {
        self.signature == EXT_MAGIC
    }
}

} // verus!
