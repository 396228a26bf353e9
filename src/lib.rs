//! Read-only inspection of the leading bytes of a disk image: decoders for the
//! MBR, NTFS boot sector, FAT boot sector and ext superblock, and a detector
//! that probes them in a fixed order.

pub mod helper;
pub mod disk;
