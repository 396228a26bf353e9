//! The header decoders and the detector that probes them.

pub mod boot;
pub mod ext;
pub mod fat;
pub mod mbr;
pub mod ntfs;
pub mod source;

use vstd::prelude::*;

use crate::disk::boot::{Boot, Line};
use crate::disk::ext::{Superblock, EXT_LENGTH, EXT_OFFSET};
use crate::disk::fat::{FatBoot, FAT_LENGTH};
use crate::disk::mbr::{Mbr, MBR_LENGTH};
use crate::disk::ntfs::{NtfsBoot, NTFS_LENGTH};
use crate::disk::source::{fits, window};
use crate::helper::le_value;

verus! {

/// Where the detector reads the partition table: 446 bytes into the first sector.
pub const MBR_OFFSET: u64 = 446;

/// Where the detector reads the NTFS boot sector.
pub const NTFS_OFFSET: u64 = 0;

/// Where the detector reads the FAT parameter block.
pub const FAT_OFFSET: u64 = 0;

/// What the detector reports where no format's signature holds.
pub const UNSUPPORTED_MESSAGE: &'static str =
    "Could not find a working structure for this disk! Either this file is not a disk or is a disk type not supported!";

/// The formats that the detector knows.
#[derive(Debug, Clone, Copy, PartialEq, Eq)]
pub enum Format {
    Mbr,
    Ntfs,
    Fat,
    Ext,
}

/// Why detection found no record.
#[derive(Debug, Clone, Copy, PartialEq, Eq)]
pub enum DetectError {
    /// The image ends before the `length` bytes at `offset` that the decoder
    /// of `format` reads.
    Truncated { format: Format, offset: u64, length: u64 },
    /// Every decoder read its header and no signature held.
    Unsupported,
}

/// A record whose signature held.
pub enum BootRecord {
    Mbr(Mbr),
    Ntfs(NtfsBoot),
    Fat(FatBoot),
    Ext(Superblock),
}

impl Boot for BootRecord {
    open spec fn spec_lines(&self) -> Seq<Line> {
        match self {
            BootRecord::Mbr(m) => m.spec_lines(),
            BootRecord::Ntfs(n) => n.spec_lines(),
            BootRecord::Fat(f) => f.spec_lines(),
            BootRecord::Ext(s) => s.spec_lines(),
        }
    }

    open spec fn spec_verify(&self) -> bool {
        match self {
            BootRecord::Mbr(m) => m.spec_verify(),
            BootRecord::Ntfs(n) => n.spec_verify(),
            BootRecord::Fat(f) => f.spec_verify(),
            BootRecord::Ext(s) => s.spec_verify(),
        }
    }

    fn render(&self) -> (r: Vec<Line>) {
        match self {
            BootRecord::Mbr(m) => m.render(),
            BootRecord::Ntfs(n) => n.render(),
            BootRecord::Fat(f) => f.render(),
            BootRecord::Ext(s) => s.render(),
        }
    }

    fn verify(&self) -> (r: bool) {
        match self {
            BootRecord::Mbr(m) => m.verify(),
            BootRecord::Ntfs(n) => n.verify(),
            BootRecord::Fat(f) => f.verify(),
            BootRecord::Ext(s) => s.verify(),
        }
    }
}

/// The error for an image that ends before the header of `format` at `offset`.
pub open spec fn truncated(format: Format, offset: u64, length: u64) -> Result<
    BootRecord,
    DetectError,
> {
    Err(DetectError::Truncated { format, offset, length })
}

/// Whether `r` is what detection gives on `image`: the MBR, NTFS, FAT and ext
/// headers are tried in this order, the first whose signature holds is
/// returned, and a header that the image is too short to hold ends the search
/// with an error.
pub open spec fn detects(image: Seq<u8>, r: Result<BootRecord, DetectError>) -> bool {
    let mbr = window(image, MBR_OFFSET as int, MBR_LENGTH as int);
    let ntfs = window(image, NTFS_OFFSET as int, NTFS_LENGTH as int);
    let fat = window(image, FAT_OFFSET as int, FAT_LENGTH as int);
    let ext = window(image, EXT_OFFSET as int, EXT_LENGTH as int);
    if !fits(image, MBR_OFFSET as int, MBR_LENGTH as int) {
        r == truncated(Format::Mbr, MBR_OFFSET, MBR_LENGTH)
    } else if mbr::signature_matches(mbr) {
        r matches Ok(BootRecord::Mbr(m)) && m.decoded_from(mbr)
    } else if !fits(image, NTFS_OFFSET as int, NTFS_LENGTH as int) {
        r == truncated(Format::Ntfs, NTFS_OFFSET, NTFS_LENGTH)
    } else if ntfs::oem_matches(ntfs) {
        r matches Ok(BootRecord::Ntfs(n)) && n.decoded_from(ntfs)
    } else if !fits(image, FAT_OFFSET as int, FAT_LENGTH as int) {
        r == truncated(Format::Fat, FAT_OFFSET, FAT_LENGTH)
    } else if fat::counts_match(fat) {
        r matches Ok(BootRecord::Fat(f)) && f.decoded_from(fat)
    } else if !fits(image, EXT_OFFSET as int, EXT_LENGTH as int) {
        r == truncated(Format::Ext, EXT_OFFSET, EXT_LENGTH)
    } else if ext::signature_matches(ext) {
        r matches Ok(BootRecord::Ext(s)) && s.decoded_from(ext)
    } else {
        r == Err::<BootRecord, DetectError>(DetectError::Unsupported)
    }
}

/// Finds the first of the MBR, NTFS, FAT and ext headers whose signature holds
/// in the leading bytes `image` of a disk image.
pub fn retrieve_boot(image: &[u8]) -> (r: Result<BootRecord, DetectError>)
    ensures
        detects(image@, r),
{
    let mbr = match Mbr::new(image, MBR_OFFSET) {
        Some(m) => m,
        None => {
            return Err(
                DetectError::Truncated { format: Format::Mbr, offset: MBR_OFFSET, length: MBR_LENGTH },
            );
        },
    };
    if mbr.verify() {
        return Ok(BootRecord::Mbr(mbr));
    }
    let ntfs = match NtfsBoot::new(image, NTFS_OFFSET) {
        Some(n) => n,
        None => {
            return Err(
                DetectError::Truncated {
                    format: Format::Ntfs,
                    offset: NTFS_OFFSET,
                    length: NTFS_LENGTH,
                },
            );
        },
    };
    if ntfs.verify() {
        return Ok(BootRecord::Ntfs(ntfs));
    }
    let fat = match FatBoot::new(image, FAT_OFFSET) {
        Some(f) => f,
        None => {
            return Err(
                DetectError::Truncated { format: Format::Fat, offset: FAT_OFFSET, length: FAT_LENGTH },
            );
        },
    };
    if fat.verify() {
        return Ok(BootRecord::Fat(fat));
    }
    let ext = match Superblock::new(image, EXT_OFFSET) {
        Some(s) => s,
        None => {
            return Err(
                DetectError::Truncated { format: Format::Ext, offset: EXT_OFFSET, length: EXT_LENGTH },
            );
        },
    };
    if ext.verify() {
        Ok(BootRecord::Ext(ext))
    } else {
        Err(DetectError::Unsupported)
    }
}

/// Two detections on the same image give the same result, and so the same
/// rendered listing.
pub proof fn lemma_detection_deterministic(
    image: Seq<u8>,
    r1: Result<BootRecord, DetectError>,
    r2: Result<BootRecord, DetectError>,
)
    requires
        detects(image, r1),
        detects(image, r2),
    ensures
        r1 == r2,
        r1 matches Ok(a) ==> r2 matches Ok(b) && a.spec_lines() == b.spec_lines(),
{
    let mbr = window(image, MBR_OFFSET as int, MBR_LENGTH as int);
    let ntfs = window(image, NTFS_OFFSET as int, NTFS_LENGTH as int);
    let fat = window(image, FAT_OFFSET as int, FAT_LENGTH as int);
    let ext = window(image, EXT_OFFSET as int, EXT_LENGTH as int);
    match (r1, r2) {
        (Ok(BootRecord::Mbr(a)), Ok(BootRecord::Mbr(b))) => a.lemma_decoded_unique(b, mbr),
        (Ok(BootRecord::Ntfs(a)), Ok(BootRecord::Ntfs(b))) => a.lemma_decoded_unique(b, ntfs),
        (Ok(BootRecord::Fat(a)), Ok(BootRecord::Fat(b))) => a.lemma_decoded_unique(b, fat),
        (Ok(BootRecord::Ext(a)), Ok(BootRecord::Ext(b))) => a.lemma_decoded_unique(b, ext),
        _ => {},
    }
}

/// An image whose first sector ends in the bytes `0x55 0xAA` is detected as an MBR.
pub proof fn lemma_boot_signature_gives_mbr(image: Seq<u8>, r: Result<BootRecord, DetectError>)
    requires
        image.len() >= 512,
        image[510] == 0x55,
        image[511] == 0xaa,
        detects(image, r),
    ensures
        r matches Ok(BootRecord::Mbr(_)),
{
    let mbr = window(image, MBR_OFFSET as int, MBR_LENGTH as int);
    reveal_with_fuel(le_value, 3);
    assert(mbr.subrange(64, 66) =~= seq![0x55u8, 0xaau8]);
}

/// An image of at least one sector with the tag `NTFS` and four spaces at bytes
/// 3..11, and without the bytes `0x55 0xAA` at the end of its first sector, is
/// detected as NTFS.
pub proof fn lemma_ntfs_tag_gives_ntfs(image: Seq<u8>, r: Result<BootRecord, DetectError>)
    requires
        image.len() >= 512,
        image.subrange(3, 11) == ntfs::ntfs_oem(),
        !(image[510] == 0x55 && image[511] == 0xaa),
        detects(image, r),
    ensures
        r matches Ok(BootRecord::Ntfs(_)),
{
    let mbr = window(image, MBR_OFFSET as int, MBR_LENGTH as int);
    let ntfs = window(image, NTFS_OFFSET as int, NTFS_LENGTH as int);
    reveal_with_fuel(le_value, 3);
    assert(mbr.subrange(64, 66) =~= seq![image[510], image[511]]);
    assert(ntfs.subrange(3, 11) =~= image.subrange(3, 11));
}

/// An image that holds a superblock, with the bytes `0x53 0xEF` at 1080..1082,
/// and in which neither the MBR, the NTFS nor the FAT signature holds, is
/// detected as ext.
pub proof fn lemma_ext_magic_gives_ext(image: Seq<u8>, r: Result<BootRecord, DetectError>)
    requires
        image.len() >= EXT_OFFSET + EXT_LENGTH,
        image[1080] == 0x53,
        image[1081] == 0xef,
        !mbr::signature_matches(window(image, MBR_OFFSET as int, MBR_LENGTH as int)),
        !ntfs::oem_matches(window(image, NTFS_OFFSET as int, NTFS_LENGTH as int)),
        !fat::counts_match(window(image, FAT_OFFSET as int, FAT_LENGTH as int)),
        detects(image, r),
    ensures
        r matches Ok(BootRecord::Ext(_)),
{
    let ext = window(image, EXT_OFFSET as int, EXT_LENGTH as int);
    reveal_with_fuel(le_value, 3);
    assert(ext.subrange(56, 58) =~= seq![0x53u8, 0xefu8]);
}

} // verus!
