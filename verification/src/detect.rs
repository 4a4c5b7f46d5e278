//! Filesystem type detection by superblock magic bytes.

use vstd::prelude::*;

verus! {

/// All filesystem types IronKey can mount or detect.
#[derive(Debug, Clone, Copy, PartialEq, Eq, Hash, Structural)]
pub enum FsType {
    /// Auto-detect (not a real filesystem type; triggers detection)
    Auto,
    Ext2,
    Ext3,
    Ext4,
    /// FAT12 / FAT16 / FAT32
    Vfat,
    ExFat,
    Ntfs,
    Btrfs,
    Xfs,
    /// Apple HFS+
    HfsPlus,
    Iso9660,
    F2fs,
    Luks,
    BitLocker,
    VeraCrypt,
    Apfs,
    Zfs,
    Unknown,
}

/// The Linux kernel filesystem type string for `mount(2)`, where there is one.
pub open spec fn kernel_name_of(fs: FsType) -> Option<Seq<char>> {
    match fs {
        FsType::Ext2 => Some("ext2"@),
        FsType::Ext3 => Some("ext3"@),
        FsType::Ext4 => Some("ext4"@),
        FsType::Vfat => Some("vfat"@),
        FsType::ExFat => Some("exfat"@),
        FsType::Ntfs => Some("ntfs3"@),
        FsType::Btrfs => Some("btrfs"@),
        FsType::Xfs => Some("xfs"@),
        FsType::HfsPlus => Some("hfsplus"@),
        FsType::Iso9660 => Some("iso9660"@),
        FsType::F2fs => Some("f2fs"@),
        _ => None,
    }
}

/// The label shown for a filesystem type in the UI.
pub open spec fn display_name_of(fs: FsType) -> Seq<char> {
    match fs {
        FsType::Auto => "auto"@,
        FsType::Ext2 => "ext2"@,
        FsType::Ext3 => "ext3"@,
        FsType::Ext4 => "ext4"@,
        FsType::Vfat => "FAT"@,
        FsType::ExFat => "exFAT"@,
        FsType::Ntfs => "NTFS"@,
        FsType::Btrfs => "btrfs"@,
        FsType::Xfs => "XFS"@,
        FsType::HfsPlus => "HFS+"@,
        FsType::Iso9660 => "ISO 9660"@,
        FsType::F2fs => "F2FS"@,
        FsType::Luks => "LUKS"@,
        FsType::BitLocker => "BitLocker"@,
        FsType::VeraCrypt => "VeraCrypt"@,
        FsType::Apfs => "APFS"@,
        FsType::Zfs => "ZFS"@,
        FsType::Unknown => "unknown"@,
    }
}

impl FsType {
    /// Returns the Linux kernel filesystem type string (for `mount(2)`).
    pub fn kernel_name(&self) -> (r: Option<&'static str>)
        ensures
            match r {
                Some(s) => kernel_name_of(*self) == Some(s@),
                None => kernel_name_of(*self) is None,
            },
    {
        match self {
            FsType::Ext2 => Some("ext2"),
            FsType::Ext3 => Some("ext3"),
            FsType::Ext4 => Some("ext4"),
            FsType::Vfat => Some("vfat"),
            FsType::ExFat => Some("exfat"),
            FsType::Ntfs => Some("ntfs3"),
            FsType::Btrfs => Some("btrfs"),
            FsType::Xfs => Some("xfs"),
            FsType::HfsPlus => Some("hfsplus"),
            FsType::Iso9660 => Some("iso9660"),
            FsType::F2fs => Some("f2fs"),
            _ => None,
        }
    }

    /// Human-readable label shown in the UI.
    pub fn display_name(&self) -> (r: &'static str)
        ensures
            r@ == display_name_of(*self),
    {
        match self {
            FsType::Auto => "auto",
            FsType::Ext2 => "ext2",
            FsType::Ext3 => "ext3",
            FsType::Ext4 => "ext4",
            FsType::Vfat => "FAT",
            FsType::ExFat => "exFAT",
            FsType::Ntfs => "NTFS",
            FsType::Btrfs => "btrfs",
            FsType::Xfs => "XFS",
            FsType::HfsPlus => "HFS+",
            FsType::Iso9660 => "ISO 9660",
            FsType::F2fs => "F2FS",
            FsType::Luks => "LUKS",
            FsType::BitLocker => "BitLocker",
            FsType::VeraCrypt => "VeraCrypt",
            FsType::Apfs => "APFS",
            FsType::Zfs => "ZFS",
            FsType::Unknown => "unknown",
        }
    }
}

/// `buf` is longer than `offset + sig.len()` and holds `sig` at `offset`.
pub open spec fn has_sig(buf: Seq<u8>, offset: int, sig: Seq<u8>) -> bool {
    buf.len() > offset + sig.len() && buf.subrange(offset, offset + sig.len()) == sig
}

/// The ext2/3/4 superblock magic 0xEF53 (little endian) at 0x438, with the
/// buffer longer than 0x43A.
pub open spec fn has_ext_magic(buf: Seq<u8>) -> bool {
    buf.len() > 0x43A && buf[0x438] == 0x53u8 && buf[0x439] == 0xEFu8
}

/// The inputs `detect_by_magic` reads without running off the buffer:
/// an ext magic requires the feature words at 0x45C..0x464 to be present.
pub open spec fn magic_readable(buf: Seq<u8>) -> bool {
    has_ext_magic(buf) ==> buf.len() >= 0x464
}

/// The filesystem type that the magic bytes in `buf` identify, checked in
/// order: ext (journal/extents flags distinguish ext2/3/4), btrfs, XFS, NTFS,
/// exFAT, FAT32/16/12, HFS+/HFSX, ISO 9660, LUKS, BitLocker, APFS, F2FS.
pub open spec fn detected_fs(buf: Seq<u8>) -> FsType {
    if has_ext_magic(buf) {
        if buf[0x460] & 0x40u8 != 0 {
            FsType::Ext4
        } else if buf[0x45C] & 0x04u8 != 0 {
            FsType::Ext3
        } else {
            FsType::Ext2
        }
    } else if has_sig(buf, 0x10040, seq![0x5Fu8, 0x42, 0x48, 0x52, 0x66, 0x53, 0x5F, 0x4D]) {
        FsType::Btrfs
    } else if has_sig(buf, 0, seq![0x58u8, 0x46, 0x53, 0x42]) {
        FsType::Xfs
    } else if has_sig(buf, 3, seq![0x4Eu8, 0x54, 0x46, 0x53, 0x20, 0x20, 0x20, 0x20]) {
        FsType::Ntfs
    } else if has_sig(buf, 3, seq![0x45u8, 0x58, 0x46, 0x41, 0x54, 0x20, 0x20, 0x20]) {
        FsType::ExFat
    } else if has_sig(buf, 82, seq![0x46u8, 0x41, 0x54, 0x33, 0x32, 0x20, 0x20, 0x20])
        || has_sig(buf, 54, seq![0x46u8, 0x41, 0x54, 0x31, 0x36, 0x20, 0x20, 0x20])
        || has_sig(buf, 54, seq![0x46u8, 0x41, 0x54, 0x31, 0x32, 0x20, 0x20, 0x20]) {
        FsType::Vfat
    } else if has_sig(buf, 1024, seq![0x48u8, 0x2B]) || has_sig(buf, 1024, seq![0x48u8, 0x58]) {
        FsType::HfsPlus
    } else if has_sig(buf, 0x8001, seq![0x43u8, 0x44, 0x30, 0x30, 0x31]) {
        FsType::Iso9660
    } else if has_sig(buf, 0, seq![0x4Cu8, 0x55, 0x4B, 0x53, 0xBA, 0xBE]) {
        FsType::Luks
    } else if has_sig(buf, 3, seq![0x2Du8, 0x46, 0x56, 0x45, 0x2D, 0x46, 0x53, 0x2D]) {
        FsType::BitLocker
    } else if has_sig(buf, 32, seq![0x4Eu8, 0x58, 0x53, 0x42]) {
        FsType::Apfs
    } else if has_sig(buf, 1024, seq![0x10u8, 0x20, 0xF5, 0xF2]) {
        FsType::F2fs
    } else {
        FsType::Unknown
    }
}

/// The type name that probing tools such as blkid report for a filesystem
/// found on a device (`TYPE=`), where detection yields one: encrypted
/// containers as `crypto_LUKS` and `BitLocker`, NTFS as `ntfs`, ZFS pool
/// members as `zfs_member`.
pub open spec fn probe_name_of(fs: FsType) -> Option<Seq<char>> {
    match fs {
        FsType::Ext2 => Some("ext2"@),
        FsType::Ext3 => Some("ext3"@),
        FsType::Ext4 => Some("ext4"@),
        FsType::Vfat => Some("vfat"@),
        FsType::ExFat => Some("exfat"@),
        FsType::Ntfs => Some("ntfs"@),
        FsType::Btrfs => Some("btrfs"@),
        FsType::Xfs => Some("xfs"@),
        FsType::HfsPlus => Some("hfsplus"@),
        FsType::Iso9660 => Some("iso9660"@),
        FsType::F2fs => Some("f2fs"@),
        FsType::Luks => Some("crypto_LUKS"@),
        FsType::BitLocker => Some("BitLocker"@),
        FsType::Apfs => Some("apfs"@),
        FsType::Zfs => Some("zfs_member"@),
        _ => None,
    }
}

impl FsType {
    /// The probed type name of this filesystem (see `probe_name_of`).
    pub fn probe_name(&self) -> (r: Option<&'static str>)
        ensures
            match r {
                Some(s) => probe_name_of(*self) == Some(s@),
                None => probe_name_of(*self) is None,
            },
    {
        match self {
            FsType::Ext2 => Some("ext2"),
            FsType::Ext3 => Some("ext3"),
            FsType::Ext4 => Some("ext4"),
            FsType::Vfat => Some("vfat"),
            FsType::ExFat => Some("exfat"),
            FsType::Ntfs => Some("ntfs"),
            FsType::Btrfs => Some("btrfs"),
            FsType::Xfs => Some("xfs"),
            FsType::HfsPlus => Some("hfsplus"),
            FsType::Iso9660 => Some("iso9660"),
            FsType::F2fs => Some("f2fs"),
            FsType::Luks => Some("crypto_LUKS"),
            FsType::BitLocker => Some("BitLocker"),
            FsType::Apfs => Some("apfs"),
            FsType::Zfs => Some("zfs_member"),
            _ => None,
        }
    }
}

/// Checks that `buf` is longer than `offset + sig.len()` and holds `sig` at `offset`.
fn sig_at(buf: &[u8], offset: usize, sig: &[u8]) -> (r: bool)
    requires
        offset + sig@.len() <= usize::MAX,
    ensures
        r == has_sig(buf@, offset as int, sig@),
{
    if buf.len() <= offset + sig.len() {
        return false;
    }
    let mut i: usize = 0;
    while i < sig.len()
        invariant
            i <= sig@.len(),
            offset + sig@.len() <= usize::MAX,
            buf@.len() > offset + sig@.len(),
            forall|k: int| 0 <= k < i ==> buf@[offset + k] == sig@[k],
        decreases sig@.len() - i,
    {
        if buf[offset + i] != sig[i] {
            assert(buf@.subrange(offset as int, offset + sig@.len())[i as int] != sig@[i as int]);
            return false;
        }
        i += 1;
    }
    assert(buf@.subrange(offset as int, offset + sig@.len()) =~= sig@);
    true
}

/// Pure-function magic-byte detection (testable without a real device).
pub fn detect_by_magic(buf: &[u8]) -> (r: FsType)
    requires
        magic_readable(buf@),
    ensures
        r == detected_fs(buf@),
{
    if buf.len() > 0x43A && buf[0x438] == 0x53 && buf[0x439] == 0xEF {
        if buf[0x460] & 0x40 != 0 {
            return FsType::Ext4;
        } else if buf[0x45C] & 0x04 != 0 {
            return FsType::Ext3;
        } else {
            return FsType::Ext2;
        }
    }
    let btrfs: [u8; 8] = [0x5F, 0x42, 0x48, 0x52, 0x66, 0x53, 0x5F, 0x4D];
    assert(btrfs@ == seq![0x5Fu8, 0x42, 0x48, 0x52, 0x66, 0x53, 0x5F, 0x4D]);
    if sig_at(buf, 0x10040, &btrfs) {
        return FsType::Btrfs;
    }
    let xfs: [u8; 4] = [0x58, 0x46, 0x53, 0x42];
    assert(xfs@ == seq![0x58u8, 0x46, 0x53, 0x42]);
    if sig_at(buf, 0, &xfs) {
        return FsType::Xfs;
    }
    let ntfs: [u8; 8] = [0x4E, 0x54, 0x46, 0x53, 0x20, 0x20, 0x20, 0x20];
    assert(ntfs@ == seq![0x4Eu8, 0x54, 0x46, 0x53, 0x20, 0x20, 0x20, 0x20]);
    if sig_at(buf, 3, &ntfs) {
        return FsType::Ntfs;
    }
    let exfat: [u8; 8] = [0x45, 0x58, 0x46, 0x41, 0x54, 0x20, 0x20, 0x20];
    assert(exfat@ == seq![0x45u8, 0x58, 0x46, 0x41, 0x54, 0x20, 0x20, 0x20]);
    if sig_at(buf, 3, &exfat) {
        return FsType::ExFat;
    }
    let fat32: [u8; 8] = [0x46, 0x41, 0x54, 0x33, 0x32, 0x20, 0x20, 0x20];
    assert(fat32@ == seq![0x46u8, 0x41, 0x54, 0x33, 0x32, 0x20, 0x20, 0x20]);
    if sig_at(buf, 82, &fat32) {
        return FsType::Vfat;
    }
    let fat16: [u8; 8] = [0x46, 0x41, 0x54, 0x31, 0x36, 0x20, 0x20, 0x20];
    assert(fat16@ == seq![0x46u8, 0x41, 0x54, 0x31, 0x36, 0x20, 0x20, 0x20]);
    if sig_at(buf, 54, &fat16) {
        return FsType::Vfat;
    }
    let fat12: [u8; 8] = [0x46, 0x41, 0x54, 0x31, 0x32, 0x20, 0x20, 0x20];
    assert(fat12@ == seq![0x46u8, 0x41, 0x54, 0x31, 0x32, 0x20, 0x20, 0x20]);
    if sig_at(buf, 54, &fat12) {
        return FsType::Vfat;
    }
    let hfsp: [u8; 2] = [0x48, 0x2B];
    assert(hfsp@ == seq![0x48u8, 0x2B]);
    if sig_at(buf, 1024, &hfsp) {
        return FsType::HfsPlus;
    }
    let hfsx: [u8; 2] = [0x48, 0x58];
    assert(hfsx@ == seq![0x48u8, 0x58]);
    if sig_at(buf, 1024, &hfsx) {
        return FsType::HfsPlus;
    }
    let iso: [u8; 5] = [0x43, 0x44, 0x30, 0x30, 0x31];
    assert(iso@ == seq![0x43u8, 0x44, 0x30, 0x30, 0x31]);
    if sig_at(buf, 0x8001, &iso) {
        return FsType::Iso9660;
    }
    let luks: [u8; 6] = [0x4C, 0x55, 0x4B, 0x53, 0xBA, 0xBE];
    assert(luks@ == seq![0x4Cu8, 0x55, 0x4B, 0x53, 0xBA, 0xBE]);
    if sig_at(buf, 0, &luks) {
        return FsType::Luks;
    }
    let bitlocker: [u8; 8] = [0x2D, 0x46, 0x56, 0x45, 0x2D, 0x46, 0x53, 0x2D];
    assert(bitlocker@ == seq![0x2Du8, 0x46, 0x56, 0x45, 0x2D, 0x46, 0x53, 0x2D]);
    if sig_at(buf, 3, &bitlocker) {
        return FsType::BitLocker;
    }
    let apfs: [u8; 4] = [0x4E, 0x58, 0x53, 0x42];
    assert(apfs@ == seq![0x4Eu8, 0x58, 0x53, 0x42]);
    if sig_at(buf, 32, &apfs) {
        return FsType::Apfs;
    }
    let f2fs: [u8; 4] = [0x10, 0x20, 0xF5, 0xF2];
    assert(f2fs@ == seq![0x10u8, 0x20, 0xF5, 0xF2]);
    if sig_at(buf, 1024, &f2fs) {
        return FsType::F2fs;
    }
    FsType::Unknown
}

/// Classifies the bytes read from the start of a device: fewer than 512
/// bytes is too little to judge (`Unknown`); otherwise the magic bytes decide.
pub fn classify_superblock(buf: &[u8]) -> (r: FsType)
    requires
        magic_readable(buf@),
    ensures
        r == (if buf@.len() < 512 { FsType::Unknown } else { detected_fs(buf@) }),
{
    if buf.len() < 512 {
        FsType::Unknown
    } else {
        detect_by_magic(buf)
    }
}

} // verus!
