//! Drive and partition records built from sysfs attributes and the mount table.

use vstd::prelude::*;
use crate::text::{chars_of, chars_eq, parse_bool, parse_bool_exec, parse_unsigned, parse_unsigned_exec,
    split_lines, split_words, string_from_chars, trim, trim_ws, lines, words, vecs_view};
use crate::units::{format_size_steps, size_text};
use crate::sorting::{SortKey, sort_by_keys, stably_sorted_by};
use crate::devices::{is_virtual_device, partition_of, should_skip_device, is_partition_of};
use crate::detect::{FsType, probe_name_of};

verus! {

/// Drive health summary.
#[derive(Debug, Clone, PartialEq, Eq)]
pub enum DriveStatus {
    /// SMART reports no issues
    Healthy,
    /// SMART reports a problem or device is unreachable
    Error(String),
}

/// Partition mount / encryption state.
#[derive(Debug, PartialEq, Eq)]
pub enum PartitionStatus {
    /// Partition is mounted at the given path
    Mounted(String),
    /// Partition is known but not mounted
    Unmounted,
    /// Partition is encrypted (LUKS or BitLocker detected)
    Encrypted,
    /// Partition has no recognised filesystem
    Unformatted,
    /// Cannot read partition information
    Error(String),
}

/// Information about a single partition.
#[derive(Debug)]
pub struct PartitionInfo {
    /// Kernel name, e.g. "sda1", "nvme0n1p1"
    pub device: String,
    /// Full device path, e.g. "/dev/sda1"
    pub device_path: String,
    /// Partition size in bytes
    pub size_bytes: u64,
    /// Filesystem type as reported by the mount table, else as probed from
    /// the partition's superblock (blkid-style name)
    pub filesystem: Option<String>,
    /// Filesystem label (from `/dev/disk/by-label/`)
    pub label: Option<String>,
    /// Partition UUID (from `/dev/disk/by-uuid/`)
    pub uuid: Option<String>,
    /// Current mount point if mounted
    pub mount_point: Option<String>,
    /// Mount / encryption status
    pub status: PartitionStatus,
    /// Starting sector (from sysfs)
    pub start_sector: Option<u64>,
    /// Ending sector (start + size)
    pub end_sector: Option<u64>,
}

impl Clone for PartitionStatus {
    fn clone(&self) -> (r: Self)
        ensures
            r == *self,
    {
        match self {
            PartitionStatus::Mounted(p) => PartitionStatus::Mounted(p.clone()),
            PartitionStatus::Unmounted => PartitionStatus::Unmounted,
            PartitionStatus::Encrypted => PartitionStatus::Encrypted,
            PartitionStatus::Unformatted => PartitionStatus::Unformatted,
            PartitionStatus::Error(e) => PartitionStatus::Error(e.clone()),
        }
    }
}

/// A copy of an optional string.
pub fn clone_opt(a: &Option<String>) -> (r: Option<String>)
    ensures
        r == *a,
{
    match a {
        Some(s) => Some(s.clone()),
        None => None,
    }
}

impl Clone for PartitionInfo {
    fn clone(&self) -> (r: Self)
        ensures
            r == *self,
    {
        PartitionInfo {
            device: self.device.clone(),
            device_path: self.device_path.clone(),
            size_bytes: self.size_bytes,
            filesystem: clone_opt(&self.filesystem),
            label: clone_opt(&self.label),
            uuid: clone_opt(&self.uuid),
            mount_point: clone_opt(&self.mount_point),
            status: self.status.clone(),
            start_sector: self.start_sector,
            end_sector: self.end_sector,
        }
    }
}

/// High-level information about a physical block device.
#[derive(Debug, Clone)]
pub struct DriveInfo {
    /// Kernel name, e.g. "sda", "nvme0n1", "mmcblk0"
    pub device: String,
    /// Full device path, e.g. "/dev/sda"
    pub device_path: String,
    /// Total size in bytes
    pub size_bytes: u64,
    /// Whether this device is removable (USB, SD card, …)
    pub removable: bool,
    /// Whether this is a spinning disk (true) or SSD/NVMe (false)
    pub rotational: bool,
    /// Drive model string from sysfs
    pub model: Option<String>,
    /// Drive serial number from sysfs
    pub serial: Option<String>,
    /// Partitions on this drive (sorted by device name)
    pub partitions: Vec<PartitionInfo>,
    /// Overall drive health status
    pub status: DriveStatus,
}

/// The view of an optional string.
pub open spec fn opt_view(s: Option<String>) -> Option<Seq<char>> {
    match s {
        Some(v) => Some(v@),
        None => None,
    }
}

/// A sysfs attribute value: the file contents trimmed, absent when empty.
pub open spec fn sys_value(content: Seq<char>) -> Option<Seq<char>> {
    let t = trim_ws(content);
    if t.len() > 0 { Some(t) } else { None }
}

/// The value of a sysfs attribute file's contents (trimmed; `None` when
/// nothing but whitespace).
pub fn read_sys_str(content: &str) -> (r: Option<String>)
    ensures
        opt_view(r) == sys_value(content@),
{
    let c = chars_of(content);
    let t = trim(&c);
    if t.len() > 0 {
        Some(string_from_chars(&t))
    } else {
        None
    }
}

/// An optional attribute parsed as a `u64`.
pub open spec fn sys_u64(v: Option<Seq<char>>) -> Option<nat> {
    match v {
        Some(s) => parse_unsigned(s, u64::MAX as nat),
        None => None,
    }
}

/// An optional attribute parsed as a `bool` ("true"/"false").
pub open spec fn sys_bool(v: Option<Seq<char>>) -> Option<bool> {
    match v {
        Some(s) => parse_bool(s),
        None => None,
    }
}

/// A sector count read as bytes: 0 when absent or not a number.
pub open spec fn sectors(v: Option<Seq<char>>) -> nat {
    match sys_u64(v) {
        Some(n) => n,
        None => 0,
    }
}

fn parse_opt_u64(v: &Option<String>) -> (r: Option<u64>)
    ensures
        match r {
            Some(n) => sys_u64(opt_view(*v)) == Some(n as nat),
            None => sys_u64(opt_view(*v)) is None,
        },
{
    match v {
        Some(s) => {
            let c = chars_of(s.as_str());
            parse_unsigned_exec(&c, u64::MAX)
        },
        None => None,
    }
}

fn parse_opt_bool(v: &Option<String>) -> (r: Option<bool>)
    ensures
        r == sys_bool(opt_view(*v)),
{
    match v {
        Some(s) => {
            let c = chars_of(s.as_str());
            parse_bool_exec(&c)
        },
        None => None,
    }
}

/// A drive record built from its sysfs attributes: `size` (in 512-byte
/// sectors, 0 when unreadable), `removable` (false unless it reads "true"),
/// `queue/rotational` (true unless it reads "false"), `device/model` and
/// `device/serial`; the status starts out healthy.
pub fn read_drive_info(
    name: &str,
    size: &Option<String>,
    removable: &Option<String>,
    rotational: &Option<String>,
    model: Option<String>,
    serial: Option<String>,
    partitions: Vec<PartitionInfo>,
) -> (d: DriveInfo)
    requires
        sectors(opt_view(*size)) * 512 <= u64::MAX,
    ensures
        d.device@ == name@,
        d.device_path@ == "/dev/"@ + name@,
        d.size_bytes == sectors(opt_view(*size)) * 512,
        d.removable == (sys_bool(opt_view(*removable)) == Some(true)),
        d.rotational == (sys_bool(opt_view(*rotational)) != Some(false)),
        d.model == model,
        d.serial == serial,
        d.partitions == partitions,
        d.status == DriveStatus::Healthy,
{
    let size_sectors: u64 = match parse_opt_u64(size) {
        Some(n) => n,
        None => 0,
    };
    let removable: bool = match parse_opt_bool(removable) {
        Some(b) => b,
        None => false,
    };
    let rotational: bool = match parse_opt_bool(rotational) {
        Some(b) => b,
        None => true,
    };
    let mut device_path = String::from_str("/dev/");
    device_path.append(name);
    DriveInfo {
        device: String::from_str(name),
        device_path,
        size_bytes: size_sectors * 512,
        removable,
        rotational,
        model,
        serial,
        partitions,
        status: DriveStatus::Healthy,
    }
}

/// The word at `k`, empty past the end.
pub open spec fn word_or_empty(ws: Seq<Seq<char>>, k: int) -> Seq<char> {
    if 0 <= k < ws.len() { ws[k] } else { Seq::empty() }
}

/// The first mount-table line (from `lines` on) whose device column is
/// `device`: its filesystem type and mount point.
pub open spec fn mount_entry(lines: Seq<Seq<char>>, device: Seq<char>) -> Option<(Seq<char>, Seq<char>)>
    decreases lines.len(),
{
    if lines.len() == 0 {
        None
    } else {
        let w = words(lines[0]);
        if word_or_empty(w, 0) == device {
            Some((word_or_empty(w, 2), word_or_empty(w, 1)))
        } else {
            mount_entry(lines.drop_first(), device)
        }
    }
}

fn word_or_empty_exec(ws: &Vec<Vec<char>>, k: usize) -> (r: Vec<char>)
    ensures
        r@ == word_or_empty(vecs_view(ws@), k as int),
{
    if k < ws.len() {
        let mut r: Vec<char> = Vec::new();
        let w = &ws[k];
        for i in 0..w.len()
            invariant
                r@ == w@.take(i as int),
        {
            r.push(w[i]);
            assert(w@.take(i + 1) == w@.take(i as int).push(w@[i as int]));
        }
        assert(w@.take(w@.len() as int) == w@);
        r
    } else {
        Vec::new()
    }
}

/// Looks `device` up in the contents of the mount table (`/proc/mounts`):
/// the filesystem type and mount point of the first line for it.
pub fn get_mount_info(mounts: &str, device: &str) -> (r: (Option<String>, Option<String>))
    ensures
        match mount_entry(lines(mounts@), device@) {
            Some((fs, mp)) => opt_view(r.0) == Some(fs) && opt_view(r.1) == Some(mp),
            None => r.0 is None && r.1 is None,
        },
{
    let content = chars_of(mounts);
    let dev = chars_of(device);
    let ls = split_lines(&content);
    let ghost all = vecs_view(ls@);
    let mut i: usize = 0;
    assert(all.skip(0) == all);
    while i < ls.len()
        invariant
            i <= ls@.len(),
            all == vecs_view(ls@),
            all == lines(mounts@),
            dev@ == device@,
            mount_entry(all, dev@) == mount_entry(all.skip(i as int), dev@),
        decreases ls@.len() - i,
    {
        let ws = split_words(&ls[i]);
        let first = word_or_empty_exec(&ws, 0);
        assert(all.skip(i as int)[0] == ls@[i as int]@);
        if chars_eq(&first, &dev) {
            let fs = word_or_empty_exec(&ws, 2);
            let mp = word_or_empty_exec(&ws, 1);
            return (Some(string_from_chars(&fs)), Some(string_from_chars(&mp)));
        }
        assert(all.skip(i as int).drop_first() == all.skip(i + 1));
        i += 1;
    }
    (None, None)
}

/// The filesystem of a partition: the type in its mount-table entry when it
/// has one, else the name of the type probed from its superblock.
pub open spec fn partition_filesystem(mount_fs: Option<Seq<char>>, detected: FsType) -> Option<Seq<char>> {
    match mount_fs {
        Some(f) => Some(f),
        None => probe_name_of(detected),
    }
}

/// The status of a partition from its filesystem and mount point: mounted when it has
/// a mount point, encrypted for LUKS or BitLocker, unformatted without a
/// filesystem, otherwise unmounted.
pub open spec fn partition_status(fs: Option<Seq<char>>, mount_point: Option<Seq<char>>) -> PartitionStatusModel {
    match mount_point {
        Some(mp) => PartitionStatusModel::Mounted(mp),
        None => if fs == Some("crypto_LUKS"@) || fs == Some("BitLocker"@) {
            PartitionStatusModel::Encrypted
        } else if fs is None {
            PartitionStatusModel::Unformatted
        } else {
            PartitionStatusModel::Unmounted
        },
    }
}

/// The value of a partition status.
pub enum PartitionStatusModel {
    Mounted(Seq<char>),
    Unmounted,
    Encrypted,
    Unformatted,
    Error(Seq<char>),
}

impl View for PartitionStatus {
    type V = PartitionStatusModel;

    open spec fn view(&self) -> PartitionStatusModel {
        match self {
            PartitionStatus::Mounted(p) => PartitionStatusModel::Mounted(p@),
            PartitionStatus::Unmounted => PartitionStatusModel::Unmounted,
            PartitionStatus::Encrypted => PartitionStatusModel::Encrypted,
            PartitionStatus::Unformatted => PartitionStatusModel::Unformatted,
            PartitionStatus::Error(e) => PartitionStatusModel::Error(e@),
        }
    }
}

fn opt_string_eq(a: &Option<String>, lit: &str) -> (r: bool)
    ensures
        r == (opt_view(*a) == Some(lit@)),
{
    match a {
        Some(s) => {
            let x = chars_of(s.as_str());
            let y = chars_of(lit);
            chars_eq(&x, &y)
        },
        None => false,
    }
}

/// A partition record built from its sysfs attributes (`size` in 512-byte
/// sectors, `start` sector), its mount-table entry, the filesystem type
/// probed from its superblock, and its by-uuid / by-label names.
pub fn read_partition_info(
    name: &str,
    size: &Option<String>,
    start: &Option<String>,
    mount: (Option<String>, Option<String>),
    detected: FsType,
    uuid: Option<String>,
    label: Option<String>,
) -> (p: PartitionInfo)
    requires
        sectors(opt_view(*size)) * 512 <= u64::MAX,
        sys_u64(opt_view(*start)) matches Some(s) ==> s + sectors(opt_view(*size)) <= u64::MAX,
    ensures
        p.device@ == name@,
        p.device_path@ == "/dev/"@ + name@,
        p.size_bytes == sectors(opt_view(*size)) * 512,
        opt_view(p.filesystem) == partition_filesystem(opt_view(mount.0), detected),
        opt_view(p.mount_point) == opt_view(mount.1),
        p.uuid == uuid,
        p.label == label,
        p.status@ == partition_status(partition_filesystem(opt_view(mount.0), detected), opt_view(mount.1)),
        match sys_u64(opt_view(*start)) {
            Some(s) => p.start_sector == Some(s as u64)
                && p.end_sector == Some((s + sectors(opt_view(*size))) as u64),
            None => p.start_sector is None && p.end_sector is None,
        },
{
    let size_sectors: u64 = match parse_opt_u64(size) {
        Some(n) => n,
        None => 0,
    };
    let start_sector = parse_opt_u64(start);
    let (mount_fs, mount_point) = mount;
    let filesystem = match mount_fs {
        Some(f) => Some(f),
        None => match detected.probe_name() {
            Some(n) => Some(String::from_str(n)),
            None => None,
        },
    };
    let status = match &mount_point {
        Some(mp) => PartitionStatus::Mounted(mp.clone()),
        None => {
            if opt_string_eq(&filesystem, "crypto_LUKS") || opt_string_eq(&filesystem, "BitLocker") {
                PartitionStatus::Encrypted
            } else if filesystem.is_none() {
                PartitionStatus::Unformatted
            } else {
                PartitionStatus::Unmounted
            }
        },
    };
    let end_sector = match start_sector {
        Some(s) => Some(s + size_sectors),
        None => None,
    };
    let mut device_path = String::from_str("/dev/");
    device_path.append(name);
    PartitionInfo {
        device: String::from_str(name),
        device_path,
        size_bytes: size_sectors * 512,
        filesystem,
        label,
        uuid,
        mount_point,
        status,
        start_sector,
        end_sector,
    }
}

/// Format a byte count into a human-readable string (e.g. "465.8 GB"),
/// with units up to PB.
pub fn format_size(bytes: u64) -> (s: String)
    ensures
        s@ == size_text(bytes as nat, 5),
{
    format_size_steps(bytes, 5)
}

/// The key drives are listed by: their kernel name.
pub open spec fn drive_key(d: DriveInfo) -> (u8, Seq<char>) {
    (0u8, d.device@)
}

/// The key partitions are listed by: their kernel name.
pub open spec fn partition_key(p: PartitionInfo) -> (u8, Seq<char>) {
    (0u8, p.device@)
}

/// Orders drives by kernel name.
pub fn sort_drives(drives: Vec<DriveInfo>) -> (r: Vec<DriveInfo>)
    ensures
        stably_sorted_by(drives@, drives@.map_values(|d: DriveInfo| drive_key(d)), r@),
{
    let mut keys: Vec<SortKey> = Vec::new();
    for i in 0..drives.len()
        invariant
            keys@.len() == i,
            forall|k: int| 0 <= k < i ==> #[trigger] keys@[k]@ == drive_key(drives@[k]),
    {
        keys.push(SortKey { rank: 0, text: chars_of(drives[i].device.as_str()) });
    }
    assert(keys@.map_values(|k: SortKey| k@) =~= drives@.map_values(|d: DriveInfo| drive_key(d)));
    sort_by_keys(drives, keys)
}

/// Orders partitions by kernel name.
pub fn sort_partitions(parts: Vec<PartitionInfo>) -> (r: Vec<PartitionInfo>)
    ensures
        stably_sorted_by(parts@, parts@.map_values(|p: PartitionInfo| partition_key(p)), r@),
{
    let mut keys: Vec<SortKey> = Vec::new();
    for i in 0..parts.len()
        invariant
            keys@.len() == i,
            forall|k: int| 0 <= k < i ==> #[trigger] keys@[k]@ == partition_key(parts@[k]),
    {
        keys.push(SortKey { rank: 0, text: chars_of(parts[i].device.as_str()) });
    }
    assert(keys@.map_values(|k: SortKey| k@) =~= parts@.map_values(|p: PartitionInfo| partition_key(p)));
    sort_by_keys(parts, keys)
}

/// What the system shows of one entry of a drive's sysfs directory: its
/// name, the contents of its `size` and `start` files (`None` when they
/// cannot be read), the filesystem type that its superblock shows
/// (`Unknown` when none is recognised or the device cannot be read), and
/// the names by which `/dev/disk/by-uuid` and `/dev/disk/by-label` link to
/// its device node.
#[derive(Debug)]
pub struct SysPartition {
    pub name: String,
    pub size: Option<String>,
    pub start: Option<String>,
    pub detected: FsType,
    pub uuid: Option<String>,
    pub label: Option<String>,
}

/// What the system shows of one entry of `/sys/block`: its name, the
/// contents of its `size`, `removable`, `queue/rotational`, `device/model`
/// and `device/serial` files (`None` when they cannot be read), and the
/// entries of its directory.
#[derive(Debug)]
pub struct SysDrive {
    pub name: String,
    pub size: Option<String>,
    pub removable: Option<String>,
    pub rotational: Option<String>,
    pub model: Option<String>,
    pub serial: Option<String>,
    pub entries: Vec<SysPartition>,
}

/// The value of an attribute file: its trimmed contents, absent when the
/// file cannot be read or holds only whitespace.
pub open spec fn attr(v: Option<String>) -> Option<Seq<char>> {
    match v {
        Some(c) => sys_value(c@),
        None => None,
    }
}

/// The entries of a drive's directory that are its partitions.
pub open spec fn partition_entries(d: SysDrive) -> Seq<SysPartition> {
    d.entries@.filter(|e: SysPartition| partition_of(d.name@, e.name@))
}

/// The block devices that are listed as drives.
pub open spec fn listed_devices(devices: Seq<SysDrive>) -> Seq<SysDrive> {
    devices.filter(|d: SysDrive| !is_virtual_device(d.name@))
}

/// The sizes and sector numbers of the listed drives and their partitions
/// fit in 64 bits once counted in bytes.
pub open spec fn sizes_fit(devices: Seq<SysDrive>) -> bool {
    forall|i: int| 0 <= i < devices.len() && !is_virtual_device(devices[i].name@) ==> {
        &&& #[trigger] sectors(attr(devices[i].size)) * 512 <= u64::MAX
        &&& forall|j: int| 0 <= j < devices[i].entries@.len()
            && partition_of(devices[i].name@, devices[i].entries@[j].name@) ==> {
                let e = #[trigger] devices[i].entries@[j];
                &&& sectors(attr(e.size)) * 512 <= u64::MAX
                &&& sys_u64(attr(e.start)) matches Some(st) ==> st + sectors(attr(e.size)) <= u64::MAX
            }
    }
}

/// `p` is the record of partition entry `e`, with its mount-table entry
/// looked up in `mounts` (the contents of `/proc/mounts`) and, when it has
/// none, the filesystem probed from its superblock.
pub open spec fn partition_built(p: PartitionInfo, e: SysPartition, mounts: Seq<char>) -> bool {
    let m = mount_entry(lines(mounts), "/dev/"@ + e.name@);
    let fs = partition_filesystem(match m { Some((f, _)) => Some(f), None => None }, e.detected);
    let mp = match m { Some((_, q)) => Some(q), None => None };
    &&& p.device@ == e.name@
    &&& p.device_path@ == "/dev/"@ + e.name@
    &&& p.size_bytes == sectors(attr(e.size)) * 512
    &&& opt_view(p.filesystem) == fs
    &&& opt_view(p.mount_point) == mp
    &&& p.uuid == e.uuid
    &&& p.label == e.label
    &&& p.status@ == partition_status(fs, mp)
    &&& match sys_u64(attr(e.start)) {
        Some(st) => p.start_sector == Some(st as u64) && p.end_sector == Some((st + sectors(attr(e.size))) as u64),
        None => p.start_sector is None && p.end_sector is None,
    }
}

/// `parts` lists the records `built` of the partition entries of `d`,
/// ordered by name.
pub open spec fn partitions_from(built: Seq<PartitionInfo>, parts: Seq<PartitionInfo>, d: SysDrive, mounts: Seq<char>) -> bool {
    let kept = partition_entries(d);
    &&& built.len() == kept.len()
    &&& forall|i: int| 0 <= i < kept.len() ==> partition_built(#[trigger] built[i], kept[i], mounts)
    &&& stably_sorted_by(built, built.map_values(|p: PartitionInfo| partition_key(p)), parts)
}

/// `d` is the record of drive entry `e`: its attributes, and its partitions
/// ordered by name.
pub open spec fn drive_built(d: DriveInfo, e: SysDrive, mounts: Seq<char>) -> bool {
    &&& d.device@ == e.name@
    &&& d.device_path@ == "/dev/"@ + e.name@
    &&& d.size_bytes == sectors(attr(e.size)) * 512
    &&& d.removable == (sys_bool(attr(e.removable)) == Some(true))
    &&& d.rotational == (sys_bool(attr(e.rotational)) != Some(false))
    &&& opt_view(d.model) == attr(e.model)
    &&& opt_view(d.serial) == attr(e.serial)
    &&& d.status == DriveStatus::Healthy
    &&& exists|built: Seq<PartitionInfo>| #[trigger] partitions_from(built, d.partitions@, e, mounts)
}

/// `drives` lists the records `built` of the listed devices, ordered by
/// name.
pub open spec fn drives_from(built: Seq<DriveInfo>, drives: Seq<DriveInfo>, devices: Seq<SysDrive>, mounts: Seq<char>) -> bool {
    let kept = listed_devices(devices);
    &&& built.len() == kept.len()
    &&& forall|i: int| 0 <= i < kept.len() ==> drive_built(#[trigger] built[i], kept[i], mounts)
    &&& stably_sorted_by(built, built.map_values(|d: DriveInfo| drive_key(d)), drives)
}

/// No virtual device (loop, RAM disk, zram, device-mapper, optical,
/// floppy) is ever listed as a drive.
pub proof fn lemma_no_virtual_drives(built: Seq<DriveInfo>, drives: Seq<DriveInfo>, devices: Seq<SysDrive>, mounts: Seq<char>, k: int)
    requires
        drives_from(built, drives, devices, mounts),
        0 <= k < drives.len(),
    ensures
        !is_virtual_device(drives[k].device@),
{
    let kept = listed_devices(devices);
    let keys = built.map_values(|d: DriveInfo| drive_key(d));
    let perm = choose|perm: Seq<int>| {
        &&& crate::sorting::is_permutation(perm, built.len())
        &&& drives.len() == built.len()
        &&& forall|j: int| 0 <= j < built.len() ==> #[trigger] drives[j] == built[perm[j]]
        &&& forall|a: int, b: int| 0 <= a < b < built.len() ==>
            crate::sorting::key_le(keys[#[trigger] perm[a]], keys[#[trigger] perm[b]])
        &&& forall|a: int, b: int| 0 <= a < b < built.len() && keys[perm[a]] == keys[perm[b]] ==>
            #[trigger] perm[a] < #[trigger] perm[b]
    };
    let i = perm[k];
    assert(drives[k] == built[i]);
    assert(drive_built(built[i], kept[i], mounts));
    devices.lemma_filter_pred(|d: SysDrive| !is_virtual_device(d.name@), i);
}

fn attr_exec(v: &Option<String>) -> (r: Option<String>)
    ensures
        opt_view(r) == attr(*v),
{
    match v {
        Some(c) => read_sys_str(c.as_str()),
        None => None,
    }
}

/// The partitions of drive entry `d`, ordered by name.
fn partition_infos(d: &SysDrive, mounts: &str) -> (r: Vec<PartitionInfo>)
    requires
        forall|j: int| 0 <= j < d.entries@.len() && partition_of(d.name@, d.entries@[j].name@) ==> {
            let e = #[trigger] d.entries@[j];
            &&& sectors(attr(e.size)) * 512 <= u64::MAX
            &&& sys_u64(attr(e.start)) matches Some(st) ==> st + sectors(attr(e.size)) <= u64::MAX
        },
    ensures
        exists|built: Seq<PartitionInfo>| #[trigger] partitions_from(built, r@, *d, mounts@),
{
    let ghost pred = |e: SysPartition| partition_of(d.name@, e.name@);
    let mut built: Vec<PartitionInfo> = Vec::new();
    for j in 0..d.entries.len()
        invariant
            pred == (|e: SysPartition| partition_of(d.name@, e.name@)),
            forall|j: int| 0 <= j < d.entries@.len() && partition_of(d.name@, d.entries@[j].name@) ==> {
                let e = #[trigger] d.entries@[j];
                &&& sectors(attr(e.size)) * 512 <= u64::MAX
                &&& sys_u64(attr(e.start)) matches Some(st) ==> st + sectors(attr(e.size)) <= u64::MAX
            },
            built@.len() == d.entries@.take(j as int).filter(pred).len(),
            forall|k: int| 0 <= k < built@.len() ==>
                partition_built(#[trigger] built@[k], d.entries@.take(j as int).filter(pred)[k], mounts@),
    {
        let ghost before = d.entries@.take(j as int);
        assert(d.entries@.take(j + 1) =~= before.push(d.entries@[j as int]));
        proof {
            before.lemma_filter_push(d.entries@[j as int], pred);
        }
        let e = &d.entries[j];
        if is_partition_of(d.name.as_str(), e.name.as_str()) {
            let size = attr_exec(&e.size);
            let start = attr_exec(&e.start);
            let mut device_path = String::from_str("/dev/");
            device_path.append(e.name.as_str());
            let mount = get_mount_info(mounts, device_path.as_str());
            let p = read_partition_info(
                e.name.as_str(),
                &size,
                &start,
                mount,
                e.detected,
                clone_opt(&e.uuid),
                clone_opt(&e.label),
            );
            built.push(p);
        }
    }
    assert(d.entries@.take(d.entries@.len() as int) =~= d.entries@);
    let ghost b = built@;
    let r = sort_partitions(built);
    assert(partitions_from(b, r@, *d, mounts@));
    r
}

/// The drives found among the entries of `/sys/block`, given what the
/// system shows of each (see `SysDrive`) and the contents of
/// `/proc/mounts`: virtual devices are skipped, each drive lists the
/// entries of its directory that are its partitions, and drives and
/// partitions are ordered by name.
pub fn enumerate_drives(devices: &[SysDrive], mounts: &str) -> (r: Vec<DriveInfo>)
    requires
        sizes_fit(devices@),
    ensures
        exists|built: Seq<DriveInfo>| #[trigger] drives_from(built, r@, devices@, mounts@),
{
    let ghost pred = |d: SysDrive| !is_virtual_device(d.name@);
    let mut built: Vec<DriveInfo> = Vec::new();
    for i in 0..devices.len()
        invariant
            pred == (|d: SysDrive| !is_virtual_device(d.name@)),
            sizes_fit(devices@),
            built@.len() == devices@.take(i as int).filter(pred).len(),
            forall|k: int| 0 <= k < built@.len() ==>
                drive_built(#[trigger] built@[k], devices@.take(i as int).filter(pred)[k], mounts@),
    {
        let ghost before = devices@.take(i as int);
        assert(devices@.take(i + 1) =~= before.push(devices@[i as int]));
        proof {
            before.lemma_filter_push(devices@[i as int], pred);
        }
        let d = &devices[i];
        if !should_skip_device(d.name.as_str()) {
            assert(sectors(attr(devices@[i as int].size)) * 512 <= u64::MAX);
            let parts = partition_infos(d, mounts);
            let size = attr_exec(&d.size);
            let removable = attr_exec(&d.removable);
            let rotational = attr_exec(&d.rotational);
            let info = read_drive_info(
                d.name.as_str(),
                &size,
                &removable,
                &rotational,
                attr_exec(&d.model),
                attr_exec(&d.serial),
                parts,
            );
            built.push(info);
        }
    }
    assert(devices@.take(devices@.len() as int) =~= devices@);
    let ghost b = built@;
    let r = sort_drives(built);
    assert(drives_from(b, r@, devices@, mounts@));
    r
}

} // verus!
