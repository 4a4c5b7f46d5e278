use ironkey::devices::{drive_name_from_partition, is_partition_of, is_physical_drive, should_skip_device};
use ironkey::drives::{enumerate_drives, format_size, get_mount_info, read_sys_str, DriveStatus, PartitionStatus, SysDrive, SysPartition};
use ironkey::ops::{clone_progress, format_args_exec, wipe_chunk_len, wipe_partition, wipe_passes, CloneProgress, FormatFsType, FormatOpts, WipeMode, WipePass, WipeStep, IO_BLOCK};
use ironkey::detect::FsType;
use ironkey::smart::{parse_smart_data, read_smart, smart_command_buffer, SmartData};

fn part(name: &str, size: &str, start: Option<&str>) -> SysPartition {
    SysPartition {
        name: name.to_string(),
        size: Some(format!("{}\n", size)),
        start: start.map(|s| s.to_string()),
        detected: FsType::Unknown,
        uuid: None,
        label: None,
    }
}

fn drive(name: &str, entries: Vec<SysPartition>) -> SysDrive {
    SysDrive {
        name: name.to_string(),
        size: Some("1000\n".to_string()),
        removable: Some("0\n".to_string()),
        rotational: Some("0\n".to_string()),
        model: Some("  Disk Model  \n".to_string()),
        serial: None,
        entries,
    }
}

#[test]
fn format_size_bytes() {
    assert_eq!(format_size(0), "0 B");
    assert_eq!(format_size(512), "512 B");
}

#[test]
fn format_size_kilobytes() {
    assert_eq!(format_size(1024), "1.0 KB");
}

#[test]
fn format_size_gigabytes() {
    assert_eq!(format_size(500 * 1024 * 1024 * 1024), "500.0 GB");
}

#[test]
fn enumerate_drives_returns_vec() {
    // No block devices: an empty list, no panic.
    let drives = enumerate_drives(&[], "");
    assert!(drives.is_empty());
}

#[test]
fn skip_loop_devices() {
    assert!(should_skip_device("loop0"));
    assert!(should_skip_device("ram0"));
    assert!(!should_skip_device("sda"));
    assert!(!should_skip_device("nvme0n1"));
}

#[test]
fn skip_other_virtual_devices() {
    for n in ["zram0", "dm-1", "sr0", "fd0"] {
        assert!(should_skip_device(n), "{}", n);
    }
    assert!(!should_skip_device("mmcblk0"));
}

#[test]
fn enumerate_builds_sorted_drives() {
    let mounts = "/dev/sdb1 /mnt/usb vfat rw 0 0\n/dev/sdb2 /media/x crypto_LUKS rw 0 0\n";
    let devices = vec![
        drive("sdb", vec![
            part("sdb2", "200", Some("2048")),
            part("queue", "1", None),
            part("sdb1", "100", Some("100")),
            part("sdb", "5", None),
        ]),
        drive("loop0", vec![]),
        drive("sda", vec![part("sda1", "50", None)]),
    ];
    let drives = enumerate_drives(&devices, mounts);
    assert_eq!(drives.len(), 2);
    assert_eq!(drives[0].device, "sda");
    assert_eq!(drives[1].device, "sdb");
    let sdb = &drives[1];
    assert_eq!(sdb.device_path, "/dev/sdb");
    assert_eq!(sdb.size_bytes, 512_000);
    assert!(!sdb.removable);
    assert!(sdb.rotational); // "0" is not a bool, so the default applies
    assert_eq!(sdb.model.as_deref(), Some("Disk Model"));
    assert_eq!(sdb.serial, None);
    assert_eq!(sdb.status, DriveStatus::Healthy);
    let names: Vec<&str> = sdb.partitions.iter().map(|p| p.device.as_str()).collect();
    assert_eq!(names, vec!["sdb1", "sdb2"]);
    let p1 = &sdb.partitions[0];
    assert_eq!(p1.filesystem.as_deref(), Some("vfat"));
    assert_eq!(p1.mount_point.as_deref(), Some("/mnt/usb"));
    assert_eq!(p1.status, PartitionStatus::Mounted("/mnt/usb".to_string()));
    assert_eq!(p1.start_sector, Some(100));
    assert_eq!(p1.end_sector, Some(200));
    assert_eq!(p1.size_bytes, 51_200);
    let p2 = &sdb.partitions[1];
    assert_eq!(p2.status, PartitionStatus::Mounted("/media/x".to_string()));
    let sda1 = &drives[0].partitions[0];
    assert_eq!(sda1.status, PartitionStatus::Unformatted);
    assert_eq!(sda1.start_sector, None);
    assert_eq!(sda1.end_sector, None);
}

#[test]
fn unmounted_partitions_use_probed_filesystem() {
    let mounts = "/dev/sdc1 /mnt/data ext4 rw 0 0\n";
    let mut p1 = part("sdc1", "10", None);
    p1.detected = FsType::Xfs;
    let mut p2 = part("sdc2", "10", None);
    p2.detected = FsType::Ext4;
    let mut p3 = part("sdc3", "10", None);
    p3.detected = FsType::Luks;
    let mut p4 = part("sdc4", "10", None);
    p4.detected = FsType::BitLocker;
    let p5 = part("sdc5", "10", None);
    let mut p6 = part("sdc6", "10", None);
    p6.detected = FsType::Ntfs;
    let drives = enumerate_drives(&[drive("sdc", vec![p1, p2, p3, p4, p5, p6])], mounts);
    let ps = &drives[0].partitions;
    // The mount table wins over the probed type.
    assert_eq!(ps[0].filesystem.as_deref(), Some("ext4"));
    assert_eq!(ps[0].status, PartitionStatus::Mounted("/mnt/data".to_string()));
    assert_eq!(ps[1].filesystem.as_deref(), Some("ext4"));
    assert_eq!(ps[1].status, PartitionStatus::Unmounted);
    assert_eq!(ps[2].filesystem.as_deref(), Some("crypto_LUKS"));
    assert_eq!(ps[2].status, PartitionStatus::Encrypted);
    assert_eq!(ps[3].filesystem.as_deref(), Some("BitLocker"));
    assert_eq!(ps[3].status, PartitionStatus::Encrypted);
    assert_eq!(ps[4].filesystem, None);
    assert_eq!(ps[4].status, PartitionStatus::Unformatted);
    assert_eq!(ps[5].filesystem.as_deref(), Some("ntfs"));
    assert_eq!(ps[5].status, PartitionStatus::Unmounted);
}

#[test]
fn drive_attribute_booleans() {
    let mut d = drive("sdc", vec![]);
    d.removable = Some("true\n".to_string());
    d.rotational = Some("false".to_string());
    d.size = None;
    let drives = enumerate_drives(&[d], "");
    assert!(drives[0].removable);
    assert!(!drives[0].rotational);
    assert_eq!(drives[0].size_bytes, 0);
}

#[test]
fn sysfs_values() {
    assert_eq!(read_sys_str("  abc \n"), Some("abc".to_string()));
    assert_eq!(read_sys_str(" \n\t"), None);
    assert_eq!(read_sys_str(""), None);
}

#[test]
fn mount_table_lookup() {
    let table = "sysfs /sys sysfs rw 0 0\n/dev/sda1 / ext4 rw 0 0\n/dev/sda1 /again xfs rw 0 0\n/dev/sdz\n";
    assert_eq!(get_mount_info(table, "/dev/sda1"), (Some("ext4".to_string()), Some("/".to_string())));
    assert_eq!(get_mount_info(table, "/dev/sdb1"), (None, None));
    assert_eq!(get_mount_info(table, "/dev/sdz"), (Some(String::new()), Some(String::new())));
}

#[test]
fn partition_names() {
    assert!(is_partition_of("sda", "sda1"));
    assert!(is_partition_of("nvme0n1", "nvme0n1p2"));
    assert!(!is_partition_of("sda", "sda"));
    assert!(!is_partition_of("sda", "sdab"));
    assert!(!is_partition_of("sda", "queue"));
}

#[test]
fn is_physical_drive_checks() {
    assert!(is_physical_drive("sda"));
    assert!(!is_physical_drive("sda1"));
    assert!(is_physical_drive("nvme0n1"));
    assert!(!is_physical_drive("loop0"));
}

#[test]
fn physical_drive_naming() {
    assert!(!is_physical_drive("nvme0n1p1"));
    assert!(is_physical_drive("mmcblk0"));
    assert!(!is_physical_drive("mmcblk0p1"));
    assert!(!is_physical_drive("zram0"));
    assert!(!is_physical_drive("dm-0"));
}

#[test]
fn parent_drive_names() {
    assert_eq!(drive_name_from_partition("sda1"), "sda");
    assert_eq!(drive_name_from_partition("nvme0n1p2"), "nvme0n1");
    assert_eq!(drive_name_from_partition("mmcblk0p1"), "mmcblk0");
    assert_eq!(drive_name_from_partition("sdb"), "sdb");
    assert_eq!(drive_name_from_partition("sdp1"), "sdp");
    assert_eq!(drive_name_from_partition("sdp"), "sdp");
}

#[test]
fn format_opts_display() {
    let opts = FormatOpts { fs_type: FormatFsType::Ext4, label: Some("test".to_string()) };
    assert_eq!(opts.fs_type.display_name(), "ext4");
    assert_eq!(opts.fs_type.mkfs_binary(), "mkfs.ext4");
}

#[test]
fn format_command_arguments() {
    let opts = FormatOpts { fs_type: FormatFsType::Ext4, label: Some("data".to_string()) };
    assert_eq!(format_args_exec(&opts, "/dev/sdb1"), vec!["-L", "data", "-F", "/dev/sdb1"]);
    let opts = FormatOpts { fs_type: FormatFsType::Fat32, label: Some("USB".to_string()) };
    assert_eq!(format_args_exec(&opts, "/dev/sdc1"), vec!["-n", "USB", "/dev/sdc1"]);
    let opts = FormatOpts { fs_type: FormatFsType::Ntfs, label: None };
    assert_eq!(format_args_exec(&opts, "/dev/sdd1"), vec!["-Q", "/dev/sdd1"]);
    let opts = FormatOpts { fs_type: FormatFsType::Xfs, label: None };
    assert_eq!(format_args_exec(&opts, "/dev/x"), vec!["-f", "/dev/x"]);
    assert_eq!(FormatFsType::ExFat.mkfs_binary(), "mkfs.exfat");
    assert_eq!(FormatFsType::Btrfs.display_name(), "btrfs");
}

#[test]
fn progress_reports() {
    let p = clone_progress(512, 1024, 100);
    assert_eq!(p, CloneProgress { bytes_done: 512, bytes_total: 1024, rate_bps: 100, eta_secs: Some(5) });
    assert_eq!(clone_progress(1024, 1024, 100).eta_secs, None);
    assert_eq!(clone_progress(0, 1024, 0).eta_secs, None);
}

#[test]
fn wipe_plans() {
    assert_eq!(wipe_passes(WipeMode::Zeros), vec![WipePass::Fill(0)]);
    assert_eq!(wipe_passes(WipeMode::Random), vec![WipePass::Random]);
    assert_eq!(wipe_passes(WipeMode::Dod3Pass), vec![WipePass::Fill(0), WipePass::Fill(0xFF), WipePass::Random]);
    assert_eq!(wipe_chunk_len(10, 10), 0);
    assert_eq!(wipe_chunk_len(10, 4), 6);
    assert_eq!(wipe_chunk_len(u64::MAX, 0), IO_BLOCK);
}

#[test]
fn wipe_job_runs_every_pass_to_the_end() {
    let size = (IO_BLOCK as u64) + 10;
    let mut job = wipe_partition(WipeMode::Dod3Pass, size);
    let mut writes: Vec<(WipePass, u64, usize)> = Vec::new();
    loop {
        match job.next_step() {
            WipeStep::Finished => break,
            WipeStep::Write { pass, offset, len } => {
                writes.push((pass, offset, len));
                let report = job.record_write(len, 1000).unwrap();
                assert_eq!(report.bytes_total, size);
            }
        }
    }
    let b = IO_BLOCK as u64;
    assert_eq!(writes, vec![
        (WipePass::Fill(0), 0, IO_BLOCK), (WipePass::Fill(0), b, 10),
        (WipePass::Fill(0xFF), 0, IO_BLOCK), (WipePass::Fill(0xFF), b, 10),
        (WipePass::Random, 0, IO_BLOCK), (WipePass::Random, b, 10),
    ]);
}

#[test]
fn wipe_job_short_and_empty() {
    let mut job = wipe_partition(WipeMode::Zeros, 100);
    assert_eq!(job.next_step(), WipeStep::Write { pass: WipePass::Fill(0), offset: 0, len: 100 });
    let r = job.record_write(40, 20).unwrap();
    assert_eq!(r.bytes_done, 40);
    assert_eq!(r.eta_secs, Some(5)); // 100 bytes remained before the write
    assert_eq!(job.next_step(), WipeStep::Write { pass: WipePass::Fill(0), offset: 40, len: 60 });
    // a write that covers nothing ends the pass
    assert!(job.record_write(0, 20).is_none());
    assert_eq!(job.next_step(), WipeStep::Finished);
    let job = wipe_partition(WipeMode::Random, 0);
    assert_eq!(job.next_step(), WipeStep::Finished);
}

#[test]
fn wipe_job_stops_at_first_error() {
    let mut job = wipe_partition(WipeMode::Dod3Pass, 100);
    job.record_write(100, 10).unwrap();
    // the second pass is under way when a write fails
    assert_eq!(job.next_step(), WipeStep::Write { pass: WipePass::Fill(0xFF), offset: 0, len: 100 });
    job.record_write(30, 10).unwrap();
    job.record_error();
    assert_eq!(job.next_step(), WipeStep::Finished);
    assert_eq!(job.bytes_done, 0);
}

fn smart_block(attrs: &[(u8, u64)]) -> Vec<u8> {
    let mut data = vec![0u8; 512];
    for (i, (id, raw)) in attrs.iter().enumerate() {
        let off = 2 + i * 12;
        data[off] = *id;
        let bytes = raw.to_le_bytes();
        data[off + 5..off + 11].copy_from_slice(&bytes[..6]);
    }
    data
}

#[test]
fn health_label_passed() {
    let s = SmartData {
        overall_health: true,
        temperature_celsius: Some(35),
        reallocated_sectors: 0,
        power_on_hours: 1000,
        pending_sectors: 0,
        uncorrectable_sectors: 0,
    };
    assert_eq!(s.health_label(), "PASSED");
}

#[test]
fn health_label_failed() {
    let s = SmartData {
        overall_health: false,
        temperature_celsius: None,
        reallocated_sectors: 5,
        power_on_hours: 50000,
        pending_sectors: 0,
        uncorrectable_sectors: 1,
    };
    assert_eq!(s.health_label(), "FAILED");
}

#[test]
fn smart_attribute_parsing() {
    let data = smart_block(&[(0x09, 0x1_0000_1234), (0xC2, 0x1_23_2A), (0xC5, 99), (0x05, 0)]);
    let s = parse_smart_data(&data);
    assert_eq!(s.power_on_hours, 0x1234);
    assert_eq!(s.temperature_celsius, Some(0x2A));
    assert_eq!(s.pending_sectors, 99);
    assert!(s.overall_health);
    let data = smart_block(&[(0xC5, 100)]);
    assert!(!parse_smart_data(&data).overall_health);
    let data = smart_block(&[(0x05, 1), (0x05, 0)]);
    assert_eq!(parse_smart_data(&data).reallocated_sectors, 0);
    let short = parse_smart_data(&[1, 2, 3]);
    assert!(!short.overall_health);
    assert_eq!(short.temperature_celsius, None);
}

#[test]
fn smart_reply_handling() {
    let cmd = smart_command_buffer();
    assert_eq!(cmd.len(), 516);
    assert_eq!(&cmd[..4], &[0xB0, 1, 0xD0, 1]);
    assert!(cmd[4..].iter().all(|b| *b == 0));
    assert_eq!(read_smart(None), None);
    let mut reply = vec![0u8; 4];
    reply.extend(smart_block(&[(0x09, 7)]));
    let s = read_smart(Some(&reply)).unwrap();
    assert_eq!(s.power_on_hours, 7);
    assert!(s.overall_health);
}
