use ironkey::detect::{classify_superblock, detect_by_magic, FsType};
use ironkey::mount::{apfs_args, bitlocker_paths, dislocker_args, effective_fs_type, generic_fs_name, loop_mount_options, luks_open_command,
    luks_passphrase, mapper_path, mount_handle, mount_point, mount_route, resolve_fs_type, ntfs3g_args, MountError, MountOptions, MountRoute};

#[test]
fn detect_ext4_magic() {
    let mut buf = [0u8; 0x470];
    buf[0x438] = 0x53;
    buf[0x439] = 0xEF;
    buf[0x460] = 0x40;
    assert_eq!(detect_by_magic(&buf), FsType::Ext4);
}

#[test]
fn detect_ntfs_magic() {
    let mut buf = [0u8; 512];
    buf[3..11].copy_from_slice(b"NTFS    ");
    assert_eq!(detect_by_magic(&buf), FsType::Ntfs);
}

#[test]
fn detect_luks_magic() {
    let mut buf = [0u8; 512];
    buf[0..6].copy_from_slice(b"LUKS\xBA\xBE");
    assert_eq!(detect_by_magic(&buf), FsType::Luks);
}

#[test]
fn detect_unknown() {
    let buf = [0u8; 4096];
    assert_eq!(detect_by_magic(&buf), FsType::Unknown);
}

#[test]
fn fstype_display_names() {
    assert_eq!(FsType::Ext4.display_name(), "ext4");
    assert_eq!(FsType::Ntfs.display_name(), "NTFS");
    assert_eq!(FsType::Luks.display_name(), "LUKS");
}

#[test]
fn ext_family_detection() {
    let mut buf = [0u8; 0x470];
    buf[0x438] = 0x53;
    buf[0x439] = 0xEF;
    assert_eq!(detect_by_magic(&buf), FsType::Ext2);
    buf[0x45C] = 0x04; // has_journal
    assert_eq!(detect_by_magic(&buf), FsType::Ext3);
}

#[test]
fn short_superblock_is_unknown() {
    assert_eq!(classify_superblock(&[0u8; 100]), FsType::Unknown);
    let mut buf = [0u8; 512];
    buf[0..6].copy_from_slice(b"LUKS\xBA\xBE");
    assert_eq!(classify_superblock(&buf), FsType::Luks);
}

#[test]
fn kernel_names() {
    assert_eq!(FsType::Ext4.kernel_name(), Some("ext4"));
    assert_eq!(FsType::Vfat.kernel_name(), Some("vfat"));
    assert_eq!(FsType::Luks.kernel_name(), None);
    assert_eq!(FsType::Auto.kernel_name(), None);
}

#[test]
fn routes_and_types() {
    assert_eq!(mount_route(FsType::Luks), MountRoute::Luks);
    assert_eq!(mount_route(FsType::BitLocker), MountRoute::BitLocker);
    assert_eq!(mount_route(FsType::Apfs), MountRoute::Apfs);
    assert_eq!(mount_route(FsType::Ntfs), MountRoute::Ntfs);
    assert_eq!(mount_route(FsType::Ext4), MountRoute::Generic);
    assert_eq!(effective_fs_type(FsType::Auto, FsType::Xfs), FsType::Xfs);
    assert_eq!(effective_fs_type(FsType::Btrfs, FsType::Xfs), FsType::Btrfs);
    assert_eq!(generic_fs_name(FsType::Xfs), Ok("xfs"));
    assert_eq!(generic_fs_name(FsType::Zfs), Err(MountError::NoKernelDriver(FsType::Zfs)));
}

#[test]
fn mount_points() {
    let opts = MountOptions::default();
    assert_eq!(mount_point(&Some("sdb1".to_string()), &opts), "/mnt/ironkey/sdb1");
    assert_eq!(mount_point(&None, &opts), "/mnt/ironkey/disk");
    let custom = MountOptions { mount_point: Some("/media/x".to_string()), ..MountOptions::default() };
    assert_eq!(mount_point(&Some("sdb1".to_string()), &custom), "/media/x");
}

#[test]
fn luks_commands() {
    let none = MountOptions::default();
    assert_eq!(luks_passphrase(&none), Err(MountError::PassphraseRequired));
    let with = MountOptions { passphrase: Some("pw".to_string()), ..MountOptions::default() };
    assert_eq!(luks_passphrase(&with), Ok("pw".to_string()));
    let (mapper, args) = luks_open_command("/dev/sdb2", &Some("sdb2".to_string()));
    assert_eq!(mapper, "ironkey_sdb2");
    assert_eq!(args, vec!["open", "--type", "luks", "/dev/sdb2", "ironkey_sdb2"]);
    let (mapper, _) = luks_open_command("/dev/x", &None);
    assert_eq!(mapper, "ironkey_ironkey_luks");
    assert_eq!(mapper_path("ironkey_sdb2"), "/dev/mapper/ironkey_sdb2");
}

#[test]
fn helper_arguments() {
    let pass = MountOptions { passphrase: Some("pw".to_string()), recovery_key_path: Some("/k".to_string()), ..MountOptions::default() };
    assert_eq!(dislocker_args("/dev/sdb1", "/mnt/s", &pass), Ok(vec!["/dev/sdb1".to_string(), "-u".to_string(), "pw".to_string(), "--".to_string(), "/mnt/s".to_string()]));
    let key = MountOptions { recovery_key_path: Some("/k".to_string()), ..MountOptions::default() };
    assert_eq!(dislocker_args("/dev/sdb1", "/mnt/s", &key), Ok(vec!["/dev/sdb1".to_string(), "-r".to_string(), "/k".to_string(), "--".to_string(), "/mnt/s".to_string()]));
    assert_eq!(dislocker_args("/dev/sdb1", "/mnt/s", &MountOptions::default()), Err(MountError::BitLockerKeyRequired));
    assert_eq!(loop_mount_options(true), "loop,ro");
    assert_eq!(loop_mount_options(false), "loop");
    assert_eq!(ntfs3g_args("/dev/a", "/m", true), vec!["/dev/a", "/m", "-o", "ro"]);
    assert_eq!(ntfs3g_args("/dev/a", "/m", false), vec!["/dev/a", "/m"]);
    assert_eq!(apfs_args("/dev/a", "/m"), vec!["-o", "allow_other", "/dev/a", "/m"]);
}

#[test]
fn mount_handle_outcomes() {
    let opts = MountOptions::default();
    let name = Some("sdb1".to_string());
    let h = mount_handle("/dev/sdb1", FsType::Auto, FsType::Ext4, &name, &opts).unwrap();
    assert_eq!(h.device, "/dev/sdb1");
    assert_eq!(h.mount_point, "/mnt/ironkey/sdb1");
    assert_eq!(h.fs_type, FsType::Ext4);
    // a requested type wins over detection
    let h = mount_handle("/dev/sdb1", FsType::Luks, FsType::Ext4, &name, &opts).unwrap();
    assert_eq!(h.fs_type, FsType::Luks);
    let custom = MountOptions { mount_point: Some("/media/usb".to_string()), ..MountOptions::default() };
    let h = mount_handle("/dev/sdb1", FsType::Ntfs, FsType::Unknown, &name, &custom).unwrap();
    assert_eq!(h.mount_point, "/media/usb");
    assert_eq!(h.fs_type, FsType::Ntfs);
    assert_eq!(
        mount_handle("/dev/sdb1", FsType::Auto, FsType::Unknown, &name, &opts).unwrap_err(),
        MountError::NoKernelDriver(FsType::Unknown)
    );
    assert_eq!(
        mount_handle("/dev/sdb1", FsType::Zfs, FsType::Ext4, &None, &opts).unwrap_err(),
        MountError::NoKernelDriver(FsType::Zfs)
    );
}

#[test]
fn probed_type_names() {
    assert_eq!(FsType::Ntfs.probe_name(), Some("ntfs"));
    assert_eq!(FsType::Luks.probe_name(), Some("crypto_LUKS"));
    assert_eq!(FsType::BitLocker.probe_name(), Some("BitLocker"));
    assert_eq!(FsType::Zfs.probe_name(), Some("zfs_member"));
    assert_eq!(FsType::Unknown.probe_name(), None);
    assert_eq!(FsType::Auto.probe_name(), None);
}

#[test]
fn bitlocker_staging_paths() {
    let (staging, virt) = bitlocker_paths("/mnt/ironkey/sdb1");
    assert_eq!(staging, "/mnt/ironkey/sdb1._dislocker");
    assert_eq!(virt, "/mnt/ironkey/sdb1._dislocker/dislocker-file");
    let (staging, virt) = bitlocker_paths("/media/usb.img");
    assert_eq!(staging, "/media/usb._dislocker");
    assert_eq!(virt, "/media/usb._dislocker/dislocker-file");
}

#[test]
fn detection_result_passes_through_for_auto() {
    assert_eq!(resolve_fs_type::<String>(FsType::Auto, Ok(FsType::Xfs)), Ok(FsType::Xfs));
    assert_eq!(resolve_fs_type(FsType::Auto, Err("unreadable".to_string())), Err("unreadable".to_string()));
    // a requested type does not consult detection
    assert_eq!(resolve_fs_type(FsType::Vfat, Err("unreadable".to_string())), Ok(FsType::Vfat));
}
