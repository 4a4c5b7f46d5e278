use ironkey::app_state::{Action, ClipboardOp, IronKeyApp, Message, Modal, PaneKind};
use ironkey::detect::FsType;
use ironkey::drives::{DriveInfo, DriveStatus, PartitionInfo, PartitionStatus};
use ironkey::io_stats::DiskStats;
use ironkey::labels::{confirm_ready, drive_label, io_text, key_message, kind_label, partition_line, partition_status_text, ram_text, Key, StatusAction, ToolbarAction};
use ironkey::listing::{FileEntry, FileKind};
use ironkey::ops::FormatFsType;
use ironkey::pty::{find_shell, shell_environment, shell_paths, PtyOptions};
use ironkey::units::format_rate;
use ironkey::viewer::unreadable_content;
use std::path::PathBuf;

fn partition(dev: &str, status: PartitionStatus, fs: Option<&str>) -> PartitionInfo {
    PartitionInfo {
        device: dev.to_string(),
        device_path: format!("/dev/{}", dev),
        size_bytes: 100 * 1024 * 1024 * 1024,
        filesystem: fs.map(|s| s.to_string()),
        label: None,
        uuid: None,
        mount_point: None,
        status,
        start_sector: None,
        end_sector: None,
    }
}

fn app_with_drive() -> IronKeyApp {
    let (mut app, _) = IronKeyApp::new(PathBuf::from("/"), false);
    let drive = DriveInfo {
        device: "sda".to_string(),
        device_path: "/dev/sda".to_string(),
        size_bytes: 500 * 1024 * 1024 * 1024,
        removable: false,
        rotational: false,
        model: Some("Samsung".to_string()),
        serial: None,
        partitions: vec![
            partition("sda1", PartitionStatus::Mounted("/mnt".to_string()), Some("ext4")),
            partition("sda2", PartitionStatus::Encrypted, Some("crypto_LUKS")),
            partition("sda3", PartitionStatus::Unmounted, Some("xfs")),
        ],
        status: DriveStatus::Healthy,
    };
    app.update(Message::DrivesLoaded(vec![drive]));
    app
}

fn file(name: &str, kind: FileKind) -> FileEntry {
    FileEntry {
        name: name.to_string(),
        path: PathBuf::from(format!("/home/{}", name)),
        kind,
        size: 10,
        modified: None,
        permissions: String::new(),
        extension: None,
    }
}

#[test]
fn format_rate_zero() {
    assert_eq!(format_rate(0), "0 B/s");
}

#[test]
fn format_rate_megabytes() {
    assert_eq!(format_rate(10 * 1024 * 1024), "10.0 MB/s");
}

#[test]
fn disk_stats_read_no_panic() {
    let s = DiskStats::read("");
    assert_eq!(s.sectors_read, 0);
    assert_eq!(s.sectors_written, 0);
}

#[test]
fn disk_stats_totals() {
    let table = "   8       0 sda 100 0 2048 10 50 0 4096 20 0 0 0\n\
                 8       1 sda1 100 0 1000 10 50 0 1000 20 0 0 0\n\
                 7       0 loop0 1 0 999 0 0 0 999 0 0 0 0\n\
                 259     0 nvme0n1 5 0 10 0 5 0 20 0\n\
                 short line\n";
    let s = DiskStats::read(table);
    assert_eq!(s.sectors_read, 2058);
    assert_eq!(s.sectors_written, 4116);
    let later = DiskStats::parse("8 0 sda 0 0 3048 0 0 0 4000 0 0 0", s.timestamp);
    assert_eq!(later.sector_deltas(&s), (990, 0));
}

#[test]
fn rates_and_memory_texts() {
    assert_eq!(format_rate(512), "512 B/s");
    assert_eq!(format_rate(1536), "2 KB/s");
    assert_eq!(format_rate(2560), "2 KB/s");
    assert_eq!(ram_text(512 * 1048576 + 5, 2048 * 1048576), "RAM 512 / 2048 MB");
    assert_eq!(io_text(10 * 1024 * 1024, 0), "↑ 0 B/s  ↓ 10.0 MB/s");
}

#[test]
fn starting_state() {
    let (app, actions) = IronKeyApp::new(PathBuf::from("/"), true);
    assert!(matches!(actions.as_slice(), [Action::LoadDrives]));
    assert_eq!(app.focused_pane(), PaneKind::Drives);
    assert_eq!(app.current_path(), &PathBuf::from("/"));
    assert!(app.modal.is_none());
    assert!(app.pty_available);
}

#[test]
fn focus_cycles_through_three_panes() {
    let (mut app, _) = IronKeyApp::new(PathBuf::from("/"), false);
    app.update(Message::FocusNext);
    assert_eq!(app.focused_pane(), PaneKind::Browser);
    app.update(Message::FocusNext);
    assert_eq!(app.focused_pane(), PaneKind::Terminal);
    app.update(Message::FocusNext);
    assert_eq!(app.focused_pane(), PaneKind::Drives);
    app.update(Message::FocusPane(PaneKind::Terminal));
    assert_eq!(app.focused_pane(), PaneKind::Terminal);
}

#[test]
fn tick_and_refresh_ask_for_work() {
    let (mut app, _) = IronKeyApp::new(PathBuf::from("/data"), false);
    let a = app.update(Message::Tick);
    assert!(matches!(a.as_slice(), [Action::SampleSystem, Action::PollTerminal, Action::LoadDrives]));
    let a = app.update(Message::Refresh);
    match a.as_slice() {
        [Action::LoadDrives, Action::ListDirectory(p)] => assert_eq!(p, &PathBuf::from("/data")),
        _ => panic!("unexpected actions"),
    }
}

#[test]
fn toggling_a_drive_twice_restores_it() {
    let mut app = app_with_drive();
    app.update(Message::DriveToggled(0));
    assert!(app.expanded_drives().contains(&0));
    app.update(Message::DriveToggled(0));
    assert!(!app.expanded_drives().contains(&0));
}

#[test]
fn mounting_plain_and_encrypted_partitions() {
    let mut app = app_with_drive();
    assert!(app.update(Message::MountSelected).is_empty());
    app.update(Message::PartitionSelected("sda3".to_string()));
    assert_eq!(app.selected_partition(), Some("sda3"));
    match app.update(Message::MountSelected).as_slice() {
        [Action::Mount { device_path, fs_type, options }] => {
            assert_eq!(device_path, "/dev/sda3");
            assert_eq!(*fs_type, FsType::Auto);
            assert!(options.passphrase.is_none() && !options.read_only);
        }
        _ => panic!("expected a mount"),
    }
    app.update(Message::PartitionSelected("sda2".to_string()));
    assert!(app.update(Message::MountSelected).is_empty());
    assert!(matches!(app.modal, Some(Modal::Passphrase { .. })));
    app.update(Message::ModalPassphraseChanged("secret".to_string()));
    match app.update(Message::ModalConfirm).as_slice() {
        [Action::Mount { device_path, fs_type, options }] => {
            assert_eq!(device_path, "/dev/sda2");
            assert_eq!(*fs_type, FsType::Luks);
            assert_eq!(options.passphrase.as_deref(), Some("secret"));
        }
        _ => panic!("expected a LUKS mount"),
    }
    assert!(app.modal.is_none());
}

#[test]
fn unmount_only_mounted() {
    let mut app = app_with_drive();
    app.update(Message::PartitionSelected("sda1".to_string()));
    match app.update(Message::UnmountSelected).as_slice() {
        [Action::Unmount(mp)] => assert_eq!(mp, "/mnt"),
        _ => panic!("expected an unmount"),
    }
    app.update(Message::PartitionSelected("sda3".to_string()));
    assert!(app.update(Message::UnmountSelected).is_empty());
}

#[test]
fn format_needs_the_confirm_word() {
    let mut app = app_with_drive();
    app.update(Message::PartitionSelected("sda3".to_string()));
    app.update(Message::FormatSelected);
    app.update(Message::ModalFsTypeChanged(FormatFsType::Xfs));
    app.update(Message::ModalConfirmTextChanged("confirm".to_string()));
    assert!(app.update(Message::ModalConfirm).is_empty());
    assert!(app.modal.is_none());
    app.update(Message::FormatSelected);
    app.update(Message::ModalFsTypeChanged(FormatFsType::Xfs));
    app.update(Message::ModalConfirmTextChanged("CONFIRM".to_string()));
    match app.update(Message::ModalConfirm).as_slice() {
        [Action::FormatPartition { device_path, opts }] => {
            assert_eq!(device_path, "/dev/sda3");
            assert_eq!(opts.fs_type, FormatFsType::Xfs);
            assert!(opts.label.is_none());
        }
        _ => panic!("expected a format"),
    }
}

#[test]
fn new_table_targets_the_parent_drive() {
    let mut app = app_with_drive();
    app.update(Message::PartitionSelected("nvme0n1p2".to_string()));
    app.update(Message::NewTableSelected);
    match &app.modal {
        Some(Modal::NewTable { device, confirm_text }) => {
            assert_eq!(device, "nvme0n1");
            assert_eq!(confirm_text, "");
        }
        _ => panic!("expected the new-table dialog"),
    }
    app.update(Message::ModalConfirmTextChanged("CONFIRM".to_string()));
    match app.update(Message::ModalConfirm).as_slice() {
        [Action::CreatePartitionTable(d)] => assert_eq!(d, "/dev/nvme0n1"),
        _ => panic!("expected a partition table"),
    }
}

#[test]
fn dialogs_for_clone_wipe_power() {
    let mut app = app_with_drive();
    app.update(Message::CloneSelected);
    match &app.modal {
        Some(Modal::Confirm { title, message }) => {
            assert_eq!(title, "Clone Partition");
            assert!(message.ends_with("bs=4M status=progress"));
        }
        _ => panic!("expected the clone advice"),
    }
    app.update(Message::ModalCancel);
    assert!(app.modal.is_none());
    app.update(Message::PartitionSelected("sda1".to_string()));
    app.update(Message::WipeSelected);
    match &app.modal {
        Some(Modal::Confirm { title, message }) => {
            assert_eq!(title, "⚠ Wipe Partition");
            assert_eq!(message, "Securely wipe /dev/sda1? This is IRREVERSIBLE.\nAll data will be permanently destroyed.");
        }
        _ => panic!("expected the wipe warning"),
    }
    // confirming a plain dialog does nothing but close it
    assert!(app.update(Message::ModalConfirm).is_empty());
    app.update(Message::ShutdownRequested);
    assert!(matches!(app.update(Message::ModalConfirm).as_slice(), [Action::PowerOff]));
    app.update(Message::RebootRequested);
    assert!(matches!(app.update(Message::ModalConfirm).as_slice(), [Action::Reboot]));
}

#[test]
fn info_dialog_and_smart() {
    let mut app = app_with_drive();
    app.update(Message::PartitionSelected("sda1".to_string()));
    match app.update(Message::InfoSelected).as_slice() {
        [Action::ReadSmart { device, drive_path }] => {
            assert_eq!(device, "sda1");
            assert_eq!(drive_path, "/dev/sda");
        }
        _ => panic!("expected a SMART read"),
    }
    let smart = ironkey::smart::parse_smart_data(&[0u8; 512]);
    app.update(Message::SmartLoaded("sda1".to_string(), Some(smart)));
    match &app.modal {
        Some(Modal::Info { part, smart }) => {
            assert_eq!(part.device, "sda1");
            assert!(smart.is_some());
        }
        _ => panic!("expected the info dialog"),
    }
    app.update(Message::PartitionSelected("sdz9".to_string()));
    app.update(Message::ModalCancel);
    assert!(app.update(Message::InfoSelected).is_empty());
    assert!(app.modal.is_none());
}

#[test]
fn browsing_and_inline_edits() {
    let (mut app, _) = IronKeyApp::new(PathBuf::from("/home"), false);
    app.update(Message::FilesLoaded(vec![file("docs", FileKind::Directory), file("a.txt", FileKind::RegularFile)]));
    app.update(Message::FileSelected(1));
    assert_eq!(app.selected_file(), Some(1));
    assert_eq!(app.focused_pane(), PaneKind::Browser);
    app.update(Message::FileRenameStart);
    assert_eq!(app.rename_index(), Some(1));
    assert_eq!(app.rename_input(), "a.txt");
    app.update(Message::FileRenameInputChanged("  b.txt \n".to_string()));
    match app.update(Message::FileRenameCommit).as_slice() {
        [Action::RenameFile { path, new_name }, Action::ListDirectory(dir)] => {
            assert_eq!(path, &PathBuf::from("/home/a.txt"));
            assert_eq!(new_name, "b.txt");
            assert_eq!(dir, &PathBuf::from("/home"));
        }
        _ => panic!("expected a rename"),
    }
    assert_eq!(app.rename_index(), None);
    assert_eq!(app.rename_input(), "");
    app.update(Message::FileNewFolderStart);
    assert!(app.new_folder_active());
    assert_eq!(app.new_folder_input(), "New Folder");
    app.update(Message::FileNewFolderInputChanged("   ".to_string()));
    assert!(matches!(app.update(Message::FileNewFolderCommit).as_slice(), [Action::ListDirectory(_)]));
    assert!(!app.new_folder_active());
    app.update(Message::FileNewFolderStart);
    match app.update(Message::FileActivated(0)).as_slice() {
        [Action::ListDirectory(p)] => assert_eq!(p, &PathBuf::from("/home/docs")),
        _ => panic!("expected to enter the directory"),
    }
    assert!(!app.new_folder_active());
    assert_eq!(app.current_path(), &PathBuf::from("/home/docs"));
    app.update(Message::FilesLoaded(vec![file("x.bin", FileKind::RegularFile)]));
    assert_eq!(app.selected_file(), None);
    match app.update(Message::FileActivated(0)).as_slice() {
        [Action::ViewFile(p)] => assert_eq!(p, &PathBuf::from("/home/x.bin")),
        _ => panic!("expected to view the file"),
    }
    assert!(app.update(Message::FileActivated(7)).is_empty());
    app.update(Message::FileViewerLoaded(PathBuf::from("/home/x.bin"), unreadable_content()));
    assert!(matches!(app.modal, Some(Modal::FileViewer { .. })));
}

#[test]
fn clipboard_copy_cut_paste() {
    let (mut app, _) = IronKeyApp::new(PathBuf::from("/src"), false);
    app.update(Message::FilesLoaded(vec![file("a", FileKind::RegularFile)]));
    assert!(app.update(Message::FilePasteSelected).is_empty());
    app.update(Message::FileCopySelected);
    assert!(app.clipboard().is_none()); // nothing selected yet
    app.update(Message::FileSelected(0));
    app.update(Message::FileCopySelected);
    assert_eq!(app.clipboard(), Some(&(PathBuf::from("/home/a"), ClipboardOp::Copy)));
    match app.update(Message::FilePasteSelected).as_slice() {
        [Action::CopyFile { src, dest_dir }, Action::ListDirectory(_)] => {
            assert_eq!(src, &PathBuf::from("/home/a"));
            assert_eq!(dest_dir, &PathBuf::from("/src"));
        }
        _ => panic!("expected a copy"),
    }
    assert!(app.clipboard().is_some());
    app.update(Message::FileCutSelected);
    assert!(matches!(app.update(Message::FilePasteSelected).as_slice(), [Action::MoveFile { .. }, Action::ListDirectory(_)]));
    assert!(app.clipboard().is_none());
}

#[test]
fn delete_then_reload() {
    let (mut app, _) = IronKeyApp::new(PathBuf::from("/d"), false);
    app.update(Message::FilesLoaded(vec![file("a", FileKind::RegularFile)]));
    assert!(app.update(Message::FileDeleteSelected).is_empty());
    app.update(Message::FileSelected(0));
    assert!(matches!(app.update(Message::FileDeleteSelected).as_slice(), [Action::DeleteFile(_)]));
    assert!(app.update(Message::FileDeleteFinished(false)).is_empty());
    assert_eq!(app.selected_file(), Some(0));
    assert!(matches!(app.update(Message::FileDeleteFinished(true)).as_slice(), [Action::ListDirectory(_)]));
    assert_eq!(app.selected_file(), None);
}

#[test]
fn properties_dialog() {
    let (mut app, _) = IronKeyApp::new(PathBuf::from("/d"), false);
    app.update(Message::FilesLoaded(vec![file("a", FileKind::RegularFile)]));
    app.update(Message::FileSelected(0));
    app.update(Message::FilePropertiesSelected);
    match &app.modal {
        Some(Modal::Properties { entry }) => assert_eq!(entry.name, "a"),
        _ => panic!("expected properties"),
    }
}

#[test]
fn terminal_input_goes_to_shell_or_echo() {
    let (mut with_pty, _) = IronKeyApp::new(PathBuf::from("/"), true);
    with_pty.update(Message::TerminalInputChanged("ls -l".to_string()));
    match with_pty.update(Message::TerminalSubmit).as_slice() {
        [Action::WriteTerminal(s)] => assert_eq!(s, "ls -l\n"),
        _ => panic!("expected a write to the shell"),
    }
    assert_eq!(with_pty.terminal_input(), "");
    let (mut no_pty, _) = IronKeyApp::new(PathBuf::from("/"), false);
    no_pty.update(Message::TerminalInputChanged("ls".to_string()));
    match no_pty.update(Message::TerminalSubmit).as_slice() {
        [Action::EchoTerminal(s)] => assert_eq!(s, "$ ls\n"),
        _ => panic!("expected an echo"),
    }
    assert!(no_pty.update(Message::TerminalSubmit).is_empty());
    match no_pty.update(Message::TerminalOutput(vec![65, 10])).as_slice() {
        [Action::FeedTerminal(d)] => assert_eq!(d, &vec![65u8, 10]),
        _ => panic!("expected output to be shown"),
    }
}

#[test]
fn search_box() {
    let (mut app, _) = IronKeyApp::new(PathBuf::from("/srv"), false);
    app.update(Message::SearchToggle);
    assert!(app.search_open());
    assert_eq!(app.focused_pane(), PaneKind::Browser);
    app.update(Message::SearchQueryChanged("*.log".to_string()));
    assert_eq!(app.search_query(), "*.log");
    match app.update(Message::SearchSubmit).as_slice() {
        [Action::SearchFiles { root, opts }] => {
            assert_eq!(root, &PathBuf::from("/srv"));
            assert_eq!(opts.name_glob.as_deref(), Some("*.log"));
            assert_eq!(opts.max_depth, Some(3));
            assert!(opts.content_pattern.is_none());
        }
        _ => panic!("expected a search"),
    }
    app.update(Message::SearchToggle);
    assert!(!app.search_open());
    assert_eq!(app.search_query(), "");
}

#[test]
fn status_bar() {
    let mut app = app_with_drive();
    assert_eq!(app.status_text(), "No partition selected");
    assert!(!app.action_enabled(StatusAction::Format));
    app.update(Message::PartitionSelected("sda1".to_string()));
    assert_eq!(app.status_text(), "/dev/sda1  │  ext4  │  100.0 GB │ MOUNTED at /mnt");
    assert!(!app.action_enabled(StatusAction::Mount));
    assert!(app.action_enabled(StatusAction::Unmount));
    assert!(app.action_enabled(StatusAction::Wipe));
    app.update(Message::PartitionSelected("sda3".to_string()));
    assert_eq!(app.status_text(), "/dev/sda3  │  xfs  │  100.0 GB");
    assert!(app.action_enabled(StatusAction::Mount));
    assert!(!app.action_enabled(StatusAction::Unmount));
    app.update(Message::PartitionSelected("sdq1".to_string()));
    assert_eq!(app.status_text(), "/dev/sdq1");
}

#[test]
fn drive_rows() {
    let app = app_with_drive();
    let d = &app.drives()[0];
    assert_eq!(drive_label(d), "⚡ /dev/sda  [SSD]  Samsung  (500.0 GB)");
    assert_eq!(partition_line(&d.partitions[0]), "  🟢 ├─ /dev/sda1  ext4  100.0 GB  → /mnt");
    let mut p = partition("sdb1", PartitionStatus::Unformatted, None);
    p.label = Some("BOOT".to_string());
    assert_eq!(partition_line(&p), "  ⚪ ├─ /dev/sdb1 [BOOT]  ?  100.0 GB");
}

#[test]
fn keyboard_shortcuts() {
    assert!(matches!(key_message(&Key::Tab, false), Some(Message::FocusNext)));
    assert!(matches!(key_message(&Key::F5, true), Some(Message::Refresh)));
    assert!(matches!(key_message(&Key::F2, false), Some(Message::FileRenameStart)));
    assert!(matches!(key_message(&Key::Delete, false), Some(Message::FileDeleteSelected)));
    assert!(matches!(key_message(&Key::Escape, false), Some(Message::ModalCancel)));
    assert!(matches!(key_message(&Key::Character("2".to_string()), true), Some(Message::FocusPane(PaneKind::Browser))));
    assert!(matches!(key_message(&Key::Character("Q".to_string()), true), Some(Message::ShutdownRequested)));
    assert!(matches!(key_message(&Key::Character("v".to_string()), true), Some(Message::FilePasteSelected)));
    assert!(key_message(&Key::Character("v".to_string()), false).is_none());
    assert!(key_message(&Key::Character("z".to_string()), true).is_none());
    assert!(key_message(&Key::Other, true).is_none());
}

#[test]
fn shell_choice() {
    assert_eq!(shell_paths(), vec!["/usr/bin/zsh", "/bin/zsh", "/usr/bin/bash", "/bin/bash", "/bin/sh"]);
    assert_eq!(find_shell(&[false, false, true, true, true]), "/usr/bin/bash");
    assert_eq!(find_shell(&[true]), "/usr/bin/zsh");
    assert_eq!(find_shell(&[]), "/bin/sh");
    let env = shell_environment("0.1.0");
    assert_eq!(env[0], ("TERM".to_string(), "xterm-256color".to_string()));
    assert_eq!(env[2], ("IRONKEY_VERSION".to_string(), "0.1.0".to_string()));
    let o = PtyOptions::new("/bin/sh".to_string(), PathBuf::from("/"));
    assert_eq!((o.cols, o.rows), (120, 40));
}

#[test]
fn dialog_and_property_texts() {
    assert!(confirm_ready("CONFIRM"));
    assert!(!confirm_ready("CONFIRM "));
    assert!(!confirm_ready("confirm"));
    assert_eq!(partition_status_text(&PartitionStatus::Mounted("/mnt/a".to_string())), "Mounted at /mnt/a");
    assert_eq!(partition_status_text(&PartitionStatus::Error("io".to_string())), "Error: io");
    assert_eq!(partition_status_text(&PartitionStatus::Unformatted), "Unformatted");
    assert_eq!(kind_label(FileKind::Symlink), "Symbolic link");
    assert_eq!(kind_label(FileKind::RegularFile), "Regular file");
    let (mut app, _) = IronKeyApp::new(PathBuf::from("/"), false);
    assert!(app.toolbar_enabled(ToolbarAction::NewFolder));
    assert!(!app.toolbar_enabled(ToolbarAction::Copy));
    assert!(!app.toolbar_enabled(ToolbarAction::Paste));
    app.update(Message::FilesLoaded(vec![file("a", FileKind::RegularFile)]));
    app.update(Message::FileSelected(0));
    assert!(app.toolbar_enabled(ToolbarAction::Delete));
    app.update(Message::FileCopySelected);
    assert!(app.toolbar_enabled(ToolbarAction::Paste));
}
