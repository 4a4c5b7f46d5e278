//! The application's state machine: what each user or system event does to
//! the state of the panels, and which outside work (listing a directory,
//! mounting, formatting, talking to the shell, ...) it asks for.

use vstd::prelude::*;
use std::collections::HashSet;
use std::path::PathBuf;
use crate::detect::FsType;
use crate::drives::{DriveInfo, PartitionInfo, PartitionStatus, clone_opt, opt_view};
use crate::listing::{FileEntry, FileEntryModel, FileKind};
use crate::mount::{MountOptions, MountOptionsModel};
use crate::ops::{CloneProgress, FormatFsType, FormatOpts};
use crate::search::{SearchOpts, SearchOptsModel};
use crate::smart::SmartData;
use crate::viewer::ViewedContent;
use crate::devices::drive_name_from_partition;
use crate::text::{chars_of, str_eq, string_from_chars, trim};

verus! {

/// The three panels of the main window.
#[derive(Debug, Clone, Copy, PartialEq, Eq, Structural)]
pub enum PaneKind {
    Drives,
    Browser,
    Terminal,
}

/// Whether the file on the clipboard is copied or moved on paste.
#[derive(Debug, Clone, Copy, PartialEq, Eq, Structural)]
pub enum ClipboardOp {
    Copy,
    Cut,
}

/// The dialog shown over the main window.
#[derive(Debug)]
pub enum Modal {
    Format { device: String, confirm_text: String, fs_type: FormatFsType },
    Passphrase { device: String, passphrase: String },
    Confirm { title: String, message: String },
    Progress { operation: String, progress: CloneProgress },
    /// Partition info + SMART data
    Info { part: PartitionInfo, smart: Option<SmartData> },
    /// File content viewer
    FileViewer { path: PathBuf, content: ViewedContent },
    /// File properties
    Properties { entry: FileEntry },
    /// Shutdown confirmation
    Shutdown,
    /// Reboot confirmation
    Reboot,
    /// New partition table confirmation
    NewTable { device: String, confirm_text: String },
}

/// The value of a dialog: its texts by their characters.
pub enum ModalModel {
    Format { device: Seq<char>, confirm_text: Seq<char>, fs_type: FormatFsType },
    Passphrase { device: Seq<char>, passphrase: Seq<char> },
    Confirm { title: Seq<char>, message: Seq<char> },
    Progress { operation: Seq<char>, progress: CloneProgress },
    Info { part: PartitionInfo, smart: Option<SmartData> },
    FileViewer { path: PathBuf, content: ViewedContent },
    Properties { entry: FileEntryModel },
    Shutdown,
    Reboot,
    NewTable { device: Seq<char>, confirm_text: Seq<char> },
}

impl View for Modal {
    type V = ModalModel;

    open spec fn view(&self) -> ModalModel {
        match self {
            Modal::Format { device, confirm_text, fs_type } =>
                ModalModel::Format { device: device@, confirm_text: confirm_text@, fs_type: *fs_type },
            Modal::Passphrase { device, passphrase } =>
                ModalModel::Passphrase { device: device@, passphrase: passphrase@ },
            Modal::Confirm { title, message } => ModalModel::Confirm { title: title@, message: message@ },
            Modal::Progress { operation, progress } =>
                ModalModel::Progress { operation: operation@, progress: *progress },
            Modal::Info { part, smart } => ModalModel::Info { part: *part, smart: *smart },
            Modal::FileViewer { path, content } => ModalModel::FileViewer { path: *path, content: *content },
            Modal::Properties { entry } => ModalModel::Properties { entry: entry@ },
            Modal::Shutdown => ModalModel::Shutdown,
            Modal::Reboot => ModalModel::Reboot,
            Modal::NewTable { device, confirm_text } =>
                ModalModel::NewTable { device: device@, confirm_text: confirm_text@ },
        }
    }
}

/// An event delivered to the state machine: user input from the window or
/// the keyboard, a timer tick, or the result of outside work it asked for.
#[derive(Debug, Clone)]
pub enum Message {
    // Focus pane
    FocusPane(PaneKind),
    FocusNext,
    // System tick (2-second refresh)
    Tick,
    Refresh,
    // Drives panel
    DrivesLoaded(Vec<DriveInfo>),
    DriveToggled(usize),
    PartitionSelected(String),
    MountSelected,
    UnmountSelected,
    FormatSelected,
    CloneSelected,
    WipeSelected,
    InfoSelected,
    NewTableSelected,
    SmartLoaded(String, Option<SmartData>),
    // Modal
    ModalConfirmTextChanged(String),
    ModalPassphraseChanged(String),
    ModalFsTypeChanged(FormatFsType),
    ModalConfirm,
    ModalCancel,
    // Browser panel
    NavigateTo(PathBuf),
    FilesLoaded(Vec<FileEntry>),
    FileSelected(usize),
    FileActivated(usize),
    // File operations
    FileCopySelected,
    FileCutSelected,
    FilePasteSelected,
    FileDeleteSelected,
    /// Whether the deletion asked for by `FileDeleteSelected` succeeded
    FileDeleteFinished(bool),
    FileRenameStart,
    FileRenameInputChanged(String),
    FileRenameCommit,
    FileCancelInlineEdit,
    FileNewFolderStart,
    FileNewFolderInputChanged(String),
    FileNewFolderCommit,
    FilePropertiesSelected,
    ViewFile(PathBuf),
    FileViewerLoaded(PathBuf, ViewedContent),
    // Terminal panel
    TerminalInputChanged(String),
    TerminalSubmit,
    TerminalOutput(Vec<u8>),
    // Search
    SearchToggle,
    SearchQueryChanged(String),
    SearchSubmit,
    // System
    ShutdownRequested,
    RebootRequested,
}

/// The value of an event: texts by their characters, lists by their items.
pub enum MessageModel {
    FocusPane(PaneKind),
    FocusNext,
    Tick,
    Refresh,
    DrivesLoaded(Seq<DriveInfo>),
    DriveToggled(usize),
    PartitionSelected(Seq<char>),
    MountSelected,
    UnmountSelected,
    FormatSelected,
    CloneSelected,
    WipeSelected,
    InfoSelected,
    NewTableSelected,
    SmartLoaded(Seq<char>, Option<SmartData>),
    ModalConfirmTextChanged(Seq<char>),
    ModalPassphraseChanged(Seq<char>),
    ModalFsTypeChanged(FormatFsType),
    ModalConfirm,
    ModalCancel,
    NavigateTo(PathBuf),
    FilesLoaded(Seq<FileEntry>),
    FileSelected(usize),
    FileActivated(usize),
    FileCopySelected,
    FileCutSelected,
    FilePasteSelected,
    FileDeleteSelected,
    FileDeleteFinished(bool),
    FileRenameStart,
    FileRenameInputChanged(Seq<char>),
    FileRenameCommit,
    FileCancelInlineEdit,
    FileNewFolderStart,
    FileNewFolderInputChanged(Seq<char>),
    FileNewFolderCommit,
    FilePropertiesSelected,
    ViewFile(PathBuf),
    FileViewerLoaded(PathBuf, ViewedContent),
    TerminalInputChanged(Seq<char>),
    TerminalSubmit,
    TerminalOutput(Seq<u8>),
    SearchToggle,
    SearchQueryChanged(Seq<char>),
    SearchSubmit,
    ShutdownRequested,
    RebootRequested,
}

impl View for Message {
    type V = MessageModel;

    open spec fn view(&self) -> MessageModel {
        match self {
            Message::FocusPane(k) => MessageModel::FocusPane(*k),
            Message::FocusNext => MessageModel::FocusNext,
            Message::Tick => MessageModel::Tick,
            Message::Refresh => MessageModel::Refresh,
            Message::DrivesLoaded(d) => MessageModel::DrivesLoaded(d@),
            Message::DriveToggled(i) => MessageModel::DriveToggled(*i),
            Message::PartitionSelected(d) => MessageModel::PartitionSelected(d@),
            Message::MountSelected => MessageModel::MountSelected,
            Message::UnmountSelected => MessageModel::UnmountSelected,
            Message::FormatSelected => MessageModel::FormatSelected,
            Message::CloneSelected => MessageModel::CloneSelected,
            Message::WipeSelected => MessageModel::WipeSelected,
            Message::InfoSelected => MessageModel::InfoSelected,
            Message::NewTableSelected => MessageModel::NewTableSelected,
            Message::SmartLoaded(d, s) => MessageModel::SmartLoaded(d@, *s),
            Message::ModalConfirmTextChanged(s) => MessageModel::ModalConfirmTextChanged(s@),
            Message::ModalPassphraseChanged(s) => MessageModel::ModalPassphraseChanged(s@),
            Message::ModalFsTypeChanged(f) => MessageModel::ModalFsTypeChanged(*f),
            Message::ModalConfirm => MessageModel::ModalConfirm,
            Message::ModalCancel => MessageModel::ModalCancel,
            Message::NavigateTo(p) => MessageModel::NavigateTo(*p),
            Message::FilesLoaded(f) => MessageModel::FilesLoaded(f@),
            Message::FileSelected(i) => MessageModel::FileSelected(*i),
            Message::FileActivated(i) => MessageModel::FileActivated(*i),
            Message::FileCopySelected => MessageModel::FileCopySelected,
            Message::FileCutSelected => MessageModel::FileCutSelected,
            Message::FilePasteSelected => MessageModel::FilePasteSelected,
            Message::FileDeleteSelected => MessageModel::FileDeleteSelected,
            Message::FileDeleteFinished(ok) => MessageModel::FileDeleteFinished(*ok),
            Message::FileRenameStart => MessageModel::FileRenameStart,
            Message::FileRenameInputChanged(s) => MessageModel::FileRenameInputChanged(s@),
            Message::FileRenameCommit => MessageModel::FileRenameCommit,
            Message::FileCancelInlineEdit => MessageModel::FileCancelInlineEdit,
            Message::FileNewFolderStart => MessageModel::FileNewFolderStart,
            Message::FileNewFolderInputChanged(s) => MessageModel::FileNewFolderInputChanged(s@),
            Message::FileNewFolderCommit => MessageModel::FileNewFolderCommit,
            Message::FilePropertiesSelected => MessageModel::FilePropertiesSelected,
            Message::ViewFile(p) => MessageModel::ViewFile(*p),
            Message::FileViewerLoaded(p, c) => MessageModel::FileViewerLoaded(*p, *c),
            Message::TerminalInputChanged(s) => MessageModel::TerminalInputChanged(s@),
            Message::TerminalSubmit => MessageModel::TerminalSubmit,
            Message::TerminalOutput(d) => MessageModel::TerminalOutput(d@),
            Message::SearchToggle => MessageModel::SearchToggle,
            Message::SearchQueryChanged(q) => MessageModel::SearchQueryChanged(q@),
            Message::SearchSubmit => MessageModel::SearchSubmit,
            Message::ShutdownRequested => MessageModel::ShutdownRequested,
            Message::RebootRequested => MessageModel::RebootRequested,
        }
    }
}

/// Outside work the state machine asks the application to do. Results that
/// matter to the state come back as a `Message`.
#[derive(Debug)]
pub enum Action {
    /// Enumerate the block devices; answer with `DrivesLoaded`
    LoadDrives,
    /// List a directory; answer with `FilesLoaded`
    ListDirectory(PathBuf),
    /// Refresh the CPU, memory and disk I/O figures of the header
    SampleSystem,
    /// Read what the shell has written; answer with `TerminalOutput`
    PollTerminal,
    /// Mount a device
    Mount { device_path: String, fs_type: FsType, options: MountOptions },
    /// Unmount the filesystem at a mount point
    Unmount(String),
    /// Read the SMART data of a drive; answer with `SmartLoaded(device, ..)`
    ReadSmart { device: String, drive_path: String },
    /// Format a partition
    FormatPartition { device_path: String, opts: FormatOpts },
    /// Write a new GPT partition table to a drive
    CreatePartitionTable(String),
    /// Power the machine off
    PowerOff,
    /// Reboot the machine
    Reboot,
    /// Copy a file into a directory
    CopyFile { src: PathBuf, dest_dir: PathBuf },
    /// Move a file into a directory
    MoveFile { src: PathBuf, dest_dir: PathBuf },
    /// Delete a file; answer with `FileDeleteFinished`
    DeleteFile(PathBuf),
    /// Rename a file within its directory
    RenameFile { path: PathBuf, new_name: String },
    /// Create a directory
    CreateDirectory { parent: PathBuf, name: String },
    /// Read a file for the viewer; answer with `FileViewerLoaded`
    ViewFile(PathBuf),
    /// Search below a directory; answer with `FilesLoaded`
    SearchFiles { root: PathBuf, opts: SearchOpts },
    /// Send text to the shell
    WriteTerminal(String),
    /// Show text in the terminal panel
    EchoTerminal(String),
    /// Show shell output in the terminal panel
    FeedTerminal(Vec<u8>),
}

/// The value of an action: texts by their characters.
pub enum ActionModel {
    LoadDrives,
    ListDirectory(PathBuf),
    SampleSystem,
    PollTerminal,
    Mount { device_path: Seq<char>, fs_type: FsType, options: MountOptionsModel },
    Unmount(Seq<char>),
    ReadSmart { device: Seq<char>, drive_path: Seq<char> },
    FormatPartition { device_path: Seq<char>, opts: FormatOpts },
    CreatePartitionTable(Seq<char>),
    PowerOff,
    Reboot,
    CopyFile { src: PathBuf, dest_dir: PathBuf },
    MoveFile { src: PathBuf, dest_dir: PathBuf },
    DeleteFile(PathBuf),
    RenameFile { path: PathBuf, new_name: Seq<char> },
    CreateDirectory { parent: PathBuf, name: Seq<char> },
    ViewFile(PathBuf),
    SearchFiles { root: PathBuf, opts: SearchOptsModel },
    WriteTerminal(Seq<char>),
    EchoTerminal(Seq<char>),
    FeedTerminal(Seq<u8>),
}

impl View for Action {
    type V = ActionModel;

    open spec fn view(&self) -> ActionModel {
        match self {
            Action::LoadDrives => ActionModel::LoadDrives,
            Action::ListDirectory(p) => ActionModel::ListDirectory(*p),
            Action::SampleSystem => ActionModel::SampleSystem,
            Action::PollTerminal => ActionModel::PollTerminal,
            Action::Mount { device_path, fs_type, options } =>
                ActionModel::Mount { device_path: device_path@, fs_type: *fs_type, options: options@ },
            Action::Unmount(m) => ActionModel::Unmount(m@),
            Action::ReadSmart { device, drive_path } =>
                ActionModel::ReadSmart { device: device@, drive_path: drive_path@ },
            Action::FormatPartition { device_path, opts } =>
                ActionModel::FormatPartition { device_path: device_path@, opts: *opts },
            Action::CreatePartitionTable(d) => ActionModel::CreatePartitionTable(d@),
            Action::PowerOff => ActionModel::PowerOff,
            Action::Reboot => ActionModel::Reboot,
            Action::CopyFile { src, dest_dir } => ActionModel::CopyFile { src: *src, dest_dir: *dest_dir },
            Action::MoveFile { src, dest_dir } => ActionModel::MoveFile { src: *src, dest_dir: *dest_dir },
            Action::DeleteFile(p) => ActionModel::DeleteFile(*p),
            Action::RenameFile { path, new_name } =>
                ActionModel::RenameFile { path: *path, new_name: new_name@ },
            Action::CreateDirectory { parent, name } =>
                ActionModel::CreateDirectory { parent: *parent, name: name@ },
            Action::ViewFile(p) => ActionModel::ViewFile(*p),
            Action::SearchFiles { root, opts } => ActionModel::SearchFiles { root: *root, opts: opts@ },
            Action::WriteTerminal(s) => ActionModel::WriteTerminal(s@),
            Action::EchoTerminal(s) => ActionModel::EchoTerminal(s@),
            Action::FeedTerminal(d) => ActionModel::FeedTerminal(d@),
        }
    }
}

/// The actions of a list, by value.
pub open spec fn actions_view(v: Seq<Action>) -> Seq<ActionModel> {
    v.map_values(|a: Action| a@)
}

/// The decision state of the application: focus, selections, inline edits,
/// clipboard and the open dialog. (The window layout, the system figures and
/// the terminal screen live beside it in the application.)
pub struct IronKeyApp {
    pub focused_pane: PaneKind,
    // Drives panel
    pub drives: Vec<DriveInfo>,
    pub expanded_drives: HashSet<usize>,
    pub selected_partition: Option<String>,
    // Browser panel
    pub current_path: PathBuf,
    pub files: Vec<FileEntry>,
    pub selected_file: Option<usize>,
    pub search_open: bool,
    pub search_query: String,
    // File operations
    pub clipboard: Option<(PathBuf, ClipboardOp)>,
    pub rename_index: Option<usize>,
    pub rename_input: String,
    pub new_folder_active: bool,
    pub new_folder_input: String,
    // Terminal panel
    pub terminal_input: String,
    /// Whether a shell session is running behind the terminal panel
    pub pty_available: bool,
    // Modal overlay
    pub modal: Option<Modal>,
}

/// The value of the state: texts by their characters, the expanded drives
/// as a set.
pub struct AppModel {
    pub focused_pane: PaneKind,
    pub drives: Seq<DriveInfo>,
    pub expanded_drives: Set<usize>,
    pub selected_partition: Option<Seq<char>>,
    pub current_path: PathBuf,
    pub files: Seq<FileEntry>,
    pub selected_file: Option<usize>,
    pub search_open: bool,
    pub search_query: Seq<char>,
    pub clipboard: Option<(PathBuf, ClipboardOp)>,
    pub rename_index: Option<usize>,
    pub rename_input: Seq<char>,
    pub new_folder_active: bool,
    pub new_folder_input: Seq<char>,
    pub terminal_input: Seq<char>,
    pub pty_available: bool,
    pub modal: Option<ModalModel>,
}

impl View for IronKeyApp {
    type V = AppModel;

    open spec fn view(&self) -> AppModel {
        AppModel {
            focused_pane: self.focused_pane,
            drives: self.drives@,
            expanded_drives: self.expanded_drives@,
            selected_partition: opt_view(self.selected_partition),
            current_path: self.current_path,
            files: self.files@,
            selected_file: self.selected_file,
            search_open: self.search_open,
            search_query: self.search_query@,
            clipboard: self.clipboard,
            rename_index: self.rename_index,
            rename_input: self.rename_input@,
            new_folder_active: self.new_folder_active,
            new_folder_input: self.new_folder_input@,
            terminal_input: self.terminal_input@,
            pty_available: self.pty_available,
            modal: match self.modal {
                Some(m) => Some(m@),
                None => None,
            },
        }
    }
}

/// The first partition named `dev` among `parts`.
pub open spec fn find_in_partitions(parts: Seq<PartitionInfo>, dev: Seq<char>) -> Option<PartitionInfo>
    decreases parts.len(),
{
    if parts.len() == 0 {
        None
    } else if parts[0].device@ == dev {
        Some(parts[0])
    } else {
        find_in_partitions(parts.drop_first(), dev)
    }
}

/// The first partition named `dev` on any of `drives`, drives in order.
pub open spec fn find_in_drives(drives: Seq<DriveInfo>, dev: Seq<char>) -> Option<PartitionInfo>
    decreases drives.len(),
{
    if drives.len() == 0 {
        None
    } else {
        match find_in_partitions(drives[0].partitions@, dev) {
            Some(p) => Some(p),
            None => find_in_drives(drives.drop_first(), dev),
        }
    }
}

/// The pane that follows `k` when focus moves on.
pub open spec fn next_pane(k: PaneKind) -> PaneKind {
    match k {
        PaneKind::Drives => PaneKind::Browser,
        PaneKind::Browser => PaneKind::Terminal,
        PaneKind::Terminal => PaneKind::Drives,
    }
}

/// The state with no inline edit (rename or new folder) in progress.
pub open spec fn without_inline_edits(s: AppModel) -> AppModel {
    AppModel {
        rename_index: None,
        rename_input: Seq::empty(),
        new_folder_active: false,
        new_folder_input: Seq::empty(),
        ..s
    }
}

/// The path of a device node: `/dev/<name>`.
pub open spec fn dev_path(name: Seq<char>) -> Seq<char> {
    "/dev/"@ + name
}

/// Mount options with every field at its default.
pub open spec fn default_mount_options() -> MountOptionsModel {
    MountOptionsModel { read_only: false, mount_point: None, passphrase: None, recovery_key_path: None }
}

/// The word a destructive dialog asks to be typed before it goes ahead.
pub open spec fn confirm_word() -> Seq<char> {
    "CONFIRM"@
}

/// The advice shown when cloning is asked for.
pub open spec fn clone_advice() -> Seq<char> {
    "Select a destination partition or image file in the terminal, then use: dd if=/dev/SOURCE of=/dev/DEST bs=4M status=progress"@
}

/// The warning shown before wiping partition `dev`.
pub open spec fn wipe_warning(dev: Seq<char>) -> Seq<char> {
    "Securely wipe /dev/"@ + dev + "? This is IRREVERSIBLE.\nAll data will be permanently destroyed."@
}

/// The state with `m` as its dialog.
pub open spec fn with_modal(s: AppModel, m: ModalModel) -> AppModel {
    AppModel { modal: Some(m), ..s }
}

/// Mounting the selected partition: an encrypted one asks for its
/// passphrase first; any other is mounted with its type detected.
pub open spec fn step_mount(s: AppModel) -> (AppModel, Seq<ActionModel>) {
    match s.selected_partition {
        None => (s, seq![]),
        Some(dev) => if find_in_drives(s.drives, dev) matches Some(p) && p.status is Encrypted {
            (with_modal(s, ModalModel::Passphrase { device: dev, passphrase: Seq::empty() }), seq![])
        } else {
            (s, seq![ActionModel::Mount {
                device_path: dev_path(dev),
                fs_type: FsType::Auto,
                options: default_mount_options(),
            }])
        },
    }
}

/// Unmounting the selected partition, when it is mounted.
pub open spec fn step_unmount(s: AppModel) -> (AppModel, Seq<ActionModel>) {
    match s.selected_partition {
        None => (s, seq![]),
        Some(dev) => match find_in_drives(s.drives, dev) {
            Some(p) => match p.status {
                PartitionStatus::Mounted(mp) => (s, seq![ActionModel::Unmount(mp@)]),
                _ => (s, seq![]),
            },
            None => (s, seq![]),
        },
    }
}

/// Opening the partition info dialog and asking for the SMART data of the
/// partition's drive.
pub open spec fn step_info(s: AppModel) -> (AppModel, Seq<ActionModel>) {
    match s.selected_partition {
        None => (s, seq![]),
        Some(dev) => match find_in_drives(s.drives, dev) {
            Some(p) => (
                with_modal(s, ModalModel::Info { part: p, smart: None }),
                seq![ActionModel::ReadSmart {
                    device: dev,
                    drive_path: dev_path(crate::devices::parent_drive_name(dev)),
                }],
            ),
            None => (s, seq![]),
        },
    }
}

/// What confirming the open dialog asks for; the dialog closes whatever
/// it was.
pub open spec fn confirm_actions(m: ModalModel) -> Seq<ActionModel> {
    match m {
        ModalModel::Format { device, confirm_text, fs_type } => if confirm_text == confirm_word() {
            seq![ActionModel::FormatPartition {
                device_path: dev_path(device),
                opts: FormatOpts { fs_type, label: None },
            }]
        } else {
            seq![]
        },
        ModalModel::NewTable { device, confirm_text } => if confirm_text == confirm_word() {
            seq![ActionModel::CreatePartitionTable(dev_path(device))]
        } else {
            seq![]
        },
        ModalModel::Passphrase { device, passphrase } => seq![ActionModel::Mount {
            device_path: dev_path(device),
            fs_type: FsType::Luks,
            options: MountOptionsModel { passphrase: Some(passphrase), ..default_mount_options() },
        }],
        ModalModel::Shutdown => seq![ActionModel::PowerOff],
        ModalModel::Reboot => seq![ActionModel::Reboot],
        _ => seq![],
    }
}

/// Typing into the open dialog's confirmation field.
pub open spec fn modal_with_confirm_text(m: ModalModel, t: Seq<char>) -> ModalModel {
    match m {
        ModalModel::Format { device, fs_type, .. } => ModalModel::Format { device, confirm_text: t, fs_type },
        ModalModel::NewTable { device, .. } => ModalModel::NewTable { device, confirm_text: t },
        _ => m,
    }
}

/// Typing into the open dialog's passphrase field.
pub open spec fn modal_with_passphrase(m: ModalModel, t: Seq<char>) -> ModalModel {
    match m {
        ModalModel::Passphrase { device, .. } => ModalModel::Passphrase { device, passphrase: t },
        _ => m,
    }
}

/// Choosing the filesystem of the open format dialog.
pub open spec fn modal_with_fs_type(m: ModalModel, f: FormatFsType) -> ModalModel {
    match m {
        ModalModel::Format { device, confirm_text, .. } => ModalModel::Format { device, confirm_text, fs_type: f },
        _ => m,
    }
}

/// SMART data arriving for the open info dialog.
pub open spec fn modal_with_smart(m: ModalModel, smart: Option<SmartData>) -> ModalModel {
    match m {
        ModalModel::Info { part, .. } => ModalModel::Info { part, smart },
        _ => m,
    }
}

/// The open dialog changed by `f`, if one is open.
pub open spec fn map_modal(s: AppModel, f: spec_fn(ModalModel) -> ModalModel) -> AppModel {
    match s.modal {
        Some(m) => AppModel { modal: Some(f(m)), ..s },
        None => s,
    }
}

/// Going to directory `p`: inline edits are dropped and the directory is
/// listed.
pub open spec fn step_navigate(s: AppModel, p: PathBuf) -> (AppModel, Seq<ActionModel>) {
    (AppModel { current_path: p, ..without_inline_edits(s) }, seq![ActionModel::ListDirectory(p)])
}

/// The selected file, when the selection is within the listing.
pub open spec fn selected_entry(s: AppModel) -> Option<FileEntry> {
    match s.selected_file {
        Some(i) => if i < s.files.len() { Some(s.files[i as int]) } else { None },
        None => None,
    }
}

/// Putting the selected file on the clipboard.
pub open spec fn step_clip(s: AppModel, op: ClipboardOp) -> (AppModel, Seq<ActionModel>) {
    match selected_entry(s) {
        Some(e) => (AppModel { clipboard: Some((e.path, op)), ..s }, seq![]),
        None => (s, seq![]),
    }
}

/// Pasting the clipboard into the current directory; a cut file leaves
/// the clipboard.
pub open spec fn step_paste(s: AppModel) -> (AppModel, Seq<ActionModel>) {
    match s.clipboard {
        None => (s, seq![]),
        Some((src, ClipboardOp::Copy)) => (s, seq![
            ActionModel::CopyFile { src, dest_dir: s.current_path },
            ActionModel::ListDirectory(s.current_path),
        ]),
        Some((src, ClipboardOp::Cut)) => (AppModel { clipboard: None, ..s }, seq![
            ActionModel::MoveFile { src, dest_dir: s.current_path },
            ActionModel::ListDirectory(s.current_path),
        ]),
    }
}

/// Committing a rename: the trimmed new name, when not empty, renames the
/// file being edited; the edit ends and the directory is listed again.
pub open spec fn step_rename_commit(s: AppModel) -> (AppModel, Seq<ActionModel>) {
    match s.rename_index {
        None => (s, seq![]),
        Some(i) => {
            let name = crate::text::trim_ws(s.rename_input);
            let rename = if name.len() > 0 && i < s.files.len() {
                seq![ActionModel::RenameFile { path: s.files[i as int].path, new_name: name }]
            } else {
                seq![]
            };
            (
                AppModel { rename_index: None, rename_input: Seq::empty(), ..s },
                rename.push(ActionModel::ListDirectory(s.current_path)),
            )
        },
    }
}

/// Committing a new folder: the trimmed name, when not empty, is created in
/// the current directory; the edit ends and the directory is listed again.
pub open spec fn step_new_folder_commit(s: AppModel) -> (AppModel, Seq<ActionModel>) {
    let name = crate::text::trim_ws(s.new_folder_input);
    let create = if name.len() > 0 {
        seq![ActionModel::CreateDirectory { parent: s.current_path, name }]
    } else {
        seq![]
    };
    (
        AppModel { new_folder_active: false, new_folder_input: Seq::empty(), ..s },
        create.push(ActionModel::ListDirectory(s.current_path)),
    )
}

/// Submitting the terminal input line: it goes to the shell when one runs,
/// else it is echoed with a prompt; an empty line does nothing. The input
/// field is cleared either way.
pub open spec fn step_terminal_submit(s: AppModel) -> (AppModel, Seq<ActionModel>) {
    let input = s.terminal_input;
    let cleared = AppModel { terminal_input: Seq::empty(), ..s };
    if input.len() == 0 {
        (cleared, seq![])
    } else if s.pty_available {
        (cleared, seq![ActionModel::WriteTerminal(input + "\n"@)])
    } else {
        (cleared, seq![ActionModel::EchoTerminal("$ "@ + input + "\n"@)])
    }
}

/// The options of the name search started from the search box.
pub open spec fn name_search_opts(query: Seq<char>) -> SearchOptsModel {
    SearchOptsModel {
        name_glob: Some(query),
        content_pattern: None,
        max_depth: Some(3),
        min_size: None,
        max_size: None,
        follow_symlinks: false,
    }
}

/// What one event does: the next state and the outside work asked for, in
/// order.
pub open spec fn step(s: AppModel, m: MessageModel) -> (AppModel, Seq<ActionModel>) {
    match m {
        MessageModel::FocusPane(k) => (AppModel { focused_pane: k, ..s }, seq![]),
        MessageModel::FocusNext => (AppModel { focused_pane: next_pane(s.focused_pane), ..s }, seq![]),
        MessageModel::Tick => (s, seq![ActionModel::SampleSystem, ActionModel::PollTerminal, ActionModel::LoadDrives]),
        MessageModel::Refresh => (s, seq![ActionModel::LoadDrives, ActionModel::ListDirectory(s.current_path)]),
        MessageModel::DrivesLoaded(d) => (AppModel { drives: d, ..s }, seq![]),
        MessageModel::DriveToggled(i) => (
            AppModel {
                expanded_drives: if s.expanded_drives.contains(i) {
                    s.expanded_drives.remove(i)
                } else {
                    s.expanded_drives.insert(i)
                },
                ..s
            },
            seq![],
        ),
        MessageModel::PartitionSelected(d) =>
            (AppModel { selected_partition: Some(d), focused_pane: PaneKind::Drives, ..s }, seq![]),
        MessageModel::MountSelected => step_mount(s),
        MessageModel::UnmountSelected => step_unmount(s),
        MessageModel::FormatSelected => match s.selected_partition {
            Some(dev) => (
                with_modal(s, ModalModel::Format { device: dev, confirm_text: Seq::empty(), fs_type: FormatFsType::Ext4 }),
                seq![],
            ),
            None => (s, seq![]),
        },
        MessageModel::CloneSelected =>
            (with_modal(s, ModalModel::Confirm { title: "Clone Partition"@, message: clone_advice() }), seq![]),
        MessageModel::WipeSelected => match s.selected_partition {
            Some(dev) => (with_modal(s, ModalModel::Confirm { title: "\u{26a0} Wipe Partition"@, message: wipe_warning(dev) }), seq![]),
            None => (s, seq![]),
        },
        MessageModel::InfoSelected => step_info(s),
        MessageModel::NewTableSelected => match s.selected_partition {
            Some(dev) => (
                with_modal(s, ModalModel::NewTable {
                    device: crate::devices::parent_drive_name(dev),
                    confirm_text: Seq::empty(),
                }),
                seq![],
            ),
            None => (s, seq![]),
        },
        MessageModel::SmartLoaded(_, smart) => (map_modal(s, |m: ModalModel| modal_with_smart(m, smart)), seq![]),
        MessageModel::ModalConfirmTextChanged(t) =>
            (map_modal(s, |m: ModalModel| modal_with_confirm_text(m, t)), seq![]),
        MessageModel::ModalPassphraseChanged(t) => (map_modal(s, |m: ModalModel| modal_with_passphrase(m, t)), seq![]),
        MessageModel::ModalFsTypeChanged(f) => (map_modal(s, |m: ModalModel| modal_with_fs_type(m, f)), seq![]),
        MessageModel::ModalConfirm => match s.modal {
            Some(m) => (AppModel { modal: None, ..s }, confirm_actions(m)),
            None => (s, seq![]),
        },
        MessageModel::ModalCancel => (AppModel { modal: None, ..s }, seq![]),
        MessageModel::NavigateTo(p) => step_navigate(s, p),
        MessageModel::FilesLoaded(f) => (AppModel { files: f, selected_file: None, ..s }, seq![]),
        MessageModel::FileSelected(i) => (
            AppModel { selected_file: Some(i), focused_pane: PaneKind::Browser, ..without_inline_edits(s) },
            seq![],
        ),
        MessageModel::FileActivated(i) => if i < s.files.len() {
            let e = s.files[i as int];
            if e.kind == FileKind::Directory {
                step_navigate(s, e.path)
            } else {
                (s, seq![ActionModel::ViewFile(e.path)])
            }
        } else {
            (s, seq![])
        },
        MessageModel::FileCopySelected => step_clip(s, ClipboardOp::Copy),
        MessageModel::FileCutSelected => step_clip(s, ClipboardOp::Cut),
        MessageModel::FilePasteSelected => step_paste(s),
        MessageModel::FileDeleteSelected => match selected_entry(s) {
            Some(e) => (s, seq![ActionModel::DeleteFile(e.path)]),
            None => (s, seq![]),
        },
        MessageModel::FileDeleteFinished(ok) => if ok {
            (AppModel { selected_file: None, ..s }, seq![ActionModel::ListDirectory(s.current_path)])
        } else {
            (s, seq![])
        },
        MessageModel::FileRenameStart => match s.selected_file {
            Some(i) => if i < s.files.len() {
                (AppModel { rename_index: Some(i), rename_input: s.files[i as int].name@, ..s }, seq![])
            } else {
                (s, seq![])
            },
            None => (s, seq![]),
        },
        MessageModel::FileRenameInputChanged(t) => (AppModel { rename_input: t, ..s }, seq![]),
        MessageModel::FileRenameCommit => step_rename_commit(s),
        MessageModel::FileCancelInlineEdit => (without_inline_edits(s), seq![]),
        MessageModel::FileNewFolderStart =>
            (AppModel { new_folder_active: true, new_folder_input: "New Folder"@, ..s }, seq![]),
        MessageModel::FileNewFolderInputChanged(t) => (AppModel { new_folder_input: t, ..s }, seq![]),
        MessageModel::FileNewFolderCommit => step_new_folder_commit(s),
        MessageModel::FilePropertiesSelected => match selected_entry(s) {
            Some(e) => (with_modal(s, ModalModel::Properties { entry: e@ }), seq![]),
            None => (s, seq![]),
        },
        MessageModel::ViewFile(p) => (s, seq![ActionModel::ViewFile(p)]),
        MessageModel::FileViewerLoaded(p, c) => (with_modal(s, ModalModel::FileViewer { path: p, content: c }), seq![]),
        MessageModel::TerminalInputChanged(t) => (AppModel { terminal_input: t, ..s }, seq![]),
        MessageModel::TerminalSubmit => step_terminal_submit(s),
        MessageModel::TerminalOutput(d) => (s, seq![ActionModel::FeedTerminal(d)]),
        MessageModel::SearchToggle => (
            AppModel { search_open: !s.search_open, search_query: Seq::empty(), focused_pane: PaneKind::Browser, ..s },
            seq![],
        ),
        MessageModel::SearchQueryChanged(q) => (AppModel { search_query: q, ..s }, seq![]),
        MessageModel::SearchSubmit =>
            (s, seq![ActionModel::SearchFiles { root: s.current_path, opts: name_search_opts(s.search_query) }]),
        MessageModel::ShutdownRequested => (with_modal(s, ModalModel::Shutdown), seq![]),
        MessageModel::RebootRequested => (with_modal(s, ModalModel::Reboot), seq![]),
    }
}

fn no_actions() -> (r: Vec<Action>)
    ensures
        actions_view(r@) == Seq::<ActionModel>::empty(),
{
    let r: Vec<Action> = Vec::new();
    assert(actions_view(r@) =~= Seq::<ActionModel>::empty());
    r
}

fn one_action(a: Action) -> (r: Vec<Action>)
    ensures
        actions_view(r@) == seq![a@],
{
    let mut r: Vec<Action> = Vec::new();
    r.push(a);
    assert(actions_view(r@) =~= seq![a@]);
    r
}

fn two_actions(a: Action, b: Action) -> (r: Vec<Action>)
    ensures
        actions_view(r@) == seq![a@, b@],
{
    let mut r: Vec<Action> = Vec::new();
    r.push(a);
    r.push(b);
    assert(actions_view(r@) =~= seq![a@, b@]);
    r
}

fn push_action(v: &mut Vec<Action>, a: Action)
    ensures
        actions_view(final(v)@) == actions_view(old(v)@).push(a@),
{
    v.push(a);
    assert(actions_view(v@) =~= actions_view(old(v)@).push(a@));
}

fn dev_path_exec(name: &str) -> (r: String)
    ensures
        r@ == dev_path(name@),
{
    let mut p = String::from_str("/dev/");
    p.append(name);
    p
}

impl IronKeyApp {
    /// The starting state: focus on the drives panel, browsing `start_dir`,
    /// nothing selected, no dialog; asks for the first drive scan.
    pub fn new(start_dir: PathBuf, pty_available: bool) -> (r: (IronKeyApp, Vec<Action>))
        ensures
            r.0@ == (AppModel {
                focused_pane: PaneKind::Drives,
                drives: Seq::empty(),
                expanded_drives: Set::empty(),
                selected_partition: None,
                current_path: start_dir,
                files: Seq::empty(),
                selected_file: None,
                search_open: false,
                search_query: Seq::empty(),
                clipboard: None,
                rename_index: None,
                rename_input: Seq::empty(),
                new_folder_active: false,
                new_folder_input: Seq::empty(),
                terminal_input: Seq::empty(),
                pty_available,
                modal: None,
            }),
            actions_view(r.1@) == seq![ActionModel::LoadDrives],
    {
        let app = IronKeyApp {
            focused_pane: PaneKind::Drives,
            drives: Vec::new(),
            expanded_drives: HashSet::new(),
            selected_partition: None,
            current_path: start_dir,
            files: Vec::new(),
            selected_file: None,
            search_open: false,
            search_query: String::new(),
            clipboard: None,
            rename_index: None,
            rename_input: String::new(),
            new_folder_active: false,
            new_folder_input: String::new(),
            terminal_input: String::new(),
            pty_available,
            modal: None,
        };
        (app, one_action(Action::LoadDrives))
    }

    /// Look up a partition by its short device name (e.g. "sda1").
    pub fn find_partition(&self, dev_name: &str) -> (r: Option<&PartitionInfo>)
        ensures
            match r {
                Some(p) => find_in_drives(self.drives@, dev_name@) == Some(*p),
                None => find_in_drives(self.drives@, dev_name@) is None,
            },
    {
        let mut i: usize = 0;
        assert(self.drives@.skip(0) =~= self.drives@);
        while i < self.drives.len()
            invariant
                i <= self.drives@.len(),
                find_in_drives(self.drives@, dev_name@) == find_in_drives(self.drives@.skip(i as int), dev_name@),
            decreases self.drives@.len() - i,
        {
            let parts = &self.drives[i].partitions;
            let mut j: usize = 0;
            assert(parts@.skip(0) =~= parts@);
            while j < parts.len()
                invariant
                    i < self.drives@.len(),
                    *parts == self.drives@[i as int].partitions,
                    find_in_drives(self.drives@, dev_name@) == find_in_drives(self.drives@.skip(i as int), dev_name@),
                    j <= parts@.len(),
                    find_in_partitions(parts@, dev_name@) == find_in_partitions(parts@.skip(j as int), dev_name@),
                decreases parts@.len() - j,
            {
                assert(parts@.skip(j as int)[0] == parts@[j as int]);
                assert(parts@.skip(j as int).drop_first() =~= parts@.skip(j + 1));
                if str_eq(parts[j].device.as_str(), dev_name) {
                    assert(self.drives@.skip(i as int)[0] == self.drives@[i as int]);
                    return Some(&parts[j]);
                }
                j += 1;
            }
            assert(parts@.skip(j as int) =~= Seq::<PartitionInfo>::empty());
            assert(self.drives@.skip(i as int)[0] == self.drives@[i as int]);
            assert(self.drives@.skip(i as int).drop_first() =~= self.drives@.skip(i + 1));
            i += 1;
        }
        assert(self.drives@.skip(i as int) =~= Seq::<DriveInfo>::empty());
        None
    }

    /// Cancel any active inline edit (rename / new folder).
    fn cancel_inline_edits(&mut self)
        ensures
            final(self)@ == without_inline_edits(old(self)@),
    {
        self.rename_index = None;
        self.rename_input = String::new();
        self.new_folder_active = false;
        self.new_folder_input = String::new();
    }
}

impl IronKeyApp {
    fn mount_selected(&mut self) -> (r: Vec<Action>)
        ensures
            (final(self)@, actions_view(r@)) == step_mount(old(self)@),
    {
        let dev = match &self.selected_partition {
            Some(d) => d.clone(),
            None => return no_actions(),
        };
        let encrypted = match self.find_partition(dev.as_str()) {
            Some(p) => match p.status {
                PartitionStatus::Encrypted => true,
                _ => false,
            },
            None => false,
        };
        if encrypted {
            self.modal = Some(Modal::Passphrase { device: dev, passphrase: String::new() });
            no_actions()
        } else {
            one_action(Action::Mount {
                device_path: dev_path_exec(dev.as_str()),
                fs_type: FsType::Auto,
                options: MountOptions::default(),
            })
        }
    }

    fn unmount_selected(&self) -> (r: Vec<Action>)
        ensures
            (self@, actions_view(r@)) == step_unmount(self@),
    {
        match &self.selected_partition {
            None => no_actions(),
            Some(dev) => match self.find_partition(dev.as_str()) {
                Some(p) => match &p.status {
                    PartitionStatus::Mounted(mp) => one_action(Action::Unmount(mp.clone())),
                    _ => no_actions(),
                },
                None => no_actions(),
            },
        }
    }

    fn info_selected(&mut self) -> (r: Vec<Action>)
        ensures
            (final(self)@, actions_view(r@)) == step_info(old(self)@),
    {
        let dev = match &self.selected_partition {
            Some(d) => d.clone(),
            None => return no_actions(),
        };
        let part = match self.find_partition(dev.as_str()) {
            Some(p) => p.clone(),
            None => return no_actions(),
        };
        let drive_name = drive_name_from_partition(dev.as_str());
        let drive_path = dev_path_exec(drive_name.as_str());
        self.modal = Some(Modal::Info { part, smart: None });
        one_action(Action::ReadSmart { device: dev, drive_path })
    }

    fn modal_confirm(&mut self) -> (r: Vec<Action>)
        ensures
            (final(self)@, actions_view(r@)) == step(old(self)@, MessageModel::ModalConfirm),
    {
        let modal = match self.modal.take() {
            Some(m) => m,
            None => return no_actions(),
        };
        match modal {
            Modal::Format { device, confirm_text, fs_type } => {
                if str_eq(confirm_text.as_str(), "CONFIRM") {
                    one_action(Action::FormatPartition {
                        device_path: dev_path_exec(device.as_str()),
                        opts: FormatOpts { fs_type, label: None },
                    })
                } else {
                    no_actions()
                }
            },
            Modal::NewTable { device, confirm_text } => {
                if str_eq(confirm_text.as_str(), "CONFIRM") {
                    one_action(Action::CreatePartitionTable(dev_path_exec(device.as_str())))
                } else {
                    no_actions()
                }
            },
            Modal::Passphrase { device, passphrase } => {
                one_action(Action::Mount {
                    device_path: dev_path_exec(device.as_str()),
                    fs_type: FsType::Luks,
                    options: MountOptions {
                        read_only: false,
                        mount_point: None,
                        passphrase: Some(passphrase),
                        recovery_key_path: None,
                    },
                })
            },
            Modal::Shutdown => one_action(Action::PowerOff),
            Modal::Reboot => one_action(Action::Reboot),
            _ => no_actions(),
        }
    }

    fn toggle_drive(&mut self, idx: usize)
        ensures
            final(self)@ == step(old(self)@, MessageModel::DriveToggled(idx)).0,
    {
        broadcast use vstd::std_specs::hash::group_hash_axioms;
        if self.expanded_drives.contains(&idx) {
            self.expanded_drives.remove(&idx);
        } else {
            self.expanded_drives.insert(idx);
        }
    }

    fn navigate_to(&mut self, path: PathBuf) -> (r: Vec<Action>)
        ensures
            (final(self)@, actions_view(r@)) == step_navigate(old(self)@, path),
    {
        self.cancel_inline_edits();
        self.current_path = path.clone();
        one_action(Action::ListDirectory(path))
    }

    fn selected_index(&self) -> (r: Option<usize>)
        ensures
            match r {
                Some(i) => selected_entry(self@) == Some(self.files@[i as int]) && i < self.files@.len(),
                None => selected_entry(self@) is None,
            },
    {
        match self.selected_file {
            Some(i) => if i < self.files.len() { Some(i) } else { None },
            None => None,
        }
    }

    fn clip_selected(&mut self, op: ClipboardOp) -> (r: Vec<Action>)
        ensures
            (final(self)@, actions_view(r@)) == step_clip(old(self)@, op),
    {
        if let Some(i) = self.selected_index() {
            let p = self.files[i].path.clone();
            self.clipboard = Some((p, op));
        }
        no_actions()
    }

    fn paste(&mut self) -> (r: Vec<Action>)
        ensures
            (final(self)@, actions_view(r@)) == step_paste(old(self)@),
    {
        let (src, op) = match &self.clipboard {
            Some((src, op)) => (src.clone(), *op),
            None => return no_actions(),
        };
        let dest_dir = self.current_path.clone();
        let list = Action::ListDirectory(self.current_path.clone());
        match op {
            ClipboardOp::Copy => two_actions(Action::CopyFile { src, dest_dir }, list),
            ClipboardOp::Cut => {
                self.clipboard = None;
                two_actions(Action::MoveFile { src, dest_dir }, list)
            },
        }
    }

    fn rename_commit(&mut self) -> (r: Vec<Action>)
        ensures
            (final(self)@, actions_view(r@)) == step_rename_commit(old(self)@),
    {
        let i = match self.rename_index {
            Some(i) => i,
            None => return no_actions(),
        };
        let c = chars_of(self.rename_input.as_str());
        let name = trim(&c);
        let mut acts = no_actions();
        if name.len() > 0 && i < self.files.len() {
            acts = one_action(Action::RenameFile {
                path: self.files[i].path.clone(),
                new_name: string_from_chars(&name),
            });
        }
        self.rename_index = None;
        self.rename_input = String::new();
        push_action(&mut acts, Action::ListDirectory(self.current_path.clone()));
        acts
    }

    fn new_folder_commit(&mut self) -> (r: Vec<Action>)
        ensures
            (final(self)@, actions_view(r@)) == step_new_folder_commit(old(self)@),
    {
        let c = chars_of(self.new_folder_input.as_str());
        let name = trim(&c);
        let mut acts = no_actions();
        if name.len() > 0 {
            acts = one_action(Action::CreateDirectory {
                parent: self.current_path.clone(),
                name: string_from_chars(&name),
            });
        }
        self.new_folder_active = false;
        self.new_folder_input = String::new();
        push_action(&mut acts, Action::ListDirectory(self.current_path.clone()));
        acts
    }

    fn terminal_submit(&mut self) -> (r: Vec<Action>)
        ensures
            (final(self)@, actions_view(r@)) == step_terminal_submit(old(self)@),
    {
        let input = self.terminal_input.clone();
        self.terminal_input = String::new();
        if input.as_str().is_empty() {
            no_actions()
        } else if self.pty_available {
            let mut line = input;
            line.append("\n");
            one_action(Action::WriteTerminal(line))
        } else {
            let mut line = String::from_str("$ ");
            line.append(input.as_str());
            line.append("\n");
            one_action(Action::EchoTerminal(line))
        }
    }
}

impl IronKeyApp {
    /// Handle one event: change the state and return the outside work to do,
    /// in order.
    #[verifier::spinoff_prover]
    #[verifier::rlimit(40)]
    pub fn update(&mut self, msg: Message) -> (r: Vec<Action>)
        ensures
            (final(self)@, actions_view(r@)) == step(old(self)@, msg@),
    {
        match msg {
            Message::FocusPane(kind) => {
                self.focused_pane = kind;
                no_actions()
            },
            Message::FocusNext => {
                self.focused_pane = match self.focused_pane {
                    PaneKind::Drives => PaneKind::Browser,
                    PaneKind::Browser => PaneKind::Terminal,
                    PaneKind::Terminal => PaneKind::Drives,
                };
                no_actions()
            },
            Message::Tick => {
                let mut acts = two_actions(Action::SampleSystem, Action::PollTerminal);
                push_action(&mut acts, Action::LoadDrives);
                assert(seq![ActionModel::SampleSystem, ActionModel::PollTerminal].push(ActionModel::LoadDrives)
                    =~= seq![ActionModel::SampleSystem, ActionModel::PollTerminal, ActionModel::LoadDrives]);
                acts
            },
            Message::Refresh => two_actions(Action::LoadDrives, Action::ListDirectory(self.current_path.clone())),
            Message::DrivesLoaded(drives) => {
                self.drives = drives;
                no_actions()
            },
            Message::DriveToggled(idx) => {
                self.toggle_drive(idx);
                no_actions()
            },
            Message::PartitionSelected(dev) => {
                self.selected_partition = Some(dev);
                self.focused_pane = PaneKind::Drives;
                no_actions()
            },
            Message::MountSelected => self.mount_selected(),
            Message::UnmountSelected => self.unmount_selected(),
            Message::FormatSelected => {
                if let Some(dev) = clone_opt(&self.selected_partition) {
                    self.modal = Some(Modal::Format {
                        device: dev,
                        confirm_text: String::new(),
                        fs_type: FormatFsType::Ext4,
                    });
                }
                no_actions()
            },
            Message::CloneSelected => {
                self.modal = Some(Modal::Confirm {
                    title: String::from_str("Clone Partition"),
                    message: String::from_str(
                        "Select a destination partition or image file in the terminal, then use: dd if=/dev/SOURCE of=/dev/DEST bs=4M status=progress",
                    ),
                });
                no_actions()
            },
            Message::WipeSelected => {
                if let Some(dev) = clone_opt(&self.selected_partition) {
                    let mut message = String::from_str("Securely wipe /dev/");
                    message.append(dev.as_str());
                    message.append("? This is IRREVERSIBLE.\nAll data will be permanently destroyed.");
                    self.modal = Some(Modal::Confirm {
                        title: String::from_str("\u{26a0} Wipe Partition"),
                        message,
                    });
                }
                no_actions()
            },
            Message::InfoSelected => self.info_selected(),
            Message::NewTableSelected => {
                if let Some(dev) = clone_opt(&self.selected_partition) {
                    self.modal = Some(Modal::NewTable {
                        device: drive_name_from_partition(dev.as_str()),
                        confirm_text: String::new(),
                    });
                }
                no_actions()
            },
            Message::SmartLoaded(_dev, smart) => {
                self.modal = match self.modal.take() {
                    Some(Modal::Info { part, .. }) => Some(Modal::Info { part, smart }),
                    other => other,
                };
                no_actions()
            },
            Message::ModalConfirmTextChanged(t) => {
                self.modal = match self.modal.take() {
                    Some(Modal::Format { device, fs_type, .. }) =>
                        Some(Modal::Format { device, confirm_text: t, fs_type }),
                    Some(Modal::NewTable { device, .. }) => Some(Modal::NewTable { device, confirm_text: t }),
                    other => other,
                };
                no_actions()
            },
            Message::ModalPassphraseChanged(t) => {
                self.modal = match self.modal.take() {
                    Some(Modal::Passphrase { device, .. }) => Some(Modal::Passphrase { device, passphrase: t }),
                    other => other,
                };
                no_actions()
            },
            Message::ModalFsTypeChanged(f) => {
                self.modal = match self.modal.take() {
                    Some(Modal::Format { device, confirm_text, .. }) =>
                        Some(Modal::Format { device, confirm_text, fs_type: f }),
                    other => other,
                };
                no_actions()
            },
            Message::ModalConfirm => self.modal_confirm(),
            Message::ModalCancel => {
                self.modal = None;
                no_actions()
            },
            Message::NavigateTo(path) => self.navigate_to(path),
            Message::FilesLoaded(files) => {
                self.files = files;
                self.selected_file = None;
                no_actions()
            },
            Message::FileSelected(idx) => {
                self.selected_file = Some(idx);
                self.focused_pane = PaneKind::Browser;
                self.cancel_inline_edits();
                no_actions()
            },
            Message::FileActivated(idx) => {
                if idx < self.files.len() {
                    let path = self.files[idx].path.clone();
                    if self.files[idx].is_dir() {
                        self.navigate_to(path)
                    } else {
                        one_action(Action::ViewFile(path))
                    }
                } else {
                    no_actions()
                }
            },
            Message::FileCopySelected => self.clip_selected(ClipboardOp::Copy),
            Message::FileCutSelected => self.clip_selected(ClipboardOp::Cut),
            Message::FilePasteSelected => self.paste(),
            Message::FileDeleteSelected => match self.selected_index() {
                Some(i) => one_action(Action::DeleteFile(self.files[i].path.clone())),
                None => no_actions(),
            },
            Message::FileDeleteFinished(ok) => {
                if ok {
                    self.selected_file = None;
                    one_action(Action::ListDirectory(self.current_path.clone()))
                } else {
                    no_actions()
                }
            },
            Message::FileRenameStart => {
                if let Some(i) = self.selected_file {
                    if i < self.files.len() {
                        self.rename_index = Some(i);
                        self.rename_input = self.files[i].name.clone();
                    }
                }
                no_actions()
            },
            Message::FileRenameInputChanged(t) => {
                self.rename_input = t;
                no_actions()
            },
            Message::FileRenameCommit => self.rename_commit(),
            Message::FileCancelInlineEdit => {
                self.cancel_inline_edits();
                no_actions()
            },
            Message::FileNewFolderStart => {
                self.new_folder_active = true;
                self.new_folder_input = String::from_str("New Folder");
                no_actions()
            },
            Message::FileNewFolderInputChanged(t) => {
                self.new_folder_input = t;
                no_actions()
            },
            Message::FileNewFolderCommit => self.new_folder_commit(),
            Message::FilePropertiesSelected => {
                if let Some(i) = self.selected_index() {
                    let entry = self.files[i].clone();
                    self.modal = Some(Modal::Properties { entry });
                }
                no_actions()
            },
            Message::ViewFile(path) => one_action(Action::ViewFile(path)),
            Message::FileViewerLoaded(path, content) => {
                self.modal = Some(Modal::FileViewer { path, content });
                no_actions()
            },
            Message::TerminalInputChanged(t) => {
                self.terminal_input = t;
                no_actions()
            },
            Message::TerminalSubmit => self.terminal_submit(),
            Message::TerminalOutput(data) => one_action(Action::FeedTerminal(data)),
            Message::SearchToggle => {
                self.search_open = !self.search_open;
                self.search_query = String::new();
                self.focused_pane = PaneKind::Browser;
                no_actions()
            },
            Message::SearchQueryChanged(q) => {
                self.search_query = q;
                no_actions()
            },
            Message::SearchSubmit => {
                let opts = SearchOpts {
                    name_glob: Some(self.search_query.clone()),
                    content_pattern: None,
                    max_depth: Some(3),
                    min_size: None,
                    max_size: None,
                    follow_symlinks: false,
                };
                one_action(Action::SearchFiles { root: self.current_path.clone(), opts })
            },
            Message::ShutdownRequested => {
                self.modal = Some(Modal::Shutdown);
                no_actions()
            },
            Message::RebootRequested => {
                self.modal = Some(Modal::Reboot);
                no_actions()
            },
        }
    }
}

impl IronKeyApp {
    pub fn drives(&self) -> (r: &[DriveInfo])
        ensures
            r@ == self.drives@,
    {
        self.drives.as_slice()
    }

    pub fn expanded_drives(&self) -> (r: &HashSet<usize>)
        ensures
            r == &self.expanded_drives,
    {
        &self.expanded_drives
    }

    pub fn selected_partition(&self) -> (r: Option<&str>)
        ensures
            match r {
                Some(s) => self@.selected_partition == Some(s@),
                None => self@.selected_partition is None,
            },
    {
        match &self.selected_partition {
            Some(s) => Some(s.as_str()),
            None => None,
        }
    }

    pub fn current_path(&self) -> (r: &PathBuf)
        ensures
            *r == self.current_path,
    {
        &self.current_path
    }

    pub fn files(&self) -> (r: &[FileEntry])
        ensures
            r@ == self.files@,
    {
        self.files.as_slice()
    }

    pub fn selected_file(&self) -> (r: Option<usize>)
        ensures
            r == self.selected_file,
    {
        self.selected_file
    }

    pub fn search_open(&self) -> (r: bool)
        ensures
            r == self.search_open,
    {
        self.search_open
    }

    pub fn search_query(&self) -> (r: &str)
        ensures
            r@ == self.search_query@,
    {
        self.search_query.as_str()
    }

    pub fn terminal_input(&self) -> (r: &str)
        ensures
            r@ == self.terminal_input@,
    {
        self.terminal_input.as_str()
    }

    pub fn clipboard(&self) -> (r: Option<&(PathBuf, ClipboardOp)>)
        ensures
            match r {
                Some(c) => self.clipboard == Some(*c),
                None => self.clipboard is None,
            },
    {
        match &self.clipboard {
            Some(c) => Some(c),
            None => None,
        }
    }

    pub fn rename_index(&self) -> (r: Option<usize>)
        ensures
            r == self.rename_index,
    {
        self.rename_index
    }

    pub fn rename_input(&self) -> (r: &str)
        ensures
            r@ == self.rename_input@,
    {
        self.rename_input.as_str()
    }

    pub fn new_folder_active(&self) -> (r: bool)
        ensures
            r == self.new_folder_active,
    {
        self.new_folder_active
    }

    pub fn new_folder_input(&self) -> (r: &str)
        ensures
            r@ == self.new_folder_input@,
    {
        self.new_folder_input.as_str()
    }

    pub fn focused_pane(&self) -> (r: PaneKind)
        ensures
            r == self.focused_pane,
    {
        self.focused_pane
    }
}

} // verus!
