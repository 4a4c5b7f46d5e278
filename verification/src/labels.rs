//! The texts the panels show and the keyboard shortcuts: drive and
//! partition rows, the status bar, which status-bar buttons are enabled,
//! and the event each key press stands for.

use vstd::prelude::*;
use crate::app_state::{IronKeyApp, Message, MessageModel, PaneKind, confirm_word, find_in_drives};
use crate::listing::FileKind;
use crate::drives::{DriveInfo, DriveStatus, PartitionInfo, PartitionStatus, format_size, opt_view};
use crate::text::str_eq;
use crate::units::{format_rate, rate_text, size_text};
use crate::text::{decimal, push_decimal};

verus! {

/// The text of an optional string, or `fallback` when absent.
pub open spec fn or_else(s: Option<Seq<char>>, fallback: Seq<char>) -> Seq<char> {
    match s {
        Some(v) => v,
        None => fallback,
    }
}

fn or_else_exec(s: &Option<String>, fallback: &str) -> (r: String)
    ensures
        r@ == or_else(opt_view(*s), fallback@),
{
    match s {
        Some(v) => v.clone(),
        None => String::from_str(fallback),
    }
}

/// The icon of a drive: a disc for a spinning disk, a bolt for flash.
pub open spec fn drive_icon(d: DriveInfo) -> Seq<char> {
    if d.rotational { "💿"@ } else { "⚡"@ }
}

/// The kind of a drive: USB when removable, else HDD or SSD.
pub open spec fn drive_kind(d: DriveInfo) -> Seq<char> {
    if d.removable { "USB"@ } else if d.rotational { "HDD"@ } else { "SSD"@ }
}

/// The row of a drive in the drives panel.
pub open spec fn drive_label_text(d: DriveInfo) -> Seq<char> {
    drive_icon(d) + " /dev/"@ + d.device@ + "  ["@ + drive_kind(d) + "]  "@
        + or_else(opt_view(d.model), "Unknown"@) + "  ("@ + size_text(d.size_bytes as nat, 5) + ")"@
}

/// The row of a drive in the drives panel: icon, device, kind, model and
/// size, e.g. "⚡ /dev/sda  [SSD]  Samsung  (465.8 GB)".
pub fn drive_label(d: &DriveInfo) -> (r: String)
    ensures
        r@ == drive_label_text(*d),
{
    let mut r = if d.rotational { String::from_str("💿") } else { String::from_str("⚡") };
    r.append(" /dev/");
    r.append(d.device.as_str());
    r.append("  [");
    r.append(if d.removable { "USB" } else if d.rotational { "HDD" } else { "SSD" });
    r.append("]  ");
    let model = or_else_exec(&d.model, "Unknown");
    r.append(model.as_str());
    r.append("  (");
    let size = format_size(d.size_bytes);
    r.append(size.as_str());
    r.append(")");
    r
}

/// Whether a drive's health indicator shows trouble.
pub fn drive_has_error(d: &DriveInfo) -> (r: bool)
    ensures
        r == (d.status is Error),
{
    match d.status {
        DriveStatus::Healthy => false,
        DriveStatus::Error(_) => true,
    }
}

/// The status icon of a partition.
pub open spec fn partition_icon(s: PartitionStatus) -> Seq<char> {
    match s {
        PartitionStatus::Mounted(_) => "🟢"@,
        PartitionStatus::Unmounted => "🟡"@,
        PartitionStatus::Encrypted => "🔵"@,
        PartitionStatus::Unformatted => "⚪"@,
        PartitionStatus::Error(_) => "🔴"@,
    }
}

/// The row of a partition in the drives panel.
pub open spec fn partition_line_text(p: PartitionInfo) -> Seq<char> {
    let label = or_else(opt_view(p.label), Seq::empty());
    let label_suffix = if label.len() == 0 { Seq::empty() } else { " ["@ + label + "]"@ };
    let mount = match p.status {
        PartitionStatus::Mounted(mp) => "  → "@ + mp@,
        _ => Seq::empty(),
    };
    "  "@ + partition_icon(p.status) + " ├─ /dev/"@ + p.device@ + label_suffix + "  "@
        + or_else(opt_view(p.filesystem), "?"@) + "  "@ + size_text(p.size_bytes as nat, 5) + mount
}

/// The row of a partition in the drives panel: status icon, device, label,
/// filesystem, size and mount point.
pub fn partition_line(p: &PartitionInfo) -> (r: String)
    ensures
        r@ == partition_line_text(*p),
{
    let mut r = String::from_str("  ");
    r.append(match p.status {
        PartitionStatus::Mounted(_) => "🟢",
        PartitionStatus::Unmounted => "🟡",
        PartitionStatus::Encrypted => "🔵",
        PartitionStatus::Unformatted => "⚪",
        PartitionStatus::Error(_) => "🔴",
    });
    assert(r@ =~= "  "@ + partition_icon(p.status));
    r.append(" ├─ /dev/");
    r.append(p.device.as_str());
    let ghost head = r@;
    let label = or_else_exec(&p.label, "");
    proof {
        reveal_strlit("");
    }
    if !label.as_str().is_empty() {
        r.append(" [");
        r.append(label.as_str());
        r.append("]");
        assert(r@ =~= head + (" ["@ + label@ + "]"@));
    } else {
        assert(r@ =~= head + Seq::<char>::empty());
    }
    r.append("  ");
    let fs = or_else_exec(&p.filesystem, "?");
    r.append(fs.as_str());
    r.append("  ");
    let size = format_size(p.size_bytes);
    r.append(size.as_str());
    let ghost head3 = r@;
    if let PartitionStatus::Mounted(mp) = &p.status {
        r.append("  → ");
        r.append(mp.as_str());
        assert(r@ =~= head3 + ("  → "@ + mp@));
    } else {
        assert(r@ =~= head3 + Seq::<char>::empty());
    }
    assert(r@ =~= partition_line_text(*p));
    r
}

/// The partition summary of the status bar.
pub open spec fn status_text_of(selected: Option<Seq<char>>, drives: Seq<DriveInfo>) -> Seq<char> {
    match selected {
        None => "No partition selected"@,
        Some(dev) => match find_in_drives(drives, dev) {
            None => "/dev/"@ + dev,
            Some(p) => "/dev/"@ + dev + "  │  "@ + or_else(opt_view(p.filesystem), "?"@) + "  │  "@
                + size_text(p.size_bytes as nat, 5) + match p.status {
                    PartitionStatus::Mounted(mp) => " │ MOUNTED at "@ + mp@,
                    _ => Seq::empty(),
                },
        },
    }
}

/// The memory figure of the header: used and total memory in whole MiB.
pub open spec fn ram_text_of(used: u64, total: u64) -> Seq<char> {
    "RAM "@ + decimal((used / 1048576) as nat) + " / "@ + decimal((total / 1048576) as nat) + " MB"@
}

/// The memory figure of the header, e.g. "RAM 512 / 2048 MB".
pub fn ram_text(used: u64, total: u64) -> (r: String)
    ensures
        r@ == ram_text_of(used, total),
{
    let mut r = String::from_str("RAM ");
    push_decimal(&mut r, (used / 1024 / 1024) as u128);
    r.append(" / ");
    push_decimal(&mut r, (total / 1024 / 1024) as u128);
    r.append(" MB");
    r
}

/// The disk I/O figure of the status bar: write rate, then read rate.
pub open spec fn io_text_of(read_bps: u64, write_bps: u64) -> Seq<char> {
    "↑ "@ + rate_text(write_bps as nat) + "  ↓ "@ + rate_text(read_bps as nat)
}

/// The disk I/O figure of the status bar, e.g. "↑ 0 B/s  ↓ 10.0 MB/s".
pub fn io_text(read_bps: u64, write_bps: u64) -> (r: String)
    ensures
        r@ == io_text_of(read_bps, write_bps),
{
    let mut r = String::from_str("↑ ");
    let w = format_rate(write_bps);
    r.append(w.as_str());
    r.append("  ↓ ");
    let rd = format_rate(read_bps);
    r.append(rd.as_str());
    r
}

/// The buttons of the status bar.
#[derive(Debug, Clone, Copy, PartialEq, Eq, Structural)]
pub enum StatusAction {
    Mount,
    Unmount,
    Format,
    Clone,
    Wipe,
    NewTable,
    Info,
}

/// Whether a status-bar button can be pressed: every button needs a
/// selected partition; mounting needs it unmounted and unmounting needs it
/// mounted.
pub open spec fn action_enabled_of(a: StatusAction, selected: Option<Seq<char>>, drives: Seq<DriveInfo>) -> bool {
    let has_selection = selected is Some;
    let is_mounted = match selected {
        Some(dev) => find_in_drives(drives, dev) matches Some(p) && p.status is Mounted,
        None => false,
    };
    match a {
        StatusAction::Mount => has_selection && !is_mounted,
        StatusAction::Unmount => has_selection && is_mounted,
        _ => has_selection,
    }
}

impl IronKeyApp {
    /// The partition summary of the status bar, e.g.
    /// "/dev/sda1  │  ext4  │  100.0 GB │ MOUNTED at /mnt".
    pub fn status_text(&self) -> (r: String)
        ensures
            r@ == status_text_of(self@.selected_partition, self@.drives),
    {
        match &self.selected_partition {
            None => String::from_str("No partition selected"),
            Some(dev) => {
                let mut r = String::from_str("/dev/");
                r.append(dev.as_str());
                match self.find_partition(dev.as_str()) {
                    None => r,
                    Some(p) => {
                        r.append("  │  ");
                        let fs = or_else_exec(&p.filesystem, "?");
                        r.append(fs.as_str());
                        r.append("  │  ");
                        let size = format_size(p.size_bytes);
                        r.append(size.as_str());
                        if let PartitionStatus::Mounted(mp) = &p.status {
                            r.append(" │ MOUNTED at ");
                            r.append(mp.as_str());
                        }
                        r
                    },
                }
            },
        }
    }

    /// Whether a status-bar button can be pressed.
    pub fn action_enabled(&self, a: StatusAction) -> (r: bool)
        ensures
            r == action_enabled_of(a, self@.selected_partition, self@.drives),
    {
        let has_selection = self.selected_partition.is_some();
        let is_mounted = match &self.selected_partition {
            Some(dev) => match self.find_partition(dev.as_str()) {
                Some(p) => match p.status {
                    PartitionStatus::Mounted(_) => true,
                    _ => false,
                },
                None => false,
            },
            None => false,
        };
        match a {
            StatusAction::Mount => has_selection && !is_mounted,
            StatusAction::Unmount => has_selection && is_mounted,
            _ => has_selection,
        }
    }
}

/// A key press, as far as the shortcuts tell keys apart.
#[derive(Debug)]
pub enum Key {
    Tab,
    F5,
    F2,
    Delete,
    Escape,
    /// A key that types this text
    Character(String),
    Other,
}

/// The value of a key: a typed text by its characters.
pub enum KeyModel {
    Tab,
    F5,
    F2,
    Delete,
    Escape,
    Character(Seq<char>),
    Other,
}

impl View for Key {
    type V = KeyModel;

    open spec fn view(&self) -> KeyModel {
        match self {
            Key::Tab => KeyModel::Tab,
            Key::F5 => KeyModel::F5,
            Key::F2 => KeyModel::F2,
            Key::Delete => KeyModel::Delete,
            Key::Escape => KeyModel::Escape,
            Key::Character(c) => KeyModel::Character(c@),
            Key::Other => KeyModel::Other,
        }
    }
}

/// The event a control-key combination stands for.
pub open spec fn control_shortcut(c: Seq<char>) -> Option<MessageModel> {
    if c == "1"@ {
        Some(MessageModel::FocusPane(PaneKind::Drives))
    } else if c == "2"@ {
        Some(MessageModel::FocusPane(PaneKind::Browser))
    } else if c == "3"@ {
        Some(MessageModel::FocusPane(PaneKind::Terminal))
    } else if c == "q"@ || c == "Q"@ {
        Some(MessageModel::ShutdownRequested)
    } else if c == "r"@ || c == "R"@ {
        Some(MessageModel::RebootRequested)
    } else if c == "f"@ || c == "F"@ {
        Some(MessageModel::SearchToggle)
    } else if c == "d"@ || c == "D"@ {
        Some(MessageModel::UnmountSelected)
    } else if c == "c"@ || c == "C"@ {
        Some(MessageModel::FileCopySelected)
    } else if c == "x"@ || c == "X"@ {
        Some(MessageModel::FileCutSelected)
    } else if c == "v"@ || c == "V"@ {
        Some(MessageModel::FilePasteSelected)
    } else {
        None
    }
}

/// The event a key press stands for: Tab (with or without Shift) moves the
/// focus on, F5 refreshes, F2 starts a rename, Delete deletes, Escape
/// cancels, and Control with a character is a shortcut.
pub open spec fn key_event(key: KeyModel, control: bool) -> Option<MessageModel> {
    match key {
        KeyModel::Tab => Some(MessageModel::FocusNext),
        KeyModel::F5 => Some(MessageModel::Refresh),
        KeyModel::F2 => Some(MessageModel::FileRenameStart),
        KeyModel::Delete => Some(MessageModel::FileDeleteSelected),
        KeyModel::Escape => Some(MessageModel::ModalCancel),
        KeyModel::Character(c) => if control { control_shortcut(c) } else { None },
        KeyModel::Other => None,
    }
}

fn is_one_of(c: &str, a: &str, b: &str) -> (r: bool)
    ensures
        r == (c@ == a@ || c@ == b@),
{
    str_eq(c, a) || str_eq(c, b)
}

fn control_message(c: &str) -> (r: Option<Message>)
    ensures
        match r {
            Some(m) => control_shortcut(c@) == Some(m@),
            None => control_shortcut(c@) is None,
        },
{
    if str_eq(c, "1") {
        Some(Message::FocusPane(PaneKind::Drives))
    } else if str_eq(c, "2") {
        Some(Message::FocusPane(PaneKind::Browser))
    } else if str_eq(c, "3") {
        Some(Message::FocusPane(PaneKind::Terminal))
    } else if is_one_of(c, "q", "Q") {
        Some(Message::ShutdownRequested)
    } else if is_one_of(c, "r", "R") {
        Some(Message::RebootRequested)
    } else if is_one_of(c, "f", "F") {
        Some(Message::SearchToggle)
    } else if is_one_of(c, "d", "D") {
        Some(Message::UnmountSelected)
    } else if is_one_of(c, "c", "C") {
        Some(Message::FileCopySelected)
    } else if is_one_of(c, "x", "X") {
        Some(Message::FileCutSelected)
    } else if is_one_of(c, "v", "V") {
        Some(Message::FilePasteSelected)
    } else {
        None
    }
}

/// The event a key press stands for, given whether Control is held (Shift
/// makes no difference to any shortcut).
pub fn key_message(key: &Key, control: bool) -> (r: Option<Message>)
    ensures
        match r {
            Some(m) => key_event(key@, control) == Some(m@),
            None => key_event(key@, control) is None,
        },
{
    match key {
        Key::Tab => Some(Message::FocusNext),
        Key::F5 => Some(Message::Refresh),
        Key::F2 => Some(Message::FileRenameStart),
        Key::Delete => Some(Message::FileDeleteSelected),
        Key::Escape => Some(Message::ModalCancel),
        Key::Character(c) => if control { control_message(c.as_str()) } else { None },
        Key::Other => None,
    }
}

/// Whether the text typed into a destructive dialog lets it go ahead.
pub fn confirm_ready(text: &str) -> (r: bool)
    ensures
        r == (text@ == confirm_word()),
{
    str_eq(text, "CONFIRM")
}

/// The status of a partition in words.
pub open spec fn status_words(s: PartitionStatus) -> Seq<char> {
    match s {
        PartitionStatus::Mounted(p) => "Mounted at "@ + p@,
        PartitionStatus::Unmounted => "Unmounted"@,
        PartitionStatus::Encrypted => "Encrypted"@,
        PartitionStatus::Unformatted => "Unformatted"@,
        PartitionStatus::Error(e) => "Error: "@ + e@,
    }
}

/// The status of a partition in words, e.g. "Mounted at /mnt".
pub fn partition_status_text(s: &PartitionStatus) -> (r: String)
    ensures
        r@ == status_words(*s),
{
    match s {
        PartitionStatus::Mounted(p) => {
            let mut r = String::from_str("Mounted at ");
            r.append(p.as_str());
            r
        },
        PartitionStatus::Unmounted => String::from_str("Unmounted"),
        PartitionStatus::Encrypted => String::from_str("Encrypted"),
        PartitionStatus::Unformatted => String::from_str("Unformatted"),
        PartitionStatus::Error(e) => {
            let mut r = String::from_str("Error: ");
            r.append(e.as_str());
            r
        },
    }
}

/// The kind of a file in words.
pub fn kind_label(kind: FileKind) -> (r: &'static str)
    ensures
        r@ == match kind {
            FileKind::Directory => "Directory"@,
            FileKind::RegularFile => "Regular file"@,
            FileKind::Symlink => "Symbolic link"@,
            FileKind::Other => "Other"@,
        },
{
    match kind {
        FileKind::Directory => "Directory",
        FileKind::RegularFile => "Regular file",
        FileKind::Symlink => "Symbolic link",
        FileKind::Other => "Other",
    }
}

/// The buttons of the file browser's toolbar.
#[derive(Debug, Clone, Copy, PartialEq, Eq, Structural)]
pub enum ToolbarAction {
    NewFolder,
    Copy,
    Cut,
    Paste,
    Rename,
    Delete,
    Properties,
}

impl IronKeyApp {
    /// Whether a toolbar button can be pressed: a new folder always; paste
    /// with something on the clipboard; every other button with a file
    /// selected.
    pub fn toolbar_enabled(&self, a: ToolbarAction) -> (r: bool)
        ensures
            r == match a {
                ToolbarAction::NewFolder => true,
                ToolbarAction::Paste => self.clipboard is Some,
                _ => self.selected_file is Some,
            },
    {
        match a {
            ToolbarAction::NewFolder => true,
            ToolbarAction::Paste => self.clipboard.is_some(),
            _ => self.selected_file.is_some(),
        }
    }
}

} // verus!
