//! Properties of the application's state machine that hold over every state
//! and every event.

use vstd::prelude::*;
use crate::app_state::{ActionModel, AppModel, ClipboardOp, MessageModel, ModalModel, confirm_word, dev_path, find_in_drives, step};
use crate::detect::FsType;
use crate::app_state::default_mount_options;
use crate::devices::parent_drive_name;
use crate::drives::{PartitionInfo, PartitionStatus};
use crate::listing::FileKind;
use crate::ops::{FormatFsType, FormatOpts};
use crate::text::trim_ws;

verus! {

/// Moving focus on three times comes back to the pane it started from, and
/// changes nothing else.
pub proof fn lemma_focus_cycle(s: AppModel)
    ensures
        step(step(step(s, MessageModel::FocusNext).0, MessageModel::FocusNext).0, MessageModel::FocusNext).0 == s,
        step(s, MessageModel::FocusNext).0.focused_pane != s.focused_pane,
{
}

/// Toggling the same drive twice leaves the set of expanded drives, and the
/// whole state, as it was.
pub proof fn lemma_toggle_twice(s: AppModel, i: usize)
    ensures
        step(step(s, MessageModel::DriveToggled(i)).0, MessageModel::DriveToggled(i)).0 == s,
        step(s, MessageModel::DriveToggled(i)).0.expanded_drives.contains(i) != s.expanded_drives.contains(i),
{
    let t = step(s, MessageModel::DriveToggled(i)).0;
    let u = step(t, MessageModel::DriveToggled(i)).0;
    if s.expanded_drives.contains(i) {
        assert(u.expanded_drives =~= s.expanded_drives);
    } else {
        assert(u.expanded_drives =~= s.expanded_drives);
    }
}

/// Cancelling closes whatever dialog is open and asks for no outside work.
pub proof fn lemma_cancel_closes(s: AppModel)
    ensures
        step(s, MessageModel::ModalCancel).0.modal is None,
        step(s, MessageModel::ModalCancel).1.len() == 0,
{
}

/// Confirming closes whatever dialog is open.
pub proof fn lemma_confirm_closes(s: AppModel)
    ensures
        step(s, MessageModel::ModalConfirm).0.modal is None,
{
}

/// Formatting a partition or writing a new partition table is asked for by
/// no event but confirming a format or new-table dialog whose confirmation
/// text reads exactly `CONFIRM`.
pub proof fn lemma_destructive_work_needs_confirmation(s: AppModel, m: MessageModel, k: int)
    requires
        0 <= k < step(s, m).1.len(),
        step(s, m).1[k] is FormatPartition || step(s, m).1[k] is CreatePartitionTable,
    ensures
        m is ModalConfirm,
        match s.modal {
            Some(ModalModel::Format { confirm_text, .. }) => confirm_text == confirm_word(),
            Some(ModalModel::NewTable { confirm_text, .. }) => confirm_text == confirm_word(),
            _ => false,
        },
{
    lemma_only_confirm_destroys(s, m, k);
}

proof fn lemma_only_confirm_destroys(s: AppModel, m: MessageModel, k: int)
    requires
        0 <= k < step(s, m).1.len(),
    ensures
        (step(s, m).1[k] is FormatPartition || step(s, m).1[k] is CreatePartitionTable || step(s, m).1[k] is PowerOff
            || step(s, m).1[k] is Reboot) ==> m is ModalConfirm,
{
    let acts = step(s, m).1;
    match m {
        MessageModel::ModalConfirm => {},
        MessageModel::FileRenameCommit => {
            if let Some(i) = s.rename_index {
                let name = crate::text::trim_ws(s.rename_input);
                if name.len() > 0 && i < s.files.len() {
                    assert(acts.len() == 2);
                } else {
                    assert(acts.len() == 1);
                }
            }
        },
        MessageModel::FileNewFolderCommit => {
            let name = crate::text::trim_ws(s.new_folder_input);
            if name.len() > 0 {
                assert(acts.len() == 2);
            } else {
                assert(acts.len() == 1);
            }
        },
        _ => {},
    }
}

/// The power goes off, or the machine reboots, only when a shutdown or
/// reboot dialog is confirmed.
pub proof fn lemma_power_needs_confirmation(s: AppModel, m: MessageModel, k: int)
    requires
        0 <= k < step(s, m).1.len(),
        step(s, m).1[k] is PowerOff || step(s, m).1[k] is Reboot,
    ensures
        m is ModalConfirm,
        step(s, m).1[k] is PowerOff ==> s.modal == Some(ModalModel::Shutdown),
        step(s, m).1[k] is Reboot ==> s.modal == Some(ModalModel::Reboot),
{
    lemma_only_confirm_destroys(s, m, k);
}

/// Going to a directory ends any inline edit and lists that directory.
pub proof fn lemma_navigate_cancels_edits(s: AppModel, p: std::path::PathBuf)
    ensures
        step(s, MessageModel::NavigateTo(p)).0.rename_index is None,
        !step(s, MessageModel::NavigateTo(p)).0.new_folder_active,
        step(s, MessageModel::NavigateTo(p)).0.current_path == p,
        step(s, MessageModel::NavigateTo(p)).1 == seq![ActionModel::ListDirectory(p)],
{
}

/// A new listing drops the file selection.
pub proof fn lemma_listing_clears_selection(s: AppModel, files: Seq<crate::listing::FileEntry>)
    ensures
        step(s, MessageModel::FilesLoaded(files)).0.selected_file is None,
        step(s, MessageModel::FilesLoaded(files)).0.files == files,
{
}

/// Submitting the terminal line always empties the input field.
pub proof fn lemma_submit_clears_input(s: AppModel)
    ensures
        step(s, MessageModel::TerminalSubmit).0.terminal_input.len() == 0,
{
}

/// Mounting an encrypted partition first asks for its passphrase and mounts
/// nothing; confirming the passphrase then unlocks and mounts that partition
/// as LUKS with exactly that passphrase.
pub proof fn lemma_encrypted_mount_asks_passphrase(s: AppModel, dev: Seq<char>, p: crate::drives::PartitionInfo, pass: Seq<char>)
    requires
        s.selected_partition == Some(dev),
        find_in_drives(s.drives, dev) == Some(p),
        p.status is Encrypted,
    ensures
        step(s, MessageModel::MountSelected).1.len() == 0,
        step(s, MessageModel::MountSelected).0.modal == Some(ModalModel::Passphrase { device: dev, passphrase: Seq::empty() }),
        ({
            let t = step(step(s, MessageModel::MountSelected).0, MessageModel::ModalPassphraseChanged(pass)).0;
            &&& step(t, MessageModel::ModalConfirm).1.len() == 1
            &&& step(t, MessageModel::ModalConfirm).1[0] matches ActionModel::Mount { device_path, fs_type, options }
                && device_path == dev_path(dev) && fs_type == FsType::Luks && options.passphrase == Some(pass)
        }),
{
}

/// Deleting after selecting file `i` of the listing asks to delete exactly
/// that file, by its own path, and nothing else, leaving the state as it
/// is; with nothing selected, deleting asks for nothing.
pub proof fn lemma_delete_selected_file(s: AppModel, i: usize)
    requires
        i < s.files.len(),
    ensures
        ({
            let t = step(s, MessageModel::FileSelected(i)).0;
            &&& step(t, MessageModel::FileDeleteSelected).1 == seq![ActionModel::DeleteFile(s.files[i as int].path)]
            &&& step(t, MessageModel::FileDeleteSelected).0 == t
        }),
        s.selected_file is None ==> step(s, MessageModel::FileDeleteSelected).1.len() == 0
            && step(s, MessageModel::FileDeleteSelected).0 == s,
{
}

/// Copying or cutting the selected file `i`, then pasting, copies or moves
/// exactly that file into the directory shown, and lists it again; a cut is
/// pasted once, a copy may be pasted again.
pub proof fn lemma_clipboard_round_trip(s: AppModel, i: usize)
    requires
        i < s.files.len(),
    ensures
        ({
            let t = step(s, MessageModel::FileSelected(i)).0;
            let c = step(t, MessageModel::FileCopySelected).0;
            let x = step(t, MessageModel::FileCutSelected).0;
            &&& c.clipboard == Some((s.files[i as int].path, ClipboardOp::Copy))
            &&& step(c, MessageModel::FilePasteSelected).1 == seq![
                ActionModel::CopyFile { src: s.files[i as int].path, dest_dir: s.current_path },
                ActionModel::ListDirectory(s.current_path),
            ]
            &&& step(c, MessageModel::FilePasteSelected).0.clipboard == c.clipboard
            &&& x.clipboard == Some((s.files[i as int].path, ClipboardOp::Cut))
            &&& step(x, MessageModel::FilePasteSelected).1 == seq![
                ActionModel::MoveFile { src: s.files[i as int].path, dest_dir: s.current_path },
                ActionModel::ListDirectory(s.current_path),
            ]
            &&& step(x, MessageModel::FilePasteSelected).0.clipboard is None
        }),
{
}

/// Formatting goes to the selected partition and nowhere else: choosing
/// Format opens a dialog for it (ext4 unless another type is chosen) and
/// asks for nothing; confirming then formats that partition with the chosen
/// type, and only when the confirmation text reads `CONFIRM`.
pub proof fn lemma_format_flow(s: AppModel, dev: Seq<char>, f: FormatFsType, t: Seq<char>)
    ensures
        ({
            let a = step(s, MessageModel::PartitionSelected(dev)).0;
            let b = step(a, MessageModel::FormatSelected);
            let c = step(b.0, MessageModel::ModalFsTypeChanged(f)).0;
            let d = step(c, MessageModel::ModalConfirmTextChanged(t)).0;
            let e = step(d, MessageModel::ModalConfirm);
            &&& b.1.len() == 0
            &&& b.0.modal == Some(ModalModel::Format { device: dev, confirm_text: Seq::empty(), fs_type: FormatFsType::Ext4 })
            &&& t == confirm_word() ==> e.1 == seq![ActionModel::FormatPartition {
                device_path: dev_path(dev),
                opts: FormatOpts { fs_type: f, label: None },
            }]
            &&& t != confirm_word() ==> e.1.len() == 0
            &&& e.0.modal is None
        }),
{
}

/// A new partition table goes to the drive of the selected partition (its
/// name without the partition suffix), and only once `CONFIRM` is typed.
pub proof fn lemma_new_table_flow(s: AppModel, dev: Seq<char>, t: Seq<char>)
    ensures
        ({
            let a = step(s, MessageModel::PartitionSelected(dev)).0;
            let b = step(a, MessageModel::NewTableSelected);
            let d = step(b.0, MessageModel::ModalConfirmTextChanged(t)).0;
            let e = step(d, MessageModel::ModalConfirm);
            &&& b.1.len() == 0
            &&& t == confirm_word() ==> e.1 == seq![ActionModel::CreatePartitionTable(dev_path(parent_drive_name(dev)))]
            &&& t != confirm_word() ==> e.1.len() == 0
        }),
{
}

/// Mounting a partition that is not encrypted mounts exactly the selected
/// partition's device node, with its type detected and default options;
/// unmounting a mounted partition unmounts exactly its mount point.
pub proof fn lemma_mount_unmount_selected(s: AppModel, dev: Seq<char>, p: PartitionInfo)
    requires
        crate::app_state::find_in_drives(s.drives, dev) == Some(p),
    ensures
        !(p.status is Encrypted) ==> step(step(s, MessageModel::PartitionSelected(dev)).0, MessageModel::MountSelected).1
            == seq![ActionModel::Mount { device_path: dev_path(dev), fs_type: FsType::Auto, options: default_mount_options() }],
        p.status matches PartitionStatus::Mounted(mp) ==> step(step(s, MessageModel::PartitionSelected(dev)).0,
            MessageModel::UnmountSelected).1 == seq![ActionModel::Unmount(mp@)],
        !(p.status is Mounted) ==> step(step(s, MessageModel::PartitionSelected(dev)).0, MessageModel::UnmountSelected).1.len() == 0,
{
}

/// Opening listing entry `i`: a directory is entered and listed; a file is
/// viewed; either way by the entry's own path.
pub proof fn lemma_activate_entry(s: AppModel, i: usize)
    requires
        i < s.files.len(),
    ensures
        s.files[i as int].kind == FileKind::Directory ==> step(s, MessageModel::FileActivated(i)).0.current_path
            == s.files[i as int].path && step(s, MessageModel::FileActivated(i)).1
            == seq![ActionModel::ListDirectory(s.files[i as int].path)],
        s.files[i as int].kind != FileKind::Directory ==> step(s, MessageModel::FileActivated(i))
            == (s, seq![ActionModel::ViewFile(s.files[i as int].path)]),
{
}

/// Renaming file `i`: the edit starts from its current name; committing
/// renames that file, by its path, to the typed name without surrounding
/// white space (nothing when that is empty), and lists the directory again.
pub proof fn lemma_rename_flow(s: AppModel, i: usize, t: Seq<char>)
    requires
        i < s.files.len(),
    ensures
        ({
            let a = step(s, MessageModel::FileSelected(i)).0;
            let b = step(a, MessageModel::FileRenameStart).0;
            let c = step(b, MessageModel::FileRenameInputChanged(t)).0;
            let e = step(c, MessageModel::FileRenameCommit);
            &&& b.rename_input == s.files[i as int].name@
            &&& trim_ws(t).len() > 0 ==> e.1 == seq![
                ActionModel::RenameFile { path: s.files[i as int].path, new_name: trim_ws(t) },
                ActionModel::ListDirectory(s.current_path),
            ]
            &&& trim_ws(t).len() == 0 ==> e.1 == seq![ActionModel::ListDirectory(s.current_path)]
            &&& e.0.rename_index is None
        }),
{
    let a = step(s, MessageModel::FileSelected(i)).0;
    let b = step(a, MessageModel::FileRenameStart).0;
    let c = step(b, MessageModel::FileRenameInputChanged(t)).0;
    let e = step(c, MessageModel::FileRenameCommit);
    assert(c.rename_index == Some(i) && c.rename_input == t && c.files == s.files);
    if trim_ws(t).len() > 0 {
        assert(e.1 =~= seq![
            ActionModel::RenameFile { path: s.files[i as int].path, new_name: trim_ws(t) },
            ActionModel::ListDirectory(s.current_path),
        ]);
    } else {
        assert(e.1 =~= seq![ActionModel::ListDirectory(s.current_path)]);
    }
}

/// A deletion that went through clears the selection and lists the
/// directory shown again; one that failed changes nothing.
pub proof fn lemma_delete_finished(s: AppModel, ok: bool)
    ensures
        ok ==> step(s, MessageModel::FileDeleteFinished(ok)).0.selected_file is None
            && step(s, MessageModel::FileDeleteFinished(ok)).1 == seq![ActionModel::ListDirectory(s.current_path)],
        !ok ==> step(s, MessageModel::FileDeleteFinished(ok)) == (s, Seq::<ActionModel>::empty()),
{
}

/// Submitting a non-empty terminal line sends it, with a newline, to the
/// shell when one runs, and otherwise echoes it after a `$ ` prompt; an
/// empty line asks for nothing.
pub proof fn lemma_terminal_submit(s: AppModel)
    ensures
        s.terminal_input.len() > 0 && s.pty_available ==> step(s, MessageModel::TerminalSubmit).1
            == seq![ActionModel::WriteTerminal(s.terminal_input + "\n"@)],
        s.terminal_input.len() > 0 && !s.pty_available ==> step(s, MessageModel::TerminalSubmit).1
            == seq![ActionModel::EchoTerminal("$ "@ + s.terminal_input + "\n"@)],
        s.terminal_input.len() == 0 ==> step(s, MessageModel::TerminalSubmit).1.len() == 0,
{
}

/// A name search looks under the directory shown, for the query typed, at
/// most three levels deep, without following links.
pub proof fn lemma_search_submit(s: AppModel)
    ensures
        step(s, MessageModel::SearchSubmit).0 == s,
        step(s, MessageModel::SearchSubmit).1.len() == 1,
        step(s, MessageModel::SearchSubmit).1[0] matches ActionModel::SearchFiles { root, opts }
            && root == s.current_path && opts.name_glob == Some(s.search_query) && opts.content_pattern is None
            && opts.max_depth == Some(3usize) && !opts.follow_symlinks,
{
}

} // verus!
