//! Disk partition operations: the commands that format a partition and the
//! plan and progress figures of clone and wipe passes.

use vstd::prelude::*;

verus! {

/// Filesystem types supported for formatting.
#[derive(Debug, Clone, Copy, PartialEq, Eq, Structural)]
pub enum FormatFsType {
    Ext4,
    Fat32,
    ExFat,
    Ntfs,
    Btrfs,
    Xfs,
}

/// Options for formatting a partition.
#[derive(Debug, Clone)]
pub struct FormatOpts {
    /// Target filesystem type
    pub fs_type: FormatFsType,
    /// Optional filesystem label
    pub label: Option<String>,
}

/// The `mkfs` program for a filesystem type.
pub open spec fn mkfs_binary_of(fs: FormatFsType) -> Seq<char> {
    match fs {
        FormatFsType::Ext4 => "mkfs.ext4"@,
        FormatFsType::Fat32 => "mkfs.fat"@,
        FormatFsType::ExFat => "mkfs.exfat"@,
        FormatFsType::Ntfs => "mkfs.ntfs"@,
        FormatFsType::Btrfs => "mkfs.btrfs"@,
        FormatFsType::Xfs => "mkfs.xfs"@,
    }
}

/// The name shown for a filesystem type.
pub open spec fn format_display_name_of(fs: FormatFsType) -> Seq<char> {
    match fs {
        FormatFsType::Ext4 => "ext4"@,
        FormatFsType::Fat32 => "FAT32"@,
        FormatFsType::ExFat => "exFAT"@,
        FormatFsType::Ntfs => "NTFS"@,
        FormatFsType::Btrfs => "btrfs"@,
        FormatFsType::Xfs => "XFS"@,
    }
}

impl FormatFsType {
    pub fn mkfs_binary(&self) -> (r: &'static str)
        ensures
            r@ == mkfs_binary_of(*self),
    {
        match self {
            FormatFsType::Ext4 => "mkfs.ext4",
            FormatFsType::Fat32 => "mkfs.fat",
            FormatFsType::ExFat => "mkfs.exfat",
            FormatFsType::Ntfs => "mkfs.ntfs",
            FormatFsType::Btrfs => "mkfs.btrfs",
            FormatFsType::Xfs => "mkfs.xfs",
        }
    }

    pub fn display_name(&self) -> (r: &'static str)
        ensures
            r@ == format_display_name_of(*self),
    {
        match self {
            FormatFsType::Ext4 => "ext4",
            FormatFsType::Fat32 => "FAT32",
            FormatFsType::ExFat => "exFAT",
            FormatFsType::Ntfs => "NTFS",
            FormatFsType::Btrfs => "btrfs",
            FormatFsType::Xfs => "XFS",
        }
    }
}

/// The label option of a `mkfs` program: `-n` for FAT and exFAT, `-L` for
/// the others.
pub open spec fn label_flag(fs: FormatFsType) -> Seq<char> {
    match fs {
        FormatFsType::Fat32 | FormatFsType::ExFat => "-n"@,
        _ => "-L"@,
    }
}

/// The option that makes a `mkfs` program proceed without prompting
/// (`-F` for ext4, `-Q` quick format for NTFS, `-f` for btrfs and XFS).
pub open spec fn force_flag(fs: FormatFsType) -> Option<Seq<char>> {
    match fs {
        FormatFsType::Ext4 => Some("-F"@),
        FormatFsType::Ntfs => Some("-Q"@),
        FormatFsType::Btrfs | FormatFsType::Xfs => Some("-f"@),
        _ => None,
    }
}

/// The arguments passed to the `mkfs` program: the label option and label
/// when a label is given, the no-prompt option, then the device.
pub open spec fn format_args(fs: FormatFsType, label: Option<Seq<char>>, device: Seq<char>) -> Seq<Seq<char>> {
    let with_label = match label {
        Some(l) => seq![label_flag(fs), l],
        None => Seq::empty(),
    };
    let with_force = match force_flag(fs) {
        Some(f) => with_label.push(f),
        None => with_label,
    };
    with_force.push(device)
}

/// The views of a list of strings.
pub open spec fn strings_view(v: Seq<String>) -> Seq<Seq<char>> {
    v.map_values(|s: String| s@)
}

/// The arguments to run the `mkfs` program with to format `device`.
pub fn format_args_exec(opts: &FormatOpts, device: &str) -> (args: Vec<String>)
    ensures
        strings_view(args@) == format_args(
            opts.fs_type,
            crate::drives::opt_view(opts.label),
            device@,
        ),
{
    let mut args: Vec<String> = Vec::new();
    if let Some(label) = &opts.label {
        let flag = match opts.fs_type {
            FormatFsType::Fat32 | FormatFsType::ExFat => "-n",
            _ => "-L",
        };
        args.push(String::from_str(flag));
        args.push(label.clone());
    }
    let force: Option<&str> = match opts.fs_type {
        FormatFsType::Ext4 => Some("-F"),
        FormatFsType::Ntfs => Some("-Q"),
        FormatFsType::Btrfs | FormatFsType::Xfs => Some("-f"),
        _ => None,
    };
    if let Some(f) = force {
        args.push(String::from_str(f));
    }
    args.push(String::from_str(device));
    proof {
        let l = crate::drives::opt_view(opts.label);
        let with_label: Seq<Seq<char>> = match l {
            Some(lv) => seq![label_flag(opts.fs_type), lv],
            None => Seq::empty(),
        };
        let with_force = match force_flag(opts.fs_type) {
            Some(fv) => with_label.push(fv),
            None => with_label,
        };
        assert(strings_view(args@) =~= with_force.push(device@));
    }
    args
}

/// Progress update for a long-running disk operation.
#[derive(Debug, Clone, Copy, PartialEq, Eq, Structural)]
pub struct CloneProgress {
    /// Bytes transferred so far
    pub bytes_done: u64,
    /// Total bytes to transfer (0 if unknown)
    pub bytes_total: u64,
    /// Current transfer rate in bytes per second
    pub rate_bps: u64,
    /// Estimated seconds remaining (None if unknown)
    pub eta_secs: Option<u64>,
}

/// Secure wipe mode.
#[derive(Debug, Clone, Copy, PartialEq, Eq, Structural)]
pub enum WipeMode {
    /// Single-pass zero fill (fast)
    Zeros,
    /// Single-pass random data (better for HDDs)
    Random,
    /// DoD 5220.22-M three-pass wipe
    Dod3Pass,
}

/// One pass over a device during a wipe.
#[derive(Debug, Clone, Copy, PartialEq, Eq, Structural)]
pub enum WipePass {
    /// Every byte written with the given value
    Fill(u8),
    /// Bytes taken from the system's random source
    Random,
}

/// The passes of a wipe mode: zeros; random data; or zeros, ones (0xFF)
/// and random data in that order.
pub open spec fn wipe_plan(mode: WipeMode) -> Seq<WipePass> {
    match mode {
        WipeMode::Zeros => seq![WipePass::Fill(0)],
        WipeMode::Random => seq![WipePass::Random],
        WipeMode::Dod3Pass => seq![WipePass::Fill(0), WipePass::Fill(0xFF), WipePass::Random],
    }
}

/// The passes that wiping with `mode` runs, in order.
pub fn wipe_passes(mode: WipeMode) -> (p: Vec<WipePass>)
    ensures
        p@ == wipe_plan(mode),
{
    let mut p: Vec<WipePass> = Vec::new();
    match mode {
        WipeMode::Zeros => {
            p.push(WipePass::Fill(0));
        },
        WipeMode::Random => {
            p.push(WipePass::Random);
        },
        WipeMode::Dod3Pass => {
            p.push(WipePass::Fill(0));
            p.push(WipePass::Fill(0xFF));
            p.push(WipePass::Random);
        },
    }
    assert(p@ =~= wipe_plan(mode));
    p
}

/// Size of the blocks written in one step of a wipe or clone.
pub const IO_BLOCK: usize = 4194304;

/// How many bytes the next write of a wipe pass covers: what is left of the
/// device, at most one block; 0 when the pass is complete.
pub fn wipe_chunk_len(device_size: u64, bytes_done: u64) -> (n: usize)
    ensures
        n == (if device_size <= bytes_done {
            0usize
        } else if (((device_size - bytes_done) as u64) as usize) < IO_BLOCK {
            ((device_size - bytes_done) as u64) as usize
        } else {
            IO_BLOCK
        }),
{
    let remaining = device_size.saturating_sub(bytes_done);
    if remaining == 0 {
        return 0;
    }
    let r = remaining as usize;
    if r < IO_BLOCK { r } else { IO_BLOCK }
}

/// The progress report of a clone: the time left is the bytes still to copy
/// at the current rate, unknown while the rate is 0 or once everything is done.
pub fn clone_progress(bytes_done: u64, bytes_total: u64, rate_bps: u64) -> (p: CloneProgress)
    ensures
        p.bytes_done == bytes_done,
        p.bytes_total == bytes_total,
        p.rate_bps == rate_bps,
        p.eta_secs == (if rate_bps > 0 && bytes_total > bytes_done {
            Some(((bytes_total - bytes_done) / (rate_bps as int)) as u64)
        } else {
            None
        }),
{
    let eta_secs = if rate_bps > 0 && bytes_total > bytes_done {
        Some((bytes_total - bytes_done) / rate_bps)
    } else {
        None
    };
    CloneProgress { bytes_done, bytes_total, rate_bps, eta_secs }
}

/// The progress report of a wipe step: the time left is what remained before
/// the step at the current rate, unknown while the rate is 0.
pub fn wipe_progress(bytes_done: u64, bytes_total: u64, rate_bps: u64, remaining: u64) -> (p: CloneProgress)
    ensures
        p.bytes_done == bytes_done,
        p.bytes_total == bytes_total,
        p.rate_bps == rate_bps,
        p.eta_secs == (if rate_bps > 0 { Some((remaining / rate_bps) as u64) } else { None }),
{
    let eta_secs = if rate_bps > 0 { Some(remaining / rate_bps) } else { None };
    CloneProgress { bytes_done, bytes_total, rate_bps, eta_secs }
}

/// A wipe in progress: the passes it runs, the pass under way, the size of
/// the device and how far the current pass has come.
#[derive(Debug)]
pub struct WipeJob {
    pub passes: Vec<WipePass>,
    pub pass: usize,
    pub device_size: u64,
    pub bytes_done: u64,
}

/// What a wipe does next.
#[derive(Debug, Clone, Copy, PartialEq, Eq, Structural)]
pub enum WipeStep {
    /// Write `len` bytes of the pass's data at byte `offset` of the device
    Write { pass: WipePass, offset: u64, len: usize },
    /// Every pass is complete
    Finished,
}

/// The length of the next write of a pass over `size` bytes that has
/// covered `done` bytes: what is left, at most one block.
pub open spec fn chunk_len(size: u64, done: u64) -> usize {
    if size <= done {
        0usize
    } else if (((size - done) as u64) as usize) < IO_BLOCK {
        ((size - done) as u64) as usize
    } else {
        IO_BLOCK
    }
}

/// Where a wipe stands, as (pass under way, bytes of it done), after one
/// more write over a device of `size` bytes with `n` passes: `Some(w)` when
/// the write covered `w` bytes, `None` when it failed. A failure stops the
/// wipe; a write of nothing, or one that reaches the end of the device,
/// completes the pass; a finished wipe stays as it is.
pub open spec fn wipe_progress_after(n: nat, size: nat, at: (nat, nat), outcome: Option<nat>) -> (nat, nat) {
    match outcome {
        None => (n, 0),
        Some(w) => if at.0 >= n {
            at
        } else if w == 0 || at.1 + w >= size {
            (at.0 + 1, 0)
        } else {
            (at.0, at.1 + w)
        },
    }
}

/// Where a wipe with `mode` of a device of `size` bytes starts: at the first
/// pass, or finished when there is nothing to wipe.
pub open spec fn wipe_start(mode: WipeMode, size: nat) -> (nat, nat) {
    (if size == 0 { wipe_plan(mode).len() } else { 0 }, 0)
}

/// Where a wipe with `mode` stands after the writes whose outcomes are
/// `outcomes`, in order.
pub open spec fn wipe_run(mode: WipeMode, size: nat, outcomes: Seq<Option<nat>>) -> (nat, nat)
    decreases outcomes.len(),
{
    if outcomes.len() == 0 {
        wipe_start(mode, size)
    } else {
        wipe_progress_after(wipe_plan(mode).len(), size, wipe_run(mode, size, outcomes.drop_last()), outcomes.last())
    }
}

/// A wipe runs the passes of its plan in order (for DoD: zeros, then 0xFF,
/// then random data), each to its end, and stops at the first failed write:
/// whatever the writes do, the pass under way never goes back, never runs
/// past the plan, and once a write has failed no pass is under way any more,
/// so nothing further is written.
pub proof fn lemma_wipe_runs_plan_in_order(mode: WipeMode, size: nat, outcomes: Seq<Option<nat>>, j: int, k: int)
    requires
        0 <= j <= k <= outcomes.len(),
    ensures
        wipe_run(mode, size, outcomes.take(j)).0 <= wipe_run(mode, size, outcomes.take(k)).0,
        wipe_run(mode, size, outcomes.take(k)).0 <= wipe_plan(mode).len(),
        j < k && outcomes[j] is None ==> wipe_run(mode, size, outcomes.take(k)).0 == wipe_plan(mode).len(),
    decreases k - j,
{
    let n = wipe_plan(mode).len();
    lemma_wipe_run_bounded(mode, size, outcomes.take(k));
    if j < k {
        lemma_wipe_runs_plan_in_order(mode, size, outcomes, j, k - 1);
        let prev = outcomes.take(k - 1);
        assert(outcomes.take(k).drop_last() =~= prev);
        assert(outcomes.take(k).last() == outcomes[k - 1]);
        lemma_wipe_run_bounded(mode, size, prev);
        if j == k - 1 {
            assert(wipe_run(mode, size, outcomes.take(j)) == wipe_run(mode, size, prev));
        }
    }
}

/// The pass under way never runs past the plan.
proof fn lemma_wipe_run_bounded(mode: WipeMode, size: nat, outcomes: Seq<Option<nat>>)
    ensures
        wipe_run(mode, size, outcomes).0 <= wipe_plan(mode).len(),
    decreases outcomes.len(),
{
    if outcomes.len() > 0 {
        lemma_wipe_run_bounded(mode, size, outcomes.drop_last());
    }
}

impl WipeJob {
    /// Every pass has run, or the wipe was stopped: nothing more is written.
    pub open spec fn finished(&self) -> bool {
        self.pass >= self.passes@.len()
    }

    /// A pass under way still has bytes to write.
    pub open spec fn wf(&self) -> bool {
        &&& self.pass <= self.passes@.len()
        &&& self.pass < self.passes@.len() ==> self.bytes_done < self.device_size
    }

    /// The next write of the wipe, or `Finished` once all passes are done.
    /// Each pass writes the device from its start: the write goes where the
    /// pass has come to.
    pub fn next_step(&self) -> (r: WipeStep)
        requires
            self.wf(),
        ensures
            self.finished() ==> r == WipeStep::Finished,
            !self.finished() ==> r == (WipeStep::Write {
                pass: self.passes@[self.pass as int],
                offset: self.bytes_done,
                len: chunk_len(self.device_size, self.bytes_done),
            }),
            r matches WipeStep::Write { len, .. } ==> len <= IO_BLOCK,
    {
        if self.pass >= self.passes.len() {
            WipeStep::Finished
        } else {
            let len = wipe_chunk_len(self.device_size, self.bytes_done);
            WipeStep::Write { pass: self.passes[self.pass], offset: self.bytes_done, len }
        }
    }

    /// Records that the last write covered `written` bytes: a write of
    /// nothing ends the pass early; a pass that reaches the end of the device
    /// is complete. Returns the progress report of a write that covered
    /// something: the bytes of this pass done so far, out of the device size,
    /// at `rate_bps`, with the time left from what remained before the write.
    pub fn record_write(&mut self, written: usize, rate_bps: u64) -> (r: Option<CloneProgress>)
        requires
            old(self).wf(),
            old(self).pass < old(self).passes@.len(),
            written <= chunk_len(old(self).device_size, old(self).bytes_done),
        ensures
            final(self).wf(),
            final(self).passes == old(self).passes,
            final(self).device_size == old(self).device_size,
            (final(self).pass as nat, final(self).bytes_done as nat) == wipe_progress_after(
                old(self).passes@.len(),
                old(self).device_size as nat,
                (old(self).pass as nat, old(self).bytes_done as nat),
                Some(written as nat),
            ),
            ({
                let done = old(self).bytes_done + written;
                let remaining = old(self).device_size - old(self).bytes_done;
                if written == 0 {
                    &&& r is None
                    &&& final(self).pass == old(self).pass + 1
                    &&& final(self).bytes_done == 0
                } else {
                    &&& r == Some(CloneProgress {
                        bytes_done: done as u64,
                        bytes_total: old(self).device_size,
                        rate_bps,
                        eta_secs: if rate_bps > 0 { Some((remaining / (rate_bps as int)) as u64) } else { None },
                    })
                    &&& if done == old(self).device_size {
                        final(self).pass == old(self).pass + 1 && final(self).bytes_done == 0
                    } else {
                        final(self).pass == old(self).pass && final(self).bytes_done == done
                    }
                }
            }),
    {
        let count = self.passes.len();
        assert(self.pass < count);
        if written == 0 {
            self.pass = self.pass + 1;
            self.bytes_done = 0;
            return None;
        }
        let remaining = self.device_size - self.bytes_done;
        let done = self.bytes_done + written as u64;
        let report = wipe_progress(done, self.device_size, rate_bps, remaining);
        if done == self.device_size {
            self.pass = self.pass + 1;
            self.bytes_done = 0;
        } else {
            self.bytes_done = done;
        }
        Some(report)
    }

    /// Records that the last write, or what the pass needed before it,
    /// failed: the wipe stops there, and no later pass runs.
    pub fn record_error(&mut self)
        requires
            old(self).wf(),
        ensures
            final(self).wf(),
            final(self).finished(),
            final(self).passes == old(self).passes,
            final(self).device_size == old(self).device_size,
            final(self).bytes_done == 0,
            (final(self).pass as nat, final(self).bytes_done as nat) == wipe_progress_after(
                old(self).passes@.len(),
                old(self).device_size as nat,
                (old(self).pass as nat, old(self).bytes_done as nat),
                None,
            ),
    {
        self.pass = self.passes.len();
        self.bytes_done = 0;
    }
}

/// Starts wiping a device of `device_size` bytes with `mode`: the job says
/// which write comes next (`next_step`) and takes back how much each write
/// covered (`record_write`). A device of size 0 has nothing to wipe.
pub fn wipe_partition(mode: WipeMode, device_size: u64) -> (j: WipeJob)
    ensures
        j.wf(),
        j.passes@ == wipe_plan(mode),
        j.device_size == device_size,
        j.bytes_done == 0,
        j.pass == (if device_size == 0 { wipe_plan(mode).len() as usize } else { 0 }),
        (j.pass as nat, j.bytes_done as nat) == wipe_start(mode, device_size as nat),
{
    let passes = wipe_passes(mode);
    let pass = if device_size == 0 { passes.len() } else { 0 };
    WipeJob { passes, pass, device_size, bytes_done: 0 }
}

} // verus!
