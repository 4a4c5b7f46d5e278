//! Aggregate disk I/O counters from the kernel's `/proc/diskstats` table.

use vstd::prelude::*;
use crate::devices::{is_physical_drive, physical_drive};
use crate::text::{chars_of, lines, parse_unsigned, parse_unsigned_exec, split_lines, split_words,
    string_from_chars, vecs_view, words};

verus! {

#[verifier::external_type_specification]
#[verifier::external_body]
pub struct ExInstant(std::time::Instant);

/// A snapshot of `/proc/diskstats` for all block devices.
#[derive(Debug, Clone, Copy)]
pub struct DiskStats {
    /// Total 512-byte sectors read across all physical drives
    pub sectors_read: u64,
    /// Total 512-byte sectors written across all physical drives
    pub sectors_written: u64,
    /// Timestamp when this snapshot was taken
    pub timestamp: std::time::Instant,
}

/// `a + b`, saturating at `u64::MAX`.
pub open spec fn sat_add(a: nat, b: nat) -> nat {
    if a + b > u64::MAX { u64::MAX as nat } else { a + b }
}

/// Column `k` of a line parsed as a `u64` (0 when it is not a number).
pub open spec fn column_u64(ws: Seq<Seq<char>>, k: int) -> nat {
    match parse_unsigned(ws[k], u64::MAX as nat) {
        Some(v) => v,
        None => 0,
    }
}

/// Sectors read and written (columns 5 and 9) summed over the lines that
/// have at least 10 columns and name a physical drive in column 2.
pub open spec fn diskstats_totals(ls: Seq<Seq<char>>) -> (nat, nat)
    decreases ls.len(),
{
    if ls.len() == 0 {
        (0, 0)
    } else {
        let (r, w) = diskstats_totals(ls.drop_last());
        let ws = words(ls.last());
        if ws.len() < 10 || !physical_drive(ws[2]) {
            (r, w)
        } else {
            (sat_add(r, column_u64(ws, 5)), sat_add(w, column_u64(ws, 9)))
        }
    }
}

fn column_u64_exec(ws: &Vec<Vec<char>>, k: usize) -> (r: u64)
    requires
        k < ws@.len(),
    ensures
        r as nat == column_u64(vecs_view(ws@), k as int),
{
    match parse_unsigned_exec(&ws[k], u64::MAX) {
        Some(v) => v,
        None => 0,
    }
}

/// `Instant::now`.
/// Trusted: returns the current instant of the monotonic clock; nothing is
/// stated of its value.
#[verifier::external_body]
fn now() -> (t: std::time::Instant) {
    std::time::Instant::now()
}

impl DiskStats {
    /// The snapshot of the kernel's disk counters taken now, from the
    /// contents of `/proc/diskstats` (empty when it cannot be read, which
    /// gives zero counters).
    pub fn read(diskstats: &str) -> (s: DiskStats)
        ensures
            (s.sectors_read as nat, s.sectors_written as nat) == diskstats_totals(lines(diskstats@)),
    {
        DiskStats::parse(diskstats, now())
    }

    /// Sectors read and written since the snapshot `prev`, each saturating
    /// at zero when a counter went backwards.
    pub fn sector_deltas(&self, prev: &DiskStats) -> (r: (u64, u64))
        ensures
            r.0 == (if self.sectors_read >= prev.sectors_read { self.sectors_read - prev.sectors_read } else { 0 }),
            r.1 == (if self.sectors_written >= prev.sectors_written {
                self.sectors_written - prev.sectors_written
            } else {
                0
            }),
    {
        (self.sectors_read.saturating_sub(prev.sectors_read), self.sectors_written.saturating_sub(prev.sectors_written))
    }

    /// A snapshot from the contents of `/proc/diskstats` taken at `timestamp`.
    pub fn parse(content: &str, timestamp: std::time::Instant) -> (s: DiskStats)
        ensures
            (s.sectors_read as nat, s.sectors_written as nat) == diskstats_totals(lines(content@)),
            s.timestamp == timestamp,
    {
        let c = chars_of(content);
        let ls = split_lines(&c);
        let ghost all = vecs_view(ls@);
        let mut sectors_read: u64 = 0;
        let mut sectors_written: u64 = 0;
        for i in 0..ls.len()
            invariant
                all == vecs_view(ls@),
                all == lines(content@),
                (sectors_read as nat, sectors_written as nat) == diskstats_totals(all.take(i as int)),
        {
            assert(all.take(i + 1).drop_last() == all.take(i as int));
            assert(all.take(i + 1).last() == ls@[i as int]@);
            let parts = split_words(&ls[i]);
            if parts.len() >= 10 {
                let name = string_from_chars(&parts[2]);
                if is_physical_drive(name.as_str()) {
                    let rd = column_u64_exec(&parts, 5);
                    let wr = column_u64_exec(&parts, 9);
                    sectors_read = sectors_read.saturating_add(rd);
                    sectors_written = sectors_written.saturating_add(wr);
                }
            }
        }
        assert(all.take(all.len() as int) == all);
        DiskStats { sectors_read, sectors_written, timestamp }
    }
}

} // verus!
