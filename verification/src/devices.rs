//! Block-device naming rules: which kernel devices are listed, which names
//! are whole drives, and the parent drive of a partition.

use vstd::prelude::*;
use crate::text::{chars_of, char_is_digit, contains_char, is_digit, parse_unsigned, parse_unsigned_exec, starts_with, starts_with_exec, starts_with_str, string_from_chars, trim_end_digits};

verus! {

/// Kernel names of virtual or irrelevant block devices (loop, RAM disks,
/// zram, device-mapper, optical and floppy drives).
pub open spec fn is_virtual_device(name: Seq<char>) -> bool {
    starts_with(name, "loop"@) || starts_with(name, "ram"@) || starts_with(name, "zram"@)
        || starts_with(name, "dm-"@) || starts_with(name, "sr"@) || starts_with(name, "fd"@)
}

/// Whether the drive list skips the block device `name`.
pub fn should_skip_device(name: &str) -> (r: bool)
    ensures
        r == is_virtual_device(name@),
{
    let n = chars_of(name);
    starts_with_str(&n, "loop") || starts_with_str(&n, "ram") || starts_with_str(&n, "zram")
        || starts_with_str(&n, "dm-") || starts_with_str(&n, "sr") || starts_with_str(&n, "fd")
}

/// The part of `s` after its last `p` (all of `s` when it has none).
pub open spec fn after_last_p(s: Seq<char>) -> Seq<char>
    decreases s.len(),
{
    if s.len() == 0 {
        s
    } else if s.last() == 'p' {
        Seq::empty()
    } else {
        after_last_p(s.drop_last()).push(s.last())
    }
}

/// `s` with every leading copy of the non-empty `prefix` removed.
pub open spec fn trim_start_prefix(s: Seq<char>, prefix: Seq<char>) -> Seq<char>
    decreases s.len(),
{
    if prefix.len() > 0 && starts_with(s, prefix) {
        trim_start_prefix(s.skip(prefix.len() as int), prefix)
    } else {
        s
    }
}

/// `s` parses as a `u32`.
pub open spec fn parses_u32(s: Seq<char>) -> bool {
    parse_unsigned(s, 0xFFFF_FFFF) is Some
}

/// Whether `name` is a whole physical drive rather than a partition or a
/// virtual device: NVMe drives have no `p<number>` suffix, MMC drives have no
/// `p<number>` after the `mmcblk` prefix, other drives do not end in a digit.
pub open spec fn physical_drive(name: Seq<char>) -> bool {
    if starts_with(name, "loop"@) || starts_with(name, "ram"@) || starts_with(name, "dm-"@)
        || starts_with(name, "sr"@) || starts_with(name, "fd"@) || starts_with(name, "zram"@) {
        false
    } else if starts_with(name, "nvme"@) {
        !name.contains('p') || !parses_u32(after_last_p(name))
    } else if starts_with(name, "mmcblk"@) {
        let suffix = trim_start_prefix(name, "mmcblk"@);
        !(suffix.contains('p') && parses_u32(after_last_p(suffix)))
    } else {
        !(name.len() > 0 && is_digit(name.last()))
    }
}

/// The characters after the last `p`.
fn after_last_p_exec(s: &[char]) -> (r: Vec<char>)
    ensures
        r@ == after_last_p(s@),
{
    let mut r: Vec<char> = Vec::new();
    for i in 0..s.len()
        invariant
            r@ == after_last_p(s@.take(i as int)),
    {
        assert(s@.take(i + 1).drop_last() == s@.take(i as int));
        if s[i] == 'p' {
            r = Vec::new();
        } else {
            r.push(s[i]);
        }
    }
    assert(s@.take(s@.len() as int) == s@);
    r
}

/// `s` with leading copies of `prefix` removed.
fn trim_start_prefix_exec(s: &[char], prefix: &[char]) -> (r: Vec<char>)
    ensures
        r@ == trim_start_prefix(s@, prefix@),
{
    let mut start: usize = 0;
    assert(s@.skip(0) == s@);
    if prefix.len() > 0 {
        loop
            invariant
                start <= s@.len(),
                prefix@.len() > 0,
                trim_start_prefix(s@, prefix@) == trim_start_prefix(s@.skip(start as int), prefix@),
            ensures
                start <= s@.len(),
                trim_start_prefix(s@, prefix@) == s@.skip(start as int),
            decreases s@.len() - start,
        {
            let rest = slice_from(s, start);
            if starts_with_exec(rest.as_slice(), prefix) {
                assert(rest@.len() == s@.len() - start);
                assert(rest@.len() >= prefix@.len());
                assert(s@.skip(start as int).skip(prefix@.len() as int) == s@.skip(start + prefix@.len()));
                let plen = prefix.len();
                let slen = s.len();
                assert(start + plen <= slen);
                start = start + plen;
            } else {
                break;
            }
        }
    }
    slice_from(s, start)
}

/// The characters of `s` from index `start` on.
pub fn slice_from(s: &[char], start: usize) -> (r: Vec<char>)
    requires
        start <= s@.len(),
    ensures
        r@ == s@.skip(start as int),
{
    let mut r: Vec<char> = Vec::new();
    let mut i = start;
    while i < s.len()
        invariant
            start <= i <= s@.len(),
            r@ == s@.subrange(start as int, i as int),
        decreases s@.len() - i,
    {
        r.push(s[i]);
        i += 1;
    }
    r
}

/// Whether `s` parses as a `u32`.
fn parses_u32_exec(s: &[char]) -> (r: bool)
    ensures
        r == parses_u32(s@),
{
    parse_unsigned_exec(s, 0xFFFF_FFFF).is_some()
}

/// Returns true for top-level physical block devices (not partition sub-entries).
pub fn is_physical_drive(name: &str) -> (r: bool)
    ensures
        r == physical_drive(name@),
{
    let n = chars_of(name);
    if starts_with_str(&n, "loop") || starts_with_str(&n, "ram") || starts_with_str(&n, "dm-")
        || starts_with_str(&n, "sr") || starts_with_str(&n, "fd") || starts_with_str(&n, "zram") {
        return false;
    }
    if starts_with_str(&n, "nvme") {
        return !contains_char(&n, 'p') || !parses_u32_exec(after_last_p_exec(&n).as_slice());
    }
    if starts_with_str(&n, "mmcblk") {
        let pre = chars_of("mmcblk");
        let suffix = trim_start_prefix_exec(&n, pre.as_slice());
        return !(contains_char(&suffix, 'p') && parses_u32_exec(after_last_p_exec(&suffix).as_slice()));
    }
    !(n.len() > 0 && char_is_digit(n[n.len() - 1]))
}

/// The parent drive of a partition name: the trailing partition digits are
/// removed, and with them the `p` that separates them from a drive name that
/// itself ends in a digit (NVMe `nvme0n1p2`, MMC `mmcblk0p1`). A `p` that
/// belongs to the drive's own name (`sdp1`) stays.
pub open spec fn parent_drive_name(dev: Seq<char>) -> Seq<char> {
    let without = trim_end_digits(dev);
    if without.len() > 1 && without.last() == 'p' && is_digit(without[without.len() - 2]) {
        without.drop_last()
    } else {
        without
    }
}

/// `s` without its trailing digits.
fn trim_end_digits_exec(s: &[char]) -> (r: Vec<char>)
    ensures
        r@ == trim_end_digits(s@),
{
    let mut end = s.len();
    assert(s@.take(end as int) == s@);
    while end > 0 && char_is_digit(s[end - 1])
        invariant
            end <= s@.len(),
            trim_end_digits(s@) == trim_end_digits(s@.take(end as int)),
        decreases end,
    {
        assert(s@.take(end as int).drop_last() == s@.take(end - 1));
        end -= 1;
    }
    let mut r: Vec<char> = Vec::new();
    for i in 0..end
        invariant
            end <= s@.len(),
            r@ == s@.take(i as int),
    {
        r.push(s[i]);
        assert(s@.take(i + 1) == s@.take(i as int).push(s@[i as int]));
    }
    r
}

/// Strip trailing partition digit(s) to get the parent drive name,
/// e.g. "sda1" → "sda", "nvme0n1p2" → "nvme0n1", "mmcblk0p1" → "mmcblk0",
/// "sdp1" → "sdp".
pub fn drive_name_from_partition(dev: &str) -> (r: String)
    ensures
        r@ == parent_drive_name(dev@),
{
    let d = chars_of(dev);
    let without = trim_end_digits_exec(&d);
    let n = without.len();
    if n > 1 && without[n - 1] == 'p' && char_is_digit(without[n - 2]) {
        let mut t = without;
        t.pop();
        return string_from_chars(&t);
    }
    string_from_chars(&without)
}

/// Whether `name` is a partition entry of drive `drive`: it extends the
/// drive name with a suffix that holds at least one digit.
pub open spec fn partition_of(drive: Seq<char>, name: Seq<char>) -> bool {
    starts_with(name, drive) && name != drive && exists|i: int|
        drive.len() <= i < name.len() && is_digit(#[trigger] name[i])
}

/// Whether the sysfs entry `name` inside drive `drive`'s directory is one of
/// its partitions.
pub fn is_partition_of(drive: &str, name: &str) -> (r: bool)
    ensures
        r == partition_of(drive@, name@),
{
    let d = chars_of(drive);
    let n = chars_of(name);
    if !starts_with_exec(&n, &d) || n.len() == d.len() {
        proof {
            if starts_with(n@, d@) && n@.len() == d@.len() {
                assert(n@ =~= d@);
            }
        }
        return false;
    }
    let mut i = d.len();
    while i < n.len()
        invariant
            d@.len() <= i <= n@.len(),
            d@ == drive@,
            n@ == name@,
            starts_with(n@, d@),
            n@.len() != d@.len(),
            forall|k: int| d@.len() <= k < i ==> !is_digit(#[trigger] n@[k]),
        decreases n@.len() - i,
    {
        if char_is_digit(n[i]) {
            assert(n@ != d@);
            assert(is_digit(n@[i as int]));
            return true;
        }
        i += 1;
    }
    false
}

} // verus!
