//! File content viewer: plain text or a hex dump of the first bytes of a file.

use vstd::prelude::*;
use vstd::utf8::{valid_utf8, decode_utf8};
use crate::text::push_char;
use crate::units::size_text;
use crate::drives::format_size;

verus! {

/// How to view a file.
#[derive(Debug, Clone, Copy, PartialEq, Eq, Structural)]
pub enum ViewMode {
    /// Plain text (UTF-8)
    Text,
    /// Hex dump with ASCII column
    Hex,
    /// Binary blob (no rendering)
    Binary,
}

/// A single line of a hex dump.
#[derive(Debug, Clone)]
pub struct HexLine {
    pub offset: u64,
    pub bytes: Vec<u8>,
}

/// A chunk of viewed file content.
#[derive(Debug, Clone)]
pub struct ViewedContent {
    pub mode: ViewMode,
    /// Plain text content (for Text mode)
    pub text: Option<String>,
    /// Hex dump lines (for Hex mode)
    pub hex_lines: Vec<HexLine>,
    /// Total file size in bytes
    pub file_size: u64,
    /// How many bytes were actually read
    pub bytes_read: usize,
    /// Whether the file was truncated (more bytes available)
    pub truncated: bool,
}

/// Uppercase hexadecimal digit for `d` (`0..16`).
pub open spec fn hex_digit(d: int) -> char {
    if d < 10 { ((d + 48) as u8) as char } else { ((d + 55) as u8) as char }
}

/// A byte as two uppercase hex digits (`{:02X}`).
pub open spec fn hex_byte(b: u8) -> Seq<char> {
    seq![hex_digit(b as int / 16), hex_digit(b as int % 16)]
}

/// The bytes in hex, separated by single spaces.
pub open spec fn hex_join(bytes: Seq<u8>) -> Seq<char>
    decreases bytes.len(),
{
    if bytes.len() == 0 {
        Seq::empty()
    } else if bytes.len() == 1 {
        hex_byte(bytes[0])
    } else {
        hex_join(bytes.drop_last()) + seq![' '] + hex_byte(bytes.last())
    }
}

/// The value of an uppercase hexadecimal digit (`-1` for any other
/// character).
pub open spec fn hex_value(c: char) -> int {
    if '0' <= c && c <= '9' {
        c as int - 48
    } else if 'A' <= c && c <= 'F' {
        c as int - 55
    } else {
        -1
    }
}

/// Each digit reads back as the value it was written for.
proof fn lemma_hex_digit_value(d: int)
    requires
        0 <= d < 16,
    ensures
        hex_value(hex_digit(d)) == d,
{
}

/// The hex text of a line reads back as its bytes: it is empty for no bytes
/// and otherwise `3n - 1` characters long; byte `i` is the pair of uppercase
/// hex digits at `3i`, and a single space separates each pair from the next.
pub proof fn lemma_hex_round_trip(bytes: Seq<u8>)
    ensures
        hex_join(bytes).len() == (if bytes.len() == 0 { 0 } else { 3 * bytes.len() - 1 }),
        forall|i: int| 0 <= i < bytes.len() ==>
            16 * hex_value(#[trigger] hex_join(bytes)[3 * i]) + hex_value(hex_join(bytes)[3 * i + 1]) == bytes[i],
        forall|i: int| 0 <= i < bytes.len() - 1 ==> #[trigger] hex_join(bytes)[3 * i + 2] == ' ',
    decreases bytes.len(),
{
    let n = bytes.len();
    if n == 0 {
        return;
    }
    let b = bytes.last();
    lemma_hex_digit_value(b as int / 16);
    lemma_hex_digit_value(b as int % 16);
    if n == 1 {
        return;
    }
    let pre = bytes.drop_last();
    lemma_hex_round_trip(pre);
    let h = hex_join(bytes);
    let hp = hex_join(pre);
    assert(h == hp + seq![' '] + hex_byte(b));
    assert forall|i: int| 0 <= i < n implies
        16 * hex_value(#[trigger] h[3 * i]) + hex_value(h[3 * i + 1]) == bytes[i] by {
        if i < n - 1 {
            assert(h[3 * i] == hp[3 * i]);
            assert(h[3 * i + 1] == hp[3 * i + 1]);
            assert(bytes[i] == pre[i]);
        } else {
            assert(h[3 * i] == hex_digit(b as int / 16));
            assert(h[3 * i + 1] == hex_digit(b as int % 16));
        }
    }
    assert forall|i: int| 0 <= i < n - 1 implies #[trigger] h[3 * i + 2] == ' ' by {
        if i < n - 2 {
            assert(h[3 * i + 2] == hp[3 * i + 2]);
        }
    }
}

/// A byte as shown in the ASCII column: printable ASCII (space to `~`)
/// as itself, anything else as `.`.
pub open spec fn ascii_cell(b: u8) -> char {
    if 0x20 <= b <= 0x7E { b as char } else { '.' }
}

fn hex_digit_exec(d: u8) -> (c: char)
    requires
        d < 16,
    ensures
        c == hex_digit(d as int),
{
    if d < 10 { (d + 48) as char } else { (d + 55) as char }
}

impl HexLine {
    /// Returns the hex representation, e.g. "48 65 6C 6C 6F"
    pub fn hex_str(&self) -> (s: String)
        ensures
            s@ == hex_join(self.bytes@),
    {
        let mut s = String::new();
        for i in 0..self.bytes.len()
            invariant
                s@ == hex_join(self.bytes@.take(i as int)),
        {
            let b = self.bytes[i];
            assert(self.bytes@.take(i + 1).drop_last() == self.bytes@.take(i as int));
            if i > 0 {
                push_char(&mut s, ' ');
            }
            push_char(&mut s, hex_digit_exec(b / 16));
            push_char(&mut s, hex_digit_exec(b % 16));
            assert(s@ == hex_join(self.bytes@.take(i + 1)));
        }
        assert(self.bytes@.take(self.bytes@.len() as int) == self.bytes@);
        s
    }

    /// Returns the ASCII representation, replacing non-printable with '.'
    pub fn ascii_str(&self) -> (s: String)
        ensures
            s@ == self.bytes@.map_values(|b: u8| ascii_cell(b)),
    {
        let mut s = String::new();
        for i in 0..self.bytes.len()
            invariant
                s@ == self.bytes@.take(i as int).map_values(|b: u8| ascii_cell(b)),
        {
            let b = self.bytes[i];
            let c = if 0x20 <= b && b <= 0x7E { b as char } else { '.' };
            push_char(&mut s, c);
            assert(self.bytes@.take(i + 1).map_values(|b: u8| ascii_cell(b))
                =~= self.bytes@.take(i as int).map_values(|b: u8| ascii_cell(b)).push(ascii_cell(b)));
        }
        assert(self.bytes@.take(self.bytes@.len() as int) == self.bytes@);
        s
    }
}

/// Maximum bytes to read in one view operation (prevents RAM exhaustion).
pub const MAX_VIEW_BYTES: usize = 524288;

/// `std::str::from_utf8(buf).is_ok()`.
/// Trusted: the standard library accepts exactly the well-formed UTF-8 byte
/// sequences, which `valid_utf8` defines.
#[verifier::external_body]
fn is_valid_utf8(buf: &[u8]) -> (r: bool)
    ensures
        r == valid_utf8(buf@),
{
    std::str::from_utf8(buf).is_ok()
}

/// `String::from_utf8_lossy` on well-formed UTF-8.
/// Trusted: on valid input no replacement happens and the characters are the
/// ones the bytes encode.
#[verifier::external_body]
fn decode_text(buf: &[u8]) -> (s: String)
    requires
        valid_utf8(buf@),
    ensures
        s@ == decode_utf8(buf@),
{
    String::from_utf8_lossy(buf).into_owned()
}

/// The number of bytes above `0x7E` in `buf`.
pub open spec fn count_high(buf: Seq<u8>) -> nat
    decreases buf.len(),
{
    if buf.len() == 0 {
        0
    } else {
        count_high(buf.drop_last()) + if buf.last() > 0x7E { 1nat } else { 0nat }
    }
}

/// The text heuristic: empty buffers are text; a NUL byte means binary;
/// otherwise the bytes must be valid UTF-8 with fewer than 5% of them
/// above `0x7E`.
pub open spec fn looks_like_text(buf: Seq<u8>) -> bool {
    buf.len() == 0 || (!buf.contains(0u8) && valid_utf8(buf) && 20 * count_high(buf) < buf.len())
}

/// The bytes above `0x7E` counted one by one are those the filter keeps.
proof fn lemma_count_high_filter(buf: Seq<u8>)
    ensures
        count_high(buf) == buf.filter(|b: u8| b > 0x7E).len(),
    decreases buf.len(),
{
    if buf.len() > 0 {
        let pre = buf.drop_last();
        lemma_count_high_filter(pre);
        assert(buf == pre.push(buf.last()));
        pre.lemma_filter_push(buf.last(), |b: u8| b > 0x7E);
    }
}

/// When a buffer counts as text: an empty one always; otherwise exactly when
/// it holds no NUL byte anywhere, is well-formed UTF-8, and fewer than one
/// byte in twenty lies above `0x7E`. A NUL byte, at any position, makes it
/// binary.
pub proof fn lemma_text_rules(buf: Seq<u8>)
    ensures
        buf.len() == 0 ==> looks_like_text(buf),
        buf.contains(0u8) ==> !looks_like_text(buf),
        (exists|i: int| 0 <= i < buf.len() && buf[i] == 0u8) ==> !looks_like_text(buf),
        buf.len() > 0 ==> (looks_like_text(buf) <==> (
            (forall|i: int| 0 <= i < buf.len() ==> buf[i] != 0u8)
            && valid_utf8(buf)
            && 20 * buf.filter(|b: u8| b > 0x7E).len() < buf.len())),
{
    lemma_count_high_filter(buf);
    if exists|i: int| 0 <= i < buf.len() && buf[i] == 0u8 {
        let i = choose|i: int| 0 <= i < buf.len() && buf[i] == 0u8;
        assert(buf.contains(0u8));
    }
    if buf.len() > 0 && (forall|i: int| 0 <= i < buf.len() ==> buf[i] != 0u8) {
        assert(!buf.contains(0u8));
    }
}

/// Returns `true` if the buffer looks like UTF-8 text (fewer than 5% of its
/// bytes above `0x7E`, compared exactly).
pub fn is_text_content(buf: &[u8]) -> (r: bool)
    ensures
        r == looks_like_text(buf@),
        buf@.contains(0u8) ==> !r,
        r && buf@.len() > 0 ==> valid_utf8(buf@),
{
    if buf.len() == 0 {
        return true;
    }
    let mut high: usize = 0;
    for i in 0..buf.len()
        invariant
            high == count_high(buf@.take(i as int)),
            high <= i,
            forall|k: int| 0 <= k < i ==> buf@[k] != 0u8,
    {
        if buf[i] == 0 {
            assert(buf@.contains(0u8));
            return false;
        }
        assert(buf@.take(i + 1).drop_last() == buf@.take(i as int));
        if buf[i] > 0x7E {
            high += 1;
        }
    }
    assert(buf@.take(buf@.len() as int) == buf@);
    assert(!buf@.contains(0u8));
    is_valid_utf8(buf) && (high as u128) * 20 < (buf.len() as u128)
}

/// The hex dump of `buf`: lines of 16 bytes (the last may be shorter), each
/// with the offset of its first byte.
pub open spec fn hex_dump_line(buf: Seq<u8>, k: int) -> (u64, Seq<u8>) {
    let end = if 16 * k + 16 <= buf.len() { 16 * k + 16 } else { buf.len() as int };
    ((16 * k) as u64, buf.subrange(16 * k, end))
}

/// The bytes of a hex dump, line after line.
pub open spec fn dump_bytes(lines: Seq<HexLine>) -> Seq<u8>
    decreases lines.len(),
{
    if lines.len() == 0 {
        Seq::empty()
    } else {
        dump_bytes(lines.drop_last()) + lines.last().bytes@
    }
}

proof fn lemma_dump_prefix(buf: Seq<u8>, lines: Seq<HexLine>, k: int)
    requires
        0 <= k <= lines.len(),
        lines.len() == (buf.len() + 15) / 16,
        forall|i: int| 0 <= i < lines.len() ==> (#[trigger] lines[i].offset, lines[i].bytes@) == hex_dump_line(buf, i),
    ensures
        dump_bytes(lines.take(k)) == buf.take(if 16 * k <= buf.len() { 16 * k } else { buf.len() as int }),
    decreases k,
{
    if k == 0 {
        assert(lines.take(0) =~= Seq::<HexLine>::empty());
        assert(buf.take(0) =~= Seq::<u8>::empty());
    } else {
        lemma_dump_prefix(buf, lines, k - 1);
        assert(lines.take(k).drop_last() =~= lines.take(k - 1));
        assert(lines.take(k).last() == lines[k - 1]);
        assert((lines[k - 1].offset, lines[k - 1].bytes@) == hex_dump_line(buf, k - 1));
        let end = if 16 * k <= buf.len() { 16 * k } else { buf.len() as int };
        let n = buf.len() as int;
        assert(16 * (k - 1) < n) by (nonlinear_arith)
            requires
                1 <= k <= (n + 15) / 16,
                n >= 0,
        ;
        assert(buf.take(end) =~= buf.take(16 * (k - 1)) + buf.subrange(16 * (k - 1), end));
    }
}

/// A hex dump shows every byte of the buffer once, in order: its lines,
/// laid end to end, are the buffer, and line `k` starts at offset `16 k`.
pub proof fn lemma_hex_dump_covers(buf: Seq<u8>, lines: Seq<HexLine>)
    requires
        buf.len() <= u64::MAX,
        lines.len() == (buf.len() + 15) / 16,
        forall|i: int| 0 <= i < lines.len() ==> (#[trigger] lines[i].offset, lines[i].bytes@) == hex_dump_line(buf, i),
    ensures
        dump_bytes(lines) == buf,
        forall|i: int| 0 <= i < lines.len() ==> #[trigger] lines[i].offset == 16 * i,
{
    lemma_dump_prefix(buf, lines, lines.len() as int);
    assert(lines.take(lines.len() as int) =~= lines);
    assert(buf.take(buf.len() as int) =~= buf);
    assert forall|i: int| 0 <= i < lines.len() implies #[trigger] lines[i].offset == 16 * i by {
        assert((lines[i].offset, lines[i].bytes@) == hex_dump_line(buf, i));
        let n = buf.len() as int;
        assert(16 * i < n) by (nonlinear_arith)
            requires
                0 <= i < (n + 15) / 16,
                n >= 0,
        ;
    }
}

/// Build a hex dump from raw bytes (16 bytes per line).
pub fn build_hex_dump(buf: &[u8]) -> (lines: Vec<HexLine>)
    ensures
        lines@.len() == (buf@.len() + 15) / 16,
        forall|k: int| 0 <= k < lines@.len() ==>
            (#[trigger] lines@[k].offset, lines@[k].bytes@) == hex_dump_line(buf@, k),
{
    let mut lines: Vec<HexLine> = Vec::new();
    let mut start: usize = 0;
    while start < buf.len()
        invariant
            start <= buf@.len(),
            start < buf@.len() ==> start == 16 * lines@.len(),
            start == buf@.len() || start == 16 * lines@.len(),
            start == buf@.len() ==> start <= 16 * lines@.len(),
            lines@.len() == (start + 15) / 16,
            forall|k: int| 0 <= k < lines@.len() ==>
                (#[trigger] lines@[k].offset, lines@[k].bytes@) == hex_dump_line(buf@, k),
        decreases buf@.len() - start,
    {
        let end = if buf.len() - start >= 16 { start + 16 } else { buf.len() };
        let mut bytes: Vec<u8> = Vec::new();
        let mut j = start;
        while j < end
            invariant
                start <= j <= end <= buf@.len(),
                bytes@ == buf@.subrange(start as int, j as int),
            decreases end - j,
        {
            bytes.push(buf[j]);
            j += 1;
        }
        let ghost k = lines@.len() as int;
        lines.push(HexLine { offset: start as u64, bytes });
        assert(hex_dump_line(buf@, k).1 == buf@.subrange(start as int, end as int));
        start = end;
    }
    lines
}

/// The number of bytes the viewer reads of a file of `file_size` bytes.
pub fn view_read_len(file_size: u64) -> (n: usize)
    ensures
        n == (if (file_size as usize) < MAX_VIEW_BYTES { file_size as usize } else { MAX_VIEW_BYTES }),
{
    let size = file_size as usize;
    if size < MAX_VIEW_BYTES { size } else { MAX_VIEW_BYTES }
}

/// Renders the bytes read from a file of `file_size` bytes: text when they
/// look like text, otherwise a hex dump.
pub fn view_bytes(data: &[u8], file_size: u64) -> (v: ViewedContent)
    ensures
        v.file_size == file_size,
        v.bytes_read == data@.len(),
        v.truncated == ((file_size as usize) > MAX_VIEW_BYTES),
        data@.contains(0u8) ==> v.mode == ViewMode::Hex && v.text is None,
        looks_like_text(data@) ==> {
            &&& v.mode == ViewMode::Text
            &&& v.text matches Some(t) && t@ == decode_utf8(data@)
            &&& v.hex_lines@.len() == 0
        },
        !looks_like_text(data@) ==> {
            &&& v.mode == ViewMode::Hex
            &&& v.text is None
            &&& v.hex_lines@.len() == (data@.len() + 15) / 16
            &&& forall|k: int| 0 <= k < v.hex_lines@.len() ==>
                (#[trigger] v.hex_lines@[k].offset, v.hex_lines@[k].bytes@) == hex_dump_line(data@, k)
        },
{
    let truncated = (file_size as usize) > MAX_VIEW_BYTES;
    if is_text_content(data) {
        proof {
            if data@.len() == 0 {
                assert(data@ =~= Seq::<u8>::empty());
                assert(valid_utf8(data@));
            }
        }
        let text = decode_text(data);
        ViewedContent {
            mode: ViewMode::Text,
            text: Some(text),
            hex_lines: Vec::new(),
            file_size,
            bytes_read: data.len(),
            truncated,
        }
    } else {
        let hex_lines = build_hex_dump(data);
        ViewedContent {
            mode: ViewMode::Hex,
            text: None,
            hex_lines,
            file_size,
            bytes_read: data.len(),
            truncated,
        }
    }
}

/// What the viewer shows for a file it could not read: a line of text
/// saying so, with no size.
pub fn unreadable_content() -> (v: ViewedContent)
    ensures
        v.mode == ViewMode::Text,
        v.text matches Some(t) && t@ == "(Could not read file)"@,
        v.hex_lines@.len() == 0,
        v.file_size == 0,
        v.bytes_read == 0,
        !v.truncated,
{
    ViewedContent {
        mode: ViewMode::Text,
        text: Some(String::from_str("(Could not read file)")),
        hex_lines: Vec::new(),
        file_size: 0,
        bytes_read: 0,
        truncated: false,
    }
}

/// The cells of a hex line: each byte's two digits, padded with blank
/// cells up to 16.
pub open spec fn hex_cells(bytes: Seq<u8>) -> Seq<Seq<char>> {
    Seq::new(
        if bytes.len() < 16 { 16 } else { bytes.len() },
        |i: int| if i < bytes.len() { hex_byte(bytes[i]) } else { seq![' ', ' '] },
    )
}

/// Cells joined with single spaces.
pub open spec fn join_cells(cells: Seq<Seq<char>>) -> Seq<char>
    decreases cells.len(),
{
    if cells.len() == 0 {
        Seq::empty()
    } else if cells.len() == 1 {
        cells[0]
    } else {
        join_cells(cells.drop_last()) + seq![' '] + cells.last()
    }
}

/// The hex column of the viewer: two groups of eight cells, a wider gap
/// between them.
pub open spec fn hex_column(bytes: Seq<u8>) -> Seq<char> {
    let cells = hex_cells(bytes);
    join_cells(cells.take(8)) + seq![' ', ' '] + join_cells(cells.skip(8))
}

/// The number of hex digits `{:08X}` prints for `v`: at least 8, more
/// when `v` needs them (searching from `k` digits on).
pub open spec fn hex_width(v: nat, k: nat) -> nat
    decreases 16 - k,
{
    if k >= 16 || v < pow16(k) { k } else { hex_width(v, k + 1) }
}

proof fn lemma_pow16_le(k: nat)
    requires
        k <= 15,
    ensures
        1 <= pow16(k) <= 0x1000_0000_0000_0000,
    decreases 15 - k,
{
    if k < 15 {
        lemma_pow16_le(k + 1);
        assert(pow16(k + 1) == 16 * pow16(k));
    } else {
        assert(pow16(15) == 0x1000_0000_0000_0000) by {
            reveal_with_fuel(pow16, 16);
        }
        lemma_pow16_pos(15);
    }
}

proof fn lemma_pow16_pos(k: nat)
    ensures
        pow16(k) >= 1,
    decreases k,
{
    if k > 0 {
        lemma_pow16_pos((k - 1) as nat);
    }
}

/// `v` in uppercase hex, zero-padded to at least 8 digits (`{:08X}`).
pub open spec fn hex8(v: nat) -> Seq<char> {
    let w = hex_width(v, 8);
    Seq::new(w, |i: int| hex_digit(((v / pow16((w - 1 - i) as nat)) % 16) as int))
}

/// 16^k.
pub open spec fn pow16(k: nat) -> nat
    decreases k,
{
    if k == 0 { 1 } else { 16 * pow16((k - 1) as nat) }
}

fn hex_cell(bytes: &Vec<u8>, i: usize, s: &mut String)
    requires
        i < 16 || i < bytes@.len(),
    ensures
        final(s)@ == old(s)@ + hex_cells(bytes@)[i as int],
{
    if i < bytes.len() {
        let b = bytes[i];
        push_char(s, hex_digit_exec(b / 16));
        push_char(s, hex_digit_exec(b % 16));
        assert(final(s)@ =~= old(s)@ + hex_byte(b));
    } else {
        push_char(s, ' ');
        push_char(s, ' ');
        assert(final(s)@ =~= old(s)@ + seq![' ', ' ']);
    }
}

impl HexLine {
    /// The hex column as the viewer shows it, e.g.
    /// "48 65 6C 6C 6F" padded to 16 cells, with a double space after the
    /// eighth.
    pub fn padded_hex(&self) -> (s: String)
        ensures
            s@ == hex_column(self.bytes@),
    {
        let ghost cells = hex_cells(self.bytes@);
        let n: usize = if self.bytes.len() < 16 { 16 } else { self.bytes.len() };
        let mut s = String::new();
        for i in 0..8usize
            invariant
                cells == hex_cells(self.bytes@),
                cells.len() == n,
                n >= 16,
                s@ == join_cells(cells.take(i as int)),
        {
            if i > 0 {
                push_char(&mut s, ' ');
            }
            hex_cell(&self.bytes, i, &mut s);
            assert(cells.take(i + 1).drop_last() =~= cells.take(i as int));
            assert(cells.take(i + 1).last() == cells[i as int]);
        }
        let ghost head = s@;
        push_char(&mut s, ' ');
        push_char(&mut s, ' ');
        let ghost rest = cells.skip(8);
        let mut j: usize = 8;
        while j < n
            invariant
                cells == hex_cells(self.bytes@),
                cells.len() == n,
                n >= 16,
                n == (if self.bytes@.len() < 16 { 16 } else { self.bytes@.len() }),
                8 <= j <= n,
                rest == cells.skip(8),
                s@ == head + seq![' ', ' '] + join_cells(rest.take(j - 8)),
            decreases n - j,
        {
            if j > 8 {
                push_char(&mut s, ' ');
            }
            hex_cell(&self.bytes, j, &mut s);
            assert(rest.take(j - 7).drop_last() =~= rest.take(j - 8));
            assert(rest.take(j - 7).last() == cells[j as int]);
            assert(s@ =~= head + seq![' ', ' '] + join_cells(rest.take(j - 7)));
            j += 1;
        }
        assert(rest.take(n - 8) =~= rest);
        s
    }

    /// The offset column as the viewer shows it: uppercase hex, at least
    /// eight digits.
    pub fn offset_label(&self) -> (s: String)
        ensures
            s@ == hex8(self.offset as nat),
    {
        let v = self.offset as u128;
        let ghost w = hex_width(v as nat, 8);
        let mut k: u128 = 8;
        let mut p: u128 = 0x1_0000_0000;
        assert(pow16(8) == 0x1_0000_0000) by {
            reveal_with_fuel(pow16, 9);
        }
        while k < 16 && v >= p
            invariant
                8 <= k <= 16,
                p as nat == pow16(k as nat),
                v < 0x1_0000_0000_0000_0000,
                hex_width(v as nat, 8) == hex_width(v as nat, k as nat),
            decreases 16 - k,
        {
            assert(pow16((k + 1) as nat) == 16 * pow16(k as nat));
            proof {
                lemma_pow16_le(k as nat);
            }
            k = k + 1;
            p = p * 16;
            proof {
                if k == 16 {
                    assert(pow16(16) == 0x1_0000_0000_0000_0000) by {
                        reveal_with_fuel(pow16, 17);
                    }
                }
            }
        }
        assert(hex_width(v as nat, k as nat) == k);
        let mut s = String::new();
        let mut i: u128 = 0;
        let mut div: u128 = p / 16;
        assert(pow16(k as nat) == 16 * pow16((k - 1) as nat));
        proof {
            lemma_pow16_pos((k - 1) as nat);
        }
        while i < k
            invariant
                w == k,
                w == hex_width(v as nat, 8),
                i <= k,
                8 <= k <= 16,
                div >= 1,
                i < k ==> div as nat == pow16((k - 1 - i) as nat),
                s@ == hex8(v as nat).take(i as int),
            decreases k - i,
        {
            let d = ((v / div) % 16) as u8;
            push_char(&mut s, hex_digit_exec(d));
            assert(hex8(v as nat)[i as int] == hex_digit(d as int));
            assert(s@ =~= hex8(v as nat).take(i + 1));
            i += 1;
            if i < k {
                assert(pow16((k - i) as nat) == 16 * pow16((k - 1 - i) as nat));
                proof {
                    lemma_pow16_pos((k - 1 - i) as nat);
                }
                div = div / 16;
            }
        }
        assert(hex8(v as nat).take(k as int) =~= hex8(v as nat));
        s
    }
}

/// The summary line of the viewer: the file size, TEXT or HEX, and a note
/// when only the first part was read.
pub open spec fn summary_of(v: ViewedContent) -> Seq<char> {
    size_text(v.file_size as nat, 5) + "  "@ + (if v.mode == ViewMode::Text { "TEXT"@ } else { "HEX"@ })
        + (if v.truncated { "  (truncated — first 512 KiB shown)"@ } else { Seq::empty() })
}

/// The summary line of the viewer, e.g. "1.5 KB  TEXT".
pub fn content_summary(v: &ViewedContent) -> (s: String)
    ensures
        s@ == summary_of(*v),
{
    let mut s = format_size(v.file_size);
    s.append("  ");
    s.append(match v.mode {
        ViewMode::Text => "TEXT",
        _ => "HEX",
    });
    let ghost head = s@;
    if v.truncated {
        s.append("  (truncated — first 512 KiB shown)");
    } else {
        assert(s@ =~= head + Seq::<char>::empty());
    }
    s
}

} // verus!
