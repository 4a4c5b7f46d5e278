//! Terminal state: a scrollback buffer of styled lines, driven by the
//! print / control / SGR events of an ANSI escape-sequence parser.

use vstd::prelude::*;
use vstd::slice::slice_subrange;
use crate::text::{push_char, pop_char};

verus! {

/// Terminal colour (mapped to a display colour by the UI layer).
#[derive(Debug, Clone, Copy, PartialEq, Eq, Structural)]
pub enum AnsiColor {
    /// xterm 256-colour index
    Indexed(u8),
    /// 24-bit RGB
    Rgb(u8, u8, u8),
    /// Terminal default foreground
    DefaultFg,
    /// Terminal default background
    DefaultBg,
}

/// Channel level of one 6x6x6 colour-cube coordinate.
pub open spec fn cube_level(v: int) -> int {
    if v == 0 { 0 } else { 55 + 40 * v }
}

/// The RGB triple of an xterm 256-colour index: the 16 standard colours, the
/// 6x6x6 cube for 16..=231 and the greyscale ramp for 232..=255.
pub open spec fn indexed_rgb(i: u8) -> (u8, u8, u8) {
    if i == 0 { (0, 0, 0) }
    else if i == 1 { (170, 0, 0) }
    else if i == 2 { (0, 170, 0) }
    else if i == 3 { (170, 85, 0) }
    else if i == 4 { (0, 0, 170) }
    else if i == 5 { (170, 0, 170) }
    else if i == 6 { (0, 170, 170) }
    else if i == 7 { (170, 170, 170) }
    else if i == 8 { (85, 85, 85) }
    else if i == 9 { (255, 85, 85) }
    else if i == 10 { (85, 255, 85) }
    else if i == 11 { (255, 255, 85) }
    else if i == 12 { (85, 85, 255) }
    else if i == 13 { (255, 85, 255) }
    else if i == 14 { (85, 255, 255) }
    else if i == 15 { (255, 255, 255) }
    else if i <= 231 {
        let idx = i - 16;
        (cube_level(idx / 36) as u8, cube_level((idx / 6) % 6) as u8, cube_level(idx % 6) as u8)
    } else {
        let level = 8 + (i - 232) * 10;
        (level as u8, level as u8, level as u8)
    }
}

fn cube_level_exec(v: u8) -> (r: u8)
    requires
        v < 6,
    ensures
        r as int == cube_level(v as int),
{
    if v == 0 { 0 } else { 55 + v * 40 }
}

/// Map an xterm 256-colour index to its RGB triple.
pub fn indexed_to_rgb(i: u8) -> (r: (u8, u8, u8))
    ensures
        r == indexed_rgb(i),
{
    match i {
        0 => (0, 0, 0),
        1 => (170, 0, 0),
        2 => (0, 170, 0),
        3 => (170, 85, 0),
        4 => (0, 0, 170),
        5 => (170, 0, 170),
        6 => (0, 170, 170),
        7 => (170, 170, 170),
        8 => (85, 85, 85),
        9 => (255, 85, 85),
        10 => (85, 255, 85),
        11 => (255, 255, 85),
        12 => (85, 85, 255),
        13 => (255, 85, 255),
        14 => (85, 255, 255),
        15 => (255, 255, 255),
        16..=231 => {
            let idx = i - 16;
            (cube_level_exec(idx / 36), cube_level_exec((idx / 6) % 6), cube_level_exec(idx % 6))
        },
        _ => {
            let level = 8 + (i - 232) * 10;
            (level, level, level)
        },
    }
}

/// A styled text span within a terminal line.
#[derive(Debug, Clone)]
pub struct TerminalSpan {
    pub text: String,
    pub fg: AnsiColor,
    pub bg: AnsiColor,
    pub bold: bool,
    pub italic: bool,
    pub underline: bool,
}

/// The value of a span: its text and style.
pub struct SpanModel {
    pub text: Seq<char>,
    pub fg: AnsiColor,
    pub bg: AnsiColor,
    pub bold: bool,
    pub italic: bool,
    pub underline: bool,
}

impl View for TerminalSpan {
    type V = SpanModel;

    open spec fn view(&self) -> SpanModel {
        SpanModel {
            text: self.text@,
            fg: self.fg,
            bg: self.bg,
            bold: self.bold,
            italic: self.italic,
            underline: self.underline,
        }
    }
}

/// An empty span in the default style.
pub open spec fn default_span() -> SpanModel {
    SpanModel {
        text: Seq::empty(),
        fg: AnsiColor::DefaultFg,
        bg: AnsiColor::DefaultBg,
        bold: false,
        italic: false,
        underline: false,
    }
}

impl TerminalSpan {
    /// An empty span in the default style.
    pub fn empty() -> (s: Self)
        ensures
            s@ == default_span(),
    {
        TerminalSpan {
            text: String::new(),
            fg: AnsiColor::DefaultFg,
            bg: AnsiColor::DefaultBg,
            bold: false,
            italic: false,
            underline: false,
        }
    }
}

impl Default for TerminalSpan {
    fn default() -> (s: Self)
        ensures
            s@ == default_span(),
    {
        TerminalSpan::empty()
    }
}

/// A full line of terminal output.
#[derive(Debug, Clone)]
pub struct TerminalLine {
    pub spans: Vec<TerminalSpan>,
}

impl View for TerminalLine {
    type V = Seq<SpanModel>;

    open spec fn view(&self) -> Seq<SpanModel> {
        self.spans@.map_values(|s: TerminalSpan| s@)
    }
}

/// The text of a sequence of spans, concatenated.
pub open spec fn spans_text(spans: Seq<SpanModel>) -> Seq<char>
    decreases spans.len(),
{
    if spans.len() == 0 {
        Seq::empty()
    } else {
        spans_text(spans.drop_last()) + spans.last().text
    }
}

impl TerminalLine {
    /// An empty line.
    pub fn empty() -> (l: Self)
        ensures
            l@ == Seq::<SpanModel>::empty(),
    {
        TerminalLine { spans: Vec::new() }
    }

    /// Returns all text content concatenated.
    pub fn plain_text(&self) -> (r: String)
        ensures
            r@ == spans_text(self@),
    {
        let mut r = String::new();
        for i in 0..self.spans.len()
            invariant
                r@ == spans_text(self@.take(i as int)),
        {
            r.append(self.spans[i].text.as_str());
            assert(self@.take(i + 1).drop_last() == self@.take(i as int));
        }
        assert(self@.take(self@.len() as int) == self@);
        r
    }
}

impl Default for TerminalLine {
    fn default() -> (l: Self)
        ensures
            l@ == Seq::<SpanModel>::empty(),
    {
        TerminalLine::empty()
    }
}

/// Accumulated terminal state: a scrollback buffer of lines plus the line
/// and span being built.
pub struct TerminalState {
    pub lines: Vec<TerminalLine>,
    pub max_lines: usize,
    /// The line being built (not yet committed)
    pub current_line: TerminalLine,
    /// The span being built
    pub current_span: TerminalSpan,
}

/// The last `max` items of `lines` (all of them when there are fewer).
pub open spec fn keep_last<T>(lines: Seq<T>, max: nat) -> Seq<T> {
    if lines.len() > max { lines.skip(lines.len() - max) } else { lines }
}

/// The line and pending span after flushing: a non-empty span moves onto the
/// line and the pending span restarts empty in the default style.
pub open spec fn flushed(line: Seq<SpanModel>, span: SpanModel) -> (Seq<SpanModel>, SpanModel) {
    if span.text.len() > 0 { (line.push(span), default_span()) } else { (line, span) }
}

/// `text` without its last character (unchanged when empty).
pub open spec fn text_pop(text: Seq<char>) -> Seq<char> {
    if text.len() > 0 { text.drop_last() } else { text }
}

/// The span with its text replaced.
pub open spec fn with_text(s: SpanModel, text: Seq<char>) -> SpanModel {
    SpanModel { text, ..s }
}

/// The span with its foreground (`is_fg`) or background colour set.
pub open spec fn with_color(s: SpanModel, is_fg: bool, c: AnsiColor) -> SpanModel {
    if is_fg { SpanModel { fg: c, ..s } } else { SpanModel { bg: c, ..s } }
}

/// The first sub-parameter of a CSI parameter, 0 when it has none.
pub open spec fn first_or_zero(p: Seq<u16>) -> u16 {
    if p.len() > 0 { p[0] } else { 0 }
}

/// The value of parameter `i`, 0 past the end.
pub open spec fn param_at(params: Seq<Seq<u16>>, i: int) -> u16 {
    if 0 <= i < params.len() { first_or_zero(params[i]) } else { 0 }
}

/// The low byte of a parameter value (as `as u8` takes it).
pub open spec fn low_byte(v: u16) -> u8 {
    (v % 256) as u8
}

/// The effect of one single-code SGR parameter on the span style.
pub open spec fn sgr_code(s: SpanModel, code: u16) -> SpanModel {
    if code == 0 {
        SpanModel { fg: AnsiColor::DefaultFg, bg: AnsiColor::DefaultBg, bold: false, italic: false, underline: false, ..s }
    } else if code == 1 { SpanModel { bold: true, ..s } }
    else if code == 3 { SpanModel { italic: true, ..s } }
    else if code == 4 { SpanModel { underline: true, ..s } }
    else if code == 22 { SpanModel { bold: false, ..s } }
    else if code == 23 { SpanModel { italic: false, ..s } }
    else if code == 24 { SpanModel { underline: false, ..s } }
    else if 30 <= code <= 37 { SpanModel { fg: AnsiColor::Indexed((code - 30) as u8), ..s } }
    else if code == 39 { SpanModel { fg: AnsiColor::DefaultFg, ..s } }
    else if 40 <= code <= 47 { SpanModel { bg: AnsiColor::Indexed((code - 40) as u8), ..s } }
    else if code == 49 { SpanModel { bg: AnsiColor::DefaultBg, ..s } }
    else if 90 <= code <= 97 { SpanModel { fg: AnsiColor::Indexed((code - 82) as u8), ..s } }
    else if 100 <= code <= 107 { SpanModel { bg: AnsiColor::Indexed((code - 92) as u8), ..s } }
    else { s }
}

/// The span style after the SGR parameters from index `i` on: single codes
/// apply one by one; 38 / 48 take an extended colour, `5;n` (256-colour
/// index) or `2;r;g;b` (true colour), missing values reading as 0 and an
/// index with no value ending the sequence.
pub open spec fn apply_sgr(s: SpanModel, params: Seq<Seq<u16>>, i: nat) -> SpanModel
    decreases params.len() - i,
{
    if i >= params.len() {
        s
    } else {
        let code = param_at(params, i as int);
        if code == 38 || code == 48 {
            let is_fg = code == 38;
            if i + 1 >= params.len() {
                s
            } else {
                let sub = param_at(params, i + 1 as int);
                if sub == 5 {
                    if i + 2 < params.len() {
                        apply_sgr(
                            with_color(s, is_fg, AnsiColor::Indexed(low_byte(param_at(params, i + 2 as int)))),
                            params,
                            i + 3,
                        )
                    } else {
                        s
                    }
                } else if sub == 2 {
                    let colored = with_color(
                        s,
                        is_fg,
                        AnsiColor::Rgb(
                            low_byte(param_at(params, i + 2 as int)),
                            low_byte(param_at(params, i + 3 as int)),
                            low_byte(param_at(params, i + 4 as int)),
                        ),
                    );
                    if i + 5 < params.len() { apply_sgr(colored, params, i + 5) } else { colored }
                } else {
                    apply_sgr(s, params, i + 2)
                }
            }
        } else {
            apply_sgr(sgr_code(s, code), params, i + 1)
        }
    }
}

/// `t` has the text and the bold, italic and underline flags of `s`.
pub open spec fn same_text_and_flags(t: SpanModel, s: SpanModel) -> bool {
    t.text == s.text && t.bold == s.bold && t.italic == s.italic && t.underline == s.underline
}

/// What each SGR code does to a span: 30–37 and 90–97 set the foreground
/// (colours 0–7 and 8–15) and leave the background; 40–47 and 100–107 set
/// the background and leave the foreground; 39 and 49 restore the default
/// foreground and background only; 1, 3 and 4 turn bold, italic and
/// underline on and 22, 23 and 24 off, leaving the colours; 0 resets every
/// style. No code touches the text, and an unknown code changes nothing.
pub proof fn lemma_sgr_code_effects(s: SpanModel, code: u16)
    ensures
        sgr_code(s, code).text == s.text,
        30 <= code <= 37 ==> {
            let t = sgr_code(s, code);
            t.fg == AnsiColor::Indexed((code - 30) as u8) && t.bg == s.bg && same_text_and_flags(t, s)
        },
        90 <= code <= 97 ==> {
            let t = sgr_code(s, code);
            t.fg == AnsiColor::Indexed((code - 90 + 8) as u8) && t.bg == s.bg && same_text_and_flags(t, s)
        },
        40 <= code <= 47 ==> {
            let t = sgr_code(s, code);
            t.bg == AnsiColor::Indexed((code - 40) as u8) && t.fg == s.fg && same_text_and_flags(t, s)
        },
        100 <= code <= 107 ==> {
            let t = sgr_code(s, code);
            t.bg == AnsiColor::Indexed((code - 100 + 8) as u8) && t.fg == s.fg && same_text_and_flags(t, s)
        },
        code == 39 ==> {
            let t = sgr_code(s, code);
            t.fg == AnsiColor::DefaultFg && t.bg == s.bg && same_text_and_flags(t, s)
        },
        code == 49 ==> {
            let t = sgr_code(s, code);
            t.bg == AnsiColor::DefaultBg && t.fg == s.fg && same_text_and_flags(t, s)
        },
        code == 1 || code == 22 ==> {
            let t = sgr_code(s, code);
            t.bold == (code == 1) && t.fg == s.fg && t.bg == s.bg && t.italic == s.italic && t.underline == s.underline
        },
        code == 3 || code == 23 ==> {
            let t = sgr_code(s, code);
            t.italic == (code == 3) && t.fg == s.fg && t.bg == s.bg && t.bold == s.bold && t.underline == s.underline
        },
        code == 4 || code == 24 ==> {
            let t = sgr_code(s, code);
            t.underline == (code == 4) && t.fg == s.fg && t.bg == s.bg && t.bold == s.bold && t.italic == s.italic
        },
        code == 0 ==> {
            let t = sgr_code(s, code);
            t.fg == AnsiColor::DefaultFg && t.bg == AnsiColor::DefaultBg && !t.bold && !t.italic && !t.underline
        },
        !(code <= 1 || code == 3 || code == 4 || (22 <= code <= 24) || (30 <= code <= 37) || code == 39
            || (40 <= code <= 47) || code == 49 || (90 <= code <= 97) || (100 <= code <= 107)) ==> sgr_code(s, code) == s,
{
}

/// A whole SGR sequence of one code acts as that code does; `38;5;n` sets
/// the foreground and `48;5;n` the background to colour `n`, and
/// `38;2;r;g;b` / `48;2;r;g;b` to that true colour, each leaving the other
/// colour, the flags and the text as they were.
pub proof fn lemma_sgr_sequences(s: SpanModel, code: u16, n: u16, r: u16, g: u16, b: u16)
    ensures
        code != 38 && code != 48 ==> apply_sgr(s, seq![seq![code]], 0) == sgr_code(s, code),
        ({
            let t = apply_sgr(s, seq![seq![38u16], seq![5u16], seq![n]], 0);
            t.fg == AnsiColor::Indexed((n % 256) as u8) && t.bg == s.bg && same_text_and_flags(t, s)
        }),
        ({
            let t = apply_sgr(s, seq![seq![48u16], seq![5u16], seq![n]], 0);
            t.bg == AnsiColor::Indexed((n % 256) as u8) && t.fg == s.fg && same_text_and_flags(t, s)
        }),
        ({
            let t = apply_sgr(s, seq![seq![38u16], seq![2u16], seq![r], seq![g], seq![b]], 0);
            t.fg == AnsiColor::Rgb((r % 256) as u8, (g % 256) as u8, (b % 256) as u8) && t.bg == s.bg
                && same_text_and_flags(t, s)
        }),
        ({
            let t = apply_sgr(s, seq![seq![48u16], seq![2u16], seq![r], seq![g], seq![b]], 0);
            t.bg == AnsiColor::Rgb((r % 256) as u8, (g % 256) as u8, (b % 256) as u8) && t.fg == s.fg
                && same_text_and_flags(t, s)
        }),
{
    let one = seq![seq![code]];
    assert(param_at(one, 0) == code);
    assert(apply_sgr(sgr_code(s, code), one, 1) == sgr_code(s, code));
    let p5 = seq![seq![38u16], seq![5u16], seq![n]];
    assert(param_at(p5, 0) == 38 && param_at(p5, 1) == 5 && param_at(p5, 2) == n);
    let c5 = with_color(s, true, AnsiColor::Indexed(low_byte(n)));
    assert(apply_sgr(c5, p5, 3) == c5);
    let q5 = seq![seq![48u16], seq![5u16], seq![n]];
    assert(param_at(q5, 0) == 48 && param_at(q5, 1) == 5 && param_at(q5, 2) == n);
    let d5 = with_color(s, false, AnsiColor::Indexed(low_byte(n)));
    assert(apply_sgr(d5, q5, 3) == d5);
    let p2 = seq![seq![38u16], seq![2u16], seq![r], seq![g], seq![b]];
    assert(param_at(p2, 0) == 38 && param_at(p2, 1) == 2 && param_at(p2, 2) == r && param_at(p2, 3) == g
        && param_at(p2, 4) == b);
    let q2 = seq![seq![48u16], seq![2u16], seq![r], seq![g], seq![b]];
    assert(param_at(q2, 0) == 48 && param_at(q2, 1) == 2 && param_at(q2, 2) == r && param_at(q2, 3) == g
        && param_at(q2, 4) == b);
}

/// The values of a list of CSI parameters.
pub open spec fn params_view(params: Seq<Vec<u16>>) -> Seq<Seq<u16>> {
    params.map_values(|p: Vec<u16>| p@)
}

fn first_or_zero_exec(p: &Vec<u16>) -> (r: u16)
    ensures
        r == first_or_zero(p@),
{
    if p.len() > 0 { p[0] } else { 0 }
}

fn param_at_exec(params: &Vec<Vec<u16>>, i: usize) -> (r: u16)
    ensures
        r == param_at(params_view(params@), i as int),
{
    if i < params.len() { first_or_zero_exec(&params[i]) } else { 0 }
}

/// Parameter `i + k`, 0 past the end.
fn param_after_exec(params: &Vec<Vec<u16>>, i: usize, k: usize) -> (r: u16)
    requires
        i < params@.len(),
    ensures
        r == param_at(params_view(params@), i + k),
{
    if k < params.len() - i { first_or_zero_exec(&params[i + k]) } else { 0 }
}

impl TerminalState {
    /// The line being built (not yet committed).
    pub open spec fn pending_line(&self) -> Seq<SpanModel> {
        self.current_line@
    }

    /// The span being built.
    pub open spec fn pending_span(&self) -> SpanModel {
        self.current_span@
    }

    /// The committed lines.
    pub open spec fn lines_view(&self) -> Seq<Seq<SpanModel>> {
        self.lines@.map_values(|l: TerminalLine| l@)
    }

    /// Create a new terminal state with a scrollback buffer of `max_lines`.
    pub fn new(max_lines: usize) -> (st: Self)
        ensures
            st.lines@.len() == 0,
            st.max_lines == max_lines,
            st.pending_line() == Seq::<SpanModel>::empty(),
            st.pending_span() == default_span(),
    {
        TerminalState {
            lines: Vec::new(),
            max_lines,
            current_line: TerminalLine::empty(),
            current_span: TerminalSpan::empty(),
        }
    }

    /// A printable character from the parser: appended to the pending span.
    pub fn print(&mut self, c: char)
        ensures
            final(self).lines == old(self).lines,
            final(self).max_lines == old(self).max_lines,
            final(self).pending_line() == old(self).pending_line(),
            final(self).pending_span() == with_text(old(self).pending_span(), old(self).pending_span().text.push(c)),
    {
        push_char(&mut self.current_span.text, c);
    }

    /// Moves a non-empty pending span onto the pending line.
    pub fn flush_span(&mut self)
        ensures
            final(self).lines == old(self).lines,
            final(self).max_lines == old(self).max_lines,
            (final(self).pending_line(), final(self).pending_span())
                == flushed(old(self).pending_line(), old(self).pending_span()),
    {
        if !self.current_span.text.as_str().is_empty() {
            let mut span = TerminalSpan::empty();
            std::mem::swap(&mut span, &mut self.current_span);
            self.current_line.spans.push(span);
            assert(self.current_line@ =~= old(self).current_line@.push(old(self).current_span@));
        } else {
            proof {
                assert(self.current_span.text@.len() == 0);
            }
        }
    }

    /// Ends the pending line: flushes the span, appends the line to the
    /// scrollback and keeps only the last `max_lines` lines.
    pub fn commit_line(&mut self)
        ensures
            final(self).max_lines == old(self).max_lines,
            final(self).lines_view() == keep_last(
                old(self).lines_view().push(flushed(old(self).pending_line(), old(self).pending_span()).0),
                old(self).max_lines as nat,
            ),
            final(self).pending_line() == Seq::<SpanModel>::empty(),
            final(self).pending_span() == flushed(old(self).pending_line(), old(self).pending_span()).1,
            final(self).lines@.len() <= final(self).max_lines,
    {
        self.flush_span();
        let mut line = TerminalLine::empty();
        std::mem::swap(&mut line, &mut self.current_line);
        let ghost pushed_line = line@;
        self.lines.push(line);
        let ghost before = self.lines@;
        assert(self.lines_view() =~= old(self).lines_view().push(pushed_line));
        if self.lines.len() > self.max_lines {
            let excess = self.lines.len() - self.max_lines;
            let kept = self.lines.split_off(excess);
            self.lines = kept;
            assert(self.lines@ == before.subrange(excess as int, before.len() as int));
            assert(self.lines_view() =~= before.map_values(|l: TerminalLine| l@).skip(excess as int));
        }
    }

    /// A C0 control byte: newline commits the line, carriage return does
    /// nothing, backspace removes the last character of the last span on the
    /// pending line (of the pending span when the line has none).
    pub fn execute(&mut self, byte: u8)
        ensures
            final(self).max_lines == old(self).max_lines,
            byte == 0x0A ==> {
                &&& final(self).lines_view() == keep_last(
                    old(self).lines_view().push(flushed(old(self).pending_line(), old(self).pending_span()).0),
                    old(self).max_lines as nat,
                )
                &&& final(self).pending_line() == Seq::<SpanModel>::empty()
                &&& final(self).pending_span() == flushed(old(self).pending_line(), old(self).pending_span()).1
            },
            byte == 0x08 ==> {
                let line = old(self).pending_line();
                let span = old(self).pending_span();
                &&& final(self).lines == old(self).lines
                &&& if line.len() > 0 {
                    &&& final(self).pending_line() == line.update(
                        line.len() - 1,
                        with_text(line.last(), text_pop(line.last().text)),
                    )
                    &&& final(self).pending_span() == span
                } else {
                    &&& final(self).pending_line() == line
                    &&& final(self).pending_span() == with_text(span, text_pop(span.text))
                }
            },
            byte != 0x0A && byte != 0x08 ==> {
                &&& final(self).lines == old(self).lines
                &&& final(self).pending_line() == old(self).pending_line()
                &&& final(self).pending_span() == old(self).pending_span()
            },
            final(self).lines@.len() <= final(self).max_lines || final(self).lines@.len() == old(self).lines@.len(),
    {
        if byte == 0x0A {
            self.commit_line();
        } else if byte == 0x08 {
            if self.current_line.spans.len() > 0 {
                let ghost old_line = self.current_line@;
                let mut last = self.current_line.spans.pop().unwrap();
                pop_char(&mut last.text);
                self.current_line.spans.push(last);
                assert(self.current_line@ =~= old_line.update(
                    old_line.len() - 1,
                    with_text(old_line.last(), text_pop(old_line.last().text)),
                ));
            } else {
                pop_char(&mut self.current_span.text);
            }
        }
    }

    /// A CSI sequence: only SGR (`m`) is acted on; it flushes the pending
    /// span and then applies the parameters to the new span's style.
    pub fn csi_dispatch(&mut self, params: &Vec<Vec<u16>>, action: char)
        ensures
            final(self).lines == old(self).lines,
            final(self).max_lines == old(self).max_lines,
            action == 'm' ==> {
                let f = flushed(old(self).pending_line(), old(self).pending_span());
                &&& final(self).pending_line() == f.0
                &&& final(self).pending_span() == apply_sgr(f.1, params_view(params@), 0)
            },
            action != 'm' ==> {
                &&& final(self).pending_line() == old(self).pending_line()
                &&& final(self).pending_span() == old(self).pending_span()
            },
    {
        if action == 'm' {
            self.flush_span();
            let ghost ps = params_view(params@);
            let ghost start = self.current_span@;
            let mut i: usize = 0;
            while i < params.len()
                invariant
                    ps == params_view(params@),
                    apply_sgr(start, ps, 0) == apply_sgr(self.current_span@, ps, i as nat),
                    self.lines == old(self).lines,
                    self.max_lines == old(self).max_lines,
                    self.current_line@ == flushed(old(self).pending_line(), old(self).pending_span()).0,
                    self.current_span@.text == start.text,
                decreases params@.len() - i,
            {
                let code = param_at_exec(params, i);
                if code == 38 || code == 48 {
                    let is_fg = code == 38;
                    if i + 1 >= params.len() {
                        i = params.len();
                    } else {
                        let sub = param_at_exec(params, i + 1);
                        if sub == 5 {
                            if i + 2 < params.len() {
                                let idx = (param_at_exec(params, i + 2) % 256) as u8;
                                self.set_color(is_fg, AnsiColor::Indexed(idx));
                                i = i + 3;
                            } else {
                                i = params.len();
                            }
                        } else if sub == 2 {
                            let r = (param_after_exec(params, i, 2) % 256) as u8;
                            let g = (param_after_exec(params, i, 3) % 256) as u8;
                            let b = (param_after_exec(params, i, 4) % 256) as u8;
                            self.set_color(is_fg, AnsiColor::Rgb(r, g, b));
                            if 5 < params.len() - i {
                                i = i + 5;
                            } else {
                                i = params.len();
                            }
                        } else {
                            i = i + 2;
                        }
                    }
                } else {
                    self.apply_code(code);
                    i = i + 1;
                }
            }
        }
    }

    fn set_color(&mut self, is_fg: bool, c: AnsiColor)
        ensures
            final(self).lines == old(self).lines,
            final(self).max_lines == old(self).max_lines,
            final(self).current_line == old(self).current_line,
            final(self).current_span@ == with_color(old(self).current_span@, is_fg, c),
    {
        if is_fg {
            self.current_span.fg = c;
        } else {
            self.current_span.bg = c;
        }
    }

    fn apply_code(&mut self, code: u16)
        ensures
            final(self).lines == old(self).lines,
            final(self).max_lines == old(self).max_lines,
            final(self).current_line == old(self).current_line,
            final(self).current_span@ == sgr_code(old(self).current_span@, code),
    {
        if code == 0 {
            self.current_span.fg = AnsiColor::DefaultFg;
            self.current_span.bg = AnsiColor::DefaultBg;
            self.current_span.bold = false;
            self.current_span.italic = false;
            self.current_span.underline = false;
        } else if code == 1 {
            self.current_span.bold = true;
        } else if code == 3 {
            self.current_span.italic = true;
        } else if code == 4 {
            self.current_span.underline = true;
        } else if code == 22 {
            self.current_span.bold = false;
        } else if code == 23 {
            self.current_span.italic = false;
        } else if code == 24 {
            self.current_span.underline = false;
        } else if 30 <= code && code <= 37 {
            self.current_span.fg = AnsiColor::Indexed((code - 30) as u8);
        } else if code == 39 {
            self.current_span.fg = AnsiColor::DefaultFg;
        } else if 40 <= code && code <= 47 {
            self.current_span.bg = AnsiColor::Indexed((code - 40) as u8);
        } else if code == 49 {
            self.current_span.bg = AnsiColor::DefaultBg;
        } else if 90 <= code && code <= 97 {
            self.current_span.fg = AnsiColor::Indexed((code - 82) as u8);
        } else if 100 <= code && code <= 107 {
            self.current_span.bg = AnsiColor::Indexed((code - 92) as u8);
        }
    }

    /// Return the last `n` lines of the scrollback buffer.
    pub fn tail(&self, n: usize) -> (r: &[TerminalLine])
        ensures
            r@ == self.lines@.skip(if self.lines@.len() > n { self.lines@.len() - n } else { 0 }),
    {
        let len = self.lines.len();
        let start = if len > n { len - n } else { 0 };
        slice_subrange(self.lines.as_slice(), start, len)
    }
}

/// What the escape-sequence parser reports about a chunk of shell output.
#[derive(Debug, Clone)]
pub enum TermEvent {
    /// A printable character
    Print(char),
    /// A C0 control byte
    Execute(u8),
    /// A CSI sequence: its parameters (each with its sub-parameters) and
    /// final character
    Csi { params: Vec<Vec<u16>>, action: char },
}

/// The value of a parser event.
pub enum TermEventModel {
    Print(char),
    Execute(u8),
    Csi(Seq<Seq<u16>>, char),
}

impl View for TermEvent {
    type V = TermEventModel;

    open spec fn view(&self) -> TermEventModel {
        match self {
            TermEvent::Print(c) => TermEventModel::Print(*c),
            TermEvent::Execute(b) => TermEventModel::Execute(*b),
            TermEvent::Csi { params, action } => TermEventModel::Csi(params_view(params@), *action),
        }
    }
}

/// The value of the terminal screen: committed lines, the scrollback limit,
/// and the line and span being built.
pub struct TermModel {
    pub lines: Seq<Seq<SpanModel>>,
    pub max_lines: usize,
    pub pending_line: Seq<SpanModel>,
    pub pending_span: SpanModel,
}

impl View for TerminalState {
    type V = TermModel;

    open spec fn view(&self) -> TermModel {
        TermModel {
            lines: self.lines_view(),
            max_lines: self.max_lines,
            pending_line: self.pending_line(),
            pending_span: self.pending_span(),
        }
    }
}

/// What one parser event does to the screen: a character extends the
/// pending span; a newline commits the line (keeping the last `max_lines`);
/// a backspace removes a character from the last span of the pending line,
/// or from the pending span when the line has none; SGR (`m`) flushes the
/// span and restyles; everything else changes nothing.
pub open spec fn term_step(m: TermModel, e: TermEventModel) -> TermModel {
    match e {
        TermEventModel::Print(c) => TermModel {
            pending_span: with_text(m.pending_span, m.pending_span.text.push(c)),
            ..m
        },
        TermEventModel::Execute(b) => if b == 0x0A {
            let f = flushed(m.pending_line, m.pending_span);
            TermModel {
                lines: keep_last(m.lines.push(f.0), m.max_lines as nat),
                pending_line: Seq::empty(),
                pending_span: f.1,
                ..m
            }
        } else if b == 0x08 {
            let line = m.pending_line;
            if line.len() > 0 {
                TermModel {
                    pending_line: line.update(line.len() - 1, with_text(line.last(), text_pop(line.last().text))),
                    ..m
                }
            } else {
                TermModel { pending_span: with_text(m.pending_span, text_pop(m.pending_span.text)), ..m }
            }
        } else {
            m
        },
        TermEventModel::Csi(params, action) => if action == 'm' {
            let f = flushed(m.pending_line, m.pending_span);
            TermModel { pending_line: f.0, pending_span: apply_sgr(f.1, params, 0), ..m }
        } else {
            m
        },
    }
}

/// The screen after a run of parser events, in order.
pub open spec fn term_run(m: TermModel, es: Seq<TermEventModel>) -> TermModel
    decreases es.len(),
{
    if es.len() == 0 {
        m
    } else {
        term_step(term_run(m, es.drop_last()), es.last())
    }
}

/// The scrollback never holds more than `max_lines` lines, whatever the
/// shell prints.
pub proof fn lemma_scrollback_bounded(m: TermModel, es: Seq<TermEventModel>)
    requires
        m.lines.len() <= m.max_lines,
    ensures
        term_run(m, es).lines.len() <= m.max_lines,
        term_run(m, es).max_lines == m.max_lines,
    decreases es.len(),
{
    if es.len() > 0 {
        lemma_scrollback_bounded(m, es.drop_last());
    }
}

/// The text of the line being built: its spans, then the pending span.
pub open spec fn pending_text(m: TermModel) -> Seq<char> {
    spans_text(m.pending_line) + m.pending_span.text
}

/// Flushing a span onto a line keeps the text of the two together.
proof fn lemma_flushed_text(line: Seq<SpanModel>, span: SpanModel)
    ensures
        spans_text(flushed(line, span).0) + flushed(line, span).1.text == spans_text(line) + span.text,
{
    if span.text.len() > 0 {
        assert(line.push(span).drop_last() =~= line);
        assert(default_span().text =~= Seq::<char>::empty());
        assert(spans_text(line.push(span)) + default_span().text =~= spans_text(line) + span.text);
    } else {
        assert(span.text =~= Seq::<char>::empty());
        assert(spans_text(line) + span.text =~= spans_text(line));
    }
}

/// What the shell's output does to the text on screen: a printed character
/// is appended to the line being built; an SGR sequence restyles what
/// follows but changes no text; a newline commits the text of the line being
/// built as the newest line of the scrollback, dropping the oldest line only
/// when the scrollback is full, and starts an empty line; other control
/// bytes and CSI sequences change nothing. The committed lines change only
/// on a newline.
pub proof fn lemma_terminal_text(m: TermModel, e: TermEventModel)
    ensures
        e matches TermEventModel::Print(c) ==> pending_text(term_step(m, e)) == pending_text(m).push(c)
            && term_step(m, e).lines == m.lines,
        e matches TermEventModel::Csi(params, a) ==> pending_text(term_step(m, e)) == pending_text(m)
            && term_step(m, e).lines == m.lines,
        e matches TermEventModel::Csi(params, a) && a != 'm' ==> term_step(m, e) == m,
        e matches TermEventModel::Execute(b) && b != 0x0A && b != 0x08 ==> term_step(m, e) == m,
        e matches TermEventModel::Execute(b) && b == 0x08 ==> term_step(m, e).lines == m.lines,
        e == TermEventModel::Execute(0x0A) ==> {
            let t = term_step(m, e);
            &&& pending_text(t).len() == 0
            &&& m.lines.len() < m.max_lines ==> t.lines.len() == m.lines.len() + 1
                && t.lines.take(m.lines.len() as int) == m.lines
                && spans_text(t.lines.last()) == pending_text(m)
            &&& m.lines.len() == m.max_lines && m.max_lines > 0 ==> t.lines.len() == m.lines.len()
                && t.lines.take(m.lines.len() - 1) == m.lines.skip(1)
                && spans_text(t.lines.last()) == pending_text(m)
        },
{
    match e {
        TermEventModel::Print(c) => {
            assert(pending_text(term_step(m, e)) =~= pending_text(m).push(c));
        },
        TermEventModel::Csi(params, a) => {
            if a == 'm' {
                lemma_flushed_text(m.pending_line, m.pending_span);
                let f = flushed(m.pending_line, m.pending_span);
                lemma_sgr_keeps_text(f.1, params, 0);
            }
        },
        TermEventModel::Execute(b) => {
            if b == 0x0A {
                lemma_flushed_text(m.pending_line, m.pending_span);
                let f = flushed(m.pending_line, m.pending_span);
                let t = term_step(m, e);
                assert(f.1.text.len() == 0);
                assert(spans_text(Seq::<SpanModel>::empty()) =~= Seq::<char>::empty());
                assert(pending_text(t) =~= f.1.text);
                let all = m.lines.push(f.0);
                assert(spans_text(f.0) =~= pending_text(m)) by {
                    assert(spans_text(f.0) + f.1.text =~= spans_text(f.0));
                }
                if m.lines.len() < m.max_lines {
                    assert(t.lines == all);
                    assert(all.take(m.lines.len() as int) =~= m.lines);
                }
                if m.lines.len() == m.max_lines && m.max_lines > 0 {
                    assert(t.lines == all.skip(1));
                    assert(all.skip(1).take(m.lines.len() - 1) =~= m.lines.skip(1));
                }
            }
        },
    }
}

/// A backspace takes back one character and never adds text: on a line
/// with no finished spans it removes the last character of the line being
/// built (nothing when it is empty); otherwise it shortens the text of the
/// line by at most one character. Style and committed lines stay.
pub proof fn lemma_backspace(m: TermModel)
    ensures
        ({
            let t = term_step(m, TermEventModel::Execute(0x08));
            &&& t.lines == m.lines
            &&& t.pending_span.fg == m.pending_span.fg && t.pending_span.bg == m.pending_span.bg
            &&& m.pending_line.len() == 0 ==> pending_text(t) == (if pending_text(m).len() > 0 {
                pending_text(m).drop_last()
            } else {
                pending_text(m)
            })
            &&& pending_text(t).len() <= pending_text(m).len() <= pending_text(t).len() + 1
        }),
{
    let t = term_step(m, TermEventModel::Execute(0x08));
    let line = m.pending_line;
    if line.len() > 0 {
        let last = line.last();
        let nl = line.update(line.len() - 1, with_text(last, text_pop(last.text)));
        assert(nl.drop_last() =~= line.drop_last());
        assert(spans_text(nl) == spans_text(line.drop_last()) + text_pop(last.text));
        assert(spans_text(line) == spans_text(line.drop_last()) + last.text);
    } else {
        assert(spans_text(line) =~= Seq::<char>::empty());
        assert(pending_text(m) =~= m.pending_span.text);
        assert(pending_text(t) =~= t.pending_span.text);
    }
}

/// An SGR sequence restyles a span but keeps its text.
proof fn lemma_sgr_keeps_text(s: SpanModel, params: Seq<Seq<u16>>, i: nat)
    ensures
        apply_sgr(s, params, i).text == s.text,
    decreases params.len() - i,
{
    if i < params.len() {
        let code = param_at(params, i as int);
        if code == 38 || code == 48 {
            if i + 1 < params.len() {
                let sub = param_at(params, i + 1 as int);
                let is_fg = code == 38;
                if sub == 5 {
                    if i + 2 < params.len() {
                        lemma_sgr_keeps_text(
                            with_color(s, is_fg, AnsiColor::Indexed(low_byte(param_at(params, i + 2 as int)))),
                            params,
                            i + 3,
                        );
                    }
                } else if sub == 2 {
                    let colored = with_color(
                        s,
                        is_fg,
                        AnsiColor::Rgb(
                            low_byte(param_at(params, i + 2 as int)),
                            low_byte(param_at(params, i + 3 as int)),
                            low_byte(param_at(params, i + 4 as int)),
                        ),
                    );
                    if i + 5 < params.len() {
                        lemma_sgr_keeps_text(colored, params, i + 5);
                    }
                } else {
                    lemma_sgr_keeps_text(s, params, i + 2);
                }
            }
        } else {
            lemma_sgr_code_effects(s, code);
            lemma_sgr_keeps_text(sgr_code(s, code), params, i + 1);
        }
    }
}

impl TerminalState {
    /// Applies one parser event.
    pub fn apply(&mut self, e: &TermEvent)
        ensures
            final(self)@ == term_step(old(self)@, e@),
    {
        match e {
            TermEvent::Print(c) => self.print(*c),
            TermEvent::Execute(b) => self.execute(*b),
            TermEvent::Csi { params, action } => self.csi_dispatch(params, *action),
        }
    }

    /// Feeds the parser's events for a chunk of shell output, in order.
    pub fn feed(&mut self, events: &[TermEvent])
        ensures
            final(self)@ == term_run(old(self)@, events@.map_values(|e: TermEvent| e@)),
    {
        let ghost es = events@.map_values(|e: TermEvent| e@);
        for i in 0..events.len()
            invariant
                es == events@.map_values(|e: TermEvent| e@),
                self@ == term_run(old(self)@, es.take(i as int)),
        {
            self.apply(&events[i]);
            assert(es.take(i + 1).drop_last() =~= es.take(i as int));
            assert(es.take(i + 1).last() == events@[i as int]@);
        }
        assert(es.take(events@.len() as int) =~= es);
    }
}

} // verus!
