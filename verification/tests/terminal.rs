use ironkey::terminal::{indexed_to_rgb, AnsiColor, TermEvent, TerminalLine, TerminalSpan, TerminalState};
use vte::{Params, Parser, Perform};

/// Records the parser's events, as the application does.
struct Events(Vec<TermEvent>);

impl Perform for Events {
    fn print(&mut self, c: char) {
        self.0.push(TermEvent::Print(c));
    }

    fn execute(&mut self, byte: u8) {
        self.0.push(TermEvent::Execute(byte));
    }

    fn csi_dispatch(&mut self, params: &Params, _intermediates: &[u8], _ignore: bool, action: char) {
        self.0.push(TermEvent::Csi { params: params.iter().map(|p| p.to_vec()).collect(), action });
    }
}

fn feed(parser: &mut Parser, state: &mut TerminalState, data: &[u8]) {
    let mut events = Events(Vec::new());
    parser.advance(&mut events, data);
    state.feed(&events.0);
}

#[test]
fn plain_text_accumulation() {
    let mut state = TerminalState::new(100);
    let mut parser = Parser::new();
    feed(&mut parser, &mut state, b"hello\nworld\n");
    assert_eq!(state.lines.len(), 2);
    assert_eq!(state.lines[0].plain_text(), "hello");
    assert_eq!(state.lines[1].plain_text(), "world");
}

#[test]
fn scrollback_limit() {
    let mut state = TerminalState::new(5);
    let mut parser = Parser::new();
    for i in 0..10 {
        feed(&mut parser, &mut state, format!("line{}\n", i).as_bytes());
    }
    assert!(state.lines.len() <= 5);
    assert_eq!(state.lines.len(), 5);
    assert_eq!(state.lines[0].plain_text(), "line5");
    assert_eq!(state.lines[4].plain_text(), "line9");
}

#[test]
fn indexed_colour_mapping() {
    assert_eq!(indexed_to_rgb(0), (0, 0, 0));
    assert_eq!(indexed_to_rgb(15), (255, 255, 255));
}

#[test]
fn colour_cube_and_greys() {
    assert_eq!(indexed_to_rgb(1), (170, 0, 0));
    assert_eq!(indexed_to_rgb(16), (0, 0, 0));
    assert_eq!(indexed_to_rgb(17), (0, 0, 95));
    assert_eq!(indexed_to_rgb(231), (255, 255, 255));
    assert_eq!(indexed_to_rgb(232), (8, 8, 8));
    assert_eq!(indexed_to_rgb(255), (238, 238, 238));
}

#[test]
fn sgr_styles_split_spans() {
    let mut state = TerminalState::new(10);
    let mut parser = Parser::new();
    feed(&mut parser, &mut state, b"a\x1b[1;31mb\x1b[0mc\x1b[38;5;200md\x1b[48;2;1;2;3me\x1b[94mf\n");
    let line = &state.lines[0];
    assert_eq!(line.plain_text(), "abcdef");
    let spans = &line.spans;
    assert_eq!(spans.len(), 6);
    assert_eq!(spans[0].fg, AnsiColor::DefaultFg);
    assert!(spans[1].bold);
    assert_eq!(spans[1].fg, AnsiColor::Indexed(1));
    assert!(!spans[2].bold);
    assert_eq!(spans[2].fg, AnsiColor::DefaultFg);
    assert_eq!(spans[3].fg, AnsiColor::Indexed(200));
    assert_eq!(spans[4].bg, AnsiColor::Rgb(1, 2, 3));
    assert_eq!(spans[5].fg, AnsiColor::Indexed(12));
}

#[test]
fn backspace_and_carriage_return() {
    let mut state = TerminalState::new(10);
    let mut parser = Parser::new();
    feed(&mut parser, &mut state, b"abc\x08\rd\n");
    assert_eq!(state.lines[0].plain_text(), "abd");
    feed(&mut parser, &mut state, b"x\x1b[1my\x08\x08\n");
    // once the line holds a span, backspace edits that span, not the pending one
    assert_eq!(state.lines[1].plain_text(), "y");
}

#[test]
fn escape_split_across_chunks() {
    let mut state = TerminalState::new(10);
    let mut parser = Parser::new();
    feed(&mut parser, &mut state, b"a\x1b[3");
    feed(&mut parser, &mut state, b"2mb\n");
    assert_eq!(state.lines[0].spans[1].fg, AnsiColor::Indexed(2));
}

#[test]
fn tail_and_defaults() {
    let mut state = TerminalState::new(10);
    let mut parser = Parser::new();
    feed(&mut parser, &mut state, b"1\n2\n3\n");
    let t = state.tail(2);
    assert_eq!(t.len(), 2);
    assert_eq!(t[0].plain_text(), "2");
    assert_eq!(state.tail(100).len(), 3);
    let span = TerminalSpan::default();
    assert_eq!(span.text, "");
    assert_eq!(span.bg, AnsiColor::DefaultBg);
    assert_eq!(TerminalLine::default().plain_text(), "");
}

#[test]
fn events_apply_directly() {
    let mut state = TerminalState::new(2);
    let events = vec![
        TermEvent::Print('a'),
        TermEvent::Csi { params: vec![vec![1]], action: 'm' },
        TermEvent::Print('b'),
        TermEvent::Csi { params: vec![vec![1]], action: 'H' },
        TermEvent::Execute(b'\r'),
        TermEvent::Execute(b'\n'),
        TermEvent::Execute(b'\n'),
        TermEvent::Execute(b'\n'),
    ];
    state.feed(&events);
    assert_eq!(state.lines.len(), 2);
    assert_eq!(state.lines[0].plain_text(), "");
    assert!(state.lines.iter().all(|l| l.plain_text().is_empty()));
    let mut one = TerminalState::new(5);
    one.feed(&events[..3]);
    one.apply(&TermEvent::Execute(b'\n'));
    assert_eq!(one.lines[0].plain_text(), "ab");
    assert!(one.lines[0].spans[1].bold);
}
