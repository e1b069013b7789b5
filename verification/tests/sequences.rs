//! Byte-level tests: whole escape sequences fed through the external
//! lexer, whose callbacks are forwarded to the library's dispatcher.
use ansi_core::Rgb;
use ansi_core::ansi::{
    self, Action, Attr, ClearMode, Handler, LineClearMode, Mode, TabulationClearMode, TermInfo,
};
use ansi_core::index::{Column, Line};

struct Dispatcher<'a, H: Handler + TermInfo> {
    handler: &'a mut H,
}

impl<'a, H: Handler + TermInfo> vte::Perform for Dispatcher<'a, H> {
    fn print(&mut self, c: char) {
        ansi::print(self.handler, c);
    }

    fn execute(&mut self, byte: u8) {
        ansi::execute(self.handler, byte);
    }

    fn csi_dispatch(&mut self, params: &vte::Params, intermediates: &[u8], ignore: bool, action: char) {
        // the dispatcher speaks i64 parameter lists; the lexer groups
        // subparameters, of which only the leading one is interpreted
        let args: Vec<i64> = params.iter().map(|group| group[0] as i64).collect();
        ansi::csi_dispatch(self.handler, &args, intermediates, ignore, action);
    }

    fn esc_dispatch(&mut self, intermediates: &[u8], _ignore: bool, byte: u8) {
        ansi::esc_dispatch(self.handler, intermediates, byte);
    }
}

struct Processor {
    parser: vte::Parser,
}

impl Processor {
    fn new() -> Processor {
        Processor { parser: vte::Parser::new() }
    }

    fn advance<H: Handler + TermInfo>(&mut self, handler: &mut H, byte: u8) {
        let mut dispatcher = Dispatcher { handler: handler };
        self.parser.advance(&mut dispatcher, &[byte]);
    }
}

#[derive(Default)]
struct AttrHandler {
    attr: Option<Attr>,
}

impl Handler for AttrHandler {
    fn terminal_attribute(&mut self, attr: Attr) {
        self.attr = Some(attr);
    }
}

impl TermInfo for AttrHandler {
    fn lines(&self) -> Line {
        Line(24)
    }

    fn cols(&self) -> Column {
        Column(80)
    }
}

/// Records every capability call, reified as the matching [`Action`].
#[derive(Default)]
struct Recorder {
    calls: Vec<Action>,
}

impl Handler for Recorder {
    fn input(&mut self, c: char) {
        self.calls.push(Action::Input(c));
    }

    fn goto(&mut self, line: Line, col: Column) {
        self.calls.push(Action::Goto(line, col));
    }

    fn goto_line(&mut self, line: Line) {
        self.calls.push(Action::GotoLine(line));
    }

    fn goto_col(&mut self, col: Column) {
        self.calls.push(Action::GotoCol(col));
    }

    fn insert_blank(&mut self, count: usize) {
        self.calls.push(Action::InsertBlank(count));
    }

    fn move_up(&mut self, rows: Line) {
        self.calls.push(Action::MoveUp(rows));
    }

    fn move_down(&mut self, rows: Line) {
        self.calls.push(Action::MoveDown(rows));
    }

    fn identify_terminal(&mut self) {
        self.calls.push(Action::IdentifyTerminal);
    }

    fn move_forward(&mut self, cols: Column) {
        self.calls.push(Action::MoveForward(cols));
    }

    fn move_backward(&mut self, cols: Column) {
        self.calls.push(Action::MoveBackward(cols));
    }

    fn move_down_and_cr(&mut self, rows: Line) {
        self.calls.push(Action::MoveDownAndCr(rows));
    }

    fn move_up_and_cr(&mut self, rows: Line) {
        self.calls.push(Action::MoveUpAndCr(rows));
    }

    fn put_tab(&mut self, count: i64) {
        self.calls.push(Action::PutTab(count));
    }

    fn backspace(&mut self) {
        self.calls.push(Action::Backspace);
    }

    fn carriage_return(&mut self) {
        self.calls.push(Action::CarriageReturn);
    }

    fn linefeed(&mut self) {
        self.calls.push(Action::Linefeed);
    }

    fn bell(&mut self) {
        self.calls.push(Action::Bell);
    }

    fn substitute(&mut self) {
        self.calls.push(Action::Substitute);
    }

    fn newline(&mut self) {
        self.calls.push(Action::Newline);
    }

    fn set_horizontal_tabstop(&mut self) {
        self.calls.push(Action::SetHorizontalTabstop);
    }

    fn scroll_up(&mut self, rows: Line) {
        self.calls.push(Action::ScrollUp(rows));
    }

    fn scroll_down(&mut self, rows: Line) {
        self.calls.push(Action::ScrollDown(rows));
    }

    fn insert_blank_lines(&mut self, rows: Line) {
        self.calls.push(Action::InsertBlankLines(rows));
    }

    fn delete_lines(&mut self, rows: Line) {
        self.calls.push(Action::DeleteLines(rows));
    }

    fn erase_chars(&mut self, count: Column) {
        self.calls.push(Action::EraseChars(count));
    }

    fn delete_chars(&mut self, count: Column) {
        self.calls.push(Action::DeleteChars(count));
    }

    fn move_backward_tabs(&mut self, count: i64) {
        self.calls.push(Action::MoveBackwardTabs(count));
    }

    fn move_forward_tabs(&mut self, count: i64) {
        self.calls.push(Action::MoveForwardTabs(count));
    }

    fn save_cursor_position(&mut self) {
        self.calls.push(Action::SaveCursorPosition);
    }

    fn restore_cursor_position(&mut self) {
        self.calls.push(Action::RestoreCursorPosition);
    }

    fn clear_line(&mut self, mode: LineClearMode) {
        self.calls.push(Action::ClearLine(mode));
    }

    fn clear_screen(&mut self, mode: ClearMode) {
        self.calls.push(Action::ClearScreen(mode));
    }

    fn clear_tabs(&mut self, mode: TabulationClearMode) {
        self.calls.push(Action::ClearTabs(mode));
    }

    fn reset_state(&mut self) {
        self.calls.push(Action::ResetState);
    }

    fn reverse_index(&mut self) {
        self.calls.push(Action::ReverseIndex);
    }

    fn terminal_attribute(&mut self, attr: Attr) {
        self.calls.push(Action::TerminalAttribute(attr));
    }

    fn set_mode(&mut self, mode: Mode) {
        self.calls.push(Action::SetMode(mode));
    }

    fn unset_mode(&mut self, mode: Mode) {
        self.calls.push(Action::UnsetMode(mode));
    }

    fn set_scrolling_region(&mut self, region: std::ops::Range<Line>) {
        self.calls.push(Action::SetScrollingRegion(region.start, region.end));
    }

    fn set_keypad_application_mode(&mut self) {
        self.calls.push(Action::SetKeypadApplicationMode);
    }

    fn unset_keypad_application_mode(&mut self) {
        self.calls.push(Action::UnsetKeypadApplicationMode);
    }
}

impl TermInfo for Recorder {
    fn lines(&self) -> Line {
        Line(24)
    }

    fn cols(&self) -> Column {
        Column(80)
    }
}

fn record(bytes: &[u8]) -> Vec<Action> {
    let mut parser = Processor::new();
    let mut recorder = Recorder::default();
    for byte in bytes {
        parser.advance(&mut recorder, *byte);
    }
    recorder.calls
}

#[test]
fn parse_control_attribute() {
    static BYTES: &'static [u8] = &[0x1b, 0x5b, 0x31, 0x6d];

    let mut parser = Processor::new();
    let mut handler = AttrHandler::default();

    for byte in &BYTES[..] {
        parser.advance(&mut handler, *byte);
    }

    assert_eq!(handler.attr, Some(Attr::Bold));
}

#[test]
fn parse_truecolor_attr() {
    static BYTES: &'static [u8] = &[
        0x1b, 0x5b, 0x33, 0x38, 0x3b, 0x32, 0x3b, 0x31, 0x32, 0x38, 0x3b, 0x36, 0x36, 0x3b, 0x32,
        0x35, 0x35, 0x6d,
    ];

    let mut parser = Processor::new();
    let mut handler = AttrHandler::default();

    for byte in &BYTES[..] {
        parser.advance(&mut handler, *byte);
    }

    let spec = Rgb { r: 128, g: 66, b: 255 };

    assert_eq!(handler.attr, Some(Attr::ForegroundSpec(spec)));
}

/// Not exactly a test; useful for debugging.
#[test]
fn parse_zsh_startup() {
    static BYTES: &'static [u8] = &[
        0x1b, 0x5b, 0x31, 0x6d, 0x1b, 0x5b, 0x37, 0x6d, 0x25, 0x1b, 0x5b, 0x32, 0x37, 0x6d, 0x1b,
        0x5b, 0x31, 0x6d, 0x1b, 0x5b, 0x30, 0x6d, 0x20, 0x20, 0x20, 0x20, 0x20, 0x20, 0x20, 0x20,
        0x20, 0x20, 0x20, 0x20, 0x20, 0x20, 0x20, 0x20, 0x20, 0x20, 0x20, 0x20, 0x20, 0x20, 0x20,
        0x20, 0x20, 0x20, 0x20, 0x20, 0x20, 0x20, 0x20, 0x20, 0x20, 0x20, 0x20, 0x20, 0x20, 0x20,
        0x20, 0x20, 0x20, 0x20, 0x20, 0x20, 0x20, 0x20, 0x20, 0x20, 0x20, 0x20, 0x20, 0x20, 0x20,
        0x20, 0x20, 0x20, 0x20, 0x20, 0x20, 0x20, 0x20, 0x20, 0x20, 0x20, 0x20, 0x20, 0x20, 0x20,
        0x20, 0x20, 0x20, 0x20, 0x20, 0x20, 0x20, 0x20, 0x20, 0x20, 0x20, 0x0d, 0x20, 0x0d, 0x0d,
        0x1b, 0x5b, 0x30, 0x6d, 0x1b, 0x5b, 0x32, 0x37, 0x6d, 0x1b, 0x5b, 0x32, 0x34, 0x6d, 0x1b,
        0x5b, 0x4a, 0x6a, 0x77, 0x69, 0x6c, 0x6d, 0x40, 0x6a, 0x77, 0x69, 0x6c, 0x6d, 0x2d, 0x64,
        0x65, 0x73, 0x6b, 0x20, 0x1b, 0x5b, 0x30, 0x31, 0x3b, 0x33, 0x32, 0x6d, 0xe2, 0x9e, 0x9c,
        0x20, 0x1b, 0x5b, 0x30, 0x31, 0x3b, 0x33, 0x32, 0x6d, 0x20, 0x1b, 0x5b, 0x33, 0x36, 0x6d,
        0x7e, 0x2f, 0x63, 0x6f, 0x64, 0x65,
    ];

    let mut handler = AttrHandler::default();
    let mut parser = Processor::new();

    for byte in &BYTES[..] {
        parser.advance(&mut handler, *byte);
    }
}

#[test]
fn documented_csi_defaults_reproduce_their_calls() {
    let table: &[(&[u8], Action)] = &[
        (b"\x1b[@", Action::InsertBlank(1)),
        (b"\x1b[A", Action::MoveUp(Line(1))),
        (b"\x1b[B", Action::MoveDown(Line(1))),
        (b"\x1b[e", Action::MoveDown(Line(1))),
        (b"\x1b[c", Action::IdentifyTerminal),
        (b"\x1b[n", Action::IdentifyTerminal),
        (b"\x1b[C", Action::MoveForward(Column(1))),
        (b"\x1b[a", Action::MoveForward(Column(1))),
        (b"\x1b[D", Action::MoveBackward(Column(1))),
        (b"\x1b[E", Action::MoveDownAndCr(Line(1))),
        (b"\x1b[F", Action::MoveUpAndCr(Line(1))),
        (b"\x1b[g", Action::ClearTabs(TabulationClearMode::Current)),
        (b"\x1b[3g", Action::ClearTabs(TabulationClearMode::All)),
        (b"\x1b[G", Action::GotoCol(Column(0))),
        (b"\x1b[`", Action::GotoCol(Column(0))),
        (b"\x1b[H", Action::Goto(Line(0), Column(0))),
        (b"\x1b[f", Action::Goto(Line(0), Column(0))),
        (b"\x1b[I", Action::MoveForwardTabs(1)),
        (b"\x1b[J", Action::ClearScreen(ClearMode::Below)),
        (b"\x1b[1J", Action::ClearScreen(ClearMode::Above)),
        (b"\x1b[2J", Action::ClearScreen(ClearMode::All)),
        (b"\x1b[K", Action::ClearLine(LineClearMode::Right)),
        (b"\x1b[1K", Action::ClearLine(LineClearMode::Left)),
        (b"\x1b[2K", Action::ClearLine(LineClearMode::All)),
        (b"\x1b[S", Action::ScrollUp(Line(1))),
        (b"\x1b[T", Action::ScrollDown(Line(1))),
        (b"\x1b[L", Action::InsertBlankLines(Line(1))),
        (b"\x1b[M", Action::DeleteLines(Line(1))),
        (b"\x1b[?25l", Action::UnsetMode(Mode::ShowCursor)),
        (b"\x1b[?25h", Action::SetMode(Mode::ShowCursor)),
        (b"\x1b[?1049h", Action::SetMode(Mode::SwapScreenAndSetRestoreCursor)),
        (b"\x1b[X", Action::EraseChars(Column(1))),
        (b"\x1b[P", Action::DeleteChars(Column(1))),
        (b"\x1b[Z", Action::MoveBackwardTabs(1)),
        (b"\x1b[d", Action::GotoLine(Line(0))),
        (b"\x1b[m", Action::TerminalAttribute(Attr::Reset)),
        (b"\x1b[r", Action::SetScrollingRegion(Line(0), Line(24))),
        (b"\x1b[s", Action::SaveCursorPosition),
        (b"\x1b[u", Action::RestoreCursorPosition),
        (b"\x1bD", Action::Linefeed),
        (b"\x1bE", Action::Newline),
        (b"\x1bH", Action::SetHorizontalTabstop),
        (b"\x1bM", Action::ReverseIndex),
        (b"\x1bZ", Action::IdentifyTerminal),
        (b"\x1b7", Action::SaveCursorPosition),
        (b"\x1b8", Action::RestoreCursorPosition),
        (b"\x1b=", Action::SetKeypadApplicationMode),
        (b"\x1b>", Action::UnsetKeypadApplicationMode),
        (b"\x09", Action::PutTab(1)),
        (b"\x08", Action::Backspace),
        (b"\x0d", Action::CarriageReturn),
        (b"\x0a", Action::Linefeed),
        (b"\x0b", Action::Linefeed),
        (b"\x0c", Action::Linefeed),
        (b"\x07", Action::Bell),
        (b"\x1a", Action::Substitute),
    ];
    for (bytes, expected) in table {
        // the encoding produces exactly the documented call ...
        assert_eq!(record(bytes), vec![*expected]);
        // ... and reproduces it exactly on a repeated run
        let mut parser = Processor::new();
        let mut recorder = Recorder::default();
        for byte in *bytes {
            parser.advance(&mut recorder, *byte);
        }
        for byte in *bytes {
            parser.advance(&mut recorder, *byte);
        }
        assert_eq!(recorder.calls, vec![*expected, *expected]);
    }
}

#[test]
fn reset_escape_is_dispatched() {
    // kept apart from the table: resetting twice is its own scenario
    assert_eq!(record(b"\x1bc"), vec![Action::ResetState]);
    assert_eq!(record(b"\x1bc\x1bc"), vec![Action::ResetState, Action::ResetState]);
}

#[test]
fn printable_bytes_are_forwarded_verbatim() {
    assert_eq!(record(b"hi"), vec![Action::Input('h'), Action::Input('i')]);
}

#[test]
fn out_of_range_channel_emits_nothing_through_the_lexer() {
    // ESC [ 38 ; 2 ; 256 ; 66 ; 255 ; 1 m -- the 1 must not become Bold
    let calls = record(b"\x1b[38;2;256;66;255;1m");
    assert_eq!(calls, vec![]);
}

#[test]
fn combined_sgr_sequence_is_delivered_in_order() {
    let calls = record(b"\x1b[1;38;2;10;20;30;4m");
    assert_eq!(calls, vec![
        Action::TerminalAttribute(Attr::Bold),
        Action::TerminalAttribute(Attr::ForegroundSpec(Rgb { r: 10, g: 20, b: 30 })),
        Action::TerminalAttribute(Attr::Underscore),
    ]);
}

#[test]
fn dcs_and_osc_content_is_ignored() {
    assert_eq!(record(b"\x1b]0;title\x07"), vec![]);
    assert_eq!(record(b"\x1bP1;2|data\x1b\\"), vec![]);
}

#[test]
fn arbitrary_bytes_never_fault_the_entry_point() {
    // every single byte, each against a fresh parser
    let mut byte: u8 = 0;
    loop {
        let mut parser = Processor::new();
        let mut recorder = Recorder::default();
        parser.advance(&mut recorder, byte);
        if byte == 255 {
            break;
        }
        byte += 1;
    }

    // a long deterministically-scrambled stream against one parser
    let mut parser = Processor::new();
    let mut recorder = Recorder::default();
    let mut state: u64 = 0x243F6A8885A308D3;
    let mut fed: usize = 0;
    while fed < 65536 {
        state ^= state << 13;
        state ^= state >> 7;
        state ^= state << 17;
        parser.advance(&mut recorder, (state & 0xFF) as u8);
        fed += 1;
    }

    // a huge parameter saturates in the lexer instead of faulting
    let calls = record(b"\x1b[99999999999999999999999999d");
    assert_eq!(calls, vec![Action::GotoLine(Line(65534))]);
}
