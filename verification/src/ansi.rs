//! The event dispatcher: from lexical events to typed terminal operations.
//!
//! An external lexer splits the raw byte stream into events -- a printable
//! character, a control byte to execute, or a completed CSI/ESC sequence
//! with its parameter list.  The functions here translate each event into
//! zero or more [`Action`] values and drive them into a [`Handler`].  The
//! translation itself is pure and total: every entry point accepts every
//! input, and garbage degrades to an empty action list.
use vstd::prelude::*;

pub mod c0;
pub mod c1;

use std::ops::Range;

use crate::Rgb;
use crate::index::{Column, Line};

verus! {

/// Terminal modes, each carrying a stable wire-format code in the private
/// (`?`-prefixed) CSI namespace; see [`Mode::from_primitive`].
#[derive(Debug, Clone, Copy, PartialEq, Eq)]
pub enum Mode {
    /// Private code 1.
    CursorKeys,
    /// Private code 6.
    Origin,
    /// Private code 12.
    BlinkingCursor,
    /// Private code 25.
    ShowCursor,
    /// Private code 1049.
    SwapScreenAndSetRestoreCursor,
}

/// The mode selected by a namespace flag and a numeric code, if any.
///
/// Only the private namespace is populated; every public-namespace code
/// resolves to `None` by design.
pub open spec fn spec_mode_from_primitive(private: bool, num: i64) -> Option<Mode> {
    if private {
        if num == 1 {
            Some(Mode::CursorKeys)
        } else if num == 6 {
            Some(Mode::Origin)
        } else if num == 12 {
            Some(Mode::BlinkingCursor)
        } else if num == 25 {
            Some(Mode::ShowCursor)
        } else if num == 1049 {
            Some(Mode::SwapScreenAndSetRestoreCursor)
        } else {
            None
        }
    } else {
        None
    }
}

impl Mode {
    /// Resolve a numeric mode code against its namespace.
    ///
    /// An unrecognized code yields `None` in either namespace; that is a
    /// reportable outcome for the caller, never a fault.
    pub fn from_primitive(private: bool, num: i64) -> (mode: Option<Mode>)
        ensures
            mode == spec_mode_from_primitive(private, num),
    {
        if private {
            match num {
                1 => Some(Mode::CursorKeys),
                6 => Some(Mode::Origin),
                12 => Some(Mode::BlinkingCursor),
                25 => Some(Mode::ShowCursor),
                1049 => Some(Mode::SwapScreenAndSetRestoreCursor),
                _ => None,
            }
        } else {
            None
        }
    }
}

/// Every code of the public namespace resolves to no mode at all: the
/// namespace is empty by design, not by accident.
pub proof fn lemma_public_namespace_has_no_modes(num: i64)
    ensures
        spec_mode_from_primitive(false, num) is None,
{
}

/// Which part of the current line an erase-in-line operation clears,
/// relative to the cursor.
#[derive(Debug, Clone, Copy, PartialEq, Eq)]
pub enum LineClearMode {
    /// Clear right of the cursor.
    Right,
    /// Clear left of the cursor.
    Left,
    /// Clear the entire line.
    All,
}

/// Which part of the screen an erase-in-display operation clears,
/// relative to the cursor.
#[derive(Debug, Clone, Copy, PartialEq, Eq)]
pub enum ClearMode {
    /// Clear below the cursor.
    Below,
    /// Clear above the cursor.
    Above,
    /// Clear the entire terminal.
    All,
}

/// Which tab stops a tabulation-clear operation removes.
#[derive(Debug, Clone, Copy, PartialEq, Eq)]
pub enum TabulationClearMode {
    /// Clear the stop under the cursor.
    Current,
    /// Clear all stops.
    All,
}

/// The sixteen palette slots.
///
/// The numeric index of each slot is a wire-format contract (it indexes an
/// external palette table), so it is written out explicitly in
/// [`Color::to_index`] instead of being left to declaration order.
#[derive(Debug, Clone, Copy, PartialEq, Eq)]
pub enum Color {
    Black,
    Red,
    Green,
    Yellow,
    Blue,
    Magenta,
    Cyan,
    White,
    BrightBlack,
    BrightRed,
    BrightGreen,
    BrightYellow,
    BrightBlue,
    BrightMagenta,
    BrightCyan,
    BrightWhite,
}

impl Color {
    /// The stable palette index of this slot: Black is 0 through White at
    /// 7, then BrightBlack at 8 through BrightWhite at 15.
    pub open spec fn spec_index(self) -> int {
        match self {
            Color::Black => 0,
            Color::Red => 1,
            Color::Green => 2,
            Color::Yellow => 3,
            Color::Blue => 4,
            Color::Magenta => 5,
            Color::Cyan => 6,
            Color::White => 7,
            Color::BrightBlack => 8,
            Color::BrightRed => 9,
            Color::BrightGreen => 10,
            Color::BrightYellow => 11,
            Color::BrightBlue => 12,
            Color::BrightMagenta => 13,
            Color::BrightCyan => 14,
            Color::BrightWhite => 15,
        }
    }

    /// The palette index as a value, for indexing an external color table.
    pub fn to_index(self) -> (i: usize)
        ensures
            i == self.spec_index(),
    {
        match self {
            Color::Black => 0,
            Color::Red => 1,
            Color::Green => 2,
            Color::Yellow => 3,
            Color::Blue => 4,
            Color::Magenta => 5,
            Color::Cyan => 6,
            Color::White => 7,
            Color::BrightBlack => 8,
            Color::BrightRed => 9,
            Color::BrightGreen => 10,
            Color::BrightYellow => 11,
            Color::BrightBlue => 12,
            Color::BrightMagenta => 13,
            Color::BrightCyan => 14,
            Color::BrightWhite => 15,
        }
    }
}

/// Character-rendering directives; exactly one is produced per recognized
/// SGR parameter or color sub-specification group.
#[derive(Debug, Clone, Copy, PartialEq, Eq)]
pub enum Attr {
    /// Clear all special abilities.
    Reset,
    /// Bold text.
    Bold,
    /// Dim or secondary color.
    Dim,
    /// Italic text.
    Italic,
    /// Underscored text.
    Underscore,
    /// Slow cursor blink.
    BlinkSlow,
    /// Fast cursor blink.
    BlinkFast,
    /// Inverted colors.
    Reverse,
    /// Hidden characters.
    Hidden,
    /// Struck-through text.
    Strike,
    /// Cancel bold and dim.
    CancelBoldDim,
    /// Cancel italic.
    CancelItalic,
    /// Cancel underline.
    CancelUnderline,
    /// Cancel blinking.
    CancelBlink,
    /// Cancel inversion.
    CancelReverse,
    /// Cancel hiding.
    CancelHidden,
    /// Cancel strike-through.
    CancelStrike,
    /// Indexed foreground color.
    Foreground(Color),
    /// Explicit 24-bit foreground color.
    ForegroundSpec(Rgb),
    /// Indexed background color.
    Background(Color),
    /// Explicit 24-bit background color.
    BackgroundSpec(Rgb),
    /// Default foreground.
    DefaultForeground,
    /// Default background.
    DefaultBackground,
}

/// The color encoded by a sub-specification slice, if any.
///
/// `attrs` is the remaining parameter slice of an SGR sequence, starting
/// at the introducing 38 or 48.  The next element selects the colorspace;
/// only selector 2 (direct 24-bit color) is recognized, and it requires
/// exactly three further channel parameters, each within 0..=255.  Any
/// shortfall, other selector, or out-of-range channel is a parse failure.
pub open spec fn spec_parse_color(attrs: Seq<i64>) -> Option<Rgb> {
    if attrs.len() < 2 {
        None
    } else if attrs[1] != 2 {
        None
    } else if attrs.len() < 5 {
        None
    } else if !(0 <= attrs[2] <= 255 && 0 <= attrs[3] <= 255 && 0 <= attrs[4] <= 255) {
        None
    } else {
        Some(Rgb { r: attrs[2] as u8, g: attrs[3] as u8, b: attrs[4] as u8 })
    }
}

/// How far [`parse_color`] moves the shared parameter cursor: past the
/// selector and the three channels whenever that tail was consumed, which
/// happens exactly when selector 2 is present with a complete tail --
/// also when a channel then turns out to be out of range.
pub open spec fn spec_color_cursor_advance(attrs: Seq<i64>) -> nat {
    if attrs.len() >= 5 && attrs[1] == 2 {
        4
    } else {
        0
    }
}

/// Decode one color sub-specification from the remaining SGR parameter
/// slice `attrs`, threading the caller's parameter cursor through `i`.
///
/// Returns the color exactly as [`spec_parse_color`] describes it and
/// advances `i` by [`spec_color_cursor_advance`]; on failure the caller
/// is expected to abandon the rest of the sequence, so the cursor's final
/// position only matters on success.
pub fn parse_color(attrs: &[i64], i: &mut usize) -> (color: Option<Rgb>)
    requires
        *old(i) + attrs@.len() <= usize::MAX,
    ensures
        color == spec_parse_color(attrs@),
        *final(i) == *old(i) + spec_color_cursor_advance(attrs@),
{
    if attrs.len() < 2 {
        return None;
    }
    if attrs[1] == 2 {
        if attrs.len() < 5 {
            return None;
        }
        let r: i64 = attrs[2];
        let g: i64 = attrs[3];
        let b: i64 = attrs[4];
        *i = *i + 4;
        if r < 0 || r > 255 || g < 0 || g > 255 || b < 0 || b > 255 {
            return None;
        }
        Some(Rgb { r: r as u8, g: g as u8, b: b as u8 })
    } else {
        None
    }
}

/// The attribute selected by a single SGR parameter, for every code other
/// than the color sub-specification introducers 38 and 48.
pub open spec fn spec_attr_for_code(code: i64) -> Option<Attr> {
    match code {
        0 => Some(Attr::Reset),
        1 => Some(Attr::Bold),
        2 => Some(Attr::Dim),
        3 => Some(Attr::Italic),
        4 => Some(Attr::Underscore),
        5 => Some(Attr::BlinkSlow),
        6 => Some(Attr::BlinkFast),
        7 => Some(Attr::Reverse),
        8 => Some(Attr::Hidden),
        9 => Some(Attr::Strike),
        22 => Some(Attr::CancelBoldDim),
        23 => Some(Attr::CancelItalic),
        24 => Some(Attr::CancelUnderline),
        25 => Some(Attr::CancelBlink),
        27 => Some(Attr::CancelReverse),
        28 => Some(Attr::CancelHidden),
        29 => Some(Attr::CancelStrike),
        30 => Some(Attr::Foreground(Color::Black)),
        31 => Some(Attr::Foreground(Color::Red)),
        32 => Some(Attr::Foreground(Color::Green)),
        33 => Some(Attr::Foreground(Color::Yellow)),
        34 => Some(Attr::Foreground(Color::Blue)),
        35 => Some(Attr::Foreground(Color::Magenta)),
        36 => Some(Attr::Foreground(Color::Cyan)),
        37 => Some(Attr::Foreground(Color::White)),
        39 => Some(Attr::DefaultForeground),
        40 => Some(Attr::Background(Color::Black)),
        41 => Some(Attr::Background(Color::Red)),
        42 => Some(Attr::Background(Color::Green)),
        43 => Some(Attr::Background(Color::Yellow)),
        44 => Some(Attr::Background(Color::Blue)),
        45 => Some(Attr::Background(Color::Magenta)),
        46 => Some(Attr::Background(Color::Cyan)),
        47 => Some(Attr::Background(Color::White)),
        49 => Some(Attr::DefaultBackground),
        90 => Some(Attr::Foreground(Color::BrightBlack)),
        91 => Some(Attr::Foreground(Color::BrightRed)),
        92 => Some(Attr::Foreground(Color::BrightGreen)),
        93 => Some(Attr::Foreground(Color::BrightYellow)),
        94 => Some(Attr::Foreground(Color::BrightBlue)),
        95 => Some(Attr::Foreground(Color::BrightMagenta)),
        96 => Some(Attr::Foreground(Color::BrightCyan)),
        97 => Some(Attr::Foreground(Color::BrightWhite)),
        100 => Some(Attr::Foreground(Color::BrightBlack)),
        101 => Some(Attr::Foreground(Color::BrightRed)),
        102 => Some(Attr::Foreground(Color::BrightGreen)),
        103 => Some(Attr::Foreground(Color::BrightYellow)),
        104 => Some(Attr::Foreground(Color::BrightBlue)),
        105 => Some(Attr::Foreground(Color::BrightMagenta)),
        106 => Some(Attr::Foreground(Color::BrightCyan)),
        107 => Some(Attr::Foreground(Color::BrightWhite)),
        _ => None,
    }
}

/// Look up the attribute for a plain SGR parameter code.
pub fn attr_for_code(code: i64) -> (attr: Option<Attr>)
    ensures
        attr == spec_attr_for_code(code),
{
    match code {
        0 => Some(Attr::Reset),
        1 => Some(Attr::Bold),
        2 => Some(Attr::Dim),
        3 => Some(Attr::Italic),
        4 => Some(Attr::Underscore),
        5 => Some(Attr::BlinkSlow),
        6 => Some(Attr::BlinkFast),
        7 => Some(Attr::Reverse),
        8 => Some(Attr::Hidden),
        9 => Some(Attr::Strike),
        22 => Some(Attr::CancelBoldDim),
        23 => Some(Attr::CancelItalic),
        24 => Some(Attr::CancelUnderline),
        25 => Some(Attr::CancelBlink),
        27 => Some(Attr::CancelReverse),
        28 => Some(Attr::CancelHidden),
        29 => Some(Attr::CancelStrike),
        30 => Some(Attr::Foreground(Color::Black)),
        31 => Some(Attr::Foreground(Color::Red)),
        32 => Some(Attr::Foreground(Color::Green)),
        33 => Some(Attr::Foreground(Color::Yellow)),
        34 => Some(Attr::Foreground(Color::Blue)),
        35 => Some(Attr::Foreground(Color::Magenta)),
        36 => Some(Attr::Foreground(Color::Cyan)),
        37 => Some(Attr::Foreground(Color::White)),
        39 => Some(Attr::DefaultForeground),
        40 => Some(Attr::Background(Color::Black)),
        41 => Some(Attr::Background(Color::Red)),
        42 => Some(Attr::Background(Color::Green)),
        43 => Some(Attr::Background(Color::Yellow)),
        44 => Some(Attr::Background(Color::Blue)),
        45 => Some(Attr::Background(Color::Magenta)),
        46 => Some(Attr::Background(Color::Cyan)),
        47 => Some(Attr::Background(Color::White)),
        49 => Some(Attr::DefaultBackground),
        90 => Some(Attr::Foreground(Color::BrightBlack)),
        91 => Some(Attr::Foreground(Color::BrightRed)),
        92 => Some(Attr::Foreground(Color::BrightGreen)),
        93 => Some(Attr::Foreground(Color::BrightYellow)),
        94 => Some(Attr::Foreground(Color::BrightBlue)),
        95 => Some(Attr::Foreground(Color::BrightMagenta)),
        96 => Some(Attr::Foreground(Color::BrightCyan)),
        97 => Some(Attr::Foreground(Color::BrightWhite)),
        100 => Some(Attr::Foreground(Color::BrightBlack)),
        101 => Some(Attr::Foreground(Color::BrightRed)),
        102 => Some(Attr::Foreground(Color::BrightGreen)),
        103 => Some(Attr::Foreground(Color::BrightYellow)),
        104 => Some(Attr::Foreground(Color::BrightBlue)),
        105 => Some(Attr::Foreground(Color::BrightMagenta)),
        106 => Some(Attr::Foreground(Color::BrightCyan)),
        107 => Some(Attr::Foreground(Color::BrightWhite)),
        _ => None,
    }
}

/// The attributes of an SGR parameter list from position `i` onward.
///
/// Recognized codes each contribute one attribute; an unrecognized code
/// contributes nothing and the scan continues behind it.  A code 38 or 48
/// opens a color sub-specification: on success it contributes one
/// explicit-color attribute and the scan resumes past the consumed group,
/// while on failure the rest of the list is abandoned entirely.
pub open spec fn spec_sgr_from(args: Seq<i64>, i: int) -> Seq<Attr>
    decreases args.len() - i,
{
    if i < 0 || i >= args.len() {
        Seq::empty()
    } else if args[i] == 38 || args[i] == 48 {
        match spec_parse_color(args.subrange(i, args.len() as int)) {
            Some(rgb) => {
                let attr = if args[i] == 38 {
                    Attr::ForegroundSpec(rgb)
                } else {
                    Attr::BackgroundSpec(rgb)
                };
                seq![attr] + spec_sgr_from(args, i + 5)
            },
            None => Seq::empty(),
        }
    } else {
        match spec_attr_for_code(args[i]) {
            Some(attr) => seq![attr] + spec_sgr_from(args, i + 1),
            None => spec_sgr_from(args, i + 1),
        }
    }
}

/// The attributes selected by a whole SGR parameter list.  An empty list
/// is defined as exactly one reset.
pub open spec fn spec_sgr(args: Seq<i64>) -> Seq<Attr> {
    if args.len() == 0 {
        seq![Attr::Reset]
    } else {
        spec_sgr_from(args, 0)
    }
}

/// A color sub-specification that fails to parse silences everything
/// behind it: no attribute is delivered for it, and the later parameters
/// of the same sequence are not reinterpreted as unrelated attributes.
pub proof fn lemma_sgr_stops_at_failed_color(args: Seq<i64>, i: int)
    requires
        0 <= i < args.len(),
        args[i] == 38 || args[i] == 48,
        spec_parse_color(args.subrange(i, args.len() as int)) is None,
    ensures
        spec_sgr_from(args, i) =~= Seq::<Attr>::empty(),
{
}

/// Translate an SGR parameter list into its attribute sequence,
/// implementing the scan that [`spec_sgr`] describes.
pub fn sgr_attrs(args: &[i64]) -> (attrs: Vec<Attr>)
    ensures
        attrs@ == spec_sgr(args@),
{
    let mut attrs: Vec<Attr> = Vec::new();
    if args.len() == 0 {
        attrs.push(Attr::Reset);
        proof {
            assert(attrs@ =~= seq![Attr::Reset]);
        }
        return attrs;
    }
    let mut i: usize = 0;
    proof {
        assert(attrs@ + spec_sgr_from(args@, 0) =~= spec_sgr_from(args@, 0));
    }
    while i < args.len()
        invariant_except_break
            i <= args@.len(),
            args@.len() >= 1,
            spec_sgr(args@) == attrs@ + spec_sgr_from(args@, i as int),
        ensures
            attrs@ == spec_sgr(args@),
        decreases args@.len() - i,
    {
        let ghost prev = i as int;
        let code: i64 = args[i];
        if code == 38 || code == 48 {
            let rest: &[i64] = vstd::slice::slice_subrange(args, i, args.len());
            match parse_color(rest, &mut i) {
                Some(rgb) => {
                    let attr = if code == 38 {
                        Attr::ForegroundSpec(rgb)
                    } else {
                        Attr::BackgroundSpec(rgb)
                    };
                    attrs.push(attr);
                    i = i + 1;
                    proof {
                        assert(spec_sgr(args@) =~= attrs@ + spec_sgr_from(args@, i as int));
                    }
                },
                None => {
                    proof {
                        assert(spec_sgr_from(args@, prev) =~= Seq::<Attr>::empty());
                        assert(attrs@ =~= attrs@ + spec_sgr_from(args@, prev));
                    }
                    break;
                },
            }
        } else {
            match attr_for_code(code) {
                Some(attr) => {
                    attrs.push(attr);
                },
                None => {},
            }
            i = i + 1;
            proof {
                assert(spec_sgr(args@) =~= attrs@ + spec_sgr_from(args@, i as int));
            }
        }
    }
    attrs
}

/// One typed terminal operation, ready to be delivered to a [`Handler`].
///
/// A dispatched event translates into a sequence of these; reifying the
/// calls as values keeps the translation pure, so that its result is
/// pinned down exactly for every input.
#[derive(Debug, Clone, Copy, PartialEq, Eq)]
pub enum Action {
    /// Display a character.
    Input(char),
    /// Set cursor to a position (zero-based row, column).
    Goto(Line, Column),
    /// Set cursor to a specific row.
    GotoLine(Line),
    /// Set cursor to a specific column.
    GotoCol(Column),
    /// Insert blank characters at the cursor.
    InsertBlank(usize),
    /// Move cursor up this many rows.
    MoveUp(Line),
    /// Move cursor down this many rows.
    MoveDown(Line),
    /// Identify the terminal (writes back to the stream).
    IdentifyTerminal,
    /// Move cursor forward this many columns.
    MoveForward(Column),
    /// Move cursor backward this many columns.
    MoveBackward(Column),
    /// Move cursor down this many rows and to the first column.
    MoveDownAndCr(Line),
    /// Move cursor up this many rows and to the first column.
    MoveUpAndCr(Line),
    /// Put this many tabs.
    PutTab(i64),
    /// Backspace one character.
    Backspace,
    /// Carriage return.
    CarriageReturn,
    /// Linefeed.
    Linefeed,
    /// Ring the bell.
    Bell,
    /// Substitute the character under the cursor.
    Substitute,
    /// Newline.
    Newline,
    /// Set the current position as a tabstop.
    SetHorizontalTabstop,
    /// Scroll up this many rows.
    ScrollUp(Line),
    /// Scroll down this many rows.
    ScrollDown(Line),
    /// Insert this many blank lines.
    InsertBlankLines(Line),
    /// Delete this many lines.
    DeleteLines(Line),
    /// Erase this many characters after the cursor.
    EraseChars(Column),
    /// Delete this many characters.
    DeleteChars(Column),
    /// Move backward this many tabs.
    MoveBackwardTabs(i64),
    /// Move forward this many tabs.
    MoveForwardTabs(i64),
    /// Save the cursor position.
    SaveCursorPosition,
    /// Restore the cursor position.
    RestoreCursorPosition,
    /// Clear part of the current line.
    ClearLine(LineClearMode),
    /// Clear part of the screen.
    ClearScreen(ClearMode),
    /// Clear tab stops.
    ClearTabs(TabulationClearMode),
    /// Reset the terminal state.
    ResetState,
    /// Reverse index: move up, scrolling at the top margin.
    ReverseIndex,
    /// Set a character attribute.
    TerminalAttribute(Attr),
    /// Set a mode.
    SetMode(Mode),
    /// Unset a mode.
    UnsetMode(Mode),
    /// Set the scrolling region to the rows [top, bottom).
    SetScrollingRegion(Line, Line),
    /// Set keypad to application mode (ESCape instead of digits).
    SetKeypadApplicationMode,
    /// Set keypad to numeric mode (digits instead of ESCape sequences).
    UnsetKeypadApplicationMode,
}

/// Whether a CSI sequence selects the private mode namespace: its first
/// intermediate byte is `?`.
pub open spec fn spec_is_private(intermediates: Seq<u8>) -> bool {
    intermediates.len() > 0 && intermediates[0] == 63u8
}

/// Test for the `?` intermediate that selects the private namespace.
pub fn is_private(intermediates: &[u8]) -> (private: bool)
    ensures
        private == spec_is_private(intermediates@),
{
    intermediates.len() > 0 && intermediates[0] == 63u8
}

/// The positional parameter at `idx`, or `default` when it is absent or
/// zero.  The "zero means absent" rule is uniform across all CSI actions.
pub open spec fn spec_arg_or(args: Seq<i64>, idx: int, default: i64) -> i64 {
    if 0 <= idx < args.len() && args[idx] != 0 {
        args[idx]
    } else {
        default
    }
}

fn arg_or(args: &[i64], idx: usize, default: i64) -> (v: i64)
    ensures
        v == spec_arg_or(args@, idx as int, default),
{
    if idx < args.len() {
        let a: i64 = args[idx];
        if a != 0 {
            a
        } else {
            default
        }
    } else {
        default
    }
}

/// A count or one-based position parameter, defaulted to 1.
///
/// A parameter that is negative, or too large for the machine's word,
/// cannot name a count or a position; it yields `None`, which makes the
/// sequence an unhandled outcome rather than a misdispatch.
pub open spec fn spec_count_param(args: Seq<i64>, idx: int) -> Option<usize> {
    let v = spec_arg_or(args, idx, 1);
    if 0 < v <= usize::MAX {
        Some(v as usize)
    } else {
        None
    }
}

fn count_param(args: &[i64], idx: usize) -> (count: Option<usize>)
    ensures
        count == spec_count_param(args@, idx as int),
{
    let v: i64 = arg_or(args, idx, 1);
    if v > 0 && v as u64 <= usize::MAX as u64 {
        Some(v as usize)
    } else {
        None
    }
}

/// The bottom margin of a scrolling-region sequence: its second
/// parameter when present and nonzero, otherwise the terminal's live
/// line count.
pub open spec fn spec_bottom_param(args: Seq<i64>, lines: usize) -> Option<usize> {
    if 1 < args.len() && args[1] != 0 {
        let v = args[1];
        if 0 < v <= usize::MAX {
            Some(v as usize)
        } else {
            None
        }
    } else {
        Some(lines)
    }
}

fn bottom_param(args: &[i64], lines: usize) -> (bottom: Option<usize>)
    ensures
        bottom == spec_bottom_param(args@, lines),
{
    if args.len() > 1 {
        let v: i64 = args[1];
        if v != 0 {
            if v > 0 && v as u64 <= usize::MAX as u64 {
                return Some(v as usize);
            } else {
                return None;
            }
        }
    }
    Some(lines)
}

/// The delivery of one attribute.
pub open spec fn spec_attr_action(attr: Attr) -> Action {
    Action::TerminalAttribute(attr)
}

/// The delivery of a whole attribute sequence, in order.
pub open spec fn spec_attr_actions(attrs: Seq<Attr>) -> Seq<Action> {
    attrs.map_values(|attr: Attr| spec_attr_action(attr))
}

/// The operations a completed CSI sequence dispatches.
///
/// `lines` is the terminal's live line count, consulted only by the
/// scrolling-region action to default its bottom margin.  An action byte
/// outside the table, a mode that does not resolve, or a parameter that
/// cannot name what the action needs, all yield the empty sequence: the
/// unhandled outcome, reportable but never a fault.
pub open spec fn spec_csi(args: Seq<i64>, intermediates: Seq<u8>, lines: usize, action: char) -> Seq<
    Action,
> {
    let private = spec_is_private(intermediates);
    match action {
        '@' => match spec_count_param(args, 0) {
            Some(n) => seq![Action::InsertBlank(n)],
            None => Seq::<Action>::empty(),
        },
        'A' => match spec_count_param(args, 0) {
            Some(n) => seq![Action::MoveUp(Line(n))],
            None => Seq::<Action>::empty(),
        },
        'B' | 'e' => match spec_count_param(args, 0) {
            Some(n) => seq![Action::MoveDown(Line(n))],
            None => Seq::<Action>::empty(),
        },
        'c' | 'n' => seq![Action::IdentifyTerminal],
        'C' | 'a' => match spec_count_param(args, 0) {
            Some(n) => seq![Action::MoveForward(Column(n))],
            None => Seq::<Action>::empty(),
        },
        'D' => match spec_count_param(args, 0) {
            Some(n) => seq![Action::MoveBackward(Column(n))],
            None => Seq::<Action>::empty(),
        },
        'E' => match spec_count_param(args, 0) {
            Some(n) => seq![Action::MoveDownAndCr(Line(n))],
            None => Seq::<Action>::empty(),
        },
        'F' => match spec_count_param(args, 0) {
            Some(n) => seq![Action::MoveUpAndCr(Line(n))],
            None => Seq::<Action>::empty(),
        },
        'g' => {
            let selector = spec_arg_or(args, 0, 0);
            if selector == 0 {
                seq![Action::ClearTabs(TabulationClearMode::Current)]
            } else if selector == 3 {
                seq![Action::ClearTabs(TabulationClearMode::All)]
            } else {
                Seq::<Action>::empty()
            }
        },
        'G' | '`' => match spec_count_param(args, 0) {
            Some(n) => seq![Action::GotoCol(Column((n - 1) as usize))],
            None => Seq::<Action>::empty(),
        },
        'H' | 'f' => match (spec_count_param(args, 0), spec_count_param(args, 1)) {
            (Some(y), Some(x)) => seq![
                Action::Goto(Line((y - 1) as usize), Column((x - 1) as usize)),
            ],
            _ => Seq::<Action>::empty(),
        },
        'I' => seq![Action::MoveForwardTabs(spec_arg_or(args, 0, 1))],
        'J' => {
            let selector = spec_arg_or(args, 0, 0);
            if selector == 0 {
                seq![Action::ClearScreen(ClearMode::Below)]
            } else if selector == 1 {
                seq![Action::ClearScreen(ClearMode::Above)]
            } else if selector == 2 {
                seq![Action::ClearScreen(ClearMode::All)]
            } else {
                Seq::<Action>::empty()
            }
        },
        'K' => {
            let selector = spec_arg_or(args, 0, 0);
            if selector == 0 {
                seq![Action::ClearLine(LineClearMode::Right)]
            } else if selector == 1 {
                seq![Action::ClearLine(LineClearMode::Left)]
            } else if selector == 2 {
                seq![Action::ClearLine(LineClearMode::All)]
            } else {
                Seq::<Action>::empty()
            }
        },
        'S' => match spec_count_param(args, 0) {
            Some(n) => seq![Action::ScrollUp(Line(n))],
            None => Seq::<Action>::empty(),
        },
        'T' => match spec_count_param(args, 0) {
            Some(n) => seq![Action::ScrollDown(Line(n))],
            None => Seq::<Action>::empty(),
        },
        'L' => match spec_count_param(args, 0) {
            Some(n) => seq![Action::InsertBlankLines(Line(n))],
            None => Seq::<Action>::empty(),
        },
        'l' => match spec_mode_from_primitive(private, spec_arg_or(args, 0, 0)) {
            Some(mode) => seq![Action::UnsetMode(mode)],
            None => Seq::<Action>::empty(),
        },
        'M' => match spec_count_param(args, 0) {
            Some(n) => seq![Action::DeleteLines(Line(n))],
            None => Seq::<Action>::empty(),
        },
        'X' => match spec_count_param(args, 0) {
            Some(n) => seq![Action::EraseChars(Column(n))],
            None => Seq::<Action>::empty(),
        },
        'P' => match spec_count_param(args, 0) {
            Some(n) => seq![Action::DeleteChars(Column(n))],
            None => Seq::<Action>::empty(),
        },
        'Z' => seq![Action::MoveBackwardTabs(spec_arg_or(args, 0, 1))],
        'd' => match spec_count_param(args, 0) {
            Some(n) => seq![Action::GotoLine(Line((n - 1) as usize))],
            None => Seq::<Action>::empty(),
        },
        'h' => match spec_mode_from_primitive(private, spec_arg_or(args, 0, 0)) {
            Some(mode) => seq![Action::SetMode(mode)],
            None => Seq::<Action>::empty(),
        },
        'm' => spec_attr_actions(spec_sgr(args)),
        'r' => {
            if private {
                Seq::<Action>::empty()
            } else {
                match (spec_count_param(args, 0), spec_bottom_param(args, lines)) {
                    (Some(top), Some(bottom)) => seq![
                        Action::SetScrollingRegion(Line((top - 1) as usize), Line(bottom)),
                    ],
                    _ => Seq::<Action>::empty(),
                }
            }
        },
        's' => seq![Action::SaveCursorPosition],
        'u' => seq![Action::RestoreCursorPosition],
        _ => Seq::<Action>::empty(),
    }
}

/// Translate a completed CSI sequence into the operations it dispatches,
/// exactly as [`spec_csi`] lays them out.
pub fn csi_actions(args: &[i64], intermediates: &[u8], lines: usize, action: char) -> (acts: Vec<
    Action,
>)
    ensures
        acts@ == spec_csi(args@, intermediates@, lines, action),
{
    let private = is_private(intermediates);
    let mut acts: Vec<Action> = Vec::new();
    match action {
        '@' => {
            if let Some(n) = count_param(args, 0) {
                acts.push(Action::InsertBlank(n));
            }
        },
        'A' => {
            if let Some(n) = count_param(args, 0) {
                acts.push(Action::MoveUp(Line(n)));
            }
        },
        'B' | 'e' => {
            if let Some(n) = count_param(args, 0) {
                acts.push(Action::MoveDown(Line(n)));
            }
        },
        'c' | 'n' => {
            acts.push(Action::IdentifyTerminal);
        },
        'C' | 'a' => {
            if let Some(n) = count_param(args, 0) {
                acts.push(Action::MoveForward(Column(n)));
            }
        },
        'D' => {
            if let Some(n) = count_param(args, 0) {
                acts.push(Action::MoveBackward(Column(n)));
            }
        },
        'E' => {
            if let Some(n) = count_param(args, 0) {
                acts.push(Action::MoveDownAndCr(Line(n)));
            }
        },
        'F' => {
            if let Some(n) = count_param(args, 0) {
                acts.push(Action::MoveUpAndCr(Line(n)));
            }
        },
        'g' => {
            let selector: i64 = arg_or(args, 0, 0);
            if selector == 0 {
                acts.push(Action::ClearTabs(TabulationClearMode::Current));
            } else if selector == 3 {
                acts.push(Action::ClearTabs(TabulationClearMode::All));
            }
        },
        'G' | '`' => {
            if let Some(n) = count_param(args, 0) {
                acts.push(Action::GotoCol(Column(n - 1)));
            }
        },
        'H' | 'f' => {
            if let Some(y) = count_param(args, 0) {
                if let Some(x) = count_param(args, 1) {
                    acts.push(Action::Goto(Line(y - 1), Column(x - 1)));
                }
            }
        },
        'I' => {
            acts.push(Action::MoveForwardTabs(arg_or(args, 0, 1)));
        },
        'J' => {
            let selector: i64 = arg_or(args, 0, 0);
            if selector == 0 {
                acts.push(Action::ClearScreen(ClearMode::Below));
            } else if selector == 1 {
                acts.push(Action::ClearScreen(ClearMode::Above));
            } else if selector == 2 {
                acts.push(Action::ClearScreen(ClearMode::All));
            }
        },
        'K' => {
            let selector: i64 = arg_or(args, 0, 0);
            if selector == 0 {
                acts.push(Action::ClearLine(LineClearMode::Right));
            } else if selector == 1 {
                acts.push(Action::ClearLine(LineClearMode::Left));
            } else if selector == 2 {
                acts.push(Action::ClearLine(LineClearMode::All));
            }
        },
        'S' => {
            if let Some(n) = count_param(args, 0) {
                acts.push(Action::ScrollUp(Line(n)));
            }
        },
        'T' => {
            if let Some(n) = count_param(args, 0) {
                acts.push(Action::ScrollDown(Line(n)));
            }
        },
        'L' => {
            if let Some(n) = count_param(args, 0) {
                acts.push(Action::InsertBlankLines(Line(n)));
            }
        },
        'l' => {
            if let Some(mode) = Mode::from_primitive(private, arg_or(args, 0, 0)) {
                acts.push(Action::UnsetMode(mode));
            }
        },
        'M' => {
            if let Some(n) = count_param(args, 0) {
                acts.push(Action::DeleteLines(Line(n)));
            }
        },
        'X' => {
            if let Some(n) = count_param(args, 0) {
                acts.push(Action::EraseChars(Column(n)));
            }
        },
        'P' => {
            if let Some(n) = count_param(args, 0) {
                acts.push(Action::DeleteChars(Column(n)));
            }
        },
        'Z' => {
            acts.push(Action::MoveBackwardTabs(arg_or(args, 0, 1)));
        },
        'd' => {
            if let Some(n) = count_param(args, 0) {
                acts.push(Action::GotoLine(Line(n - 1)));
            }
        },
        'h' => {
            if let Some(mode) = Mode::from_primitive(private, arg_or(args, 0, 0)) {
                acts.push(Action::SetMode(mode));
            }
        },
        'm' => {
            let attrs = sgr_attrs(args);
            let mut k: usize = 0;
            proof {
                assert(acts@ =~= spec_attr_actions(attrs@.subrange(0, 0)));
            }
            while k < attrs.len()
                invariant
                    k <= attrs@.len(),
                    attrs@ == spec_sgr(args@),
                    acts@ == spec_attr_actions(attrs@.subrange(0, k as int)),
                decreases attrs@.len() - k,
            {
                let attr: Attr = attrs[k];
                acts.push(Action::TerminalAttribute(attr));
                k = k + 1;
                proof {
                    assert(attrs@.subrange(0, k as int) =~= attrs@.subrange(0, k - 1).push(
                        attrs@[k - 1],
                    ));
                    assert(acts@ =~= spec_attr_actions(attrs@.subrange(0, k as int)));
                }
            }
            proof {
                assert(attrs@.subrange(0, attrs@.len() as int) =~= attrs@);
            }
        },
        'r' => {
            if !private {
                if let Some(top) = count_param(args, 0) {
                    if let Some(bottom) = bottom_param(args, lines) {
                        acts.push(Action::SetScrollingRegion(Line(top - 1), Line(bottom)));
                    }
                }
            }
        },
        's' => {
            acts.push(Action::SaveCursorPosition);
        },
        'u' => {
            acts.push(Action::RestoreCursorPosition);
        },
        _ => {},
    }
    proof {
        assert(acts@ =~= spec_csi(args@, intermediates@, lines, action));
    }
    acts
}

/// The operation a control byte executes, if any; bytes outside this
/// fixed table are silently dropped.
pub open spec fn spec_execute_action(byte: u8) -> Option<Action> {
    if byte == c0::HT {
        Some(Action::PutTab(1))
    } else if byte == c0::BS {
        Some(Action::Backspace)
    } else if byte == c0::CR {
        Some(Action::CarriageReturn)
    } else if byte == c0::LF || byte == c0::VT || byte == c0::FF {
        Some(Action::Linefeed)
    } else if byte == c0::BEL {
        Some(Action::Bell)
    } else if byte == c0::SUB {
        Some(Action::Substitute)
    } else if byte == c1::NEL {
        Some(Action::Newline)
    } else if byte == c1::HTS {
        Some(Action::SetHorizontalTabstop)
    } else if byte == c1::DECID {
        Some(Action::IdentifyTerminal)
    } else {
        None
    }
}

/// Look up the operation of a C0 or C1 control byte.
pub fn execute_action(byte: u8) -> (act: Option<Action>)
    ensures
        act == spec_execute_action(byte),
{
    if byte == c0::HT {
        Some(Action::PutTab(1))
    } else if byte == c0::BS {
        Some(Action::Backspace)
    } else if byte == c0::CR {
        Some(Action::CarriageReturn)
    } else if byte == c0::LF || byte == c0::VT || byte == c0::FF {
        Some(Action::Linefeed)
    } else if byte == c0::BEL {
        Some(Action::Bell)
    } else if byte == c0::SUB {
        Some(Action::Substitute)
    } else if byte == c1::NEL {
        Some(Action::Newline)
    } else if byte == c1::HTS {
        Some(Action::SetHorizontalTabstop)
    } else if byte == c1::DECID {
        Some(Action::IdentifyTerminal)
    } else {
        None
    }
}

/// The operation a completed ESC sequence dispatches, by its final byte;
/// the mapping is fixed and independent of the CSI tables.  An unmapped
/// final byte is an unhandled outcome.
pub open spec fn spec_esc_action(byte: u8) -> Option<Action> {
    if byte == 68u8 {
        // 'D'
        Some(Action::Linefeed)
    } else if byte == 69u8 {
        // 'E'
        Some(Action::Newline)
    } else if byte == 72u8 {
        // 'H'
        Some(Action::SetHorizontalTabstop)
    } else if byte == 77u8 {
        // 'M'
        Some(Action::ReverseIndex)
    } else if byte == 90u8 {
        // 'Z'
        Some(Action::IdentifyTerminal)
    } else if byte == 99u8 {
        // 'c'
        Some(Action::ResetState)
    } else if byte == 55u8 {
        // '7'
        Some(Action::SaveCursorPosition)
    } else if byte == 56u8 {
        // '8'
        Some(Action::RestoreCursorPosition)
    } else if byte == 61u8 {
        // '='
        Some(Action::SetKeypadApplicationMode)
    } else if byte == 62u8 {
        // '>'
        Some(Action::UnsetKeypadApplicationMode)
    } else {
        None
    }
}

/// Look up the operation of an ESC sequence's final byte.
pub fn esc_action(byte: u8) -> (act: Option<Action>)
    ensures
        act == spec_esc_action(byte),
{
    if byte == 68u8 {
        Some(Action::Linefeed)
    } else if byte == 69u8 {
        Some(Action::Newline)
    } else if byte == 72u8 {
        Some(Action::SetHorizontalTabstop)
    } else if byte == 77u8 {
        Some(Action::ReverseIndex)
    } else if byte == 90u8 {
        Some(Action::IdentifyTerminal)
    } else if byte == 99u8 {
        Some(Action::ResetState)
    } else if byte == 55u8 {
        Some(Action::SaveCursorPosition)
    } else if byte == 56u8 {
        Some(Action::RestoreCursorPosition)
    } else if byte == 61u8 {
        Some(Action::SetKeypadApplicationMode)
    } else if byte == 62u8 {
        Some(Action::UnsetKeypadApplicationMode)
    } else {
        None
    }
}

/// The capability interface: the full vocabulary of operations a
/// dispatched event can ask of the terminal model.
///
/// Every operation defaults to a no-op, so a partial implementation --
/// a test double, say -- overrides only what it exercises.  Bounds
/// policy (clamping a move at the screen edge, wrapping at the last
/// column) belongs entirely to the implementer; the dispatcher converts
/// one-based sequence positions to zero-based ones and does nothing
/// else to them.
pub trait Handler {
    /// A character to be displayed.
    fn input(&mut self, _c: char) {
    }

    /// Set cursor to the given position.
    fn goto(&mut self, _line: Line, _col: Column) {
    }

    /// Set cursor to a specific row.
    fn goto_line(&mut self, _line: Line) {
    }

    /// Set cursor to a specific column.
    fn goto_col(&mut self, _col: Column) {
    }

    /// Insert blank characters in the current line, starting at the cursor.
    fn insert_blank(&mut self, _count: usize) {
    }

    /// Move cursor up by the given number of rows.
    fn move_up(&mut self, _rows: Line) {
    }

    /// Move cursor down by the given number of rows.
    fn move_down(&mut self, _rows: Line) {
    }

    /// Identify the terminal (should write back to the stream).
    fn identify_terminal(&mut self) {
    }

    /// Move cursor forward by the given number of columns.
    fn move_forward(&mut self, _cols: Column) {
    }

    /// Move cursor backward by the given number of columns.
    fn move_backward(&mut self, _cols: Column) {
    }

    /// Move cursor down by the given number of rows and to column 1.
    fn move_down_and_cr(&mut self, _rows: Line) {
    }

    /// Move cursor up by the given number of rows and to column 1.
    fn move_up_and_cr(&mut self, _rows: Line) {
    }

    /// Put the given number of tabs.
    fn put_tab(&mut self, _count: i64) {
    }

    /// Backspace one character.
    fn backspace(&mut self) {
    }

    /// Carriage return.
    fn carriage_return(&mut self) {
    }

    /// Linefeed.
    fn linefeed(&mut self) {
    }

    /// Ring the bell.
    fn bell(&mut self) {
    }

    /// Substitute the character under the cursor.
    fn substitute(&mut self) {
    }

    /// Newline.
    fn newline(&mut self) {
    }

    /// Set the current position as a tabstop.
    fn set_horizontal_tabstop(&mut self) {
    }

    /// Scroll up the given number of rows.
    fn scroll_up(&mut self, _rows: Line) {
    }

    /// Scroll down the given number of rows.
    fn scroll_down(&mut self, _rows: Line) {
    }

    /// Insert the given number of blank lines.
    fn insert_blank_lines(&mut self, _rows: Line) {
    }

    /// Delete the given number of lines.
    fn delete_lines(&mut self, _rows: Line) {
    }

    /// Erase the given number of characters in the current line after the
    /// cursor: reset them to the default state.
    fn erase_chars(&mut self, _count: Column) {
    }

    /// Delete the given number of characters, shifting what stands to the
    /// right of the deleted span leftward.
    fn delete_chars(&mut self, _count: Column) {
    }

    /// Move backward the given number of tabs.
    fn move_backward_tabs(&mut self, _count: i64) {
    }

    /// Move forward the given number of tabs.
    fn move_forward_tabs(&mut self, _count: i64) {
    }

    /// Save the current cursor position.
    fn save_cursor_position(&mut self) {
    }

    /// Restore the saved cursor position.
    fn restore_cursor_position(&mut self) {
    }

    /// Clear part of the current line.
    fn clear_line(&mut self, _mode: LineClearMode) {
    }

    /// Clear part of the screen.
    fn clear_screen(&mut self, _mode: ClearMode) {
    }

    /// Clear tab stops.
    fn clear_tabs(&mut self, _mode: TabulationClearMode) {
    }

    /// Reset the terminal state.
    fn reset_state(&mut self) {
    }

    /// Reverse index: move the active position to the same column on the
    /// preceding line, scrolling down first when at the top margin.
    fn reverse_index(&mut self) {
    }

    /// Set a character attribute.
    fn terminal_attribute(&mut self, _attr: Attr) {
    }

    /// Set a mode.
    fn set_mode(&mut self, _mode: Mode) {
    }

    /// Unset a mode.
    fn unset_mode(&mut self, _mode: Mode) {
    }

    /// DECSTBM - set the scrolling region; the range's end is exclusive.
    fn set_scrolling_region(&mut self, _region: Range<Line>) {
    }

    /// DECKPAM - set keypad to application mode (ESCape instead of digits).
    fn set_keypad_application_mode(&mut self) {
    }

    /// DECKPNM - set keypad to numeric mode (digits instead of ESCape
    /// sequences).
    fn unset_keypad_application_mode(&mut self) {
    }
}

/// Live terminal geometry, queried at the moment a default needs it --
/// never cached, since the geometry can change between bytes.
pub trait TermInfo {
    /// The current number of lines.
    fn lines(&self) -> Line;

    /// The current number of columns.
    fn cols(&self) -> Column;
}

/// Deliver one operation to the capability interface: each [`Action`]
/// variant becomes exactly the matching call.
pub fn perform<H: Handler>(handler: &mut H, action: Action) {
    match action {
        Action::Input(c) => handler.input(c),
        Action::Goto(line, col) => handler.goto(line, col),
        Action::GotoLine(line) => handler.goto_line(line),
        Action::GotoCol(col) => handler.goto_col(col),
        Action::InsertBlank(count) => handler.insert_blank(count),
        Action::MoveUp(rows) => handler.move_up(rows),
        Action::MoveDown(rows) => handler.move_down(rows),
        Action::IdentifyTerminal => handler.identify_terminal(),
        Action::MoveForward(cols) => handler.move_forward(cols),
        Action::MoveBackward(cols) => handler.move_backward(cols),
        Action::MoveDownAndCr(rows) => handler.move_down_and_cr(rows),
        Action::MoveUpAndCr(rows) => handler.move_up_and_cr(rows),
        Action::PutTab(count) => handler.put_tab(count),
        Action::Backspace => handler.backspace(),
        Action::CarriageReturn => handler.carriage_return(),
        Action::Linefeed => handler.linefeed(),
        Action::Bell => handler.bell(),
        Action::Substitute => handler.substitute(),
        Action::Newline => handler.newline(),
        Action::SetHorizontalTabstop => handler.set_horizontal_tabstop(),
        Action::ScrollUp(rows) => handler.scroll_up(rows),
        Action::ScrollDown(rows) => handler.scroll_down(rows),
        Action::InsertBlankLines(rows) => handler.insert_blank_lines(rows),
        Action::DeleteLines(rows) => handler.delete_lines(rows),
        Action::EraseChars(count) => handler.erase_chars(count),
        Action::DeleteChars(count) => handler.delete_chars(count),
        Action::MoveBackwardTabs(count) => handler.move_backward_tabs(count),
        Action::MoveForwardTabs(count) => handler.move_forward_tabs(count),
        Action::SaveCursorPosition => handler.save_cursor_position(),
        Action::RestoreCursorPosition => handler.restore_cursor_position(),
        Action::ClearLine(mode) => handler.clear_line(mode),
        Action::ClearScreen(mode) => handler.clear_screen(mode),
        Action::ClearTabs(mode) => handler.clear_tabs(mode),
        Action::ResetState => handler.reset_state(),
        Action::ReverseIndex => handler.reverse_index(),
        Action::TerminalAttribute(attr) => handler.terminal_attribute(attr),
        Action::SetMode(mode) => handler.set_mode(mode),
        Action::UnsetMode(mode) => handler.unset_mode(mode),
        Action::SetScrollingRegion(top, bottom) => handler.set_scrolling_region(
            Range { start: top, end: bottom },
        ),
        Action::SetKeypadApplicationMode => handler.set_keypad_application_mode(),
        Action::UnsetKeypadApplicationMode => handler.unset_keypad_application_mode(),
    }
}

/// Deliver a sequence of operations in order.
pub fn perform_all<H: Handler>(handler: &mut H, acts: &Vec<Action>) {
    let mut k: usize = 0;
    while k < acts.len()
        decreases acts@.len() - k,
    {
        perform(handler, acts[k]);
        k = k + 1;
    }
}

/// Dispatch a printable character: forwarded verbatim to the capability
/// interface, with no width or combining-mark policy of its own.
pub fn print<H: Handler>(handler: &mut H, c: char) {
    handler.input(c);
}

/// Dispatch a control byte: the call of [`spec_execute_action`], or
/// nothing for a byte outside the table.
pub fn execute<H: Handler>(handler: &mut H, byte: u8) {
    match execute_action(byte) {
        Some(action) => perform(handler, action),
        None => {},
    }
}

/// Dispatch a completed CSI sequence: exactly the calls of [`spec_csi`],
/// in order.  The terminal's line count is queried only when the
/// scrolling-region action may need it for its default bottom margin.
pub fn csi_dispatch<H: Handler + TermInfo>(
    handler: &mut H,
    args: &[i64],
    intermediates: &[u8],
    _ignore: bool,
    action: char,
) {
    let lines: usize = if action == 'r' && !is_private(intermediates) {
        handler.lines().0
    } else {
        0
    };
    let acts = csi_actions(args, intermediates, lines, action);
    perform_all(handler, &acts);
}

/// Dispatch a completed ESC sequence: the call of [`spec_esc_action`],
/// or nothing for an unmapped final byte.  The intermediates play no
/// role in this fixed table.
pub fn esc_dispatch<H: Handler>(handler: &mut H, _intermediates: &[u8], byte: u8) {
    match esc_action(byte) {
        Some(action) => perform(handler, action),
        None => {},
    }
}

} // verus!
