//! Command surface consumed by the command-line front end.
//!
//! These are the plain command values; the front end parses arguments into
//! them and converts to the driver's own enums.
use vstd::prelude::*;
use vstd::string::StrSliceExecFns;

verus! {

/// A parsed command-line invocation.
pub struct Cli {
    pub command: Commands,
}

/// One display operation requested on the command line.
pub enum Commands {
    /// Print USB info about the connected display.
    Info,
    /// Reset the display.
    Reset,
    /// Print a message on the display.
    Print { message: String },
    /// Print a scrolling message.
    Scroll { message: String, direction: Direction, position: Position },
    /// Print a "smart scroll" message, with each part scrolling on and off
    /// the screen one at a time.
    Smart { message: Vec<String>, direction: Direction, position: Position },
    /// Enable or disable the terminal's blinking cursor.
    Cursor(CursorMode),
}

/// Scroll position as given on the command line.
#[derive(Clone, Copy, Debug, PartialEq, Eq, Structural)]
pub enum Position {
    Top,
    Bottom,
}

/// Scroll direction as given on the command line.
#[derive(Clone, Copy, Debug, PartialEq, Eq, Structural)]
pub enum Direction {
    Left,
    Right,
}

/// Cursor mode as given on the command line.
#[derive(Clone, Copy, Debug, PartialEq, Eq, Structural)]
pub enum CursorMode {
    On,
    Off,
}


impl From<Position> for crate::display::ScrollPosition {
    /// The driver's scroll position for a command-line position.
    fn from(val: Position) -> (r: crate::display::ScrollPosition) {
        match val {
            Position::Bottom => crate::display::ScrollPosition::Bottom,
            Position::Top => crate::display::ScrollPosition::Top,
        }
    }
}

impl vstd::std_specs::convert::FromSpecImpl<Position> for crate::display::ScrollPosition {
    open spec fn obeys_from_spec() -> bool {
        true
    }

    open spec fn from_spec(val: Position) -> crate::display::ScrollPosition {
        match val {
            Position::Bottom => crate::display::ScrollPosition::Bottom,
            Position::Top => crate::display::ScrollPosition::Top,
        }
    }
}

impl From<Direction> for crate::display::ScrollDirection {
    /// The driver's scroll direction for a command-line direction.
    fn from(val: Direction) -> (r: crate::display::ScrollDirection) {
        match val {
            Direction::Left => crate::display::ScrollDirection::Left,
            Direction::Right => crate::display::ScrollDirection::Right,
        }
    }
}

impl vstd::std_specs::convert::FromSpecImpl<Direction> for crate::display::ScrollDirection {
    open spec fn obeys_from_spec() -> bool {
        true
    }

    open spec fn from_spec(val: Direction) -> crate::display::ScrollDirection {
        match val {
            Direction::Left => crate::display::ScrollDirection::Left,
            Direction::Right => crate::display::ScrollDirection::Right,
        }
    }
}

impl From<CursorMode> for crate::display::CursorMode {
    /// The driver's cursor mode for a command-line cursor mode.
    fn from(val: CursorMode) -> (r: crate::display::CursorMode) {
        match val {
            CursorMode::On => crate::display::CursorMode::On,
            CursorMode::Off => crate::display::CursorMode::Off,
        }
    }
}

impl vstd::std_specs::convert::FromSpecImpl<CursorMode> for crate::display::CursorMode {
    open spec fn obeys_from_spec() -> bool {
        true
    }

    open spec fn from_spec(val: CursorMode) -> crate::display::CursorMode {
        match val {
            CursorMode::On => crate::display::CursorMode::On,
            CursorMode::Off => crate::display::CursorMode::Off,
        }
    }
}

/// An escaped newline placeholder, backslash then `n`, replaced by the
/// carriage-return/line-feed pair the terminal expects; the text is
/// scanned left to right.
pub open spec fn replace_escaped_newlines(s: Seq<char>) -> Seq<char>
    decreases s.len(),
{
    if s.len() == 0 {
        Seq::empty()
    } else if s.len() >= 2 && s[0] == '\\' && s[1] == 'n' {
        seq!['\r', '\n'] + replace_escaped_newlines(s.skip(2))
    } else {
        seq![s[0]] + replace_escaped_newlines(s.skip(1))
    }
}

/// Parse an escaped newline as the CRLF expected by the terminal.
pub fn handle_escape_strings(input: String) -> (r: String)
    ensures
        r@ == replace_escaped_newlines(input@),
{
    let text = input.as_str();
    let n = text.unicode_len();
    let mut out = String::new();
    let mut i: usize = 0;
    proof {
        assert(input@.skip(0) =~= input@);
        assert(Seq::<char>::empty() + replace_escaped_newlines(input@)
            == replace_escaped_newlines(input@));
    }
    while i < n
        invariant
            i <= n,
            n == text@.len(),
            text@ == input@,
            replace_escaped_newlines(input@) == out@ + replace_escaped_newlines(
                input@.skip(i as int),
            ),
        decreases n - i,
    {
        let c = text.get_char(i);
        if c == '\\' && i + 1 < n && text.get_char(i + 1) == 'n' {
            proof {
                assert(input@.skip(i as int)[0] == '\\');
                assert(input@.skip(i as int)[1] == 'n');
                assert(input@.skip(i as int).skip(2) =~= input@.skip(i + 2));
            }
            crate::usb::push_char(&mut out, '\r');
            crate::usb::push_char(&mut out, '\n');
            proof {
                assert(out@ + replace_escaped_newlines(input@.skip(i + 2))
                    =~= replace_escaped_newlines(input@));
            }
            i += 2;
        } else {
            proof {
                assert(input@.skip(i as int)[0] == c);
                assert(input@.skip(i as int).skip(1) =~= input@.skip(i + 1));
            }
            crate::usb::push_char(&mut out, c);
            proof {
                assert(out@ + replace_escaped_newlines(input@.skip(i + 1))
                    =~= replace_escaped_newlines(input@));
            }
            i += 1;
        }
    }
    proof {
        assert(input@.skip(n as int) =~= Seq::<char>::empty());
    }
    out
}

} // verus!
