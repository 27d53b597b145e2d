//! What the pager asks to have drawn: the visible lines, where the view
//! stands, and the text of the status line.
//!
//! Drawing itself is done elsewhere. A [`RenderRequest`] is all that the
//! drawing side is given.

use crate::text::{decimal_text, pad_to_width, padded, push_decimal};
use crate::view_state::least;
use vstd::prelude::*;
use vstd::string::{StrSliceExecFns, StringExecFns};

verus! {

/// One request to draw the screen. It borrows what it shows from the pager.
#[derive(Debug, Clone, Copy)]
pub struct RenderRequest<'a> {
    /// The lines to show, first to last: no more than `height` of them.
    pub lines: &'a [String],
    /// Columns of the terminal.
    pub width: u16,
    /// Rows for text: the terminal's rows without the status row. The status
    /// line goes on the row below them.
    pub height: u16,
    /// Index of the first visible line, counted from zero.
    pub top_line: usize,
    /// Number of lines in the document.
    pub total_lines: usize,
    /// The scroll position, from 0 to 100.
    pub percentage: u8,
    /// The name of the file shown.
    pub filename: &'a str,
    /// A message to show in place of the usual status line.
    pub status_message: Option<&'a str>,
}

/// The usual status line, before padding: the scroll percentage, the number
/// of the top line, the number of lines in the document, and the name of the
/// file.
pub open spec fn position_text(percentage: nat, line: nat, total: nat, filename: Seq<char>) -> Seq<
    char,
> {
    "--More-- ("@ + decimal_text(percentage) + "%) line "@ + decimal_text(line) + "/"@
        + decimal_text(total) + "  "@ + filename
}

/// The part of `text` that fits in `width` columns: its first `width`
/// characters, or all of it if it has no more.
pub open spec fn clipped(text: Seq<char>, width: nat) -> Seq<char> {
    text.subrange(0, least(text.len(), width) as int)
}

/// The row on which the first line of a help screen of `count` lines stands on
/// a terminal of `height` rows: the text is centred, and starts at the top row
/// where it is too long for that.
pub open spec fn help_first_row(height: nat, count: nat) -> nat {
    if height / 2 > count / 2 {
        (height / 2 - count / 2) as nat
    } else {
        0
    }
}

/// How many lines of a help screen of `count` lines are shown on a terminal of
/// `height` rows: those that stand above the last row, which is kept free.
pub open spec fn help_lines_shown(height: nat, count: nat) -> nat {
    if height > help_first_row(height, count) + 1 {
        least(count, (height - 1 - help_first_row(height, count)) as nat)
    } else {
        0
    }
}

/// The part of `line` that fits in `width` columns.
pub fn clip_line(line: &str, width: usize) -> (shown: &str)
    ensures
        shown@ == clipped(line@, width as nat),
        shown@.len() <= width,
{
    if line.unicode_len() > width {
        line.substring_char(0, width)
    } else {
        proof {
            assert(line@ =~= clipped(line@, width as nat));
        }
        line
    }
}

/// Where a help screen of `count` lines goes on a terminal of `height` rows:
/// the row of its first line, and how many of its lines are shown, one to a row
/// from there on.
pub fn help_layout(height: u16, count: usize) -> (layout: (u16, usize))
    ensures
        layout.0 == help_first_row(height as nat, count as nat),
        layout.1 == help_lines_shown(height as nat, count as nat),
        layout.1 <= count,
        layout.1 > 0 ==> layout.0 + layout.1 < height,
{
    let middle = (height / 2) as usize;
    let half = count / 2;
    let first: u16 = if middle > half {
        (middle - half) as u16
    } else {
        0
    };
    let shown = if height > first + 1 {
        let room = (height - 1 - first) as usize;
        if count < room {
            count
        } else {
            room
        }
    } else {
        0
    };
    (first, shown)
}

impl<'a> RenderRequest<'a> {
    /// The number of the top line, counted from one.
    pub open spec fn line_number(self) -> nat {
        (self.top_line + 1) as nat
    }

    /// The text of the status line: the message if there is one, else where the
    /// view stands, as `--More-- (P%) line L/T  filename` with the scroll
    /// percentage P, the number L of the top line and the number T of lines in
    /// the document; either set flush left and filled up to the terminal's
    /// width.
    pub open spec fn status_text(self) -> Seq<char> {
        padded(
            match self.status_message {
                Some(message) => message@,
                None => position_text(
                    self.percentage as nat,
                    self.line_number(),
                    self.total_lines as nat,
                    self.filename@,
                ),
            },
            self.width as nat,
        )
    }

    /// The text to draw in the text row `index`, counted from zero at the top:
    /// the line that stands there, cut to the terminal's width, or nothing where
    /// the row is past the last line.
    pub fn row(&self, index: usize) -> (text: Option<&'a str>)
        ensures
            match text {
                Some(shown) => index < self.lines@.len() && shown@ == clipped(
                    self.lines@[index as int]@,
                    self.width as nat,
                ),
                None => index >= self.lines@.len(),
            },
    {
        if index < self.lines.len() {
            Some(clip_line(self.lines[index].as_str(), self.width as usize))
        } else {
            None
        }
    }

    /// The status line, as wide as the terminal. A text longer than the terminal
    /// is wide is handed on whole.
    pub fn status_line(&self) -> (line: String)
        ensures
            line@ == self.status_text(),
    {
        let mut line = match self.status_message {
            Some(message) => String::from_str(message),
            None => {
                let current: u128 = self.top_line as u128 + 1;
                let mut text = String::from_str("--More-- (");
                push_decimal(&mut text, self.percentage as u128);
                text.append("%) line ");
                push_decimal(&mut text, current);
                text.append("/");
                push_decimal(&mut text, self.total_lines as u128);
                text.append("  ");
                text.append(self.filename);
                proof {
                    assert(text@ =~= position_text(
                        self.percentage as nat,
                        self.line_number(),
                        self.total_lines as nat,
                        self.filename@,
                    ));
                }
                text
            },
        };
        pad_to_width(&mut line, self.width as usize);
        line
    }
}

} // verus!
