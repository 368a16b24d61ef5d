use crate::editor::Editor;
use crate::geometry::Position;
use crate::geometry::add_cap;
use crate::geometry::sub_floor;
use crate::numfmt::decimal_digits;
use crate::numfmt::space_string;
use crate::numfmt::spaces;
use crate::numfmt::take_chars;
use crate::numfmt::to_decimal;
use crate::numfmt::truncate_chars;
use crate::row::rendered;
use vstd::prelude::*;
use vstd::string::StrSliceExecFns;
use vstd::string::StringExecFns;

verus! {

/// The welcome banner's text.
pub open spec fn welcome_text() -> Seq<char> {
    "Welcome to the Candle viewer"@
}

/// The cap on the file name shown on the status bar.
pub open spec fn status_name_cap() -> int {
    20
}

/// The welcome banner line for a terminal `width` characters wide: a tilde,
/// then spaces centering the banner text, truncated to the width.
pub open spec fn welcome_line_spec(width: int) -> Seq<char> {
    let padding = sub_floor(width, welcome_text().len() as int) / 2;
    take_chars(seq!['~'] + spaces(sub_floor(padding, 1)) + welcome_text(), width)
}

/// The name part of the status line: the source name truncated to the cap,
/// or the default label when none is set.
pub open spec fn status_name_spec(file_name: Option<String>) -> Seq<char> {
    match file_name {
        Some(name) => take_chars(name@, status_name_cap()),
        None => "[No Name]"@,
    }
}

/// The status line before padding: the name part, then the row count.
pub open spec fn status_text_spec(ed: Editor) -> Seq<char> {
    status_name_spec(ed.document.file_name) + " - "@ + decimal_digits(ed.document@.len())
        + " lines"@
}

/// The status line as drawn: padded with spaces, then truncated, to exactly
/// the terminal width.
pub open spec fn status_line_spec(ed: Editor) -> Seq<char> {
    let text = status_text_spec(ed);
    let padded = if text.len() < ed.size.width {
        text + spaces(ed.size.width - text.len())
    } else {
        text
    };
    take_chars(padded, ed.size.width as int)
}

/// The text drawn on physical text row `i` of the frame: the document row
/// the viewport places there, rendered over the visible columns; the
/// welcome banner one third down an empty document's screen; otherwise an
/// empty placeholder line.
pub open spec fn frame_line_spec(ed: Editor, i: int) -> Seq<char> {
    let y = ed.offset.y + i;
    if y < ed.document@.len() {
        rendered(
            ed.document@[y],
            ed.offset.x as int,
            add_cap(ed.offset.x as int, ed.size.width as int),
        )
    } else if ed.document@.len() == 0 && i == ed.size.height as int / 3 {
        welcome_line_spec(ed.size.width as int)
    } else {
        Seq::empty()
    }
}

/// The welcome banner line for a terminal `width` characters wide.
pub fn welcome_line(width: u16) -> (r: String)
    ensures
        r@ == welcome_line_spec(width as int),
{
    let message: &str = "Welcome to the Candle viewer";
    let width = width as usize;
    let len = message.unicode_len();
    let padding = (if width >= len {
        width - len
    } else {
        0
    }) / 2;
    let pad = space_string(if padding >= 1 {
        padding - 1
    } else {
        0
    });
    proof {
        reveal_strlit("~");
    }
    let mut line = String::from_str("~");
    line.append(pad.as_str());
    line.append(message);
    proof {
        assert(line@ =~= seq!['~'] + spaces(sub_floor(sub_floor(width as int, welcome_text().len() as int) / 2, 1)) + welcome_text());
    }
    truncate_chars(line.as_str(), width)
}

impl Editor {
    /// The status line: the source name (truncated to its cap, or the
    /// default label), the row count, padded and truncated to exactly the
    /// terminal width.
    pub fn status_line(&self) -> (r: String)
        ensures
            r@ == status_line_spec(*self),
    {
        let width = self.size.width as usize;
        let mut status = match &self.document.file_name {
            Some(name) => truncate_chars(name.as_str(), 20),
            None => String::from_str("[No Name]"),
        };
        status.append(" - ");
        let count = to_decimal(self.document.len());
        status.append(count.as_str());
        status.append(" lines");
        proof {
            assert(status@ =~= status_text_spec(*self));
        }
        let text_len = status.as_str().unicode_len();
        if text_len < width {
            let pad = space_string(width - text_len);
            status.append(pad.as_str());
        }
        proof {
            assert(status@ =~= (if status_text_spec(*self).len() < self.size.width {
                status_text_spec(*self) + spaces(self.size.width - status_text_spec(*self).len())
            } else {
                status_text_spec(*self)
            }));
        }
        truncate_chars(status.as_str(), width)
    }

    /// The text rows of one frame, top to bottom, one string per physical
    /// row of the usable text area.
    pub fn frame_lines(&self) -> (r: Vec<String>)
        ensures
            r@.len() == self.size.height,
            forall|i: int| 0 <= i < r@.len() ==> #[trigger] r@[i]@ == frame_line_spec(*self, i),
    {
        let height = self.size.height;
        let doc_len = self.document.len();
        let mut lines: Vec<String> = Vec::new();
        let mut t: u16 = 0;
        while t < height
            invariant
                t <= height,
                height == self.size.height,
                doc_len == self.document@.len(),
                lines@.len() == t,
                forall|i: int|
                    0 <= i < lines@.len() ==> #[trigger] lines@[i]@ == frame_line_spec(*self, i),
            decreases height - t,
        {
            let y_checked = self.offset.y.checked_add(t as usize);
            let row = match y_checked {
                Some(y) => self.document.row(y),
                None => None,
            };
            proof {
                if y_checked is None {
                    assert(self.offset.y as int + t as int > usize::MAX >= doc_len);
                }
            }
            let line = match row {
                Some(row) => row.render(
                    self.offset.x,
                    self.offset.x.saturating_add(self.size.width as usize),
                ),
                None => if self.document.is_empty() && t == height / 3 {
                    welcome_line(self.size.width)
                } else {
                    String::new()
                },
            };
            lines.push(line);
            t = t + 1;
        }
        lines
    }

    /// Where the terminal's cursor is placed for this frame, as 0-based
    /// screen coordinates: the cursor's document position less the viewport
    /// offset, saturating at the origin.
    pub fn cursor_screen_position(&self) -> (p: Position)
        ensures
            p.x as int == sub_floor(self.cursor_position.x as int, self.offset.x as int),
            p.y as int == sub_floor(self.cursor_position.y as int, self.offset.y as int),
    {
        Position {
            x: self.cursor_position.x.saturating_sub(self.offset.x),
            y: self.cursor_position.y.saturating_sub(self.offset.y),
        }
    }
}

} // verus!
