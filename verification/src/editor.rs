use crate::document::Document;
use crate::document::row_len;
use crate::geometry::Position;
use crate::geometry::Size;
use crate::geometry::add_cap;
use crate::geometry::sub_floor;
use vstd::prelude::*;

verus! {

/// One input command.  Plain and control-chord characters are carried so
/// the top level can recognise the quit chord; every command the state
/// machine does not recognise is a no-op.
#[derive(Clone, Copy, Debug)]
pub enum Key {
    Up,
    Down,
    Left,
    Right,
    PageUp,
    PageDown,
    Home,
    End,
    Ctrl(char),
    Char(char),
    Other,
}

/// Whether a key is one of the cursor-movement commands.
pub open spec fn is_navigation(key: Key) -> bool {
    match key {
        Key::Up | Key::Down | Key::Left | Key::Right | Key::PageUp | Key::PageDown | Key::Home
            | Key::End => true,
        _ => false,
    }
}

/// The top-level viewer state: the document, the cursor in document
/// coordinates, the viewport offset, the usable terminal size, and whether
/// the quit command has been seen.
pub struct Editor {
    pub should_quit: bool,
    pub size: Size,
    pub cursor_position: Position,
    pub offset: Position,
    pub document: Document,
}

/// Where one navigation command, before the final clamp, sends the cursor
/// `(x, y)`: `doc` is the document as row cluster sequences and `page` the
/// usable viewport height, which PageUp and PageDown move by.
pub open spec fn move_step(
    doc: Seq<Seq<Seq<char>>>,
    x: int,
    y: int,
    page: int,
    key: Key,
) -> (int, int) {
    match key {
        Key::Up => (x, sub_floor(y, 1)),
        Key::Down => (x, if y < doc.len() { y + 1 } else { y }),
        Key::Left => if x > 0 {
            (x - 1, y)
        } else if y > 0 {
            (row_len(doc, y - 1), y - 1)
        } else {
            (x, y)
        },
        Key::Right => if x < row_len(doc, y) {
            (x + 1, y)
        } else if x == row_len(doc, y) && y < doc.len() {
            (0, y + 1)
        } else {
            (x, y)
        },
        Key::PageUp => (x, if y > page { y - page } else { 0 }),
        Key::PageDown => (x, if y + page < doc.len() { y + page } else { doc.len() as int }),
        Key::Home => (0, y),
        Key::End => (row_len(doc, y), y),
        _ => (x, y),
    }
}

/// Where one navigation command finally leaves the cursor: the step above,
/// then the clamp that keeps `x` within the grapheme length of the row the
/// cursor lands on.
pub open spec fn move_target(
    doc: Seq<Seq<Seq<char>>>,
    x: int,
    y: int,
    page: int,
    key: Key,
) -> (int, int) {
    let stepped = move_step(doc, x, y, page, key);
    let width = row_len(doc, stepped.1);
    if stepped.0 > width {
        (width, stepped.1)
    } else {
        stepped
    }
}

/// Where the viewer's own state sends the cursor on one navigation command.
pub open spec fn cursor_after_move(ed: Editor, key: Key) -> (int, int) {
    move_target(
        ed.document@,
        ed.cursor_position.x as int,
        ed.cursor_position.y as int,
        ed.size.height as int,
        key,
    )
}

/// One scroll rule along one axis: if the cursor coordinate `c` is before
/// the offset `o`, scroll back to it; if it is at or past the far edge of
/// the `extent`-wide window, scroll just far enough to make it the last
/// visible coordinate; otherwise leave the offset alone.  All arithmetic
/// saturates on the unsigned domain.
pub open spec fn scrolled(c: int, o: int, extent: int) -> int {
    if c < o {
        c
    } else if c >= add_cap(o, extent) {
        add_cap(sub_floor(c, extent), 1)
    } else {
        o
    }
}

/// The offset after the scroll engine has run on cursor, offset and size.
pub open spec fn offset_after_scroll(ed: Editor) -> (int, int) {
    (
        scrolled(ed.cursor_position.x as int, ed.offset.x as int, ed.size.width as int),
        scrolled(ed.cursor_position.y as int, ed.offset.y as int, ed.size.height as int),
    )
}

impl Editor {
    /// The cursor stays within the document: its row index is at most the
    /// row count (the one-past-last sentinel), and its column at most the
    /// grapheme length of the row it addresses.
    pub open spec fn wf(self) -> bool {
        &&& self.cursor_position.y <= self.document@.len()
        &&& self.cursor_position.x as int <= row_len(
            self.document@,
            self.cursor_position.y as int,
        )
    }

    /// A fresh viewer over a document: cursor and offset at the origin, not
    /// quitting.
    pub fn new(document: Document, size: Size) -> (ed: Editor)
        ensures
            ed.document == document,
            ed.size == size,
            ed.cursor_position == (Position { x: 0, y: 0 }),
            ed.offset == (Position { x: 0, y: 0 }),
            !ed.should_quit,
            ed.wf(),
    {
        Editor {
            should_quit: false,
            size,
            cursor_position: Position { x: 0, y: 0 },
            offset: Position { x: 0, y: 0 },
            document,
        }
    }

    /// Moves the cursor by one navigation command, reading the current row
    /// lengths to stay in bounds, and clamps the column to the row the
    /// cursor lands on.  Nothing but the cursor changes.
    pub fn move_cursor(&mut self, key: Key)
        requires
            old(self).wf(),
        ensures
            final(self).wf(),
            final(self).cursor_position.x as int == cursor_after_move(*old(self), key).0,
            final(self).cursor_position.y as int == cursor_after_move(*old(self), key).1,
            final(self).document == old(self).document,
            final(self).offset == old(self).offset,
            final(self).size == old(self).size,
            final(self).should_quit == old(self).should_quit,
    {
        let page = self.size.height as usize;
        let mut x = self.cursor_position.x;
        let mut y = self.cursor_position.y;
        let height = self.document.len();
        let width = match self.document.row(y) {
            Some(row) => row.len(),
            None => 0,
        };
        match key {
            Key::Up => {
                y = y.saturating_sub(1);
            },
            Key::Down => {
                if y < height {
                    y = y.saturating_add(1);
                }
            },
            Key::Left => {
                if x > 0 {
                    x = x - 1;
                } else if y > 0 {
                    y = y - 1;
                    x = match self.document.row(y) {
                        Some(row) => row.len(),
                        None => 0,
                    };
                }
            },
            Key::Right => {
                if x < width {
                    x = x + 1;
                } else if x == width && y < height {
                    y = y + 1;
                    x = 0;
                }
            },
            Key::PageUp => {
                y = if y > page {
                    y - page
                } else {
                    0
                };
            },
            Key::PageDown => {
                y = if y.saturating_add(page) < height {
                    y + page
                } else {
                    height
                };
            },
            Key::Home => {
                x = 0;
            },
            Key::End => {
                x = width;
            },
            _ => {},
        }
        let width = match self.document.row(y) {
            Some(row) => row.len(),
            None => 0,
        };
        if x > width {
            x = width;
        }
        self.cursor_position = Position { x, y };
    }

    /// Recomputes the viewport offset with the minimal scroll that brings
    /// the cursor back into view, axis by axis.  Whenever the viewport has
    /// any extent at all along an axis, the cursor ends within it.
    pub fn scroll(&mut self)
        ensures
            final(self).offset.x as int == offset_after_scroll(*old(self)).0,
            final(self).offset.y as int == offset_after_scroll(*old(self)).1,
            final(self).document == old(self).document,
            final(self).cursor_position == old(self).cursor_position,
            final(self).size == old(self).size,
            final(self).should_quit == old(self).should_quit,
            old(self).size.width >= 1 ==> final(self).offset.x <= final(self).cursor_position.x
                < final(self).offset.x + final(self).size.width,
            old(self).size.height >= 1 ==> final(self).offset.y <= final(self).cursor_position.y
                < final(self).offset.y + final(self).size.height,
    {
        let x = self.cursor_position.x;
        let y = self.cursor_position.y;
        let width = self.size.width as usize;
        let height = self.size.height as usize;
        let mut offset_x = self.offset.x;
        let mut offset_y = self.offset.y;
        if y < offset_y {
            offset_y = y;
        } else if y >= offset_y.saturating_add(height) {
            offset_y = y.saturating_sub(height).saturating_add(1);
        }
        if x < offset_x {
            offset_x = x;
        } else if x >= offset_x.saturating_add(width) {
            offset_x = x.saturating_sub(width).saturating_add(1);
        }
        self.offset = Position { x: offset_x, y: offset_y };
    }

    /// Handles one key: the quit chord raises the quit flag, a navigation
    /// key moves the cursor, anything else is a no-op; the scroll engine
    /// then recomputes the offset against the (possibly unchanged) cursor.
    pub fn process_key(&mut self, key: Key)
        requires
            old(self).wf(),
        ensures
            final(self).wf(),
            final(self).should_quit == (old(self).should_quit || key == Key::Ctrl('q')),
            is_navigation(key) ==> {
                &&& final(self).cursor_position.x as int == cursor_after_move(*old(self), key).0
                &&& final(self).cursor_position.y as int == cursor_after_move(*old(self), key).1
            },
            !is_navigation(key) ==> final(self).cursor_position == old(self).cursor_position,
            final(self).offset.x as int == scrolled(
                final(self).cursor_position.x as int,
                old(self).offset.x as int,
                old(self).size.width as int,
            ),
            final(self).offset.y as int == scrolled(
                final(self).cursor_position.y as int,
                old(self).offset.y as int,
                old(self).size.height as int,
            ),
            final(self).document == old(self).document,
            final(self).size == old(self).size,
            old(self).size.width >= 1 ==> final(self).offset.x <= final(self).cursor_position.x
                < final(self).offset.x + final(self).size.width,
            old(self).size.height >= 1 ==> final(self).offset.y <= final(self).cursor_position.y
                < final(self).offset.y + final(self).size.height,
    {
        match key {
            Key::Ctrl('q') => {
                self.should_quit = true;
            },
            Key::Up | Key::Down | Key::Left | Key::Right | Key::PageUp | Key::PageDown
                | Key::Home | Key::End => {
                self.move_cursor(key);
            },
            _ => {},
        }
        self.scroll();
    }
}

/// Left at the start of a row that has one above wraps to the end of that
/// row above.
pub proof fn lemma_left_wraps(doc: Seq<Seq<Seq<char>>>, y: int, page: int)
    requires
        1 <= y <= doc.len(),
    ensures
        move_target(doc, 0, y, page, Key::Left) == (row_len(doc, y - 1), y - 1),
{
}

/// Right at the end of a row that is not past the last wraps to the start
/// of the row below.
pub proof fn lemma_right_wraps(doc: Seq<Seq<Seq<char>>>, x: int, y: int, page: int)
    requires
        0 <= y < doc.len(),
        x == row_len(doc, y),
    ensures
        move_target(doc, x, y, page, Key::Right) == (0int, y + 1),
{
}

} // verus!
