//! The cursor/viewport controller: cursor position, display-column
//! tracking under tab expansion, and the scroll reconciliation that
//! keeps the cursor inside the visible window.
use vstd::prelude::*;
use crate::render::render_col_spec;
use crate::rows::EditorRows;

verus! {

/// A single-step cursor movement.
#[derive(Clone, Copy, Debug, PartialEq, Eq, Structural)]
pub enum Dir {
    Up,
    Down,
    Left,
    Right,
    LineStart,
    LineEnd,
}

/// The length of row `y`, or 0 past the end of the buffer.
pub open spec fn row_len(c: Seq<Seq<char>>, y: int) -> nat {
    if 0 <= y < c.len() {
        c[y].len()
    } else {
        0
    }
}

/// Cursor position, derived display column, scroll offsets and the
/// fixed viewport dimensions.
#[derive(Clone, Copy, Debug, PartialEq, Eq, Structural)]
pub struct Cursor {
    pub cursor_x: usize,
    pub cursor_y: usize,
    pub screen_rows: usize,
    pub screen_columns: usize,
    pub row_offset: usize,
    pub column_offset: usize,
    pub render_x: usize,
}

/// The minimal adjustment of a scroll offset that brings `pos` into
/// the window `[offset, offset + size)`.
pub open spec fn reconcile(offset: int, pos: int, size: int) -> int {
    if pos < offset {
        pos
    } else if pos >= offset + size {
        pos + 1 - size
    } else {
        offset
    }
}

impl Cursor {
    /// The viewport has at least one cell and fits a terminal's
    /// 16-bit coordinates.
    pub open spec fn dims_ok(self) -> bool {
        &&& 1 <= self.screen_rows <= 0xFFFF
        &&& 1 <= self.screen_columns <= 0xFFFF
    }

    /// The cursor points at a real row — or at the virtual row just
    /// past the end, pending a first insert — and at a column no
    /// further than that row's end.
    pub open spec fn pos_ok(self, c: Seq<Seq<char>>) -> bool {
        &&& self.cursor_y <= c.len()
        &&& self.cursor_x <= row_len(c, self.cursor_y as int)
    }

    /// Where one movement step puts the cursor: horizontal moves wrap
    /// across line ends, vertical moves stop at the first and last
    /// row, and the column is clamped to the new row's length.
    pub open spec fn move_spec(self, c: Seq<Seq<char>>, dir: Dir) -> Cursor {
        let n = c.len();
        let m = match dir {
            Dir::Up => (Cursor {
                cursor_y: if self.cursor_y > 0 {
                    (self.cursor_y - 1) as usize
                } else {
                    0
                },
                ..self
            }),
            Dir::Down => (Cursor {
                cursor_y: if self.cursor_y + 1 < n {
                    (self.cursor_y + 1) as usize
                } else {
                    self.cursor_y
                },
                ..self
            }),
            Dir::Left => if self.cursor_x > 0 {
                Cursor { cursor_x: (self.cursor_x - 1) as usize, ..self }
            } else if self.cursor_y > 0 {
                Cursor {
                    cursor_y: (self.cursor_y - 1) as usize,
                    cursor_x: row_len(c, self.cursor_y - 1) as usize,
                    ..self
                }
            } else {
                self
            },
            Dir::Right => if self.cursor_y < n {
                if self.cursor_x < row_len(c, self.cursor_y as int) {
                    Cursor { cursor_x: (self.cursor_x + 1) as usize, ..self }
                } else if self.cursor_y + 1 < n {
                    Cursor { cursor_y: (self.cursor_y + 1) as usize, cursor_x: 0, ..self }
                } else {
                    self
                }
            } else {
                self
            },
            Dir::LineStart => (Cursor { cursor_x: 0, ..self }),
            Dir::LineEnd => (Cursor { cursor_x: row_len(c, self.cursor_y as int) as usize, ..self }),
        };
        let maxx = row_len(c, m.cursor_y as int);
        Cursor {
            cursor_x: if m.cursor_x <= maxx {
                m.cursor_x
            } else {
                maxx as usize
            },
            ..m
        }
    }

    /// Where scroll reconciliation puts the viewport: the display
    /// column is recomputed from the cursor column, then both offsets
    /// move the minimal amount that restores containment.
    pub open spec fn scroll_spec(self, c: Seq<Seq<char>>) -> Cursor {
        let rx = if self.cursor_y < c.len() {
            render_col_spec(c[self.cursor_y as int], self.cursor_x as nat)
        } else {
            0
        };
        Cursor {
            render_x: rx as usize,
            row_offset: reconcile(
                self.row_offset as int,
                self.cursor_y as int,
                self.screen_rows as int,
            ) as usize,
            column_offset: reconcile(
                self.column_offset as int,
                rx as int,
                self.screen_columns as int,
            ) as usize,
            ..self
        }
    }

    /// `k` repetitions of one movement step.
    pub open spec fn repeat_move(self, c: Seq<Seq<char>>, dir: Dir, k: nat) -> Cursor
        decreases k,
    {
        if k == 0 {
            self
        } else {
            self.move_spec(c, dir).repeat_move(c, dir, (k - 1) as nat)
        }
    }

    /// Where a page jump puts the cursor: snap to the top (or bottom)
    /// of the viewport, clamped to the buffer, then step one viewport
    /// height of single moves.
    pub open spec fn page_spec(self, c: Seq<Seq<char>>, up: bool) -> Cursor {
        let n = c.len();
        let maxy: int = if n == 0 {
            0
        } else {
            n - 1
        };
        let want: int = if up {
            self.row_offset as int
        } else {
            self.row_offset + self.screen_rows - 1
        };
        let snap_y: int = if want <= maxy {
            want
        } else {
            maxy
        };
        let maxx = row_len(c, snap_y);
        let snapped = Cursor {
            cursor_y: snap_y as usize,
            cursor_x: if self.cursor_x <= maxx {
                self.cursor_x
            } else {
                maxx as usize
            },
            ..self
        };
        snapped.repeat_move(c, if up {
            Dir::Up
        } else {
            Dir::Down
        }, self.screen_rows as nat)
    }

    /// A fresh cursor at the top-left of a viewport of the given size.
    pub fn new(screen_columns: usize, screen_rows: usize) -> (r: Cursor)
        requires
            1 <= screen_rows <= 0xFFFF,
            1 <= screen_columns <= 0xFFFF,
        ensures
            r.dims_ok(),
            r.cursor_x == 0,
            r.cursor_y == 0,
            r.row_offset == 0,
            r.column_offset == 0,
            r.render_x == 0,
            r.screen_rows == screen_rows,
            r.screen_columns == screen_columns,
    {
        Cursor {
            cursor_x: 0,
            cursor_y: 0,
            screen_rows,
            screen_columns,
            row_offset: 0,
            column_offset: 0,
            render_x: 0,
        }
    }

    /// Apply one movement step.
    pub fn move_cursor(&mut self, dir: Dir, rows: &EditorRows)
        requires
            old(self).pos_ok(rows.contents()),
        ensures
            *final(self) == old(self).move_spec(rows.contents(), dir),
            final(self).pos_ok(rows.contents()),
            final(self).cursor_y <= old(self).cursor_y || final(self).cursor_y
                < rows.contents().len(),
    {
        let n = rows.number_of_rows();
        match dir {
            Dir::Up => {
                if self.cursor_y > 0 {
                    self.cursor_y = self.cursor_y - 1;
                }
            },
            Dir::Down => {
                if n > 0 && self.cursor_y < n - 1 {
                    self.cursor_y = self.cursor_y + 1;
                }
            },
            Dir::Left => {
                if self.cursor_x > 0 {
                    self.cursor_x = self.cursor_x - 1;
                } else if self.cursor_y > 0 {
                    self.cursor_y = self.cursor_y - 1;
                    self.cursor_x = rows.get_row(self.cursor_y).len();
                }
            },
            Dir::Right => {
                if self.cursor_y < n {
                    let len = rows.get_row(self.cursor_y).len();
                    if self.cursor_x < len {
                        self.cursor_x = self.cursor_x + 1;
                    } else if self.cursor_y + 1 < n {
                        self.cursor_y = self.cursor_y + 1;
                        self.cursor_x = 0;
                    }
                }
            },
            Dir::LineStart => {
                self.cursor_x = 0;
            },
            Dir::LineEnd => {
                if self.cursor_y < n {
                    self.cursor_x = rows.get_row(self.cursor_y).len();
                } else {
                    self.cursor_x = 0;
                }
            },
        }
        let row_max: usize = if self.cursor_y < n {
            rows.get_row(self.cursor_y).len()
        } else {
            0
        };
        if self.cursor_x > row_max {
            self.cursor_x = row_max;
        }
    }

    /// Scroll reconciliation, run before every render: recompute the
    /// display column and restore cursor containment in the window.
    pub fn scroll(&mut self, rows: &EditorRows)
        requires
            rows.wf(),
            old(self).pos_ok(rows.contents()),
            old(self).dims_ok(),
        ensures
            *final(self) == old(self).scroll_spec(rows.contents()),
            final(self).cursor_x == old(self).cursor_x,
            final(self).cursor_y == old(self).cursor_y,
            final(self).row_offset <= final(self).cursor_y < final(self).row_offset
                + final(self).screen_rows,
            final(self).column_offset <= final(self).render_x < final(self).column_offset
                + final(self).screen_columns,
    {
        self.render_x = 0;
        if self.cursor_y < rows.number_of_rows() {
            self.render_x = crate::render::render_col_of(
                rows.get_editor_row(self.cursor_y),
                self.cursor_x,
            );
        }
        if self.cursor_y < self.row_offset {
            self.row_offset = self.cursor_y;
        }
        if self.cursor_y - self.row_offset >= self.screen_rows {
            self.row_offset = self.cursor_y - self.screen_rows + 1;
        }
        if self.render_x < self.column_offset {
            self.column_offset = self.render_x;
        }
        if self.render_x - self.column_offset >= self.screen_columns {
            self.column_offset = self.render_x - self.screen_columns + 1;
        }
    }

    /// Jump one viewport height up or down.
    pub fn page(&mut self, up: bool, rows: &EditorRows)
        requires
            old(self).pos_ok(rows.contents()),
            old(self).dims_ok(),
        ensures
            *final(self) == old(self).page_spec(rows.contents(), up),
            final(self).pos_ok(rows.contents()),
            rows.contents().len() == 0 ==> final(self).cursor_y == 0,
            rows.contents().len() > 0 ==> final(self).cursor_y < rows.contents().len(),
            final(self).screen_rows == old(self).screen_rows,
            final(self).screen_columns == old(self).screen_columns,
            final(self).row_offset == old(self).row_offset,
            final(self).column_offset == old(self).column_offset,
            final(self).render_x == old(self).render_x,
    {
        let n = rows.number_of_rows();
        let maxy: usize = if n == 0 {
            0
        } else {
            n - 1
        };
        let snap_y: usize = if up {
            if self.row_offset <= maxy {
                self.row_offset
            } else {
                maxy
            }
        } else {
            if self.row_offset >= maxy || self.screen_rows - 1 >= maxy - self.row_offset {
                maxy
            } else {
                self.row_offset + self.screen_rows - 1
            }
        };
        self.cursor_y = snap_y;
        let row_max: usize = if self.cursor_y < n {
            rows.get_row(self.cursor_y).len()
        } else {
            0
        };
        if self.cursor_x > row_max {
            self.cursor_x = row_max;
        }
        let ghost snapped: Cursor = *self;
        let ghost c: Seq<Seq<char>> = rows.contents();
        let dir = if up {
            Dir::Up
        } else {
            Dir::Down
        };
        let steps = self.screen_rows;
        let mut k: usize = 0;
        while k < steps
            invariant
                k <= steps,
                snapped.pos_ok(c),
                self.pos_ok(c),
                c == rows.contents(),
                if c.len() == 0 {
                    self.cursor_y == 0
                } else {
                    self.cursor_y < c.len()
                },
                *self == snapped.repeat_move(c, dir, k as nat),
            decreases steps - k,
        {
            proof {
                lemma_repeat_move_snoc(snapped, c, dir, k as nat);
            }
            self.move_cursor(dir, rows);
            k = k + 1;
        }
        proof {
            lemma_repeat_move_frame(snapped, c, dir, steps as nat);
        }
    }
}

/// Movement only changes the cursor position: the viewport size, the
/// scroll offsets and the display column are untouched.
pub proof fn lemma_repeat_move_frame(cur: Cursor, c: Seq<Seq<char>>, dir: Dir, k: nat)
    ensures
        cur.repeat_move(c, dir, k).screen_rows == cur.screen_rows,
        cur.repeat_move(c, dir, k).screen_columns == cur.screen_columns,
        cur.repeat_move(c, dir, k).row_offset == cur.row_offset,
        cur.repeat_move(c, dir, k).column_offset == cur.column_offset,
        cur.repeat_move(c, dir, k).render_x == cur.render_x,
    decreases k,
{
    if k > 0 {
        lemma_repeat_move_frame(cur.move_spec(c, dir), c, dir, (k - 1) as nat);
    }
}

/// Repeating a move `k + 1` times is repeating it `k` times and then
/// stepping once more.
pub proof fn lemma_repeat_move_snoc(cur: Cursor, c: Seq<Seq<char>>, dir: Dir, k: nat)
    ensures
        cur.repeat_move(c, dir, k + 1) == cur.repeat_move(c, dir, k).move_spec(c, dir),
    decreases k,
{
    reveal_with_fuel(Cursor::repeat_move, 2);
    if k > 0 {
        lemma_repeat_move_snoc(cur.move_spec(c, dir), c, dir, (k - 1) as nat);
    }
}

/// Reconciling the viewport is idempotent: with no state change in
/// between, a second reconciliation changes nothing.
pub proof fn lemma_scroll_idempotent(cur: Cursor, c: Seq<Seq<char>>)
    requires
        cur.dims_ok(),
    ensures
        cur.scroll_spec(c).scroll_spec(c) == cur.scroll_spec(c),
{
}

/// After reconciliation the cursor row and display column lie inside
/// the visible window.
pub proof fn lemma_scroll_containment(cur: Cursor, c: Seq<Seq<char>>)
    requires
        cur.dims_ok(),
        cur.cursor_y < c.len() ==> render_col_spec(c[cur.cursor_y as int], cur.cursor_x as nat)
            <= usize::MAX,
    ensures
        cur.scroll_spec(c).row_offset <= cur.cursor_y < cur.scroll_spec(c).row_offset
            + cur.screen_rows,
        cur.scroll_spec(c).column_offset <= cur.scroll_spec(c).render_x < cur.scroll_spec(
            c,
        ).column_offset + cur.screen_columns,
{
}

/// A left move at the very start of the buffer is a no-op.
pub proof fn lemma_left_at_origin_noop(cur: Cursor, c: Seq<Seq<char>>)
    requires
        cur.cursor_x == 0,
        cur.cursor_y == 0,
    ensures
        cur.move_spec(c, Dir::Left) == cur,
{
}

/// A right move at the end of the last line is a no-op.
pub proof fn lemma_right_at_end_noop(cur: Cursor, c: Seq<Seq<char>>)
    requires
        cur.pos_ok(c),
        cur.cursor_y == if c.len() == 0 {
            0int
        } else {
            c.len() - 1
        },
        cur.cursor_x == row_len(c, cur.cursor_y as int),
    ensures
        cur.move_spec(c, Dir::Right) == cur,
{
}

/// A down move on the last line is a no-op.
pub proof fn lemma_down_at_last_noop(cur: Cursor, c: Seq<Seq<char>>)
    requires
        cur.pos_ok(c),
        cur.cursor_y == if c.len() == 0 {
            0int
        } else {
            c.len() - 1
        },
    ensures
        cur.move_spec(c, Dir::Down) == cur,
{
}

} // verus!
