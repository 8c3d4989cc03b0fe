//! The editor state: line store, cursor/viewport controller and status
//! message, with the key-dispatch step that mutates them, the frame
//! assembly that renders them, and the save flow's decisions.
use vstd::prelude::*;
use crate::chars::{chars_of, string_of};
use crate::cursor::{Cursor, Dir};
use crate::frame::{draw_message_bar, draw_rows, draw_status_bar, frame_spec};
use crate::help::Help;
use crate::input::{key_command, map_key, Cmd, Key, Mods};
use crate::rows::EditorRows;
use crate::term::{ansi_hide_cursor, ansi_move_to, ansi_show_cursor};
use crate::textfile::{join_lines, split_lines};

verus! {

/// What the session loop must do after one key is dispatched.
#[derive(Clone, Copy, Debug, PartialEq, Eq, Structural)]
pub enum Action {
    /// Keep editing.
    Continue,
    /// Terminate the session.
    Quit,
    /// Write the buffer out (asking for a filename first if none is
    /// set).
    Save,
}

/// How an attempted save ended.
#[derive(Clone, Copy, Debug, PartialEq, Eq, Structural)]
pub enum SaveOutcome {
    /// The filename prompt was cancelled; nothing was written.
    Cancelled,
    /// The text was written out in full.
    Written,
    /// The write failed; the buffer is kept in memory.
    WriteFailed,
}

/// Where a character insertion leaves the buffer and cursor: a fresh
/// empty row materialises first if the cursor sits on the virtual row
/// past the end, then the character enters at the cursor column and
/// the cursor steps right.
pub open spec fn insert_char_spec(c: Seq<Seq<char>>, cur: Cursor, ch: char) -> (
    Seq<Seq<char>>,
    Cursor,
) {
    let c1 = if cur.cursor_y == c.len() {
        c.push(Seq::<char>::empty())
    } else {
        c
    };
    let y = cur.cursor_y as int;
    let c2 = c1.update(y, c1[y].insert(cur.cursor_x as int, ch));
    (c2, Cursor { cursor_x: (cur.cursor_x + 1) as usize, ..cur })
}

/// Where a backspace leaves the buffer and cursor: a no-op on the
/// virtual row or at the very start of the buffer; otherwise it
/// removes the character left of the cursor, or joins the row onto
/// the previous one when the cursor is at column 0.
pub open spec fn delete_char_spec(c: Seq<Seq<char>>, cur: Cursor) -> (Seq<Seq<char>>, Cursor) {
    let y = cur.cursor_y as int;
    let x = cur.cursor_x as int;
    if cur.cursor_y == c.len() {
        (c, cur)
    } else if x == 0 && y == 0 {
        (c, cur)
    } else if x > 0 {
        (
            c.update(y, c[y].remove(x - 1)),
            Cursor { cursor_x: (cur.cursor_x - 1) as usize, ..cur },
        )
    } else {
        (
            c.take(y - 1) + seq![c[y - 1] + c[y]] + c.skip(y + 1),
            Cursor {
                cursor_x: c[y - 1].len() as usize,
                cursor_y: (cur.cursor_y - 1) as usize,
                ..cur
            },
        )
    }
}

/// Where pressing Enter leaves the buffer and cursor: a blank row is
/// inserted above when the cursor is at column 0, otherwise the row is
/// split at the cursor; the cursor moves to the start of the new row.
pub open spec fn newline_spec(c: Seq<Seq<char>>, cur: Cursor) -> (Seq<Seq<char>>, Cursor) {
    let y = cur.cursor_y as int;
    let x = cur.cursor_x as int;
    let c2 = if x == 0 {
        c.insert(y, Seq::<char>::empty())
    } else {
        c.update(y, c[y].take(x)).insert(y + 1, c[y].skip(x))
    };
    (c2, Cursor { cursor_x: 0, cursor_y: (cur.cursor_y + 1) as usize, ..cur })
}

/// The whole editor: line store, cursor/viewport state, and the
/// transient status message.
pub struct Editor {
    pub rows: EditorRows,
    pub cursor: Cursor,
    pub status: Help,
}

impl Editor {
    /// The rows are well formed, the cursor is inside the buffer (or
    /// on the virtual row past its end) and the viewport has a real
    /// size; the row index stays below the machine's integer limit so
    /// one-based row numbers can always be formed.
    pub open spec fn wf(self) -> bool {
        &&& self.rows.wf()
        &&& self.cursor.pos_ok(self.rows.contents())
        &&& self.cursor.dims_ok()
        &&& self.cursor.cursor_y < usize::MAX
    }

    /// A fresh editor over a viewport of the given size: empty when no
    /// text is given, else one row per line of the text, with the
    /// usage hint as the initial status message.
    pub fn new(
        screen_columns: usize,
        screen_rows: usize,
        text: Option<&str>,
        filename: Option<String>,
        now: u64,
    ) -> (r: Editor)
        requires
            1 <= screen_rows <= 0xFFFF,
            1 <= screen_columns <= 0xFFFF,
        ensures
            r.wf(),
            r.rows.contents() == (match text {
                Some(t) => split_lines(t@),
                None => Seq::<Seq<char>>::empty(),
            }),
            r.rows.filename == filename,
            r.cursor.cursor_x == 0,
            r.cursor.cursor_y == 0,
            r.cursor.row_offset == 0,
            r.cursor.column_offset == 0,
            r.cursor.screen_rows == screen_rows,
            r.cursor.screen_columns == screen_columns,
            r.status.message@
                == "HELP: CTRL - [q: Quit | s: Save | a/d: Go to Beginning/End of line | Up/Down (Arrows): Page Up/Page Down]"@,
            r.status.set_time == now,
    {
        let rows = match text {
            Some(t) => EditorRows::from_text(t, filename),
            None => {
                let mut e = EditorRows::new_empty();
                e.filename = filename;
                e
            },
        };
        let cursor = Cursor::new(screen_columns, screen_rows);
        let status = Help::new(
            chars_of(
                "HELP: CTRL - [q: Quit | s: Save | a/d: Go to Beginning/End of line | Up/Down (Arrows): Page Up/Page Down]",
            ),
            now,
        );
        Editor { rows, cursor, status }
    }

    /// Insert one character at the cursor, stepping the cursor right.
    pub fn insert_char(&mut self, ch: char)
        requires
            old(self).wf(),
            ch != '\n',
        ensures
            final(self).wf(),
            final(self).rows.contents() == insert_char_spec(
                old(self).rows.contents(),
                old(self).cursor,
                ch,
            ).0,
            final(self).cursor == insert_char_spec(
                old(self).rows.contents(),
                old(self).cursor,
                ch,
            ).1,
            final(self).rows.filename == old(self).rows.filename,
            final(self).status == old(self).status,
    {
        let n = self.rows.number_of_rows();
        if self.cursor.cursor_y == n {
            let fresh: Vec<char> = Vec::new();
            self.rows.insert_row(n, fresh);
            proof {
                assert(old(self).rows.contents().insert(n as int, Seq::<char>::empty()) =~= old(
                    self,
                ).rows.contents().push(Seq::<char>::empty()));
            }
        }
        self.rows.insert_char(self.cursor.cursor_y, self.cursor.cursor_x, ch);
        let new_len = self.rows.get_row(self.cursor.cursor_y).len();
        assert(self.cursor.cursor_x < new_len);
        self.cursor.cursor_x = self.cursor.cursor_x + 1;
    }

    /// Backspace: delete the character left of the cursor, or join
    /// this row onto the previous one at column 0; a no-op at the very
    /// start of the buffer and on the virtual row past the end.
    pub fn delete_char(&mut self)
        requires
            old(self).wf(),
        ensures
            final(self).wf(),
            final(self).rows.contents() == delete_char_spec(
                old(self).rows.contents(),
                old(self).cursor,
            ).0,
            final(self).cursor == delete_char_spec(old(self).rows.contents(), old(self).cursor).1,
            final(self).rows.filename == old(self).rows.filename,
            final(self).status == old(self).status,
    {
        let n = self.rows.number_of_rows();
        if self.cursor.cursor_y == n {
            return ;
        }
        if self.cursor.cursor_y == 0 && self.cursor.cursor_x == 0 {
            return ;
        }
        if self.cursor.cursor_x > 0 {
            self.rows.delete_char(self.cursor.cursor_y, self.cursor.cursor_x - 1);
            self.cursor.cursor_x = self.cursor.cursor_x - 1;
        } else {
            let prev_len = self.rows.get_row(self.cursor.cursor_y - 1).len();
            self.cursor.cursor_x = prev_len;
            self.rows.join_adjacent_rows(self.cursor.cursor_y);
            self.cursor.cursor_y = self.cursor.cursor_y - 1;
            proof {
                let c = old(self).rows.contents();
                let y = old(self).cursor.cursor_y as int;
                assert(self.rows.contents()[y - 1] == c[y - 1] + c[y]);
                assert(self.cursor.cursor_x <= self.rows.contents()[y - 1].len());
            }
        }
    }

    /// Enter: split the row at the cursor (or insert a blank row at
    /// column 0) and move to the start of the new row. On a buffer
    /// already at the machine's row limit the key is ignored.
    pub fn insert_newline(&mut self)
        requires
            old(self).wf(),
        ensures
            final(self).wf(),
            old(self).rows.contents().len() + 2 <= usize::MAX ==> final(self).rows.contents()
                == newline_spec(old(self).rows.contents(), old(self).cursor).0 && final(self).cursor == newline_spec(old(self).rows.contents(), old(self).cursor).1,
            old(self).rows.contents().len() + 2 > usize::MAX ==> final(self).rows.contents() == old(
                self,
            ).rows.contents() && final(self).cursor == old(self).cursor,
            final(self).rows.filename == old(self).rows.filename,
            final(self).status == old(self).status,
    {
        let n = self.rows.number_of_rows();
        if n > usize::MAX - 2 {
            return ;
        }
        if self.cursor.cursor_x == 0 {
            let fresh: Vec<char> = Vec::new();
            self.rows.insert_row(self.cursor.cursor_y, fresh);
        } else {
            self.rows.split_row(self.cursor.cursor_y, self.cursor.cursor_x);
        }
        self.cursor.cursor_x = 0;
        self.cursor.cursor_y = self.cursor.cursor_y + 1;
    }

    /// Dispatch one key event: mutate the editor as the key's command
    /// asks and report what the session loop must do next.
    pub fn process_key(&mut self, key: Key, m: Mods) -> (r: Action)
        requires
            old(self).wf(),
        ensures
            final(self).wf(),
            final(self).rows.filename == old(self).rows.filename,
            final(self).status == old(self).status,
            r == (if key_command(key, m) == Cmd::Quit {
                Action::Quit
            } else if key_command(key, m) == Cmd::Save {
                Action::Save
            } else {
                Action::Continue
            }),
            key_command(key, m) == Cmd::Quit || key_command(key, m) == Cmd::Save || key_command(
                key,
                m,
            ) == Cmd::Nothing ==> final(self).rows.contents() == old(self).rows.contents() && final(self).cursor == old(self).cursor,
            forall|d: Dir|
                key_command(key, m) == Cmd::Move(d) ==> final(self).rows.contents() == old(
                    self,
                ).rows.contents() && final(self).cursor == old(self).cursor.move_spec(
                    old(self).rows.contents(),
                    d,
                ),
            key_command(key, m) == Cmd::PageUp ==> final(self).rows.contents() == old(
                self,
            ).rows.contents() && final(self).cursor == old(self).cursor.page_spec(
                old(self).rows.contents(),
                true,
            ),
            key_command(key, m) == Cmd::PageDown ==> final(self).rows.contents() == old(
                self,
            ).rows.contents() && final(self).cursor == old(self).cursor.page_spec(
                old(self).rows.contents(),
                false,
            ),
            key_command(key, m) == Cmd::DeleteBack ==> final(self).rows.contents()
                == delete_char_spec(old(self).rows.contents(), old(self).cursor).0 && final(self).cursor == delete_char_spec(old(self).rows.contents(), old(self).cursor).1,
            key_command(key, m) == Cmd::DeleteForward ==> final(self).rows.contents()
                == delete_char_spec(
                old(self).rows.contents(),
                old(self).cursor.move_spec(old(self).rows.contents(), Dir::Right),
            ).0 && final(self).cursor == delete_char_spec(
                old(self).rows.contents(),
                old(self).cursor.move_spec(old(self).rows.contents(), Dir::Right),
            ).1,
            key_command(key, m) == Cmd::Newline && old(self).rows.contents().len() + 2
                <= usize::MAX ==> final(self).rows.contents() == newline_spec(
                old(self).rows.contents(),
                old(self).cursor,
            ).0 && final(self).cursor == newline_spec(old(self).rows.contents(), old(self).cursor).1,
            forall|ch: char|
                key_command(key, m) == Cmd::Insert(ch) ==> final(self).rows.contents()
                    == insert_char_spec(old(self).rows.contents(), old(self).cursor, ch).0 && final(self).cursor == insert_char_spec(old(self).rows.contents(), old(self).cursor, ch).1,
    {
        let n = self.rows.number_of_rows();
        match map_key(key, m) {
            Cmd::Quit => Action::Quit,
            Cmd::Save => Action::Save,
            Cmd::Nothing => Action::Continue,
            Cmd::Move(d) => {
                self.cursor.move_cursor(d, &self.rows);
                proof {
                    assert(self.cursor.cursor_y < usize::MAX);
                    assert(self.cursor.dims_ok());
                    assert(self.wf());
                }
                Action::Continue
            },
            Cmd::PageUp => {
                self.cursor.page(true, &self.rows);
                proof {
                    assert(self.cursor.cursor_y < usize::MAX);
                    assert(self.cursor.dims_ok());
                    assert(self.wf());
                }
                Action::Continue
            },
            Cmd::PageDown => {
                self.cursor.page(false, &self.rows);
                proof {
                    assert(self.cursor.cursor_y < usize::MAX);
                    assert(self.cursor.dims_ok());
                    assert(self.wf());
                }
                Action::Continue
            },
            Cmd::DeleteBack => {
                self.delete_char();
                proof {
                    assert(self.wf());
                }
                Action::Continue
            },
            Cmd::DeleteForward => {
                self.cursor.move_cursor(Dir::Right, &self.rows);
                proof {
                    assert(self.cursor.cursor_y < usize::MAX);
                    assert(self.wf());
                }
                self.delete_char();
                Action::Continue
            },
            Cmd::Newline => {
                self.insert_newline();
                Action::Continue
            },
            Cmd::Insert(ch) => {
                assert(ch != '\n');
                self.insert_char(ch);
                Action::Continue
            },
        }
    }

    /// Whether a file path is associated with the buffer.
    pub fn has_filename(&self) -> (r: bool)
        ensures
            r == (self.rows.fname() is Some),
    {
        match &self.rows.filename {
            Some(_) => true,
            None => false,
        }
    }

    /// The associated file path, for the writer of the saved text.
    pub fn filename_string(&self) -> (r: Option<String>)
        ensures
            match r {
                Some(s) => self.rows.fname() == Some(s@),
                None => self.rows.fname() is None,
            },
    {
        match &self.rows.filename {
            Some(s) => Some(s.clone()),
            None => None,
        }
    }

    /// Associate a file path with the buffer (after a committed
    /// filename prompt).
    pub fn set_filename(&mut self, name: String)
        requires
            old(self).wf(),
        ensures
            final(self).wf(),
            final(self).rows.fname() == Some(name@),
            final(self).rows.contents() == old(self).rows.contents(),
            final(self).cursor == old(self).cursor,
            final(self).status == old(self).status,
    {
        self.rows.filename = Some(name);
    }

    /// The exact text a save writes: the rows joined with `'\n'`.
    pub fn save_text(&self) -> (r: String)
        requires
            self.wf(),
        ensures
            r@ == join_lines(self.rows.contents()),
    {
        self.rows.save_text()
    }

    /// Record how an attempted save ended, as the status message: an
    /// aborted prompt and a failed write leave the buffer untouched
    /// and only report themselves here.
    pub fn finish_save(&mut self, outcome: SaveOutcome, now: u64)
        requires
            old(self).wf(),
        ensures
            final(self).wf(),
            final(self).rows.contents() == old(self).rows.contents(),
            final(self).rows.filename == old(self).rows.filename,
            final(self).cursor == old(self).cursor,
            final(self).status.set_time == now,
            final(self).status.message@ == (match outcome {
                SaveOutcome::Cancelled => "File Save Aborted"@,
                SaveOutcome::Written => "File Saved"@,
                SaveOutcome::WriteFailed => "Save Failed"@,
            }),
    {
        let msg = match outcome {
            SaveOutcome::Cancelled => chars_of("File Save Aborted"),
            SaveOutcome::Written => chars_of("File Saved"),
            SaveOutcome::WriteFailed => chars_of("Save Failed"),
        };
        self.status.set_message(msg, now);
    }

    /// Replace the status message.
    pub fn set_status_chars(&mut self, msg: Vec<char>, now: u64)
        requires
            old(self).wf(),
        ensures
            final(self).wf(),
            final(self).rows.contents() == old(self).rows.contents(),
            final(self).rows.filename == old(self).rows.filename,
            final(self).cursor == old(self).cursor,
            final(self).status.message@ == msg@,
            final(self).status.set_time == now,
    {
        self.status.set_message(msg, now);
    }

    /// Replace the status message with the characters of `msg`.
    pub fn set_status(&mut self, msg: &str, now: u64)
        requires
            old(self).wf(),
        ensures
            final(self).wf(),
            final(self).rows.contents() == old(self).rows.contents(),
            final(self).rows.filename == old(self).rows.filename,
            final(self).cursor == old(self).cursor,
            final(self).status.message@ == msg@,
            final(self).status.set_time == now,
    {
        let chars = chars_of(msg);
        self.status.set_message(chars, now);
    }

    /// Reconcile the viewport, then assemble one complete frame as a
    /// single text to be flushed whole.
    pub fn build_frame(&mut self, now: u64) -> (r: String)
        requires
            old(self).wf(),
        ensures
            final(self).wf(),
            final(self).rows.contents() == old(self).rows.contents(),
            final(self).rows.filename == old(self).rows.filename,
            final(self).status == old(self).status,
            final(self).cursor == old(self).cursor.scroll_spec(old(self).rows.contents()),
            r@ == frame_spec(
                final(self).rows.contents(),
                final(self).cursor,
                final(self).rows.fname(),
                final(self).status,
                now,
            ),
    {
        self.cursor.scroll(&self.rows);
        let mut buf = ansi_hide_cursor();
        let mut m0 = ansi_move_to(0, 0);
        buf.append(&mut m0);
        proof {
            assert(self.cursor.row_offset <= self.cursor.cursor_y);
        }
        draw_rows(&mut buf, &self.rows, &self.cursor);
        draw_status_bar(&mut buf, &self.rows, &self.cursor);
        draw_message_bar(&mut buf, &self.status, now, self.cursor.screen_columns);
        let cx = self.cursor.render_x - self.cursor.column_offset;
        let cy = self.cursor.cursor_y - self.cursor.row_offset;
        let mut mt = ansi_move_to(cx as u16, cy as u16);
        buf.append(&mut mt);
        let mut sh = ansi_show_cursor();
        buf.append(&mut sh);
        proof {
            assert(buf@ =~= frame_spec(
                self.rows.contents(),
                self.cursor,
                self.rows.fname(),
                self.status,
                now,
            ));
        }
        string_of(&buf)
    }
}

/// A backspace at the very start of the buffer changes nothing.
pub proof fn lemma_backspace_at_origin_noop(c: Seq<Seq<char>>, cur: Cursor)
    requires
        cur.cursor_x == 0,
        cur.cursor_y == 0,
    ensures
        delete_char_spec(c, cur).0 == c,
        delete_char_spec(c, cur).1 == cur,
{
}

} // verus!
