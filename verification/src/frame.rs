//! The frame builder: assembles one complete terminal frame — content
//! rows, status line, message line and cursor positioning — into a
//! single character buffer whose exact content is specified.
use vstd::prelude::*;
use crate::chars::{chars_of, dec_spec, digits_of};
use crate::cursor::Cursor;
use crate::help::Help;
use crate::render::{render_spec, spaces};
use crate::rows::EditorRows;
use crate::term::{
    ansi_clear_until_newline, ansi_reset_attr, ansi_reverse_attr, clear_line_seq,
    reset_attr_seq, reverse_attr_seq,
};

verus! {

pub open spec fn min_nat(a: nat, b: nat) -> nat {
    if a < b {
        a
    } else {
        b
    }
}

/// The part of a rendered row visible through the viewport: at most
/// `width` characters starting at column `off`, empty when the row is
/// scrolled wholly out of view.
pub open spec fn visible_slice(r: Seq<char>, off: nat, width: nat) -> Seq<char> {
    let avail: nat = if r.len() > off {
        (r.len() - off) as nat
    } else {
        0
    };
    let len: nat = min_nat(avail, width);
    let start: int = if len == 0 {
        0
    } else {
        off as int
    };
    r.subrange(start, start + len)
}

/// One frame row: the visible slice of the buffer row it shows, or a
/// line-number placeholder past the buffer's end, then a clear-to-end
/// sequence and a row break.
pub open spec fn row_text(c: Seq<Seq<char>>, cur: Cursor, i: nat) -> Seq<char> {
    let body = if cur.row_offset + i < c.len() {
        visible_slice(
            render_spec(c[cur.row_offset + i]),
            cur.column_offset as nat,
            cur.screen_columns as nat,
        )
    } else {
        dec_spec(i + 1)
    };
    body + clear_line_seq() + seq!['\r', '\n']
}

/// The first `k` frame rows, concatenated.
pub open spec fn rows_upto(c: Seq<Seq<char>>, cur: Cursor, k: nat) -> Seq<char>
    decreases k,
{
    if k == 0 {
        Seq::empty()
    } else {
        rows_upto(c, cur, (k - 1) as nat) + row_text(c, cur, (k - 1) as nat)
    }
}

/// The final component of a file path: the suffix after the last
/// `'/'`, or the whole path when it holds none.
pub open spec fn basename(s: Seq<char>) -> Seq<char>
    decreases s.len(),
{
    if s.len() == 0 {
        Seq::empty()
    } else if s.last() == '/' {
        Seq::empty()
    } else {
        basename(s.drop_last()).push(s.last())
    }
}

/// The final path component of `name`'s characters.
pub fn basename_chars(name: &Vec<char>) -> (r: Vec<char>)
    ensures
        r@ == basename(name@),
{
    let mut start: usize = 0;
    let mut i: usize = 0;
    proof {
        assert(basename(name@.take(0)) =~= name@.take(0).skip(0));
    }
    while i < name.len()
        invariant
            start <= i <= name@.len(),
            basename(name@.take(i as int)) == name@.take(i as int).skip(start as int),
        decreases name@.len() - i,
    {
        let c = name[i];
        proof {
            assert(name@.take(i + 1).last() == c);
            assert(name@.take(i + 1).drop_last() =~= name@.take(i as int));
        }
        if c == '/' {
            start = i + 1;
            proof {
                assert(basename(name@.take(i + 1)) =~= name@.take(i + 1).skip(start as int));
            }
        } else {
            proof {
                assert(basename(name@.take(i + 1)) =~= name@.take(i + 1).skip(start as int));
            }
        }
        i = i + 1;
    }
    proof {
        assert(name@.take(name@.len() as int) =~= name@);
    }
    let mut r: Vec<char> = Vec::new();
    let mut j: usize = start;
    while j < name.len()
        invariant
            start <= j <= name@.len(),
            r@ == name@.subrange(start as int, j as int),
        decreases name@.len() - j,
    {
        r.push(name[j]);
        proof {
            assert(name@.subrange(start as int, j + 1) =~= name@.subrange(
                start as int,
                j as int,
            ).push(name@[j as int]));
        }
        j = j + 1;
    }
    proof {
        assert(name@.subrange(start as int, name@.len() as int) =~= name@.skip(start as int));
    }
    r
}

/// The status line: in reverse video, the file path's final component
/// (or a placeholder) with the line count, padded with spaces, and a
/// right-aligned current-line/total-lines indicator when it fits
/// exactly.
pub open spec fn status_text(fname: Option<Seq<char>>, n: nat, y: nat, cols: nat) -> Seq<char> {
    let name = match fname {
        Some(s) => basename(s),
        None => "File Not Saved"@,
    };
    let info = name + " ["@ + dec_spec(n) + " lines]"@;
    let info_len = min_nat(info.len(), cols);
    let li = dec_spec(y + 1) + seq!['/'] + dec_spec(n);
    let right = if li.len() <= cols - info_len {
        spaces(((cols - info_len) - li.len()) as nat) + li
    } else {
        spaces((cols - info_len) as nat)
    };
    reverse_attr_seq() + info.take(info_len as int) + right + reset_attr_seq() + seq!['\r', '\n']
}

/// The message line: clear it, then the active status message (if not
/// expired), truncated to the viewport width.
pub open spec fn message_text(h: Help, now: u64, cols: nat) -> Seq<char> {
    clear_line_seq() + (match h.shown_spec(now) {
        Some(m) => m.take(min_nat(m.len(), cols) as int),
        None => Seq::<char>::empty(),
    })
}

/// One whole frame: hide the cursor, go to the top-left, draw the
/// content rows, the status line and the message line, then place and
/// show the cursor — in this exact order, as one buffer flushed whole.
pub open spec fn frame_spec(
    c: Seq<Seq<char>>,
    cur: Cursor,
    fname: Option<Seq<char>>,
    h: Help,
    now: u64,
) -> Seq<char> {
    crate::term::hide_cursor_seq() + crate::term::move_to_seq(0, 0) + rows_upto(
        c,
        cur,
        cur.screen_rows as nat,
    ) + status_text(fname, c.len() as nat, cur.cursor_y as nat, cur.screen_columns as nat)
        + message_text(h, now, cur.screen_columns as nat) + crate::term::move_to_seq(
        (cur.render_x - cur.column_offset) as nat,
        (cur.cursor_y - cur.row_offset) as nat,
    ) + crate::term::show_cursor_seq()
}

/// Append the content rows of the frame.
pub fn draw_rows(buf: &mut Vec<char>, rows: &EditorRows, cur: &Cursor)
    requires
        rows.wf(),
        cur.row_offset <= rows.contents().len(),
        cur.dims_ok(),
    ensures
        final(buf)@ == old(buf)@ + rows_upto(rows.contents(), *cur, cur.screen_rows as nat),
{
    let n = rows.number_of_rows();
    let ghost c: Seq<Seq<char>> = rows.contents();
    let ghost base: Seq<char> = old(buf)@;
    let mut i: usize = 0;
    proof {
        assert(base + rows_upto(c, *cur, 0) =~= base);
    }
    while i < cur.screen_rows
        invariant
            i <= cur.screen_rows,
            rows.wf(),
            c == rows.contents(),
            n == c.len(),
            cur.row_offset <= n,
            cur.dims_ok(),
            buf@ == base + rows_upto(c, *cur, i as nat),
        decreases cur.screen_rows - i,
    {
        let ghost row_start: Seq<char> = buf@;
        if i < n - cur.row_offset {
            let file_row = cur.row_offset + i;
            let render = rows.get_render(file_row);
            let rl = render.len();
            let off = cur.column_offset;
            let avail: usize = if rl > off {
                rl - off
            } else {
                0
            };
            let len: usize = if avail < cur.screen_columns {
                avail
            } else {
                cur.screen_columns
            };
            let start: usize = if len == 0 {
                0
            } else {
                off
            };
            let mut j: usize = 0;
            while j < len
                invariant
                    j <= len,
                    render@.len() == rl,
                    start + len <= rl,
                    buf@ == row_start + render@.subrange(start as int, start + j),
                decreases len - j,
            {
                buf.push(render[start + j]);
                proof {
                    assert(render@.subrange(start as int, start + j + 1) =~= render@.subrange(
                        start as int,
                        start + j,
                    ).push(render@[start + j]));
                }
                j = j + 1;
            }
            proof {
                assert(render@.subrange(start as int, start + len) =~= visible_slice(
                    render_spec(c[file_row as int]),
                    cur.column_offset as nat,
                    cur.screen_columns as nat,
                ));
            }
        } else {
            let mut d = digits_of(i + 1);
            buf.append(&mut d);
        }
        let mut cl = ansi_clear_until_newline();
        buf.append(&mut cl);
        buf.push('\r');
        buf.push('\n');
        proof {
            assert(buf@ =~= base + (rows_upto(c, *cur, i as nat) + row_text(c, *cur, i as nat)));
            assert(rows_upto(c, *cur, (i + 1) as nat) == rows_upto(c, *cur, i as nat) + row_text(
                c,
                *cur,
                i as nat,
            ));
            assert(buf@ =~= base + rows_upto(c, *cur, (i + 1) as nat));
        }
        i = i + 1;
    }
}

/// Append the status line of the frame.
#[verifier::rlimit(100)]
pub fn draw_status_bar(buf: &mut Vec<char>, rows: &EditorRows, cur: &Cursor)
    requires
        cur.dims_ok(),
        cur.cursor_y < usize::MAX,
    ensures
        final(buf)@ == old(buf)@ + status_text(
            rows.fname(),
            rows.contents().len() as nat,
            cur.cursor_y as nat,
            cur.screen_columns as nat,
        ),
{
    let n = rows.number_of_rows();
    let cols = cur.screen_columns;
    let ghost base: Seq<char> = old(buf)@;
    let mut info: Vec<char> = match &rows.filename {
        Some(s) => {
            let full = chars_of(s.as_str());
            basename_chars(&full)
        },
        None => chars_of("File Not Saved"),
    };
    let mut part = chars_of(" [");
    info.append(&mut part);
    let mut d = digits_of(n);
    info.append(&mut d);
    let mut part2 = chars_of(" lines]");
    info.append(&mut part2);
    let ghost name: Seq<char> = match rows.fname() {
        Some(s) => basename(s),
        None => "File Not Saved"@,
    };
    proof {
        assert(info@ =~= name + " ["@ + dec_spec(n as nat) + " lines]"@);
    }
    let info_len: usize = if info.len() < cols {
        info.len()
    } else {
        cols
    };
    let mut li = digits_of(cur.cursor_y + 1);
    li.push('/');
    let mut d2 = digits_of(n);
    li.append(&mut d2);
    proof {
        assert(li@ =~= dec_spec((cur.cursor_y + 1) as nat) + seq!['/'] + dec_spec(n as nat));
    }
    let mut rev = ansi_reverse_attr();
    buf.append(&mut rev);
    let ghost after_attr: Seq<char> = buf@;
    let mut j: usize = 0;
    while j < info_len
        invariant
            j <= info_len <= info@.len(),
            buf@ == after_attr + info@.take(j as int),
        decreases info_len - j,
    {
        buf.push(info[j]);
        proof {
            assert(after_attr + info@.take(j + 1) =~= (after_attr + info@.take(j as int)).push(
                info@[j as int],
            ));
        }
        j = j + 1;
    }
    let ghost after_info: Seq<char> = buf@;
    let pad_total: usize = cols - info_len;
    if li.len() <= pad_total {
        let pad: usize = pad_total - li.len();
        let mut k: usize = 0;
        while k < pad
            invariant
                k <= pad,
                buf@ == after_info + spaces(k as nat),
            decreases pad - k,
        {
            buf.push(' ');
            proof {
                assert(after_info + spaces((k + 1) as nat) =~= (after_info + spaces(
                    k as nat,
                )).push(' '));
            }
            k = k + 1;
        }
        let ghost li_view: Seq<char> = li@;
        buf.append(&mut li);
        proof {
            assert(buf@ =~= after_info + (spaces(pad as nat) + li_view));
        }
    } else {
        let mut k: usize = 0;
        while k < pad_total
            invariant
                k <= pad_total,
                buf@ == after_info + spaces(k as nat),
            decreases pad_total - k,
        {
            buf.push(' ');
            proof {
                assert(after_info + spaces((k + 1) as nat) =~= (after_info + spaces(
                    k as nat,
                )).push(' '));
            }
            k = k + 1;
        }
    }
    let mut rst = ansi_reset_attr();
    buf.append(&mut rst);
    buf.push('\r');
    buf.push('\n');
    proof {
        assert(buf@ =~= base + status_text(
            rows.fname(),
            rows.contents().len() as nat,
            cur.cursor_y as nat,
            cur.screen_columns as nat,
        ));
    }
}

/// Append the message line of the frame.
pub fn draw_message_bar(buf: &mut Vec<char>, h: &Help, now: u64, cols: usize)
    ensures
        final(buf)@ == old(buf)@ + message_text(*h, now, cols as nat),
{
    let ghost base: Seq<char> = old(buf)@;
    let mut cl = ansi_clear_until_newline();
    buf.append(&mut cl);
    let ghost after_clear: Seq<char> = buf@;
    match h.shown(now) {
        Some(m) => {
            let len: usize = if m.len() < cols {
                m.len()
            } else {
                cols
            };
            let mut j: usize = 0;
            while j < len
                invariant
                    j <= len <= m@.len(),
                    buf@ == after_clear + m@.take(j as int),
                decreases len - j,
            {
                buf.push(m[j]);
                proof {
                    assert(after_clear + m@.take(j + 1) =~= (after_clear + m@.take(j as int)).push(
                        m@[j as int],
                    ));
                }
                j = j + 1;
            }
            proof {
                assert(buf@ =~= base + message_text(*h, now, cols as nat));
            }
        },
        None => {
            proof {
                assert(buf@ =~= base + message_text(*h, now, cols as nat));
            }
        },
    }
}

} // verus!
