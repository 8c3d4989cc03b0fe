//! The line store: the ordered sequence of rows and the optional
//! associated file path, with load-from-text and save-to-text at the
//! format of `textfile`.
use vstd::prelude::*;
use crate::chars::{chars_of, string_of};
use crate::render::{render_spec, Line};
use crate::textfile::{join_lines, lemma_join_push, lemma_split_prefix, lemma_split_single, split_lines};

verus! {

/// The ordered rows of the buffer plus the optional file path the
/// buffer is associated with.
pub struct EditorRows {
    pub rows: Vec<Line>,
    pub filename: Option<String>,
}

impl EditorRows {
    /// The logical buffer: the content of each row, in order.
    pub open spec fn contents(self) -> Seq<Seq<char>> {
        self.rows@.map_values(|l: Line| l.content@)
    }

    /// Every row keeps its display form consistent and newline-free.
    pub open spec fn wf(self) -> bool {
        forall|i: int| 0 <= i < self.rows@.len() ==> (#[trigger] self.rows@[i]).wf()
    }

    /// The associated file path, if one is set.
    pub open spec fn fname(self) -> Option<Seq<char>> {
        match self.filename {
            Some(s) => Some(s@),
            None => None,
        }
    }

    /// An empty, unnamed buffer.
    pub fn new_empty() -> (r: EditorRows)
        ensures
            r.wf(),
            r.contents() == Seq::<Seq<char>>::empty(),
            r.fname() is None,
    {
        let r = EditorRows { rows: Vec::new(), filename: None };
        proof {
            assert(r.contents() =~= Seq::<Seq<char>>::empty());
        }
        r
    }

    /// Build the buffer from a file's text: one row per line of the
    /// text, each row rendered.
    pub fn from_text(text: &str, filename: Option<String>) -> (r: EditorRows)
        ensures
            r.wf(),
            r.contents() == split_lines(text@),
            r.filename == filename,
    {
        let t = chars_of(text);
        let mut out: Vec<Line> = Vec::new();
        let mut cur: Vec<char> = Vec::new();
        let mut i: usize = 0;
        proof {
            assert(cur@ + t@.skip(0) =~= t@);
            assert(out@.map_values(|l: Line| l.content@) =~= Seq::<Seq<char>>::empty());
            assert(Seq::<Seq<char>>::empty() + split_lines(t@) =~= split_lines(t@));
        }
        while i < t.len()
            invariant
                i <= t@.len(),
                !cur@.contains('\n'),
                forall|k: int| 0 <= k < out@.len() ==> (#[trigger] out@[k]).wf(),
                split_lines(t@) == out@.map_values(|l: Line| l.content@) + split_lines(
                    cur@ + t@.skip(i as int),
                ),
            decreases t@.len() - i,
        {
            let c = t[i];
            if c == '\n' {
                proof {
                    assert(cur@ + t@.skip(i as int) =~= cur@ + seq!['\n'] + t@.skip(i + 1));
                    lemma_split_prefix(cur@, t@.skip(i + 1));
                }
                let ghost cur_view: Seq<char> = cur@;
                let line = Line::new(cur);
                proof {
                    assert((out@.push(line)).map_values(|l: Line| l.content@) =~= out@.map_values(
                        |l: Line| l.content@,
                    ).push(cur_view));
                    assert(out@.map_values(|l: Line| l.content@) + (seq![cur_view] + split_lines(
                        t@.skip(i + 1),
                    )) =~= out@.map_values(|l: Line| l.content@).push(cur_view) + split_lines(
                        t@.skip(i + 1),
                    ));
                }
                out.push(line);
                cur = Vec::new();
            } else {
                proof {
                    assert(cur@ + t@.skip(i as int) =~= cur@.push(c) + t@.skip(i + 1));
                    assert(!cur@.push(c).contains('\n')) by {
                        assert(forall|j: int| 0 <= j < cur@.len() ==> cur@.push(c)[j] == cur@[j]);
                        assert(cur@.push(c)[cur@.len() as int] == c);
                    }
                }
                cur.push(c);
            }
            i = i + 1;
        }
        proof {
            assert(cur@ + t@.skip(t@.len() as int) =~= cur@);
        }
        if cur.len() > 0 {
            proof {
                lemma_split_single(cur@);
            }
            let ghost cur_view: Seq<char> = cur@;
            let line = Line::new(cur);
            proof {
                assert((out@.push(line)).map_values(|l: Line| l.content@) =~= out@.map_values(
                    |l: Line| l.content@,
                ).push(cur_view));
                assert(out@.map_values(|l: Line| l.content@) + seq![cur_view] =~= out@.map_values(
                    |l: Line| l.content@,
                ).push(cur_view));
            }
            out.push(line);
        } else {
            proof {
                assert(split_lines(cur@) =~= Seq::<Seq<char>>::empty());
                assert(out@.map_values(|l: Line| l.content@) + Seq::<Seq<char>>::empty()
                    =~= out@.map_values(|l: Line| l.content@));
            }
        }
        EditorRows { rows: out, filename }
    }

    pub fn number_of_rows(&self) -> (r: usize)
        ensures
            r == self.contents().len(),
    {
        self.rows.len()
    }

    /// The content of row `at`.
    pub fn get_row(&self, at: usize) -> (r: &Vec<char>)
        requires
            at < self.contents().len(),
        ensures
            r@ == self.contents()[at as int],
    {
        &self.rows[at].content
    }

    /// The display form of row `at`.
    pub fn get_render(&self, at: usize) -> (r: &Vec<char>)
        requires
            self.wf(),
            at < self.contents().len(),
        ensures
            r@ == render_spec(self.contents()[at as int]),
    {
        &self.rows[at].rendered
    }

    /// Row `at` itself.
    pub fn get_editor_row(&self, at: usize) -> (r: &Line)
        requires
            self.wf(),
            at < self.contents().len(),
        ensures
            r.wf(),
            r.content@ == self.contents()[at as int],
    {
        &self.rows[at]
    }

    /// Insert a new row at position `at`, rendering it; later rows
    /// shift down by one.
    pub fn insert_row(&mut self, at: usize, content: Vec<char>)
        requires
            old(self).wf(),
            at <= old(self).contents().len(),
            !content@.contains('\n'),
        ensures
            final(self).wf(),
            final(self).contents() == old(self).contents().insert(at as int, content@),
            final(self).filename == old(self).filename,
    {
        let ghost content_view: Seq<char> = content@;
        let line = Line::new(content);
        self.rows.insert(at, line);
        proof {
            assert(self.contents() =~= old(self).contents().insert(at as int, content_view));
            assert forall|i: int| 0 <= i < self.rows@.len() implies (
            #[trigger] self.rows@[i]).wf() by {
                if i < at {
                    assert(self.rows@[i] == old(self).rows@[i]);
                } else if i > at {
                    assert(self.rows@[i] == old(self).rows@[i - 1]);
                }
            }
        }
    }

    /// Insert `ch` at character position `col` of row `at`,
    /// re-rendering that row only.
    pub fn insert_char(&mut self, at: usize, col: usize, ch: char)
        requires
            old(self).wf(),
            at < old(self).contents().len(),
            col <= old(self).contents()[at as int].len(),
            ch != '\n',
        ensures
            final(self).wf(),
            final(self).contents() == old(self).contents().update(
                at as int,
                old(self).contents()[at as int].insert(col as int, ch),
            ),
            final(self).filename == old(self).filename,
    {
        let mut line = self.rows.remove(at);
        line.insert_char(col, ch);
        self.rows.insert(at, line);
        proof {
            assert(self.contents() =~= old(self).contents().update(
                at as int,
                old(self).contents()[at as int].insert(col as int, ch),
            ));
            assert forall|i: int| 0 <= i < self.rows@.len() implies (
            #[trigger] self.rows@[i]).wf() by {
                if i != at {
                    assert(self.rows@[i] == old(self).rows@[i]);
                }
            }
        }
    }

    /// Delete the character at position `col` of row `at`,
    /// re-rendering that row only.
    pub fn delete_char(&mut self, at: usize, col: usize)
        requires
            old(self).wf(),
            at < old(self).contents().len(),
            col < old(self).contents()[at as int].len(),
        ensures
            final(self).wf(),
            final(self).contents() == old(self).contents().update(
                at as int,
                old(self).contents()[at as int].remove(col as int),
            ),
            final(self).filename == old(self).filename,
    {
        let mut line = self.rows.remove(at);
        line.delete_char(col);
        self.rows.insert(at, line);
        proof {
            assert(self.contents() =~= old(self).contents().update(
                at as int,
                old(self).contents()[at as int].remove(col as int),
            ));
            assert forall|i: int| 0 <= i < self.rows@.len() implies (
            #[trigger] self.rows@[i]).wf() by {
                if i != at {
                    assert(self.rows@[i] == old(self).rows@[i]);
                }
            }
        }
    }

    /// Remove row `at` and append its content to row `at - 1`,
    /// re-rendering the joined row.
    pub fn join_adjacent_rows(&mut self, at: usize)
        requires
            old(self).wf(),
            1 <= at < old(self).contents().len(),
        ensures
            final(self).wf(),
            final(self).contents() == old(self).contents().take(at - 1) + seq![
                old(self).contents()[at - 1] + old(self).contents()[at as int],
            ] + old(self).contents().skip(at + 1),
            final(self).filename == old(self).filename,
    {
        let row = self.rows.remove(at);
        let prev = self.rows.remove(at - 1);
        let mut joined_content = prev.content;
        let mut tail = row.content;
        joined_content.append(&mut tail);
        proof {
            let a = old(self).contents()[at - 1];
            let b = old(self).contents()[at as int];
            assert(!(a + b).contains('\n')) by {
                assert(forall|j: int| 0 <= j < a.len() ==> (a + b)[j] == a[j]);
                assert(forall|j: int| a.len() <= j < a.len() + b.len() ==> (a + b)[j] == b[
                    j - a.len()
                ]);
            }
        }
        let joined = Line::new(joined_content);
        self.rows.insert(at - 1, joined);
        proof {
            assert(self.contents() =~= old(self).contents().take(at - 1) + seq![
                old(self).contents()[at - 1] + old(self).contents()[at as int],
            ] + old(self).contents().skip(at + 1));
            assert forall|i: int| 0 <= i < self.rows@.len() implies (
            #[trigger] self.rows@[i]).wf() by {
                if i < at - 1 {
                    assert(self.rows@[i] == old(self).rows@[i]);
                } else if i >= at {
                    assert(self.rows@[i] == old(self).rows@[i + 1]);
                }
            }
        }
    }

    /// Split row `at` in two at character position `col`: the row
    /// keeps the text before `col` and a new row below it takes the
    /// rest; both are re-rendered.
    pub fn split_row(&mut self, at: usize, col: usize)
        requires
            old(self).wf(),
            at < old(self).contents().len(),
            col <= old(self).contents()[at as int].len(),
        ensures
            final(self).wf(),
            final(self).contents() == old(self).contents().update(
                at as int,
                old(self).contents()[at as int].take(col as int),
            ).insert(at + 1, old(self).contents()[at as int].skip(col as int)),
            final(self).filename == old(self).filename,
    {
        let n = self.rows.len();
        assert(at < n);
        let mut line = self.rows.remove(at);
        let ghost orig: Seq<char> = line.content@;
        let tail: Vec<char> = line.content.split_off(col);
        proof {
            let head_view = orig.subrange(0, col as int);
            let tail_view = orig.subrange(col as int, orig.len() as int);
            assert(!head_view.contains('\n')) by {
                assert(forall|j: int| 0 <= j < head_view.len() ==> head_view[j] == orig[j]);
            }
            assert(!tail_view.contains('\n')) by {
                assert(forall|j: int|
                    0 <= j < tail_view.len() ==> tail_view[j] == orig[j + col]);
            }
        }
        let head_line = Line::new(line.content);
        let tail_line = Line::new(tail);
        self.rows.insert(at, head_line);
        self.rows.insert(at + 1, tail_line);
        proof {
            assert(orig.subrange(0, col as int) =~= orig.take(col as int));
            assert(orig.subrange(col as int, orig.len() as int) =~= orig.skip(col as int));
            assert(self.contents() =~= old(self).contents().update(
                at as int,
                old(self).contents()[at as int].take(col as int),
            ).insert(at + 1, old(self).contents()[at as int].skip(col as int)));
            assert forall|i: int| 0 <= i < self.rows@.len() implies (
            #[trigger] self.rows@[i]).wf() by {
                if i < at {
                    assert(self.rows@[i] == old(self).rows@[i]);
                } else if i > at + 1 {
                    assert(self.rows@[i] == old(self).rows@[i - 1]);
                }
            }
        }
    }

    /// The exact text a save writes: the rows joined with `'\n'`.
    pub fn save_text(&self) -> (r: String)
        requires
            self.wf(),
        ensures
            r@ == join_lines(self.contents()),
    {
        let mut out: Vec<char> = Vec::new();
        let mut i: usize = 0;
        proof {
            assert(self.contents().take(0) =~= Seq::<Seq<char>>::empty());
        }
        while i < self.rows.len()
            invariant
                self.wf(),
                i <= self.rows@.len(),
                out@ == join_lines(self.contents().take(i as int)),
            decreases self.rows@.len() - i,
        {
            proof {
                lemma_join_push(self.contents().take(i as int), self.contents()[i as int]);
                assert(self.contents().take(i + 1) =~= self.contents().take(i as int).push(
                    self.contents()[i as int],
                ));
            }
            if i > 0 {
                out.push('\n');
            }
            let ghost base: Seq<char> = out@;
            let line = &self.rows[i].content;
            let mut j: usize = 0;
            while j < line.len()
                invariant
                    j <= line@.len(),
                    out@ == base + line@.take(j as int),
                decreases line@.len() - j,
            {
                out.push(line[j]);
                proof {
                    assert(base + line@.take(j + 1) =~= (base + line@.take(j as int)).push(
                        line@[j as int],
                    ));
                }
                j = j + 1;
            }
            proof {
                assert(line@.take(line@.len() as int) =~= line@);
                assert(out@ =~= join_lines(self.contents().take(i + 1)));
            }
            i = i + 1;
        }
        proof {
            assert(self.contents().take(self.rows@.len() as int) =~= self.contents());
        }
        string_of(&out)
    }
}

} // verus!
