//! Tab expansion: the display form of a line of text, where each tab
//! advances to the next display column that is a multiple of 8, and the
//! `Line` type that keeps its display form in step with its content.
use vstd::prelude::*;

verus! {

/// How many columns a tab occupies when it starts at column `col`:
/// it advances to the next multiple of 8, at least one column.
pub open spec fn tab_pad(col: nat) -> nat {
    (8 - (col % 8)) as nat
}

/// `n` spaces.
pub open spec fn spaces(n: nat) -> Seq<char> {
    Seq::new(n, |i: int| ' ')
}

/// The display form of `s` when its first character sits at display
/// column `col`: tabs become runs of spaces up to the next multiple of
/// 8, every other character stands for itself.
pub open spec fn render_from(s: Seq<char>, col: nat) -> Seq<char>
    decreases s.len(),
{
    if s.len() == 0 {
        Seq::empty()
    } else if s[0] == '\t' {
        spaces(tab_pad(col)) + render_from(s.drop_first(), col + tab_pad(col))
    } else {
        seq![s[0]] + render_from(s.drop_first(), col + 1)
    }
}

/// The display form of a whole line.
pub open spec fn render_spec(s: Seq<char>) -> Seq<char> {
    render_from(s, 0)
}

/// The display column reached after laying out `s` starting at `col`.
pub open spec fn width_from(s: Seq<char>, col: nat) -> nat
    decreases s.len(),
{
    if s.len() == 0 {
        col
    } else if s[0] == '\t' {
        width_from(s.drop_first(), col + tab_pad(col))
    } else {
        width_from(s.drop_first(), col + 1)
    }
}

/// The display column of the character at index `cx` of `s` (or of the
/// end of the line, when `cx == s.len()`).
pub open spec fn render_col_spec(s: Seq<char>, cx: nat) -> nat {
    width_from(s.take(cx as int), 0)
}

/// Laying text out never moves the column backwards.
pub proof fn lemma_width_ge(s: Seq<char>, col: nat)
    ensures
        width_from(s, col) >= col,
    decreases s.len(),
{
    if s.len() > 0 {
        if s[0] == '\t' {
            lemma_width_ge(s.drop_first(), col + tab_pad(col));
        } else {
            lemma_width_ge(s.drop_first(), col + 1);
        }
    }
}

/// The column reached equals the start column plus the number of
/// characters laid down.
pub proof fn lemma_width_is_len(s: Seq<char>, col: nat)
    ensures
        width_from(s, col) == col + render_from(s, col).len(),
    decreases s.len(),
{
    if s.len() > 0 {
        if s[0] == '\t' {
            lemma_width_is_len(s.drop_first(), col + tab_pad(col));
        } else {
            lemma_width_is_len(s.drop_first(), col + 1);
        }
    }
}

/// Laying out a concatenation lays out the first part, then the second
/// from the column the first one reached.
pub proof fn lemma_width_concat(a: Seq<char>, b: Seq<char>, col: nat)
    ensures
        width_from(a + b, col) == width_from(b, width_from(a, col)),
    decreases a.len(),
{
    if a.len() == 0 {
        assert(a + b =~= b);
    } else {
        assert((a + b).drop_first() =~= a.drop_first() + b);
        if a[0] == '\t' {
            lemma_width_concat(a.drop_first(), b, col + tab_pad(col));
        } else {
            lemma_width_concat(a.drop_first(), b, col + 1);
        }
    }
}

/// A prefix never reaches a later column than the whole.
pub proof fn lemma_width_prefix_le(s: Seq<char>, i: int, col: nat)
    requires
        0 <= i <= s.len(),
    ensures
        width_from(s.take(i), col) <= width_from(s, col),
{
    assert(s =~= s.take(i) + s.skip(i));
    lemma_width_concat(s.take(i), s.skip(i), col);
    lemma_width_ge(s.skip(i), width_from(s.take(i), col));
}

/// Appending one character extends the laid-out column by that
/// character's width at the column reached so far.
pub proof fn lemma_width_push(s: Seq<char>, c: char, col: nat)
    ensures
        width_from(s.push(c), col) == (if c == '\t' {
            width_from(s, col) + tab_pad(width_from(s, col))
        } else {
            width_from(s, col) + 1
        }),
    decreases s.len(),
{
    assert(s.push(c).len() == s.len() + 1);
    if s.len() == 0 {
        reveal_with_fuel(width_from, 2);
        assert(s.push(c)[0] == c);
        assert(s.push(c).drop_first() =~= Seq::<char>::empty());
    } else {
        assert(s.push(c)[0] == s[0]);
        assert(s.push(c).drop_first() =~= s.drop_first().push(c));
        if s[0] == '\t' {
            lemma_width_push(s.drop_first(), c, col + tab_pad(col));
        } else {
            lemma_width_push(s.drop_first(), c, col + 1);
        }
    }
}

/// Appending one character appends its display form to the rendering.
pub proof fn lemma_render_push(s: Seq<char>, c: char, col: nat)
    ensures
        render_from(s.push(c), col) == render_from(s, col) + (if c == '\t' {
            spaces(tab_pad(width_from(s, col)))
        } else {
            seq![c]
        }),
    decreases s.len(),
{
    assert(s.push(c).len() == s.len() + 1);
    if s.len() == 0 {
        reveal_with_fuel(render_from, 2);
        reveal_with_fuel(width_from, 2);
        assert(s.push(c)[0] == c);
        assert(s.push(c).drop_first() =~= Seq::<char>::empty());
        if c == '\t' {
            assert(render_from(s.push(c), col) =~= render_from(s, col) + spaces(
                tab_pad(width_from(s, col)),
            ));
        } else {
            assert(render_from(s.push(c), col) =~= render_from(s, col) + seq![c]);
        }
    } else {
        assert(s.push(c)[0] == s[0]);
        assert(s.push(c).drop_first() =~= s.drop_first().push(c));
        let col2: nat = if s[0] == '\t' {
            col + tab_pad(col)
        } else {
            col + 1
        };
        lemma_render_push(s.drop_first(), c, col2);
        assert(width_from(s, col) == width_from(s.drop_first(), col2));
        if c == '\t' {
            assert(render_from(s.push(c), col) =~= render_from(s, col) + spaces(
                tab_pad(width_from(s, col)),
            ));
        } else {
            assert(render_from(s.push(c), col) =~= render_from(s, col) + seq![c]);
        }
    }
}

/// One logical row of text: its editable content and its display form,
/// which is kept equal to the tab expansion of the content after every
/// mutation.
pub struct Line {
    pub content: Vec<char>,
    pub rendered: Vec<char>,
}

impl Line {
    /// The display form is exactly the tab expansion of the content,
    /// and the content holds no newline (rows never span lines).
    pub open spec fn wf(self) -> bool {
        &&& self.rendered@ == render_spec(self.content@)
        &&& !self.content@.contains('\n')
    }

    /// Build a row from its content, computing the display form.
    pub fn new(content: Vec<char>) -> (r: Line)
        requires
            !content@.contains('\n'),
        ensures
            r.wf(),
            r.content@ == content@,
    {
        let rendered = render_chars(&content);
        Line { content, rendered }
    }

    pub fn len(&self) -> (r: usize)
        ensures
            r == self.content@.len(),
    {
        self.content.len()
    }

    /// Insert `ch` at character position `at`, re-rendering the row.
    pub fn insert_char(&mut self, at: usize, ch: char)
        requires
            old(self).wf(),
            at <= old(self).content@.len(),
            ch != '\n',
        ensures
            final(self).wf(),
            final(self).content@ == old(self).content@.insert(at as int, ch),
    {
        self.content.insert(at, ch);
        self.rendered = render_chars(&self.content);
        proof {
            assert(!self.content@.contains('\n')) by {
                let s = self.content@;
                assert forall|i: int| 0 <= i < s.len() implies s[i] != '\n' by {
                    if i < at {
                        assert(old(self).content@[i] != '\n');
                    } else if i > at {
                        assert(old(self).content@[i - 1] != '\n');
                    }
                }
            }
        }
    }

    /// Remove the character at position `at`, re-rendering the row.
    pub fn delete_char(&mut self, at: usize)
        requires
            old(self).wf(),
            at < old(self).content@.len(),
        ensures
            final(self).wf(),
            final(self).content@ == old(self).content@.remove(at as int),
    {
        self.content.remove(at);
        self.rendered = render_chars(&self.content);
        proof {
            assert(!self.content@.contains('\n')) by {
                let s = self.content@;
                assert forall|i: int| 0 <= i < s.len() implies s[i] != '\n' by {
                    if i < at {
                        assert(old(self).content@[i] != '\n');
                    } else {
                        assert(old(self).content@[i + 1] != '\n');
                    }
                }
            }
        }
    }
}

/// The tab expansion of `content`, computed left to right.
pub fn render_chars(content: &Vec<char>) -> (r: Vec<char>)
    ensures
        r@ == render_spec(content@),
{
    let mut out: Vec<char> = Vec::new();
    let mut i: usize = 0;
    proof {
        assert(content@.take(0) =~= Seq::<char>::empty());
    }
    while i < content.len()
        invariant
            i <= content@.len(),
            out@ == render_from(content@.take(i as int), 0),
        decreases content@.len() - i,
    {
        let c = content[i];
        proof {
            lemma_width_is_len(content@.take(i as int), 0);
            lemma_render_push(content@.take(i as int), c, 0);
            assert(content@.take(i + 1) =~= content@.take(i as int).push(c));
        }
        if c == '\t' {
            let ghost before: Seq<char> = out@;
            let pad: usize = 8 - out.len() % 8;
            let mut j: usize = 0;
            while j < pad
                invariant
                    j <= pad,
                    out@ == before + spaces(j as nat),
                decreases pad - j,
            {
                out.push(' ');
                proof {
                    assert(before + spaces((j + 1) as nat) =~= (before + spaces(j as nat)).push(' '));
                }
                j = j + 1;
            }
            proof {
                assert(out@ == render_from(content@.take(i + 1), 0));
            }
        } else {
            out.push(c);
            proof {
                assert(out@ =~= render_from(content@.take(i as int), 0) + seq![c]);
            }
        }
        i = i + 1;
    }
    proof {
        assert(content@.take(content@.len() as int) =~= content@);
    }
    out
}

/// The display column of character position `cx` in `line`.
pub fn render_col_of(line: &Line, cx: usize) -> (r: usize)
    requires
        line.wf(),
        cx <= line.content@.len(),
    ensures
        r == render_col_spec(line.content@, cx as nat),
{
    let s = &line.content;
    let rcap: usize = line.rendered.len();
    let mut rx: usize = 0;
    let mut i: usize = 0;
    proof {
        assert(s@.take(0) =~= Seq::<char>::empty());
        lemma_width_is_len(s@, 0);
    }
    while i < cx
        invariant
            i <= cx <= s@.len(),
            line.wf(),
            s == &line.content,
            rcap == line.rendered@.len(),
            width_from(s@, 0) == rcap,
            rx == width_from(s@.take(i as int), 0),
        decreases cx - i,
    {
        let c = s[i];
        proof {
            lemma_width_push(s@.take(i as int), c, 0);
            assert(s@.take(i + 1) =~= s@.take(i as int).push(c));
            lemma_width_prefix_le(s@, i + 1, 0);
        }
        if c == '\t' {
            rx = rx + (8 - rx % 8);
        } else {
            rx = rx + 1;
        }
        i = i + 1;
    }
    rx
}

} // verus!
