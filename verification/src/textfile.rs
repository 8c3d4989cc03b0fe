//! The on-disk text format: lines are joined with `'\n'` on save and
//! split on `'\n'` on load, a final newline producing no extra empty
//! trailing line.
use vstd::prelude::*;

verus! {

/// The lines of a text: maximal `'\n'`-free segments, where a final
/// `'\n'` yields no trailing empty line and an empty text has no lines.
pub open spec fn split_lines(t: Seq<char>) -> Seq<Seq<char>>
    decreases t.len(),
{
    if t.len() == 0 {
        Seq::empty()
    } else if t[0] == '\n' {
        seq![Seq::<char>::empty()] + split_lines(t.drop_first())
    } else {
        let r = split_lines(t.drop_first());
        if r.len() == 0 {
            seq![seq![t[0]]]
        } else {
            seq![seq![t[0]] + r[0]] + r.drop_first()
        }
    }
}

/// The text that a sequence of lines is written as: the lines joined
/// with a single `'\n'` between neighbours.
pub open spec fn join_lines(ls: Seq<Seq<char>>) -> Seq<char>
    decreases ls.len(),
{
    if ls.len() == 0 {
        Seq::empty()
    } else if ls.len() == 1 {
        ls[0]
    } else {
        ls[0] + seq!['\n'] + join_lines(ls.drop_first())
    }
}

/// Splitting a text that starts with a `'\n'`-free line and a newline
/// peels off exactly that line.
pub proof fn lemma_split_prefix(a: Seq<char>, s: Seq<char>)
    requires
        !a.contains('\n'),
    ensures
        split_lines(a + seq!['\n'] + s) == seq![a] + split_lines(s),
    decreases a.len(),
{
    let t = a + seq!['\n'] + s;
    if a.len() == 0 {
        assert(a =~= Seq::<char>::empty());
        assert(t[0] == '\n');
        assert(t.drop_first() =~= s);
        assert(seq![Seq::<char>::empty()] + split_lines(s) =~= seq![a] + split_lines(s));
    } else {
        assert(t[0] == a[0]);
        assert(a[0] != '\n');
        assert(t.drop_first() =~= a.drop_first() + seq!['\n'] + s);
        assert(!a.drop_first().contains('\n')) by {
            assert(forall|j: int|
                0 <= j < a.drop_first().len() ==> a.drop_first()[j] == a[j + 1]);
        }
        lemma_split_prefix(a.drop_first(), s);
        let r = split_lines(t.drop_first());
        assert(r == seq![a.drop_first()] + split_lines(s));
        assert(r.len() >= 1);
        assert(r[0] == a.drop_first());
        assert(seq![t[0]] + r[0] =~= a);
        assert(r.drop_first() =~= split_lines(s));
        assert(split_lines(t) =~= seq![a] + split_lines(s));
    }
}

/// A non-empty text without newlines is a single line.
pub proof fn lemma_split_single(a: Seq<char>)
    requires
        !a.contains('\n'),
        a.len() > 0,
    ensures
        split_lines(a) == seq![a],
    decreases a.len(),
{
    assert(a[0] != '\n');
    assert(!a.drop_first().contains('\n')) by {
        assert(forall|j: int| 0 <= j < a.drop_first().len() ==> a.drop_first()[j] == a[j + 1]);
    }
    if a.len() == 1 {
        assert(a.drop_first() =~= Seq::<char>::empty());
        assert(split_lines(Seq::<char>::empty()) =~= Seq::<Seq<char>>::empty());
        assert(seq![a[0]] =~= a);
        assert(split_lines(a) =~= seq![a]);
    } else {
        lemma_split_single(a.drop_first());
        let r = split_lines(a.drop_first());
        assert(r.len() == 1);
        assert(seq![a[0]] + r[0] =~= a);
        assert(split_lines(a) =~= seq![a]);
    }
}

/// Saving and loading round-trip: splitting the joined text gives the
/// lines back, provided no line holds a `'\n'` and the last line (if
/// any) is non-empty — a trailing empty line is not re-created, since
/// the joined text does not end in `'\n'` twice.
pub proof fn lemma_round_trip(ls: Seq<Seq<char>>)
    requires
        forall|i: int| 0 <= i < ls.len() ==> !(#[trigger] ls[i]).contains('\n'),
        ls.len() == 0 || ls.last().len() > 0,
    ensures
        split_lines(join_lines(ls)) == ls,
    decreases ls.len(),
{
    if ls.len() == 0 {
        assert(split_lines(join_lines(ls)) =~= ls);
    } else if ls.len() == 1 {
        lemma_split_single(ls[0]);
        assert(split_lines(join_lines(ls)) =~= ls);
    } else {
        lemma_split_prefix(ls[0], join_lines(ls.drop_first()));
        lemma_round_trip(ls.drop_first());
        assert(ls.drop_first().last() == ls.last());
        assert(split_lines(join_lines(ls)) =~= seq![ls[0]] + ls.drop_first());
        assert(seq![ls[0]] + ls.drop_first() =~= ls);
    }
}

/// Joining one more line appends a separator (when lines came before)
/// and the line itself.
pub proof fn lemma_join_push(ls: Seq<Seq<char>>, l: Seq<char>)
    ensures
        join_lines(ls.push(l)) == (if ls.len() == 0 {
            l
        } else {
            join_lines(ls) + seq!['\n'] + l
        }),
    decreases ls.len(),
{
    if ls.len() == 0 {
        assert(ls.push(l).len() == 1);
        assert(ls.push(l)[0] == l);
    } else if ls.len() == 1 {
        assert(ls.push(l).len() == 2);
        assert(ls.push(l)[0] == ls[0]);
        assert(ls.push(l).drop_first() =~= seq![l]);
        assert(join_lines(seq![l]) == l);
        assert(join_lines(ls.push(l)) =~= join_lines(ls) + seq!['\n'] + l);
    } else {
        assert(ls.push(l)[0] == ls[0]);
        assert(ls.push(l).drop_first() =~= ls.drop_first().push(l));
        lemma_join_push(ls.drop_first(), l);
        assert(join_lines(ls.push(l)) =~= join_lines(ls) + seq!['\n'] + l);
    }
}

} // verus!
