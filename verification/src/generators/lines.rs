//! Line-oriented edits of generated Rust sources: finding lines by a test,
//! adding a `use` line, and inserting a line before the `routes!` block's
//! closing brace.

use vstd::prelude::*;
use crate::text::{
    chars_of, contains, contains_seq, has_char, has_char_exec, line_views, matches_at, seq_eq,
    slice_chars, starts_with, trim, trim_chars, trim_start,
};

verus! {

/// A test on one line of source.
pub enum LineTest {
    /// Opens a `routes!` / `doido::auth::routes!` block.
    RoutesOpen,
    /// Is a lone closing brace.
    CloseBrace,
    /// Holds the text.
    Contains(Vec<char>),
    /// Equals the text once trimmed.
    TrimEquals(Vec<char>),
    /// Starts, after leading whitespace, with `use `.
    UseStatement,
    /// Starts with the text once trimmed.
    TrimStartsWith(Vec<char>),
}

/// The value of a [`LineTest`].
pub enum LineTestView {
    RoutesOpen,
    CloseBrace,
    Contains(Seq<char>),
    TrimEquals(Seq<char>),
    UseStatement,
    TrimStartsWith(Seq<char>),
}

impl View for LineTest {
    type V = LineTestView;

    open spec fn view(&self) -> LineTestView {
        match self {
            LineTest::RoutesOpen => LineTestView::RoutesOpen,
            LineTest::CloseBrace => LineTestView::CloseBrace,
            LineTest::Contains(p) => LineTestView::Contains(p@),
            LineTest::TrimEquals(p) => LineTestView::TrimEquals(p@),
            LineTest::UseStatement => LineTestView::UseStatement,
            LineTest::TrimStartsWith(p) => LineTestView::TrimStartsWith(p@),
        }
    }
}

/// A line that opens a routes block: trimmed, it starts with `routes!` or
/// `doido::auth::routes!` and holds a `{`.
pub open spec fn routes_open(l: Seq<char>) -> bool {
    let t = trim(l);
    (starts_with(t, "routes!"@) || starts_with(t, "doido::auth::routes!"@)) && has_char(t, '{')
}

/// Whether line `l` passes test `t`.
pub open spec fn passes(t: LineTestView, l: Seq<char>) -> bool {
    match t {
        LineTestView::RoutesOpen => routes_open(l),
        LineTestView::CloseBrace => trim(l) == "}"@,
        LineTestView::Contains(p) => contains(l, p),
        LineTestView::TrimEquals(p) => trim(l) == p,
        LineTestView::UseStatement => starts_with(trim_start(l), "use "@),
        LineTestView::TrimStartsWith(p) => starts_with(trim(l), p),
    }
}

fn trim_start_exec(l: &Vec<char>) -> (r: Vec<char>)
    ensures
        r@ == trim_start(l@),
{
    let mut i: usize = 0;
    assert(l@.skip(0) =~= l@);
    while i < l.len() && crate::text::is_whitespace(l[i])
        invariant
            i <= l.len(),
            trim_start(l@) == trim_start(l@.skip(i as int)),
        decreases l.len() - i,
    {
        assert(l@.skip(i as int).drop_first() =~= l@.skip(i + 1));
        i += 1;
    }
    slice_chars(l, i, l.len())
}

/// Runs test `t` on line `l`.
pub fn test_line(t: &LineTest, l: &Vec<char>) -> (r: bool)
    ensures
        r == passes(t@, l@),
{
    match t {
        LineTest::RoutesOpen => {
            let tr = trim_chars(l);
            let a = chars_of("routes!");
            let b = chars_of("doido::auth::routes!");
            (matches_at(&tr, &a, 0) || matches_at(&tr, &b, 0)) && has_char_exec(&tr, '{')
        },
        LineTest::CloseBrace => {
            let tr = trim_chars(l);
            let c = chars_of("}");
            seq_eq(&tr, &c)
        },
        LineTest::Contains(p) => contains_seq(l, p),
        LineTest::TrimEquals(p) => {
            let tr = trim_chars(l);
            seq_eq(&tr, p)
        },
        LineTest::UseStatement => {
            let ts = trim_start_exec(l);
            let u = chars_of("use ");
            matches_at(&ts, &u, 0)
        },
        LineTest::TrimStartsWith(p) => {
            let tr = trim_chars(l);
            matches_at(&tr, p, 0)
        },
    }
}

/// Index of the first line at or after `k` that passes `t`, or -1.
pub open spec fn first_from(ls: Seq<Seq<char>>, k: int, t: LineTestView) -> int
    decreases ls.len() - k,
{
    if k < 0 || k >= ls.len() {
        -1
    } else if passes(t, ls[k]) {
        k
    } else {
        first_from(ls, k + 1, t)
    }
}

/// Index of the last line that passes `t`, or -1.
pub open spec fn last_passing(ls: Seq<Seq<char>>, t: LineTestView) -> int
    decreases ls.len(),
{
    if ls.len() == 0 {
        -1
    } else if passes(t, ls.last()) {
        ls.len() - 1
    } else {
        last_passing(ls.drop_last(), t)
    }
}

/// Index of the first line at or after `from` that passes `t`.
pub fn first_line(ls: &Vec<Vec<char>>, from: usize, t: &LineTest) -> (r: Option<usize>)
    ensures
        match r {
            Some(i) => first_from(line_views(ls@), from as int, t@) == i as int,
            None => first_from(line_views(ls@), from as int, t@) == -1,
        },
{
    let ghost views = line_views(ls@);
    let mut j = from;
    while j < ls.len()
        invariant
            from <= j,
            views == line_views(ls@),
            first_from(views, from as int, t@) == first_from(views, j as int, t@),
        decreases ls.len() - j,
    {
        assert(views[j as int] == ls@[j as int]@);
        if test_line(t, &ls[j]) {
            return Some(j);
        }
        j += 1;
    }
    None
}

/// Index of the last line that passes `t`.
pub fn last_line(ls: &Vec<Vec<char>>, t: &LineTest) -> (r: Option<usize>)
    ensures
        match r {
            Some(i) => last_passing(line_views(ls@), t@) == i as int,
            None => last_passing(line_views(ls@), t@) == -1,
        },
{
    let ghost views = line_views(ls@);
    let mut j = ls.len();
    assert(views.take(j as int) =~= views);
    while j > 0
        invariant
            j <= ls.len(),
            views == line_views(ls@),
            last_passing(views, t@) == last_passing(views.take(j as int), t@),
        decreases j,
    {
        assert(views.take(j as int).drop_last() =~= views.take(j - 1));
        assert(views.take(j as int).last() == ls@[j - 1]@);
        if test_line(t, &ls[j - 1]) {
            return Some(j - 1);
        }
        j -= 1;
    }
    None
}

/// `ls` with `import` added after the last `use crate::` line (else after the
/// last `use` line, else at the top), unless a line already is `import`.
pub open spec fn with_use(ls: Seq<Seq<char>>, import: Seq<char>) -> Seq<Seq<char>> {
    if first_from(ls, 0, LineTestView::TrimEquals(import)) >= 0 {
        ls
    } else {
        let a = last_passing(ls, LineTestView::Contains("use crate::"@));
        let b = last_passing(ls, LineTestView::UseStatement);
        let pos = if a >= 0 {
            a + 1
        } else if b >= 0 {
            b + 1
        } else {
            0
        };
        ls.insert(pos, import)
    }
}

/// `ls` with `line` inserted before the first lone `}` at or after the first
/// line that opens a routes block (unchanged when there is none).
pub open spec fn insert_before_close(ls: Seq<Seq<char>>, line: Seq<char>) -> Seq<Seq<char>> {
    let o = first_from(ls, 0, LineTestView::RoutesOpen);
    if o < 0 {
        ls
    } else {
        let c = first_from(ls, o, LineTestView::CloseBrace);
        if c < 0 {
            ls
        } else {
            ls.insert(c, line)
        }
    }
}

pub proof fn lemma_first_from_bounds(ls: Seq<Seq<char>>, k: int, t: LineTestView)
    ensures
        first_from(ls, k, t) == -1 || (k <= first_from(ls, k, t) < ls.len()),
    decreases ls.len() - k,
{
    if 0 <= k < ls.len() && !passes(t, ls[k]) {
        lemma_first_from_bounds(ls, k + 1, t);
    }
}

pub proof fn lemma_last_passing_bounds(ls: Seq<Seq<char>>, t: LineTestView)
    ensures
        -1 <= last_passing(ls, t) < ls.len(),
    decreases ls.len(),
{
    if ls.len() > 0 && !passes(t, ls.last()) {
        lemma_last_passing_bounds(ls.drop_last(), t);
    }
}

/// Inserts `line` at `pos`.
pub fn insert_line(ls: &mut Vec<Vec<char>>, pos: usize, line: &Vec<char>)
    requires
        pos <= old(ls)@.len(),
    ensures
        line_views(final(ls)@) == line_views(old(ls)@).insert(pos as int, line@),
{
    let copy = slice_chars(line, 0, line.len());
    assert(copy@ =~= line@);
    ls.insert(pos, copy);
    assert(line_views(ls@) =~= line_views(old(ls)@).insert(pos as int, line@));
}

/// Adds `import` as [`with_use`] describes.
pub fn insert_use(ls: &mut Vec<Vec<char>>, import: &Vec<char>)
    ensures
        line_views(final(ls)@) == with_use(line_views(old(ls)@), import@),
{
    let copy = slice_chars(import, 0, import.len());
    assert(copy@ =~= import@);
    let present = first_line(ls, 0, &LineTest::TrimEquals(copy));
    if present.is_some() {
        return;
    }
    proof {
        lemma_last_passing_bounds(line_views(ls@), LineTestView::Contains("use crate::"@));
        lemma_last_passing_bounds(line_views(ls@), LineTestView::UseStatement);
    }
    let n = ls.len();
    let a = last_line(ls, &LineTest::Contains(chars_of("use crate::")));
    let pos = match a {
        Some(i) => {
            assert(line_views(ls@).len() == ls@.len());
            assert(i < n);
            i + 1
        },
        None => match last_line(ls, &LineTest::UseStatement) {
            Some(i) => {
                assert(line_views(ls@).len() == ls@.len());
                assert(i < n);
                i + 1
            },
            None => 0,
        },
    };
    insert_line(ls, pos, import);
}

/// Inserts `line` as [`insert_before_close`] describes.
pub fn insert_before_block_close(ls: &mut Vec<Vec<char>>, line: &Vec<char>)
    ensures
        line_views(final(ls)@) == insert_before_close(line_views(old(ls)@), line@),
{
    if let Some(open) = first_line(ls, 0, &LineTest::RoutesOpen) {
        if let Some(close) = first_line(ls, open, &LineTest::CloseBrace) {
            proof {
                lemma_first_from_bounds(line_views(ls@), open as int, LineTestView::CloseBrace);
            }
            insert_line(ls, close, line);
        }
    }
}

} // verus!
