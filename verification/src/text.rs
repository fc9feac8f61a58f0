//! Character-level text operations used throughout the crate.
//!
//! Every operation works on the `char` view of a string (`Seq<char>`), and each
//! executable function is proved against the spec function that names it.

use vstd::prelude::*;

verus! {

broadcast use vstd::string::group_string_axioms;

/// `String::push` appends one character.
pub assume_specification[ std::string::String::push ](s: &mut std::string::String, ch: char)
    ensures
        final(s)@ == old(s)@.push(ch),
;

// ---------------------------------------------------------------------------
// Specifications
// ---------------------------------------------------------------------------

/// Unicode `White_Space`, the set that `char::is_whitespace` and `str::trim` use.
pub open spec fn is_ws(c: char) -> bool {
    let n = c as u32;
    ||| 9 <= n <= 13
    ||| n == 32
    ||| n == 0x85
    ||| n == 0xA0
    ||| n == 0x1680
    ||| 0x2000 <= n <= 0x200A
    ||| n == 0x2028
    ||| n == 0x2029
    ||| n == 0x202F
    ||| n == 0x205F
    ||| n == 0x3000
}

/// `s` without its leading whitespace.
pub open spec fn trim_start(s: Seq<char>) -> Seq<char>
    decreases s.len(),
{
    if s.len() > 0 && is_ws(s[0]) {
        trim_start(s.drop_first())
    } else {
        s
    }
}

/// `s` without its trailing whitespace.
pub open spec fn trim_end(s: Seq<char>) -> Seq<char>
    decreases s.len(),
{
    if s.len() > 0 && is_ws(s.last()) {
        trim_end(s.drop_last())
    } else {
        s
    }
}

/// `s` without leading and trailing whitespace (`str::trim`).
pub open spec fn trim(s: Seq<char>) -> Seq<char> {
    trim_end(trim_start(s))
}

/// `s` without any trailing copies of `c` (`str::trim_end_matches(c)`).
pub open spec fn trim_end_char(s: Seq<char>, c: char) -> Seq<char>
    decreases s.len(),
{
    if s.len() > 0 && s.last() == c {
        trim_end_char(s.drop_last(), c)
    } else {
        s
    }
}

/// `s` without any leading copies of `c` (`str::trim_start_matches(c)`).
pub open spec fn trim_start_char(s: Seq<char>, c: char) -> Seq<char>
    decreases s.len(),
{
    if s.len() > 0 && s[0] == c {
        trim_start_char(s.drop_first(), c)
    } else {
        s
    }
}

/// `p` occurs in `s` starting at index `i`.
pub open spec fn occurs_at(s: Seq<char>, p: Seq<char>, i: int) -> bool {
    0 <= i && i + p.len() <= s.len() && s.subrange(i, i + p.len()) == p
}

/// `p` occurs somewhere in `s` (`str::contains`).
pub open spec fn contains(s: Seq<char>, p: Seq<char>) -> bool {
    exists|i: int| occurs_at(s, p, i)
}

/// `s` begins with `p` (`str::starts_with`).
pub open spec fn starts_with(s: Seq<char>, p: Seq<char>) -> bool {
    occurs_at(s, p, 0)
}

/// The character `c` occurs in `s`.
pub open spec fn has_char(s: Seq<char>, c: char) -> bool {
    exists|i: int| 0 <= i < s.len() && s[i] == c
}

/// Every non-overlapping occurrence of `from`, scanning left to right, replaced
/// by `to` (`str::replace`).
pub open spec fn replace_all(s: Seq<char>, from: Seq<char>, to: Seq<char>) -> Seq<char>
    decreases s.len(),
{
    if from.len() == 0 || s.len() < from.len() {
        s
    } else if s.take(from.len() as int) == from {
        to + replace_all(s.skip(from.len() as int), from, to)
    } else {
        seq![s[0]] + replace_all(s.drop_first(), from, to)
    }
}

/// The first occurrence of `from` replaced by `to` (`str::replacen(from, to, 1)`).
pub open spec fn replace_first(s: Seq<char>, from: Seq<char>, to: Seq<char>) -> Seq<char>
    decreases s.len(),
{
    if from.len() == 0 || s.len() < from.len() {
        s
    } else if s.take(from.len() as int) == from {
        to + s.skip(from.len() as int)
    } else {
        seq![s[0]] + replace_first(s.drop_first(), from, to)
    }
}

/// Index of the first `c` in `s`, or -1.
pub open spec fn index_of(s: Seq<char>, c: char) -> int
    decreases s.len(),
{
    if s.len() == 0 {
        -1
    } else if s[0] == c {
        0
    } else {
        let r = index_of(s.drop_first(), c);
        if r < 0 {
            -1
        } else {
            r + 1
        }
    }
}

/// `l` without one trailing carriage return.
pub open spec fn strip_cr(l: Seq<char>) -> Seq<char> {
    if l.len() > 0 && l.last() == '\r' {
        l.drop_last()
    } else {
        l
    }
}

/// The lines of `s` as `str::lines` yields them: split at `\n`, one `\r` before
/// each `\n` dropped, and no empty final line after a trailing `\n`.
pub open spec fn lines(s: Seq<char>) -> Seq<Seq<char>>
    decreases s.len(),
{
    if s.len() == 0 {
        seq![]
    } else {
        let k = index_of(s, '\n');
        if k < 0 {
            seq![s]
        } else {
            proof {
                lemma_index_of_bounds(s, '\n');
            }
            seq![strip_cr(s.take(k))] + lines(s.skip(k + 1))
        }
    }
}

/// The characters of each line.
pub open spec fn line_views(v: Seq<Vec<char>>) -> Seq<Seq<char>> {
    v.map_values(|l: Vec<char>| l@)
}

/// Each line followed by a newline.
pub open spec fn concat_lines(ls: Seq<Seq<char>>) -> Seq<char>
    decreases ls.len(),
{
    if ls.len() == 0 {
        seq![]
    } else {
        concat_lines(ls.drop_last()) + ls.last() + seq!['\n']
    }
}

/// The pieces of `ls` one after another.
pub open spec fn concat_all(ls: Seq<Seq<char>>) -> Seq<char>
    decreases ls.len(),
{
    if ls.len() == 0 {
        seq![]
    } else {
        concat_all(ls.drop_last()) + ls.last()
    }
}

/// `ls.join("\n")` followed by one newline.
pub open spec fn unlines(ls: Seq<Seq<char>>) -> Seq<char> {
    if ls.len() == 0 {
        seq!['\n']
    } else {
        concat_lines(ls)
    }
}

/// The items of `ls` separated by `sep` (`[..].join(sep)`).
pub open spec fn join(ls: Seq<Seq<char>>, sep: Seq<char>) -> Seq<char>
    decreases ls.len(),
{
    if ls.len() == 0 {
        seq![]
    } else if ls.len() == 1 {
        ls[0]
    } else {
        join(ls.drop_last(), sep) + sep + ls.last()
    }
}

/// The decimal digit character for `d < 10`.
pub open spec fn digit(d: nat) -> char {
    ((48 + d) as u8) as char
}

/// The decimal representation of `n`, without leading zeros.
pub open spec fn decimal(n: nat) -> Seq<char>
    decreases n,
{
    if n < 10 {
        seq![digit(n)]
    } else {
        decimal(n / 10) + seq![digit(n % 10)]
    }
}

// ---------------------------------------------------------------------------
// Lemmas
// ---------------------------------------------------------------------------

pub proof fn lemma_index_of_bounds(s: Seq<char>, c: char)
    ensures
        -1 <= index_of(s, c) < s.len(),
        index_of(s, c) >= 0 ==> s[index_of(s, c)] == c,
        forall|t: int| 0 <= t < index_of(s, c) ==> s[t] != c,
        index_of(s, c) < 0 ==> forall|t: int| 0 <= t < s.len() ==> s[t] != c,
    decreases s.len(),
{
    if s.len() > 0 && s[0] != c {
        lemma_index_of_bounds(s.drop_first(), c);
        assert forall|t: int| 0 < t < s.len() implies s[t] == s.drop_first()[t - 1] by {}
    }
}

pub proof fn lemma_index_of_is(s: Seq<char>, c: char, m: int)
    requires
        0 <= m <= s.len(),
        forall|t: int| 0 <= t < m ==> s[t] != c,
        m < s.len() ==> s[m] == c,
    ensures
        index_of(s, c) == if m < s.len() { m } else { -1 },
    decreases m,
{
    if m > 0 {
        lemma_index_of_is(s.drop_first(), c, m - 1);
    }
}

/// Splitting at a newline: the lines of `x + "\n" + t` are those of
/// `x + "\n"` followed by those of `t`.
pub proof fn lemma_lines_split(x: Seq<char>, t: Seq<char>)
    ensures
        lines(x + seq!['\n'] + t) == lines(x + seq!['\n']) + lines(t),
    decreases x.len(),
{
    let s = x + seq!['\n'] + t;
    let u = x + seq!['\n'];
    lemma_index_of_bounds(x, '\n');
    let k0 = index_of(x, '\n');
    if k0 < 0 {
        lemma_index_of_is(s, '\n', x.len() as int);
        lemma_index_of_is(u, '\n', x.len() as int);
        assert(s.take(x.len() as int) =~= x);
        assert(u.take(x.len() as int) =~= x);
        assert(s.skip(x.len() as int + 1) =~= t);
        assert(u.skip(x.len() as int + 1) =~= Seq::<char>::empty());
        assert(lines(u.skip(x.len() as int + 1)) =~= Seq::<Seq<char>>::empty());
    } else {
        lemma_index_of_is(s, '\n', k0);
        lemma_index_of_is(u, '\n', k0);
        let rest = x.skip(k0 + 1);
        lemma_lines_split(rest, t);
        assert(s.take(k0) =~= x.take(k0));
        assert(u.take(k0) =~= x.take(k0));
        assert(s.skip(k0 + 1) =~= rest + seq!['\n'] + t);
        assert(u.skip(k0 + 1) =~= rest + seq!['\n']);
        assert(lines(s) =~= seq![strip_cr(x.take(k0))] + (lines(rest + seq!['\n']) + lines(t)));
        assert(lines(u) =~= seq![strip_cr(x.take(k0))] + lines(rest + seq!['\n']));
    }
}

/// A line without a newline, followed by one, is a single line.
pub proof fn lemma_lines_one(l: Seq<char>)
    requires
        !has_char(l, '\n'),
    ensures
        lines(l + seq!['\n']) == seq![strip_cr(l)],
{
    let u = l + seq!['\n'];
    lemma_index_of_is(u, '\n', l.len() as int);
    assert(u.take(l.len() as int) =~= l);
    assert(u.skip(l.len() as int + 1) =~= Seq::<char>::empty());
    assert(lines(u.skip(l.len() as int + 1)) =~= Seq::<Seq<char>>::empty());
}

/// The lines of the text made of lines without newlines are those lines,
/// each without one trailing carriage return.
pub proof fn lemma_lines_of_concat(ls: Seq<Seq<char>>)
    requires
        forall|i: int| 0 <= i < ls.len() ==> !has_char(#[trigger] ls[i], '\n'),
    ensures
        lines(concat_lines(ls)) == ls.map_values(|l: Seq<char>| strip_cr(l)),
    decreases ls.len(),
{
    if ls.len() == 0 {
        assert(lines(concat_lines(ls)) =~= Seq::<Seq<char>>::empty());
        assert(ls.map_values(|l: Seq<char>| strip_cr(l)) =~= Seq::<Seq<char>>::empty());
    } else {
        let d = ls.drop_last();
        let last = ls.last();
        assert(forall|i: int| 0 <= i < d.len() ==> d[i] == ls[i]);
        lemma_lines_of_concat(d);
        lemma_lines_one(last);
        let p = concat_lines(d);
        if d.len() == 0 {
            assert(concat_lines(ls) =~= last + seq!['\n']);
        } else {
            let pp = concat_lines(d.drop_last()) + d.last();
            assert(p =~= pp + seq!['\n']);
            lemma_lines_split(pp, last + seq!['\n']);
            assert(concat_lines(ls) =~= pp + seq!['\n'] + (last + seq!['\n']));
        }
        assert(ls.map_values(|l: Seq<char>| strip_cr(l)) =~= d.map_values(|l: Seq<char>| strip_cr(l)).push(
            strip_cr(last),
        ));
    }
}

/// No line of `s` holds a newline.
pub proof fn lemma_lines_no_newline(s: Seq<char>)
    ensures
        forall|i: int| 0 <= i < lines(s).len() ==> !has_char(#[trigger] lines(s)[i], '\n'),
    decreases s.len(),
{
    if s.len() > 0 {
        lemma_index_of_bounds(s, '\n');
        let k = index_of(s, '\n');
        if k >= 0 {
            lemma_lines_no_newline(s.skip(k + 1));
            let first = strip_cr(s.take(k));
            assert(!has_char(first, '\n'));
            assert forall|i: int| 0 <= i < lines(s).len() implies !has_char(#[trigger] lines(s)[i], '\n') by {
                if i > 0 {
                    assert(lines(s)[i] == lines(s.skip(k + 1))[i - 1]);
                }
            }
        }
    }
}

/// Each line of `s` is a stretch of `s`.
pub proof fn lemma_line_within(s: Seq<char>, i: int) -> (a: int)
    requires
        0 <= i < lines(s).len(),
    ensures
        0 <= a,
        a + lines(s)[i].len() <= s.len(),
        lines(s)[i] == s.subrange(a, a + lines(s)[i].len()),
    decreases s.len(),
{
    lemma_index_of_bounds(s, '\n');
    let k = index_of(s, '\n');
    if k < 0 {
        assert(s.subrange(0, s.len() as int) =~= s);
        0
    } else if i == 0 {
        let l = strip_cr(s.take(k));
        assert(l =~= s.subrange(0, l.len() as int));
        0
    } else {
        let rest = s.skip(k + 1);
        assert(lines(s)[i] == lines(rest)[i - 1]);
        let b = lemma_line_within(rest, i - 1);
        let l = lines(rest)[i - 1];
        assert(l =~= s.subrange(k + 1 + b, k + 1 + b + l.len()));
        k + 1 + b
    }
}

/// What a stretch of `s` contains, `s` contains.
pub proof fn lemma_contains_within(s: Seq<char>, a: int, b: int, p: Seq<char>)
    requires
        0 <= a <= b <= s.len(),
        contains(s.subrange(a, b), p),
    ensures
        contains(s, p),
{
    let t = s.subrange(a, b);
    let j = choose|j: int| occurs_at(t, p, j);
    assert(s.subrange(a + j, a + j + p.len()) =~= t.subrange(j, j + p.len()));
    assert(occurs_at(s, p, a + j));
}

/// What a line of `s` contains, `s` contains.
pub proof fn lemma_line_contains(s: Seq<char>, i: int, p: Seq<char>)
    requires
        0 <= i < lines(s).len(),
        contains(lines(s)[i], p),
    ensures
        contains(s, p),
{
    let a = lemma_line_within(s, i);
    lemma_contains_within(s, a, a + lines(s)[i].len(), p);
}

/// An occurrence in `s` of a pattern that holds no newline and does not end
/// in a carriage return lies within one of the lines of `s`.
pub proof fn lemma_line_containing(s: Seq<char>, p: Seq<char>) -> (i: int)
    requires
        contains(s, p),
        p.len() > 0,
        !has_char(p, '\n'),
        p.last() != '\r',
    ensures
        0 <= i < lines(s).len(),
        contains(lines(s)[i], p),
    decreases s.len(),
{
    let j = choose|j: int| occurs_at(s, p, j);
    lemma_index_of_bounds(s, '\n');
    let k = index_of(s, '\n');
    if k < 0 {
        0
    } else if j + p.len() <= k {
        let l = strip_cr(s.take(k));
        if j + p.len() == k {
            assert(p.last() == s.subrange(j, j + p.len())[p.len() - 1]);
        }
        assert(l.subrange(j, j + p.len()) =~= s.subrange(j, j + p.len()));
        assert(occurs_at(l, p, j));
        0
    } else if j > k {
        let rest = s.skip(k + 1);
        assert(rest.subrange(j - k - 1, j - k - 1 + p.len()) =~= s.subrange(j, j + p.len()));
        assert(occurs_at(rest, p, j - k - 1));
        let r = lemma_line_containing(rest, p);
        assert(lines(s)[r + 1] == lines(rest)[r]);
        r + 1
    } else {
        assert(p[k - j] == s.subrange(j, j + p.len())[k - j]);
        0
    }
}

/// An occurrence, in the text the lines `ls` make, of a pattern that holds no
/// newline lies within one of the lines.
pub proof fn lemma_concat_line_containing(ls: Seq<Seq<char>>, p: Seq<char>) -> (i: int)
    requires
        contains(concat_lines(ls), p),
        p.len() > 0,
        !has_char(p, '\n'),
    ensures
        0 <= i < ls.len(),
        contains(ls[i], p),
    decreases ls.len(),
{
    let whole = concat_lines(ls);
    let j = choose|j: int| occurs_at(whole, p, j);
    if ls.len() == 0 {
        0
    } else {
        let d = ls.drop_last();
        let front = concat_lines(d);
        let last = ls.last();
        assert(whole == front + last + seq!['\n']);
        if j + p.len() <= front.len() {
            assert(front.subrange(j, j + p.len()) =~= whole.subrange(j, j + p.len()));
            assert(occurs_at(front, p, j));
            let r = lemma_concat_line_containing(d, p);
            assert(d[r] == ls[r]);
            r
        } else if j >= front.len() {
            let m = front.len() + last.len();
            if j + p.len() > m {
                assert(p[m - j] == whole.subrange(j, j + p.len())[m - j]);
            }
            assert(last.subrange(j - front.len(), j - front.len() + p.len()) =~= whole.subrange(
                j,
                j + p.len(),
            ));
            assert(occurs_at(last, p, j - front.len()));
            ls.len() - 1
        } else {
            assert(front == concat_lines(d.drop_last()) + d.last() + seq!['\n']);
            assert(p[front.len() - 1 - j] == whole.subrange(j, j + p.len())[front.len() - 1 - j]);
            0
        }
    }
}

/// Lines without newlines and without a trailing carriage return come back
/// out of the text they make.
pub proof fn lemma_lines_unlines(ls: Seq<Seq<char>>)
    requires
        ls.len() > 0,
        forall|i: int| 0 <= i < ls.len() ==> !has_char(#[trigger] ls[i], '\n'),
        forall|i: int| 0 <= i < ls.len() ==> strip_cr(#[trigger] ls[i]) == ls[i],
    ensures
        lines(unlines(ls)) == ls,
{
    lemma_lines_of_concat(ls);
    assert(ls.map_values(|l: Seq<char>| strip_cr(l)) =~= ls);
}

/// `trim_start(s)` drops the leading whitespace of `s`.
pub proof fn lemma_trim_start_within(s: Seq<char>) -> (a: int)
    ensures
        0 <= a <= s.len(),
        trim_start(s) == s.skip(a),
        forall|t: int| 0 <= t < a ==> is_ws(#[trigger] s[t]),
        a < s.len() ==> !is_ws(s[a]),
    decreases s.len(),
{
    if s.len() > 0 && is_ws(s[0]) {
        let b = lemma_trim_start_within(s.drop_first());
        assert(s.drop_first().skip(b) =~= s.skip(b + 1));
        assert forall|t: int| 0 <= t < b + 1 implies is_ws(#[trigger] s[t]) by {
            if t > 0 {
                assert(s[t] == s.drop_first()[t - 1]);
            }
        }
        if b + 1 < s.len() {
            assert(s[b + 1] == s.drop_first()[b]);
        }
        b + 1
    } else {
        assert(s.skip(0) =~= s);
        0
    }
}

/// `trim_end(s)` keeps a prefix of `s`.
pub proof fn lemma_trim_end_within(s: Seq<char>) -> (b: int)
    ensures
        0 <= b <= s.len(),
        trim_end(s) == s.take(b),
    decreases s.len(),
{
    if s.len() > 0 && is_ws(s.last()) {
        let c = lemma_trim_end_within(s.drop_last());
        assert(s.drop_last().take(c) =~= s.take(c));
        c
    } else {
        assert(s.take(s.len() as int) =~= s);
        s.len() as int
    }
}

/// A line whose trimmed form starts with `p` contains `p`.
pub proof fn lemma_trim_starts_contains(l: Seq<char>, p: Seq<char>)
    requires
        starts_with(trim(l), p),
    ensures
        contains(l, p),
{
    let a = lemma_trim_start_within(l);
    let b = lemma_trim_end_within(trim_start(l));
    let t = trim(l);
    assert(t =~= l.subrange(a, a + b));
    assert(l.subrange(a, a + p.len()) =~= t.subrange(0, p.len() as int));
    assert(occurs_at(l, p, a));
}

// ---------------------------------------------------------------------------
// Executable operations
// ---------------------------------------------------------------------------

/// The characters of `s`, in order.
pub fn chars_of(s: &str) -> (out: Vec<char>)
    ensures
        out@ == s@,
{
    let mut out: Vec<char> = Vec::new();
    for c in it: s.chars()
        invariant
            out@ == it.seq().take(it.index() as int),
            it.seq() == s@,
    {
        out.push(c);
    }
    out
}

/// A `String` holding exactly the characters of `v`.
pub fn string_of(v: &Vec<char>) -> (out: String)
    ensures
        out@ == v@,
{
    let mut out = String::new();
    let mut i: usize = 0;
    while i < v.len()
        invariant
            i <= v.len(),
            out@ == v@.take(i as int),
        decreases v.len() - i,
    {
        out.push(v[i]);
        i += 1;
        assert(v@.take(i as int) =~= v@.take((i - 1) as int).push(v@[i - 1]));
    }
    assert(v@.take(v.len() as int) =~= v@);
    out
}

/// Appends every character of `s` to `out`.
pub fn push_all(out: &mut Vec<char>, s: &Vec<char>)
    ensures
        final(out)@ == old(out)@ + s@,
{
    let ghost start = out@;
    let mut i: usize = 0;
    while i < s.len()
        invariant
            i <= s.len(),
            out@ == start + s@.take(i as int),
        decreases s.len() - i,
    {
        out.push(s[i]);
        i += 1;
        assert(s@.take(i as int) =~= s@.take((i - 1) as int).push(s@[i - 1]));
    }
    assert(s@.take(s.len() as int) =~= s@);
}

/// Appends every character of the literal or slice `s` to `out`.
pub fn push_str(out: &mut Vec<char>, s: &str)
    ensures
        final(out)@ == old(out)@ + s@,
{
    let cs = chars_of(s);
    push_all(out, &cs);
}

/// Whether `a` and `b` hold the same characters.
pub fn seq_eq(a: &Vec<char>, b: &Vec<char>) -> (r: bool)
    ensures
        r == (a@ == b@),
{
    if a.len() != b.len() {
        return false;
    }
    let mut i: usize = 0;
    while i < a.len()
        invariant
            i <= a.len(),
            a.len() == b.len(),
            forall|t: int| 0 <= t < i ==> a@[t] == b@[t],
        decreases a.len() - i,
    {
        if a[i] != b[i] {
            return false;
        }
        i += 1;
    }
    assert(a@ =~= b@);
    true
}

/// Whether two string slices hold the same characters.
pub fn str_eq(a: &str, b: &str) -> (r: bool)
    ensures
        r == (a@ == b@),
{
    let va = chars_of(a);
    let vb = chars_of(b);
    seq_eq(&va, &vb)
}

/// `char::is_whitespace`.
pub fn is_whitespace(c: char) -> (r: bool)
    ensures
        r == is_ws(c),
{
    let n = c as u32;
    (9 <= n && n <= 13) || n == 32 || n == 0x85 || n == 0xA0 || n == 0x1680 || (0x2000 <= n
        && n <= 0x200A) || n == 0x2028 || n == 0x2029 || n == 0x202F || n == 0x205F || n
        == 0x3000
}

/// Whether `p` occurs in `s` at index `i`.
pub fn matches_at(s: &Vec<char>, p: &Vec<char>, i: usize) -> (r: bool)
    ensures
        r == occurs_at(s@, p@, i as int),
{
    if i > s.len() || p.len() > s.len() - i {
        return false;
    }
    let mut j: usize = 0;
    while j < p.len()
        invariant
            j <= p.len(),
            i + p.len() <= s.len(),
            forall|t: int| 0 <= t < j ==> s@[i + t] == p@[t],
        decreases p.len() - j,
    {
        if s[i + j] != p[j] {
            assert(s@.subrange(i as int, i + p.len())[j as int] != p@[j as int]);
            return false;
        }
        j += 1;
    }
    assert(s@.subrange(i as int, i + p.len()) =~= p@);
    true
}

/// `str::contains` on character vectors.
pub fn contains_seq(s: &Vec<char>, p: &Vec<char>) -> (r: bool)
    ensures
        r == contains(s@, p@),
{
    if p.len() > s.len() {
        return false;
    }
    let last = s.len() - p.len();
    let mut i: usize = 0;
    loop
        invariant
            last + p.len() == s.len(),
            i <= last,
            forall|t: int| 0 <= t < i ==> !occurs_at(s@, p@, t),
        decreases last - i,
    {
        if matches_at(s, p, i) {
            return true;
        }
        if i == last {
            assert forall|t: int| !occurs_at(s@, p@, t) by {
                if 0 <= t && t + p.len() <= s.len() {
                    assert(t <= i);
                }
            }
            return false;
        }
        i += 1;
    }
}

/// `str::contains` with a literal pattern.
pub fn contains_str(s: &Vec<char>, p: &str) -> (r: bool)
    ensures
        r == contains(s@, p@),
{
    let pv = chars_of(p);
    contains_seq(s, &pv)
}

/// `str::starts_with` with a literal pattern.
pub fn starts_with_str(s: &Vec<char>, p: &str) -> (r: bool)
    ensures
        r == starts_with(s@, p@),
{
    let pv = chars_of(p);
    matches_at(s, &pv, 0)
}

/// Whether `c` occurs in `s`.
pub fn has_char_exec(s: &Vec<char>, c: char) -> (r: bool)
    ensures
        r == has_char(s@, c),
{
    let mut i: usize = 0;
    while i < s.len()
        invariant
            i <= s.len(),
            forall|t: int| 0 <= t < i ==> s@[t] != c,
        decreases s.len() - i,
    {
        if s[i] == c {
            return true;
        }
        i += 1;
    }
    false
}

/// The characters `s[from..to]`.
pub fn slice_chars(s: &Vec<char>, from: usize, to: usize) -> (out: Vec<char>)
    requires
        from <= to <= s.len(),
    ensures
        out@ == s@.subrange(from as int, to as int),
{
    let mut out: Vec<char> = Vec::new();
    let mut i = from;
    while i < to
        invariant
            from <= i <= to,
            to <= s.len(),
            out@ == s@.subrange(from as int, i as int),
        decreases to - i,
    {
        out.push(s[i]);
        i += 1;
        assert(s@.subrange(from as int, i as int) =~= s@.subrange(from as int, i - 1).push(
            s@[i - 1],
        ));
    }
    out
}

proof fn lemma_trim_start_skip(s: Seq<char>, i: int)
    requires
        0 <= i < s.len(),
        is_ws(s[i]),
    ensures
        trim_start(s.skip(i)) == trim_start(s.skip(i + 1)),
{
    assert(s.skip(i).drop_first() =~= s.skip(i + 1));
}

proof fn lemma_trim_end_take(s: Seq<char>, j: int)
    requires
        0 < j <= s.len(),
        is_ws(s[j - 1]),
    ensures
        trim_end(s.take(j)) == trim_end(s.take(j - 1)),
{
    assert(s.take(j).drop_last() =~= s.take(j - 1));
}

/// Index of the first non-whitespace character (or the length).
fn trim_start_index(s: &Vec<char>) -> (i: usize)
    ensures
        i <= s.len(),
        trim_start(s@) == s@.skip(i as int),
{
    let mut i: usize = 0;
    assert(s@.skip(0) =~= s@);
    while i < s.len() && is_whitespace(s[i])
        invariant
            i <= s.len(),
            trim_start(s@) == trim_start(s@.skip(i as int)),
        decreases s.len() - i,
    {
        proof {
            lemma_trim_start_skip(s@, i as int);
        }
        i += 1;
    }
    i
}

/// `str::trim`.
pub fn trim_chars(s: &Vec<char>) -> (out: Vec<char>)
    ensures
        out@ == trim(s@),
{
    let i = trim_start_index(s);
    let rest = slice_chars(s, i, s.len());
    let mut j: usize = rest.len();
    assert(rest@.take(j as int) =~= rest@);
    while j > 0 && is_whitespace(rest[j - 1])
        invariant
            j <= rest.len(),
            trim_end(rest@) == trim_end(rest@.take(j as int)),
        decreases j,
    {
        proof {
            lemma_trim_end_take(rest@, j as int);
        }
        j -= 1;
    }
    assert(rest@ =~= s@.skip(i as int));
    slice_chars(&rest, 0, j)
}

/// `str::trim` on a string slice.
pub fn trim_str(s: &str) -> (out: Vec<char>)
    ensures
        out@ == trim(s@),
{
    let v = chars_of(s);
    trim_chars(&v)
}

/// `str::trim_end_matches(c)`.
pub fn trim_end_char_exec(s: &Vec<char>, c: char) -> (out: Vec<char>)
    ensures
        out@ == trim_end_char(s@, c),
{
    let mut j: usize = s.len();
    assert(s@.take(j as int) =~= s@);
    while j > 0 && s[j - 1] == c
        invariant
            j <= s.len(),
            trim_end_char(s@, c) == trim_end_char(s@.take(j as int), c),
        decreases j,
    {
        assert(s@.take(j as int).drop_last() =~= s@.take(j - 1));
        j -= 1;
    }
    slice_chars(s, 0, j)
}

/// `str::trim_start_matches(c)`.
pub fn trim_start_char_exec(s: &Vec<char>, c: char) -> (out: Vec<char>)
    ensures
        out@ == trim_start_char(s@, c),
{
    let mut i: usize = 0;
    assert(s@.skip(0) =~= s@);
    while i < s.len() && s[i] == c
        invariant
            i <= s.len(),
            trim_start_char(s@, c) == trim_start_char(s@.skip(i as int), c),
        decreases s.len() - i,
    {
        assert(s@.skip(i as int).drop_first() =~= s@.skip(i + 1));
        i += 1;
    }
    slice_chars(s, i, s.len())
}

/// `str::replace(from, to)`.
pub fn replace_all_exec(s: &Vec<char>, from: &Vec<char>, to: &Vec<char>) -> (out: Vec<char>)
    requires
        from.len() > 0,
    ensures
        out@ == replace_all(s@, from@, to@),
{
    let mut out: Vec<char> = Vec::new();
    let mut i: usize = 0;
    assert(s@.skip(0) =~= s@);
    while i < s.len()
        invariant
            i <= s.len(),
            from.len() > 0,
            replace_all(s@, from@, to@) == out@ + replace_all(s@.skip(i as int), from@, to@),
        decreases s.len() - i,
    {
        let ghost rest = s@.skip(i as int);
        if matches_at(s, from, i) {
            assert(rest.take(from.len() as int) =~= from@);
            assert(rest.skip(from.len() as int) =~= s@.skip(i + from.len()));
            push_all(&mut out, to);
            i += from.len();
        } else {
            assert(rest.drop_first() =~= s@.skip(i + 1));
            proof {
            if rest.len() >= from@.len() {
                assert(rest.take(from.len() as int) != from@) by {
                    if rest.take(from.len() as int) == from@ {
                        assert(s@.subrange(i as int, i + from.len()) =~= rest.take(
                            from.len() as int,
                        ));
                    }
                }
            } else {
                assert(replace_all(s@.skip(i + 1), from@, to@) == s@.skip(i + 1));
                assert(rest =~= seq![s@[i as int]] + s@.skip(i + 1));
            }
            }
            out.push(s[i]);
            i += 1;
        }
    }
    assert(s@.skip(i as int) =~= Seq::<char>::empty());
    out
}

/// `str::replace` with literal arguments.
pub fn replace_str(s: &Vec<char>, from: &str, to: &Vec<char>) -> (out: Vec<char>)
    requires
        from@.len() > 0,
    ensures
        out@ == replace_all(s@, from@, to@),
{
    let f = chars_of(from);
    replace_all_exec(s, &f, to)
}

/// `str::replacen(from, to, 1)`.
pub fn replace_first_exec(s: &Vec<char>, from: &Vec<char>, to: &Vec<char>) -> (out: Vec<char>)
    requires
        from.len() > 0,
    ensures
        out@ == replace_first(s@, from@, to@),
{
    let mut out: Vec<char> = Vec::new();
    let mut i: usize = 0;
    assert(s@.skip(0) =~= s@);
    while i < s.len()
        invariant
            i <= s.len(),
            from.len() > 0,
            replace_first(s@, from@, to@) == out@ + replace_first(s@.skip(i as int), from@, to@),
        decreases s.len() - i,
    {
        let ghost rest = s@.skip(i as int);
        if matches_at(s, from, i) {
            assert(rest.take(from.len() as int) =~= from@);
            assert(rest.skip(from.len() as int) =~= s@.skip(i + from.len()));
            push_all(&mut out, to);
            let tail = slice_chars(s, i + from.len(), s.len());
            push_all(&mut out, &tail);
            proof {
                assert(out@ =~= replace_first(s@, from@, to@));
            }
            return out;
        } else {
            assert(rest.drop_first() =~= s@.skip(i + 1));
            proof {
            if rest.len() >= from@.len() {
                assert(rest.take(from.len() as int) != from@) by {
                    if rest.take(from.len() as int) == from@ {
                        assert(s@.subrange(i as int, i + from.len()) =~= rest.take(
                            from.len() as int,
                        ));
                    }
                }
            } else {
                assert(replace_first(s@.skip(i + 1), from@, to@) == s@.skip(i + 1));
                assert(rest =~= seq![s@[i as int]] + s@.skip(i + 1));
            }
            }
            out.push(s[i]);
            i += 1;
        }
    }
    assert(s@.skip(i as int) =~= Seq::<char>::empty());
    out
}

/// The lines of `s` (`str::lines`).
pub fn lines_of(s: &Vec<char>) -> (out: Vec<Vec<char>>)
    ensures
        line_views(out@) == lines(s@),
{
    let mut out: Vec<Vec<char>> = Vec::new();
    let ghost views: Seq<Seq<char>> = seq![];
    let mut i: usize = 0;
    assert(s@.skip(0) =~= s@);
    while i < s.len()
        invariant
            i <= s.len(),
            out@.len() == views.len(),
            forall|k: int| 0 <= k < out@.len() ==> #[trigger] out@[k]@ == views[k],
            lines(s@) == views + lines(s@.skip(i as int)),
        decreases s.len() - i,
    {
        let ghost rest = s@.skip(i as int);
        let mut j = i;
        while j < s.len() && s[j] != '\n'
            invariant
                i <= j <= s.len(),
                forall|t: int| i <= t < j ==> s@[t] != '\n',
            decreases s.len() - j,
        {
            j += 1;
        }
        proof {
            lemma_index_of_is(rest, '\n', j - i);
        }
        let mut line = slice_chars(s, i, j);
        if j < s.len() && line.len() > 0 && line[line.len() - 1] == '\r' {
            line.pop();
        }
        let ghost next: Seq<char> = if j < s.len() { s@.skip(j + 1) } else { Seq::empty() };
        proof {
            let k = (j - i) as int;
            let prev = views;
            assert(rest.take(k) =~= s@.subrange(i as int, j as int));
            if j < s.len() {
                assert(lines(rest) == seq![strip_cr(rest.take(k))] + lines(rest.skip(k + 1)));
                assert(rest.skip(k + 1) =~= next);
                assert(line@ == strip_cr(rest.take(k)));
            } else {
                assert(rest =~= s@.subrange(i as int, j as int));
                assert(lines(rest) == seq![rest]);
                assert(lines(next) == Seq::<Seq<char>>::empty());
                assert(seq![rest] =~= seq![line@] + lines(next));
            }
            assert(lines(rest) == seq![line@] + lines(next));
            views = views.push(line@);
            assert(prev + (seq![line@] + lines(next)) =~= views + lines(next));
        }
        out.push(line);
        if j < s.len() {
            i = j + 1;
        } else {
            i = j;
        }
        assert(s@.skip(i as int) =~= next);
    }
    assert(s@.skip(i as int) =~= Seq::<char>::empty());
    assert(views + Seq::<Seq<char>>::empty() =~= views);
    assert(line_views(out@) =~= lines(s@));
    out
}

/// `ls.join("\n")` followed by a newline.
pub fn unlines_exec(ls: &Vec<Vec<char>>) -> (out: Vec<char>)
    ensures
        out@ == unlines(line_views(ls@)),
{
    let ghost views = line_views(ls@);
    let mut out: Vec<char> = Vec::new();
    if ls.len() == 0 {
        out.push('\n');
        assert(out@ =~= seq!['\n']);
        return out;
    }
    let mut i: usize = 0;
    while i < ls.len()
        invariant
            i <= ls.len(),
            views == line_views(ls@),
            out@ == concat_lines(views.take(i as int)),
        decreases ls.len() - i,
    {
        push_all(&mut out, &ls[i]);
        out.push('\n');
        i += 1;
        assert(views.take(i as int).drop_last() =~= views.take(i - 1));
    }
    assert(views.take(ls.len() as int) =~= views);
    out
}

/// Appends the decimal representation of `n`.
pub fn push_decimal(out: &mut Vec<char>, n: u64)
    ensures
        final(out)@ == old(out)@ + decimal(n as nat),
    decreases n,
{
    if n >= 10 {
        push_decimal(out, n / 10);
    }
    let d = (n % 10) as u8;
    out.push((48u8 + d) as char);
    assert(((n % 10) as nat) == (n as nat) % 10);
    if n >= 10 {
        assert(final(out)@ =~= old(out)@ + decimal(n as nat));
    }
}

/// `strings.join(sep)`.
pub fn join_strings(strings: &Vec<String>, sep: &str) -> (out: String)
    ensures
        out@ == join(strings@.map_values(|s: String| s@), sep@),
{
    let ghost views = strings@.map_values(|s: String| s@);
    let mut out: Vec<char> = Vec::new();
    let mut i: usize = 0;
    while i < strings.len()
        invariant
            i <= strings.len(),
            views == strings@.map_values(|s: String| s@),
            out@ == join(views.take(i as int), sep@),
        decreases strings.len() - i,
    {
        if i > 0 {
            push_str(&mut out, sep);
        }
        push_str(&mut out, strings[i].as_str());
        i += 1;
        assert(views.take(i as int).drop_last() =~= views.take(i - 1));
        if i == 1 {
            assert(out@ =~= join(views.take(i as int), sep@));
        }
    }
    assert(views.take(strings.len() as int) =~= views);
    string_of(&out)
}

/// `str::trim_end`.
pub fn trim_end_chars(s: &Vec<char>) -> (out: Vec<char>)
    ensures
        out@ == trim_end(s@),
{
    let mut j: usize = s.len();
    assert(s@.take(j as int) =~= s@);
    while j > 0 && is_whitespace(s[j - 1])
        invariant
            j <= s.len(),
            trim_end(s@) == trim_end(s@.take(j as int)),
        decreases j,
    {
        proof {
            lemma_trim_end_take(s@, j as int);
        }
        j -= 1;
    }
    slice_chars(s, 0, j)
}

/// The characters of each string slice.
pub open spec fn str_views(v: Seq<&str>) -> Seq<Seq<char>> {
    v.map_values(|s: &str| s@)
}

/// `items.join(sep)` over string slices.
pub fn join_strs(items: &[&str], sep: &str) -> (out: Vec<char>)
    ensures
        out@ == join(str_views(items@), sep@),
{
    let ghost views = str_views(items@);
    let mut out: Vec<char> = Vec::new();
    let mut i: usize = 0;
    while i < items.len()
        invariant
            i <= items@.len(),
            views == str_views(items@),
            out@ == join(views.take(i as int), sep@),
        decreases items@.len() - i,
    {
        if i > 0 {
            push_str(&mut out, sep);
        }
        push_str(&mut out, items[i]);
        i += 1;
        assert(views.take(i as int).drop_last() =~= views.take(i - 1));
        if i == 1 {
            assert(out@ =~= join(views.take(i as int), sep@));
        }
    }
    assert(views.take(items@.len() as int) =~= views);
    out
}

} // verus!
