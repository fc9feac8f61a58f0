//! Name inflection for generated code: `BlogPost` / `blog-post` become
//! `blog_post` (snake), `BlogPost` (pascal) and `blog_posts` (table).

use vstd::prelude::*;
use crate::text::{chars_of, string_of};

verus! {

pub open spec fn is_upper(c: char) -> bool {
    'A' <= c && c <= 'Z'
}

pub open spec fn is_lower(c: char) -> bool {
    'a' <= c && c <= 'z'
}

pub open spec fn is_digit(c: char) -> bool {
    '0' <= c && c <= '9'
}

/// ASCII lower case of `c`.
pub open spec fn lower(c: char) -> char {
    if is_upper(c) {
        ((c as u32) + 32) as char
    } else {
        c
    }
}

/// ASCII upper case of `c`.
pub open spec fn upper(c: char) -> char {
    if is_lower(c) {
        ((c as u32) - 32) as char
    } else {
        c
    }
}

/// Whether a word boundary falls just before `s[i]`: an upper-case letter
/// after a lower-case letter or digit, or the last capital of an acronym
/// that a lower-case letter follows (`HTTPServer` -> `http_server`).
pub open spec fn word_break(s: Seq<char>, i: int) -> bool {
    &&& 0 < i < s.len()
    &&& is_upper(s[i])
    &&& (is_lower(s[i - 1]) || is_digit(s[i - 1]) || (is_upper(s[i - 1]) && i + 1 < s.len()
        && is_lower(s[i + 1])))
}

/// What character `i` of `s` becomes in snake case.
pub open spec fn snake_piece(s: Seq<char>, i: int) -> Seq<char> {
    if s[i] == '-' {
        seq!['_']
    } else if word_break(s, i) {
        seq!['_', lower(s[i])]
    } else {
        seq![lower(s[i])]
    }
}

/// Snake case of the first `n` characters of `s`.
pub open spec fn snake_prefix(s: Seq<char>, n: int) -> Seq<char>
    decreases n,
{
    if n <= 0 {
        Seq::empty()
    } else {
        snake_prefix(s, n - 1) + snake_piece(s, n - 1)
    }
}

/// `BlogPost` / `blog-post` -> `blog_post`.
pub open spec fn snake_of(s: Seq<char>) -> Seq<char> {
    snake_prefix(s, s.len() as int)
}

/// What character `i` of a snake-case word becomes in pascal case: an
/// underscore is dropped and the letter after it (or the first letter) is
/// capitalised.
pub open spec fn camel_piece(s: Seq<char>, i: int) -> Seq<char> {
    if s[i] == '_' {
        Seq::empty()
    } else if i == 0 || s[i - 1] == '_' {
        seq![upper(s[i])]
    } else {
        seq![s[i]]
    }
}

pub open spec fn camel_prefix(s: Seq<char>, n: int) -> Seq<char>
    decreases n,
{
    if n <= 0 {
        Seq::empty()
    } else {
        camel_prefix(s, n - 1) + camel_piece(s, n - 1)
    }
}

/// `blog_post` / `blog-post` / `BlogPost` -> `BlogPost`.
pub open spec fn pascal_of(s: Seq<char>) -> Seq<char> {
    let w = snake_of(s);
    camel_prefix(w, w.len() as int)
}

pub open spec fn is_vowel(c: char) -> bool {
    c == 'a' || c == 'e' || c == 'i' || c == 'o' || c == 'u'
}

/// English plural of a snake-case word: `-y` after a consonant becomes
/// `-ies`; `-s`, `-x`, `-z`, `-ch`, `-sh` take `-es`; any other word takes `-s`.
pub open spec fn plural_of(w: Seq<char>) -> Seq<char> {
    let n = w.len();
    if n >= 2 && w[n - 1] == 'y' && !is_vowel(w[n - 2]) {
        w.take(n - 1) + "ies"@
    } else if n >= 1 && (w[n - 1] == 's' || w[n - 1] == 'x' || w[n - 1] == 'z') {
        w + "es"@
    } else if n >= 2 && w[n - 1] == 'h' && (w[n - 2] == 'c' || w[n - 2] == 's') {
        w + "es"@
    } else {
        w + "s"@
    }
}

/// `BlogPost` / `blog_post` -> `blog_posts`.
pub open spec fn table_of(s: Seq<char>) -> Seq<char> {
    plural_of(snake_of(s))
}

/// Snake case has no `-` and no upper-case ASCII letter.
pub open spec fn is_snake_form(w: Seq<char>) -> bool {
    forall|i: int| 0 <= i < w.len() ==> w[i] != '-' && !is_upper(#[trigger] w[i])
}

proof fn lemma_snake_prefix_form(s: Seq<char>, n: int)
    requires
        0 <= n <= s.len(),
    ensures
        is_snake_form(snake_prefix(s, n)),
    decreases n,
{
    if n > 0 {
        lemma_snake_prefix_form(s, n - 1);
        let a = snake_prefix(s, n - 1);
        let b = snake_piece(s, n - 1);
        assert(is_snake_form(b));
        assert forall|i: int| 0 <= i < (a + b).len() implies (a + b)[i] != '-' && !is_upper(
            #[trigger] (a + b)[i],
        ) by {
            if i < a.len() {
                assert((a + b)[i] == a[i]);
            } else {
                assert((a + b)[i] == b[i - a.len()]);
            }
        }
    }
}

proof fn lemma_snake_prefix_fixed(w: Seq<char>, m: int)
    requires
        0 <= m <= w.len(),
        is_snake_form(w),
    ensures
        snake_prefix(w, m) == w.take(m),
    decreases m,
{
    if m > 0 {
        lemma_snake_prefix_fixed(w, m - 1);
        assert(!is_upper(w[m - 1]));
        assert(w.take(m) =~= w.take(m - 1) + seq![w[m - 1]]);
    } else {
        assert(w.take(0) =~= Seq::<char>::empty());
    }
}

/// Snake-casing a snake-case name changes nothing.
pub proof fn snake_idempotent(s: Seq<char>)
    ensures
        snake_of(snake_of(s)) == snake_of(s),
{
    let w = snake_of(s);
    lemma_snake_prefix_form(s, s.len() as int);
    lemma_snake_prefix_fixed(w, w.len() as int);
    assert(w.take(w.len() as int) =~= w);
}

/// Pascal-casing the snake-case form of a name gives its pascal case.
pub proof fn pascal_of_snake(s: Seq<char>)
    ensures
        pascal_of(snake_of(s)) == pascal_of(s),
{
    snake_idempotent(s);
}

fn lower_char(c: char) -> (r: char)
    ensures
        r == lower(c),
{
    if 'A' <= c && c <= 'Z' {
        let b: u8 = (c as u8) + 32;
        b as char
    } else {
        c
    }
}

fn upper_char(c: char) -> (r: char)
    ensures
        r == upper(c),
{
    if 'a' <= c && c <= 'z' {
        let b: u8 = (c as u8) - 32;
        b as char
    } else {
        c
    }
}

fn snake_chars(s: &Vec<char>) -> (out: Vec<char>)
    ensures
        out@ == snake_of(s@),
{
    let mut out: Vec<char> = Vec::new();
    let n = s.len();
    let mut i: usize = 0;
    while i < n
        invariant
            n == s@.len(),
            i <= n,
            out@ == snake_prefix(s@, i as int),
        decreases n - i,
    {
        let c = s[i];
        if c == '-' {
            out.push('_');
        } else {
            let brk = i > 0 && 'A' <= c && c <= 'Z' && {
                let p = s[i - 1];
                ('a' <= p && p <= 'z') || ('0' <= p && p <= '9') || ('A' <= p && p <= 'Z' && i + 1
                    < n && 'a' <= s[i + 1] && s[i + 1] <= 'z')
            };
            if brk {
                out.push('_');
            }
            out.push(lower_char(c));
        }
        proof {
            assert(snake_prefix(s@, i + 1) == snake_prefix(s@, i as int) + snake_piece(s@, i as int));
        }
        assert(out@ =~= snake_prefix(s@, i + 1));
        i += 1;
    }
    out
}

fn camel_chars(w: &Vec<char>) -> (out: Vec<char>)
    ensures
        out@ == camel_prefix(w@, w@.len() as int),
{
    let mut out: Vec<char> = Vec::new();
    let n = w.len();
    let mut i: usize = 0;
    while i < n
        invariant
            n == w@.len(),
            i <= n,
            out@ == camel_prefix(w@, i as int),
        decreases n - i,
    {
        let c = w[i];
        if c != '_' {
            if i == 0 || w[i - 1] == '_' {
                out.push(upper_char(c));
            } else {
                out.push(c);
            }
        }
        assert(out@ =~= camel_prefix(w@, i + 1));
        i += 1;
    }
    out
}

/// `BlogPost`/`blog-post` -> `blog_post`.
pub fn to_snake(s: &str) -> (r: String)
    ensures
        r@ == snake_of(s@),
{
    let cs = chars_of(s);
    string_of(&snake_chars(&cs))
}

/// `blog_post`/`blog-post` -> `BlogPost`.
pub fn to_pascal(s: &str) -> (r: String)
    ensures
        r@ == pascal_of(s@),
{
    let cs = chars_of(s);
    let w = snake_chars(&cs);
    string_of(&camel_chars(&w))
}

/// `BlogPost`/`blog_post` -> `blog_posts`.
pub fn to_table_name(s: &str) -> (r: String)
    ensures
        r@ == table_of(s@),
{
    let cs = chars_of(s);
    let mut w = snake_chars(&cs);
    let ghost sw = w@;
    let n = w.len();
    proof {
        reveal_strlit("ies");
        reveal_strlit("es");
        reveal_strlit("s");
    }
    if n >= 2 && w[n - 1] == 'y' && !(w[n - 2] == 'a' || w[n - 2] == 'e' || w[n - 2] == 'i'
        || w[n - 2] == 'o' || w[n - 2] == 'u') {
        w.pop();
        w.push('i');
        w.push('e');
        w.push('s');
        assert(w@ =~= sw.take(n - 1) + "ies"@);
    } else if n >= 1 && (w[n - 1] == 's' || w[n - 1] == 'x' || w[n - 1] == 'z') {
        w.push('e');
        w.push('s');
        assert(w@ =~= sw + "es"@);
    } else if n >= 2 && w[n - 1] == 'h' && (w[n - 2] == 'c' || w[n - 2] == 's') {
        w.push('e');
        w.push('s');
        assert(w@ =~= sw + "es"@);
    } else {
        w.push('s');
        assert(w@ =~= sw + "s"@);
    }
    string_of(&w)
}

/// The table name of a name whose snake form ends in a sibilant (`-s`,
/// `-x`, `-z`, `-ch`, `-sh`) is that snake form followed by `es`
/// (`Dish` -> `dishes`, `Match` -> `matches`, `Box` -> `boxes`).
pub proof fn sibilant_tables_take_es(s: Seq<char>)
    ensures
        ({
            let w = snake_of(s);
            let n = w.len();
            (n >= 1 && (w[n - 1] == 's' || w[n - 1] == 'x' || w[n - 1] == 'z'))
                || (n >= 2 && w[n - 1] == 'h' && (w[n - 2] == 's' || w[n - 2] == 'c'))
                ==> table_of(s) == w + seq!['e', 's']
        }),
{
    reveal_strlit("es");
    assert("es"@ =~= seq!['e', 's']);
}

} // verus!
