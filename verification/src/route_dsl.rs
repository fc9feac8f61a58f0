//! The `auth_routes!(User, only: [..], skip: [..], prefix: "..",
//! controllers: {..}, actions: {..})` macro language: its tokens, its
//! options, and the route declarations it stands for inside a
//! `doido::auth::routes! { .. }` block.

use vstd::prelude::*;
use crate::text::{chars_of, is_ws, push_str, slice_chars, str_eq, string_of};
use crate::route_plan::{list_view, mounted_routes, plan_auth_routes, route_table, RouteSpec, RouteView};

verus! {

/// A token of macro input.
#[derive(Debug)]
pub enum Tok {
    /// A word: letters, digits and `_`.
    Ident(String),
    /// A punctuation character; `true` when an operator character follows
    /// it directly (as in `::`).
    Punct(char, bool),
    /// A string literal's contents.
    Lit(String),
}

/// The value of a [`Tok`].
pub enum TokView {
    Ident(Seq<char>),
    Punct(char, bool),
    Lit(Seq<char>),
}

impl View for Tok {
    type V = TokView;

    open spec fn view(&self) -> TokView {
        match self {
            Tok::Ident(s) => TokView::Ident(s@),
            Tok::Punct(c, j) => TokView::Punct(*c, *j),
            Tok::Lit(s) => TokView::Lit(s@),
        }
    }
}

pub open spec fn tok_views(ts: Seq<Tok>) -> Seq<TokView> {
    ts.map_values(|t: Tok| t@)
}

pub open spec fn is_word_char(c: char) -> bool {
    ('a' <= c && c <= 'z') || ('A' <= c && c <= 'Z') || ('0' <= c && c <= '9') || c == '_'
}

pub open spec fn is_delim(c: char) -> bool {
    c == '(' || c == ')' || c == '[' || c == ']' || c == '{' || c == '}'
}

/// An operator character: anything but whitespace, word characters,
/// delimiters and quotes.
pub open spec fn is_op(c: char) -> bool {
    !is_ws(c) && !is_word_char(c) && !is_delim(c) && c != '"'
}

/// Where the word starting at or before `i` ends.
pub open spec fn word_end(s: Seq<char>, i: int) -> int
    decreases s.len() - i,
{
    if 0 <= i < s.len() && is_word_char(s[i]) {
        word_end(s, i + 1)
    } else {
        i
    }
}

/// Where the string literal whose contents start at `i` ends (its closing
/// quote, or the end of `s`).
pub open spec fn lit_end(s: Seq<char>, i: int) -> int
    decreases s.len() - i,
{
    if 0 <= i < s.len() && s[i] != '"' {
        lit_end(s, i + 1)
    } else {
        i
    }
}

pub open spec fn prepend(t: TokView, r: Result<Seq<TokView>, Seq<char>>) -> Result<Seq<TokView>, Seq<char>> {
    match r {
        Ok(ts) => Ok(seq![t] + ts),
        Err(e) => Err(e),
    }
}

pub proof fn lemma_word_end(s: Seq<char>, i: int)
    requires
        0 <= i <= s.len(),
    ensures
        i <= word_end(s, i) <= s.len(),
        forall|k: int| i <= k < word_end(s, i) ==> is_word_char(#[trigger] s[k]),
        word_end(s, i) < s.len() ==> !is_word_char(s[word_end(s, i)]),
    decreases s.len() - i,
{
    if i < s.len() && is_word_char(s[i]) {
        lemma_word_end(s, i + 1);
    }
}

pub proof fn lemma_lit_end(s: Seq<char>, i: int)
    requires
        0 <= i <= s.len(),
    ensures
        i <= lit_end(s, i) <= s.len(),
        forall|k: int| i <= k < lit_end(s, i) ==> #[trigger] s[k] != '"',
        lit_end(s, i) < s.len() ==> s[lit_end(s, i)] == '"',
    decreases s.len() - i,
{
    if i < s.len() && s[i] != '"' {
        lemma_lit_end(s, i + 1);
    }
}

/// Whether `s` holds a backslash.
pub open spec fn has_backslash(s: Seq<char>) -> bool {
    exists|k: int| 0 <= k < s.len() && s[k] == '\\'
}

/// The tokens of `s` from index `i`: whitespace separates, a word is a run
/// of word characters, `"..."` is a literal (no escapes), and every other
/// character is punctuation.
pub open spec fn lex_from(s: Seq<char>, i: int) -> Result<Seq<TokView>, Seq<char>>
    decreases s.len() - i,
{
    if i < 0 || i >= s.len() {
        Ok(seq![])
    } else {
        let c = s[i];
        if is_ws(c) {
            lex_from(s, i + 1)
        } else if is_word_char(c) {
            let e = word_end(s, i);
            proof {
                lemma_word_end(s, i);
            }
            prepend(TokView::Ident(s.subrange(i, e)), lex_from(s, e))
        } else if c == '"' {
            let e = lit_end(s, i + 1);
            proof {
                lemma_lit_end(s, i + 1);
            }
            if e >= s.len() {
                Err("unterminated string literal"@)
            } else if has_backslash(s.subrange(i + 1, e)) {
                Err("escapes in string literals are not supported"@)
            } else {
                prepend(TokView::Lit(s.subrange(i + 1, e)), lex_from(s, e + 1))
            }
        } else {
            prepend(TokView::Punct(c, !is_delim(c) && i + 1 < s.len() && is_op(s[i + 1])), lex_from(s, i + 1))
        }
    }
}

/// The tokens of `s`.
pub open spec fn lex_spec(s: Seq<char>) -> Result<Seq<TokView>, Seq<char>> {
    lex_from(s, 0)
}

/// `prefix` before the tokens of `r`.
pub open spec fn prepend_all(prefix: Seq<TokView>, r: Result<Seq<TokView>, Seq<char>>) -> Result<Seq<TokView>, Seq<char>> {
    match r {
        Ok(ts) => Ok(prefix + ts),
        Err(e) => Err(e),
    }
}

proof fn lemma_prepend_step(p: Seq<TokView>, t: TokView, r: Result<Seq<TokView>, Seq<char>>)
    ensures
        prepend_all(p, prepend(t, r)) == prepend_all(p + seq![t], r),
{
    match r {
        Ok(ts) => {
            assert((p + seq![t]) + ts =~= p + (seq![t] + ts));
        },
        Err(_) => {},
    }
}

fn is_word_char_exec(c: char) -> (r: bool)
    ensures
        r == is_word_char(c),
{
    ('a' <= c && c <= 'z') || ('A' <= c && c <= 'Z') || ('0' <= c && c <= '9') || c == '_'
}

fn is_delim_exec(c: char) -> (r: bool)
    ensures
        r == is_delim(c),
{
    c == '(' || c == ')' || c == '[' || c == ']' || c == '{' || c == '}'
}

fn is_op_exec(c: char) -> (r: bool)
    ensures
        r == is_op(c),
{
    !crate::text::is_whitespace(c) && !is_word_char_exec(c) && !is_delim_exec(c) && c != '"'
}

/// Splits macro input into tokens.
/// Where the word starting at `i` ends.
fn scan_word(s: &Vec<char>, i: usize) -> (e: usize)
    requires
        i <= s@.len(),
    ensures
        e as int == word_end(s@, i as int),
{
    let mut e = i;
    while e < s.len() && is_word_char_exec(s[e])
        invariant
            i <= e <= s@.len(),
            word_end(s@, i as int) == word_end(s@, e as int),
        decreases s@.len() - e,
    {
        e += 1;
    }
    e
}

/// Where the literal whose contents start at `i` ends, and whether its
/// contents hold a backslash.
fn scan_lit(s: &Vec<char>, i: usize) -> (r: (usize, bool))
    requires
        i <= s@.len(),
    ensures
        r.0 as int == lit_end(s@, i as int),
        i <= r.0 <= s@.len(),
        r.1 == has_backslash(s@.subrange(i as int, r.0 as int)),
{
    let mut e = i;
    let mut escaped = false;
    while e < s.len() && s[e] != '"'
        invariant
            i <= e <= s@.len(),
            lit_end(s@, i as int) == lit_end(s@, e as int),
            escaped == has_backslash(s@.subrange(i as int, e as int)),
        decreases s@.len() - e,
    {
        let ghost before = s@.subrange(i as int, e as int);
        assert(s@.subrange(i as int, e + 1) =~= before.push(s@[e as int]));
        if s[e] == '\\' {
            assert(s@.subrange(i as int, e + 1)[e - i] == '\\');
            escaped = true;
        } else {
            assert(has_backslash(s@.subrange(i as int, e + 1)) ==> has_backslash(before)) by {
                if has_backslash(s@.subrange(i as int, e + 1)) {
                    let sub = s@.subrange(i as int, e + 1);
                    let k = choose|k: int| 0 <= k < sub.len() && sub[k] == '\\';
                    assert(k < e - i);
                    assert(before[k] == '\\');
                }
            }
            assert(has_backslash(before) ==> has_backslash(s@.subrange(i as int, e + 1))) by {
                if has_backslash(before) {
                    let k = choose|k: int| 0 <= k < e - i && before[k] == '\\';
                    assert(s@.subrange(i as int, e + 1)[k] == '\\');
                }
            }
        }
        e += 1;
    }
    proof {
        lemma_lit_end(s@, i as int);
    }
    (e, escaped)
}

/// The punctuation token at `i`.
fn punct_at(s: &Vec<char>, i: usize) -> (t: Tok)
    requires
        i < s@.len(),
    ensures
        t@ == TokView::Punct(s@[i as int], !is_delim(s@[i as int]) && i + 1 < s@.len() && is_op(s@[i + 1])),
{
    let c = s[i];
    let joint = if is_delim_exec(c) {
        false
    } else if i < s.len() - 1 {
        is_op_exec(s[i + 1])
    } else {
        false
    };
    Tok::Punct(c, joint)
}

/// Splits macro input into tokens.
pub fn lex(text: &str) -> (r: Result<Vec<Tok>, String>)
    ensures
        match r {
            Ok(ts) => lex_spec(text@) == Ok::<Seq<TokView>, Seq<char>>(tok_views(ts@)),
            Err(e) => lex_spec(text@) == Err::<Seq<TokView>, Seq<char>>(e@),
        },
{
    let s = chars_of(text);
    let n = s.len();
    let mut out: Vec<Tok> = Vec::new();
    let mut i: usize = 0;
    assert(tok_views(out@) =~= Seq::<TokView>::empty());
    assert(Seq::<TokView>::empty() + Seq::<TokView>::empty() =~= Seq::<TokView>::empty());
    while i < n
        invariant
            n == s@.len(),
            s@ == text@,
            i <= n,
            lex_from(s@, 0) == prepend_all(tok_views(out@), lex_from(s@, i as int)),
        decreases n - i,
    {
        let c = s[i];
        let ghost before = tok_views(out@);
        if crate::text::is_whitespace(c) {
            i += 1;
        } else if is_word_char_exec(c) {
            let e = scan_word(&s, i);
            proof {
                lemma_word_end(s@, i as int);
                lemma_prepend_step(before, TokView::Ident(s@.subrange(i as int, e as int)), lex_from(s@, e as int));
            }
            let w = string_of(&slice_chars(&s, i, e));
            out.push(Tok::Ident(w));
            assert(tok_views(out@) =~= before + seq![TokView::Ident(s@.subrange(i as int, e as int))]);
            i = e;
        } else if c == '"' {
            let (e, escaped) = scan_lit(&s, i + 1);
            if e >= n {
                return Err("unterminated string literal".to_owned());
            }
            if escaped {
                return Err("escapes in string literals are not supported".to_owned());
            }
            proof {
                lemma_prepend_step(before, TokView::Lit(s@.subrange(i + 1, e as int)), lex_from(s@, e + 1));
            }
            let w = string_of(&slice_chars(&s, i + 1, e));
            out.push(Tok::Lit(w));
            assert(tok_views(out@) =~= before + seq![TokView::Lit(s@.subrange(i + 1, e as int))]);
            i = e + 1;
        } else {
            let t = punct_at(&s, i);
            let ghost tv = t@;
            proof {
                lemma_prepend_step(before, tv, lex_from(s@, i + 1));
            }
            out.push(t);
            assert(tok_views(out@) =~= before + seq![tv]);
            i += 1;
        }
    }
    assert(tok_views(out@) + Seq::<TokView>::empty() =~= tok_views(out@));
    Ok(out)
}

/// The word at `i`, if the token there is one.
pub open spec fn word_at(ts: Seq<TokView>, i: int) -> Option<Seq<char>> {
    if 0 <= i < ts.len() {
        match ts[i] {
            TokView::Ident(w) => Some(w),
            _ => None,
        }
    } else {
        None
    }
}

/// Whether the token at `i` is punctuation `c`.
pub open spec fn punct_at_is(ts: Seq<TokView>, i: int, c: char) -> bool {
    0 <= i < ts.len() && (ts[i] matches TokView::Punct(p, _) && p == c)
}

/// The path `a::b::C` starting at `i`: its words and where it ends.
pub open spec fn path_spec(ts: Seq<TokView>, i: int) -> Result<(Seq<Seq<char>>, int), Seq<char>>
    decreases ts.len() - i,
{
    match word_at(ts, i) {
        None => Err("expected identifier"@),
        Some(w) => if punct_at_is(ts, i + 1, ':') && punct_at_is(ts, i + 2, ':') && word_at(ts, i + 3) is Some {
            match path_spec(ts, i + 3) {
                Ok((rest, k)) => Ok((seq![w] + rest, k)),
                Err(e) => Err(e),
            }
        } else {
            Ok((seq![w], i + 1))
        },
    }
}

/// The words of a `[a, b, ..]` list from `j` (just after `[`), commas
/// optional, up to and past `]`.
pub open spec fn list_items(ts: Seq<TokView>, j: int) -> Result<(Seq<Seq<char>>, int), Seq<char>>
    decreases ts.len() - j,
{
    if j < 0 || j >= ts.len() {
        Err("expected `]`"@)
    } else if punct_at_is(ts, j, ']') {
        Ok((seq![], j + 1))
    } else {
        match word_at(ts, j) {
            None => Err("expected identifier"@),
            Some(w) => {
                let k = if punct_at_is(ts, j + 1, ',') {
                    j + 2
                } else {
                    j + 1
                };
                match list_items(ts, k) {
                    Ok((rest, m)) => Ok((seq![w] + rest, m)),
                    Err(e) => Err(e),
                }
            },
        }
    }
}

/// A `[..]` list at `i`.
pub open spec fn list_spec(ts: Seq<TokView>, i: int) -> Result<(Seq<Seq<char>>, int), Seq<char>> {
    if punct_at_is(ts, i, '[') {
        list_items(ts, i + 1)
    } else {
        Err("expected `[`"@)
    }
}

pub proof fn lemma_path_advances(ts: Seq<TokView>, i: int)
    ensures
        path_spec(ts, i) matches Ok((_, k)) ==> i < k <= ts.len(),
    decreases ts.len() - i,
{
    if word_at(ts, i) is Some && punct_at_is(ts, i + 1, ':') && punct_at_is(ts, i + 2, ':') && word_at(ts, i + 3) is Some {
        lemma_path_advances(ts, i + 3);
    }
}

pub proof fn lemma_list_items_advance(ts: Seq<TokView>, j: int)
    ensures
        list_items(ts, j) matches Ok((_, k)) ==> j < k <= ts.len(),
    decreases ts.len() - j,
{
    if 0 <= j < ts.len() && !punct_at_is(ts, j, ']') && word_at(ts, j) is Some {
        let k = if punct_at_is(ts, j + 1, ',') {
            j + 2
        } else {
            j + 1
        };
        lemma_list_items_advance(ts, k);
    }
}

/// The `key: path` entries of a `{..}` map from `j` (just after `{`),
/// commas optional, up to and past `}`.
pub open spec fn map_items(ts: Seq<TokView>, j: int) -> Result<(Seq<(Seq<char>, Seq<Seq<char>>)>, int), Seq<char>>
    decreases ts.len() - j,
{
    if j < 0 || j >= ts.len() {
        Err("expected `}`"@)
    } else if punct_at_is(ts, j, '}') {
        Ok((seq![], j + 1))
    } else {
        match word_at(ts, j) {
            None => Err("expected identifier"@),
            Some(key) => if !punct_at_is(ts, j + 1, ':') {
                Err("expected `:`"@)
            } else {
                match path_spec(ts, j + 2) {
                    Err(e) => Err(e),
                    Ok((p, k)) => {
                        proof {
                            lemma_path_advances(ts, j + 2);
                        }
                        let k2 = if punct_at_is(ts, k, ',') {
                            k + 1
                        } else {
                            k
                        };
                        match map_items(ts, k2) {
                            Ok((rest, m)) => Ok((seq![(key, p)] + rest, m)),
                            Err(e) => Err(e),
                        }
                    },
                }
            },
        }
    }
}

/// A `{..}` map at `i`.
pub open spec fn map_spec(ts: Seq<TokView>, i: int) -> Result<(Seq<(Seq<char>, Seq<Seq<char>>)>, int), Seq<char>> {
    if punct_at_is(ts, i, '{') {
        map_items(ts, i + 1)
    } else {
        Err("expected `{`"@)
    }
}

pub proof fn lemma_map_items_advance(ts: Seq<TokView>, j: int)
    ensures
        map_items(ts, j) matches Ok((_, k)) ==> j < k <= ts.len(),
    decreases ts.len() - j,
{
    if 0 <= j < ts.len() && !punct_at_is(ts, j, '}') && word_at(ts, j) is Some && punct_at_is(ts, j + 1, ':') {
        lemma_path_advances(ts, j + 2);
        if let Ok((_, k)) = path_spec(ts, j + 2) {
            let k2 = if punct_at_is(ts, k, ',') {
                k + 1
            } else {
                k
            };
            lemma_map_items_advance(ts, k2);
        }
    }
}

/// The `module: { action: path, .. }` groups of an `actions:` map from `j`.
pub open spec fn group_items(ts: Seq<TokView>, j: int) -> Result<
    (Seq<(Seq<char>, Seq<(Seq<char>, Seq<Seq<char>>)>)>, int),
    Seq<char>,
>
    decreases ts.len() - j,
{
    if j < 0 || j >= ts.len() {
        Err("expected `}`"@)
    } else if punct_at_is(ts, j, '}') {
        Ok((seq![], j + 1))
    } else {
        match word_at(ts, j) {
            None => Err("expected identifier"@),
            Some(module) => if !punct_at_is(ts, j + 1, ':') {
                Err("expected `:`"@)
            } else {
                match map_spec(ts, j + 2) {
                    Err(e) => Err(e),
                    Ok((m, k)) => {
                        proof {
                            lemma_map_items_advance(ts, j + 3);
                        }
                        let k2 = if punct_at_is(ts, k, ',') {
                            k + 1
                        } else {
                            k
                        };
                        match group_items(ts, k2) {
                            Ok((rest, n)) => Ok((seq![(module, m)] + rest, n)),
                            Err(e) => Err(e),
                        }
                    },
                }
            },
        }
    }
}

pub proof fn lemma_group_items_advance(ts: Seq<TokView>, j: int)
    ensures
        group_items(ts, j) matches Ok((_, k)) ==> j < k <= ts.len(),
    decreases ts.len() - j,
{
    if 0 <= j < ts.len() && !punct_at_is(ts, j, '}') && word_at(ts, j) is Some && punct_at_is(ts, j + 1, ':') {
        lemma_map_items_advance(ts, j + 3);
        if let Ok((_, k)) = map_spec(ts, j + 2) {
            let k2 = if punct_at_is(ts, k, ',') {
                k + 1
            } else {
                k
            };
            lemma_group_items_advance(ts, k2);
        }
    }
}

/// The options of an `auth_routes!` invocation.
pub struct RoutesInputView {
    pub user: Seq<char>,
    pub only: Option<Seq<Seq<char>>>,
    pub skip: Option<Seq<Seq<char>>>,
    pub prefix: Option<Seq<char>>,
    pub controllers: Seq<(Seq<char>, Seq<Seq<char>>)>,
    pub actions: Seq<(Seq<char>, Seq<(Seq<char>, Seq<Seq<char>>)>)>,
}

/// The string literal at `i`, if the token there is one.
pub open spec fn lit_at(ts: Seq<TokView>, i: int) -> Option<Seq<char>> {
    if 0 <= i < ts.len() {
        match ts[i] {
            TokView::Lit(v) => Some(v),
            _ => None,
        }
    } else {
        None
    }
}

/// The `, key: value` options from `i` applied over `acc`; a later option
/// replaces an earlier one of the same key.
pub open spec fn options_spec(ts: Seq<TokView>, i: int, acc: RoutesInputView) -> Result<RoutesInputView, Seq<char>>
    decreases ts.len() - i,
{
    if i < 0 || i >= ts.len() {
        Ok(acc)
    } else if !punct_at_is(ts, i, ',') {
        Err("unexpected token"@)
    } else {
        match word_at(ts, i + 1) {
            None => Err("expected identifier"@),
            Some(key) => if !punct_at_is(ts, i + 2, ':') {
                Err("expected `:`"@)
            } else if key == "only"@ || key == "skip"@ {
                match list_spec(ts, i + 3) {
                    Err(e) => Err(e),
                    Ok((l, k)) => {
                        proof {
                            lemma_list_items_advance(ts, i + 4);
                        }
                        if key == "only"@ {
                            options_spec(ts, k, RoutesInputView { only: Some(l), ..acc })
                        } else {
                            options_spec(ts, k, RoutesInputView { skip: Some(l), ..acc })
                        }
                    },
                }
            } else if key == "prefix"@ {
                match lit_at(ts, i + 3) {
                    None => Err("expected string literal"@),
                    Some(v) => options_spec(ts, i + 4, RoutesInputView { prefix: Some(v), ..acc }),
                }
            } else if key == "controllers"@ {
                match map_spec(ts, i + 3) {
                    Err(e) => Err(e),
                    Ok((m, k)) => {
                        proof {
                            lemma_map_items_advance(ts, i + 4);
                        }
                        options_spec(ts, k, RoutesInputView { controllers: m, ..acc })
                    },
                }
            } else if key == "actions"@ {
                if punct_at_is(ts, i + 3, '{') {
                    match group_items(ts, i + 4) {
                        Err(e) => Err(e),
                        Ok((g, k)) => {
                            proof {
                                lemma_group_items_advance(ts, i + 4);
                            }
                            options_spec(ts, k, RoutesInputView { actions: g, ..acc })
                        },
                    }
                } else {
                    Err("expected `{`"@)
                }
            } else {
                Err("unknown auth_routes option: "@ + key)
            }
        }
    }
}

/// The options an `auth_routes!` invocation's tokens give: the user type,
/// then `, key: value` options (`only`/`skip` word lists, `prefix` string,
/// `controllers` map of paths, `actions` map of maps of paths).
pub open spec fn parse_spec(ts: Seq<TokView>) -> Result<RoutesInputView, Seq<char>> {
    match word_at(ts, 0) {
        None => Err("expected identifier"@),
        Some(u) => options_spec(
            ts,
            1,
            RoutesInputView { user: u, only: None, skip: None, prefix: None, controllers: seq![], actions: seq![] },
        ),
    }
}

/// The parsed options of an `auth_routes!` invocation.
#[derive(Debug)]
pub struct AuthRoutesInput {
    /// The user model type.
    pub user: String,
    /// `only: [..]`: the modules to mount.
    pub only: Option<Vec<String>>,
    /// `skip: [..]`: the modules not to mount.
    pub skip: Option<Vec<String>>,
    /// `prefix: ".."` (default `/users`).
    pub prefix: Option<String>,
    /// `controllers: { module: path }` overrides.
    pub controllers: Vec<(String, Vec<String>)>,
    /// `actions: { module: { action: path } }` overrides.
    pub actions: Vec<(String, Vec<(String, Vec<String>)>)>,
}

pub open spec fn words_view(v: Seq<String>) -> Seq<Seq<char>> {
    v.map_values(|w: String| w@)
}

pub open spec fn entry_view(e: (String, Vec<String>)) -> (Seq<char>, Seq<Seq<char>>) {
    (e.0@, words_view(e.1@))
}

pub open spec fn entries_view(v: Seq<(String, Vec<String>)>) -> Seq<(Seq<char>, Seq<Seq<char>>)> {
    v.map_values(|e: (String, Vec<String>)| entry_view(e))
}

pub open spec fn group_view(g: (String, Vec<(String, Vec<String>)>)) -> (Seq<char>, Seq<(Seq<char>, Seq<Seq<char>>)>) {
    (g.0@, entries_view(g.1@))
}

pub open spec fn groups_view(v: Seq<(String, Vec<(String, Vec<String>)>)>) -> Seq<(Seq<char>, Seq<(Seq<char>, Seq<Seq<char>>)>)> {
    v.map_values(|g: (String, Vec<(String, Vec<String>)>)| group_view(g))
}

pub open spec fn opt_words(o: Option<Vec<String>>) -> Option<Seq<Seq<char>>> {
    match o {
        Some(v) => Some(words_view(v@)),
        None => None,
    }
}

pub open spec fn opt_text(o: Option<String>) -> Option<Seq<char>> {
    match o {
        Some(v) => Some(v@),
        None => None,
    }
}

impl View for AuthRoutesInput {
    type V = RoutesInputView;

    open spec fn view(&self) -> RoutesInputView {
        RoutesInputView {
            user: self.user@,
            only: opt_words(self.only),
            skip: opt_words(self.skip),
            prefix: opt_text(self.prefix),
            controllers: entries_view(self.controllers@),
            actions: groups_view(self.actions@),
        }
    }
}

pub open spec fn words_res(r: Result<(Vec<String>, usize), String>) -> Result<(Seq<Seq<char>>, int), Seq<char>> {
    match r {
        Ok((v, k)) => Ok((words_view(v@), k as int)),
        Err(e) => Err(e@),
    }
}

pub open spec fn entries_res(r: Result<(Vec<(String, Vec<String>)>, usize), String>) -> Result<
    (Seq<(Seq<char>, Seq<Seq<char>>)>, int),
    Seq<char>,
> {
    match r {
        Ok((v, k)) => Ok((entries_view(v@), k as int)),
        Err(e) => Err(e@),
    }
}

pub open spec fn groups_res(r: Result<(Vec<(String, Vec<(String, Vec<String>)>)>, usize), String>) -> Result<
    (Seq<(Seq<char>, Seq<(Seq<char>, Seq<Seq<char>>)>)>, int),
    Seq<char>,
> {
    match r {
        Ok((v, k)) => Ok((groups_view(v@), k as int)),
        Err(e) => Err(e@),
    }
}

fn word_exec(ts: &Vec<Tok>, i: usize) -> (r: Option<String>)
    ensures
        opt_text(r) == word_at(tok_views(ts@), i as int),
        r is Some ==> i < ts@.len() <= usize::MAX,
{
    if i < ts.len() {
        match &ts[i] {
            Tok::Ident(w) => Some(w.clone()),
            _ => None,
        }
    } else {
        None
    }
}

fn lit_exec(ts: &Vec<Tok>, i: usize) -> (r: Option<String>)
    ensures
        opt_text(r) == lit_at(tok_views(ts@), i as int),
{
    if i < ts.len() {
        match &ts[i] {
            Tok::Lit(w) => Some(w.clone()),
            _ => None,
        }
    } else {
        None
    }
}

fn punct_exec(ts: &Vec<Tok>, i: usize, c: char) -> (r: bool)
    ensures
        r == punct_at_is(tok_views(ts@), i as int, c),
        r ==> i < ts@.len() <= usize::MAX,
{
    if i < ts.len() {
        match &ts[i] {
            Tok::Punct(p, _) => *p == c,
            _ => false,
        }
    } else {
        false
    }
}

fn prepend_word(w: String, mut rest: Vec<String>) -> (r: Vec<String>)
    ensures
        words_view(r@) == seq![w@] + words_view(rest@),
{
    let ghost rv = words_view(rest@);
    let ghost wv = w@;
    rest.insert(0, w);
    assert(words_view(rest@) =~= seq![wv] + rv);
    rest
}

fn parse_path(ts: &Vec<Tok>, i: usize) -> (r: Result<(Vec<String>, usize), String>)
    ensures
        words_res(r) == path_spec(tok_views(ts@), i as int),
    decreases ts@.len() - i,
{
    let ghost tv = tok_views(ts@);
    match word_exec(ts, i) {
        None => Err("expected identifier".to_owned()),
        Some(w) => {
            if punct_exec(ts, i + 1, ':') && punct_exec(ts, i + 2, ':') && word_exec(ts, i + 3).is_some() {
                match parse_path(ts, i + 3) {
                    Ok((rest, k)) => Ok((prepend_word(w, rest), k)),
                    Err(e) => Err(e),
                }
            } else {
                let mut v: Vec<String> = Vec::new();
                let ghost wv = w@;
                v.push(w);
                assert(words_view(v@) =~= seq![wv]);
                Ok((v, i + 1))
            }
        },
    }
}

fn parse_list_items(ts: &Vec<Tok>, j: usize) -> (r: Result<(Vec<String>, usize), String>)
    ensures
        words_res(r) == list_items(tok_views(ts@), j as int),
    decreases ts@.len() - j,
{
    if j >= ts.len() {
        return Err("expected `]`".to_owned());
    }
    if punct_exec(ts, j, ']') {
        let v: Vec<String> = Vec::new();
        assert(words_view(v@) =~= Seq::<Seq<char>>::empty());
        return Ok((v, j + 1));
    }
    match word_exec(ts, j) {
        None => Err("expected identifier".to_owned()),
        Some(w) => {
            let k = if punct_exec(ts, j + 1, ',') {
                j + 2
            } else {
                j + 1
            };
            match parse_list_items(ts, k) {
                Ok((rest, m)) => Ok((prepend_word(w, rest), m)),
                Err(e) => Err(e),
            }
        },
    }
}

fn parse_list(ts: &Vec<Tok>, i: usize) -> (r: Result<(Vec<String>, usize), String>)
    ensures
        words_res(r) == list_spec(tok_views(ts@), i as int),
{
    if punct_exec(ts, i, '[') {
        parse_list_items(ts, i + 1)
    } else {
        Err("expected `[`".to_owned())
    }
}

fn parse_map_items(ts: &Vec<Tok>, j: usize) -> (r: Result<(Vec<(String, Vec<String>)>, usize), String>)
    ensures
        entries_res(r) == map_items(tok_views(ts@), j as int),
    decreases ts@.len() - j,
{
    let ghost tv = tok_views(ts@);
    if j >= ts.len() {
        return Err("expected `}`".to_owned());
    }
    if punct_exec(ts, j, '}') {
        let v: Vec<(String, Vec<String>)> = Vec::new();
        assert(entries_view(v@) =~= Seq::<(Seq<char>, Seq<Seq<char>>)>::empty());
        return Ok((v, j + 1));
    }
    match word_exec(ts, j) {
        None => Err("expected identifier".to_owned()),
        Some(key) => {
            if !punct_exec(ts, j + 1, ':') {
                return Err("expected `:`".to_owned());
            }
            match parse_path(ts, j + 2) {
                Err(e) => Err(e),
                Ok((p, k)) => {
                    proof {
                        lemma_path_advances(tv, j + 2);
                    }
                    let k2 = if punct_exec(ts, k, ',') {
                        k + 1
                    } else {
                        k
                    };
                    match parse_map_items(ts, k2) {
                        Err(e) => Err(e),
                        Ok((mut rest, m)) => {
                            let ghost rv = entries_view(rest@);
                            let ghost ev = (key@, words_view(p@));
                            rest.insert(0, (key, p));
                            assert(entries_view(rest@) =~= seq![ev] + rv);
                            Ok((rest, m))
                        },
                    }
                },
            }
        },
    }
}

fn parse_map(ts: &Vec<Tok>, i: usize) -> (r: Result<(Vec<(String, Vec<String>)>, usize), String>)
    ensures
        entries_res(r) == map_spec(tok_views(ts@), i as int),
{
    if punct_exec(ts, i, '{') {
        parse_map_items(ts, i + 1)
    } else {
        Err("expected `{`".to_owned())
    }
}

fn parse_group_items(ts: &Vec<Tok>, j: usize) -> (r: Result<(Vec<(String, Vec<(String, Vec<String>)>)>, usize), String>)
    ensures
        groups_res(r) == group_items(tok_views(ts@), j as int),
    decreases ts@.len() - j,
{
    let ghost tv = tok_views(ts@);
    if j >= ts.len() {
        return Err("expected `}`".to_owned());
    }
    if punct_exec(ts, j, '}') {
        let v: Vec<(String, Vec<(String, Vec<String>)>)> = Vec::new();
        assert(groups_view(v@) =~= Seq::<(Seq<char>, Seq<(Seq<char>, Seq<Seq<char>>)>)>::empty());
        return Ok((v, j + 1));
    }
    match word_exec(ts, j) {
        None => Err("expected identifier".to_owned()),
        Some(module) => {
            if !punct_exec(ts, j + 1, ':') {
                return Err("expected `:`".to_owned());
            }
            match parse_map(ts, j + 2) {
                Err(e) => Err(e),
                Ok((m, k)) => {
                    proof {
                        lemma_map_items_advance(tv, j + 3);
                    }
                    let k2 = if punct_exec(ts, k, ',') {
                        k + 1
                    } else {
                        k
                    };
                    match parse_group_items(ts, k2) {
                        Err(e) => Err(e),
                        Ok((mut rest, n)) => {
                            let ghost rv = groups_view(rest@);
                            let ghost gv = (module@, entries_view(m@));
                            rest.insert(0, (module, m));
                            assert(groups_view(rest@) =~= seq![gv] + rv);
                            Ok((rest, n))
                        },
                    }
                },
            }
        },
    }
}

pub open spec fn input_res(r: Result<AuthRoutesInput, String>) -> Result<RoutesInputView, Seq<char>> {
    match r {
        Ok(v) => Ok(v@),
        Err(e) => Err(e@),
    }
}

fn parse_options(ts: &Vec<Tok>, i: usize, acc: AuthRoutesInput) -> (r: Result<AuthRoutesInput, String>)
    ensures
        input_res(r) == options_spec(tok_views(ts@), i as int, acc@),
    decreases ts@.len() - i,
{
    let ghost tv = tok_views(ts@);
    if i >= ts.len() {
        return Ok(acc);
    }
    if !punct_exec(ts, i, ',') {
        return Err("unexpected token".to_owned());
    }
    let key = match word_exec(ts, i + 1) {
        None => {
            return Err("expected identifier".to_owned());
        },
        Some(k) => k,
    };
    if !punct_exec(ts, i + 2, ':') {
        return Err("expected `:`".to_owned());
    }
    let k = key.as_str();
    if crate::text::str_eq(k, "only") || crate::text::str_eq(k, "skip") {
        match parse_list(ts, i + 3) {
            Err(e) => Err(e),
            Ok((l, next)) => {
                proof {
                    lemma_list_items_advance(tv, i + 4);
                }
                if crate::text::str_eq(k, "only") {
                    let ghost lv = words_view(l@);
                    let acc2 = AuthRoutesInput { only: Some(l), ..acc };
                    assert(acc2@ == RoutesInputView { only: Some(lv), ..acc@ });
                    parse_options(ts, next, acc2)
                } else {
                    let ghost lv = words_view(l@);
                    let acc2 = AuthRoutesInput { skip: Some(l), ..acc };
                    assert(acc2@ == RoutesInputView { skip: Some(lv), ..acc@ });
                    parse_options(ts, next, acc2)
                }
            },
        }
    } else if crate::text::str_eq(k, "prefix") {
        match lit_exec(ts, i + 3) {
            None => Err("expected string literal".to_owned()),
            Some(v) => {
                let ghost vv = v@;
                let acc2 = AuthRoutesInput { prefix: Some(v), ..acc };
                assert(acc2@ == RoutesInputView { prefix: Some(vv), ..acc@ });
                parse_options(ts, i + 4, acc2)
            },
        }
    } else if crate::text::str_eq(k, "controllers") {
        match parse_map(ts, i + 3) {
            Err(e) => Err(e),
            Ok((m, next)) => {
                proof {
                    lemma_map_items_advance(tv, i + 4);
                }
                let ghost mv = entries_view(m@);
                let acc2 = AuthRoutesInput { controllers: m, ..acc };
                assert(acc2@ == RoutesInputView { controllers: mv, ..acc@ });
                parse_options(ts, next, acc2)
            },
        }
    } else if crate::text::str_eq(k, "actions") {
        if !punct_exec(ts, i + 3, '{') {
            return Err("expected `{`".to_owned());
        }
        match parse_group_items(ts, i + 4) {
            Err(e) => Err(e),
            Ok((g, next)) => {
                proof {
                    lemma_group_items_advance(tv, i + 4);
                }
                let ghost gv = groups_view(g@);
                let acc2 = AuthRoutesInput { actions: g, ..acc };
                assert(acc2@ == RoutesInputView { actions: gv, ..acc@ });
                parse_options(ts, next, acc2)
            },
        }
    } else {
        let mut msg = chars_of("unknown auth_routes option: ");
        crate::text::push_str(&mut msg, k);
        Err(string_of(&msg))
    }
}

impl AuthRoutesInput {
    /// Parses the tokens of an `auth_routes!(..)` invocation.
    pub fn parse(ts: &Vec<Tok>) -> (r: Result<AuthRoutesInput, String>)
        ensures
            input_res(r) == parse_spec(tok_views(ts@)),
    {
        match word_exec(ts, 0) {
            None => Err("expected identifier".to_owned()),
            Some(u) => {
                let acc = AuthRoutesInput {
                    user: u,
                    only: None,
                    skip: None,
                    prefix: None,
                    controllers: Vec::new(),
                    actions: Vec::new(),
                };
                assert(acc@.controllers =~= Seq::<(Seq<char>, Seq<Seq<char>>)>::empty());
                assert(acc@.actions =~= Seq::<(Seq<char>, Seq<(Seq<char>, Seq<Seq<char>>)>)>::empty());
                parse_options(ts, 1, acc)
            },
        }
    }
}

/// The value for `key` among `entries`; a later entry replaces an earlier
/// one, as in a map.
pub open spec fn lookup_last<X>(entries: Seq<(Seq<char>, X)>, key: Seq<char>) -> Option<X>
    decreases entries.len(),
{
    if entries.len() == 0 {
        None
    } else if entries.last().0 == key {
        Some(entries.last().1)
    } else {
        lookup_last(entries.drop_last(), key)
    }
}

/// `::` as two tokens.
pub open spec fn path_sep() -> Seq<TokView> {
    seq![TokView::Punct(':', true), TokView::Punct(':', false)]
}

/// The tokens of a path `a::b::C`.
pub open spec fn path_toks(words: Seq<Seq<char>>) -> Seq<TokView>
    decreases words.len(),
{
    if words.len() == 0 {
        seq![]
    } else if words.len() == 1 {
        seq![TokView::Ident(words[0])]
    } else {
        path_toks(words.drop_last()) + path_sep() + seq![TokView::Ident(words.last())]
    }
}

/// `compile_error!("msg")`.
pub open spec fn compile_error_toks(msg: Seq<char>) -> Seq<TokView> {
    seq![
        TokView::Ident("compile_error"@),
        TokView::Punct('!', false),
        TokView::Punct('(', false),
        TokView::Lit(msg),
        TokView::Punct(')', false),
    ]
}

/// `doido_auth::controllers::<name>[::<user>]::<action>`.
pub open spec fn controller_path(name: Seq<char>, user: Option<Seq<char>>, action: Seq<char>) -> Seq<TokView> {
    let head = seq![TokView::Ident("doido_auth"@)] + path_sep() + seq![TokView::Ident("controllers"@)] + path_sep()
        + seq![TokView::Ident(name)] + path_sep();
    match user {
        Some(u) => head + seq![
            TokView::Punct('<', false),
            TokView::Ident(u),
            TokView::Punct('>', false),
        ] + path_sep() + seq![TokView::Ident(action)],
        None => head + seq![TokView::Ident(action)],
    }
}

/// The built-in controller handling `action` of `module`.
pub open spec fn builtin_handler(module: Seq<char>, action: Seq<char>, user: Seq<char>) -> Seq<TokView> {
    if module == "sessions"@ {
        controller_path("AuthSessions"@, Some(user), action)
    } else if module == "registrations"@ {
        controller_path("AuthRegistrations"@, Some(user), action)
    } else if module == "passwords"@ {
        controller_path("AuthPasswords"@, Some(user), action)
    } else if module == "two_factor"@ {
        controller_path("AuthTwoFactor"@, Some(user), action)
    } else if module == "oauth"@ {
        controller_path("AuthOauth"@, None, action)
    } else {
        compile_error_toks("unknown auth module `"@ + module + "`"@)
    }
}

/// The handler of `action` of `module`: an `actions:` override, else the
/// `controllers:` override's action, else the built-in controller's.
pub open spec fn handler_spec(module: Seq<char>, action: Seq<char>, input: RoutesInputView) -> Seq<TokView> {
    let per_action = match lookup_last(input.actions, module) {
        Some(m) => lookup_last(m, action),
        None => None,
    };
    match per_action {
        Some(p) => path_toks(p),
        None => match lookup_last(input.controllers, module) {
            Some(c) => path_toks(c) + path_sep() + seq![TokView::Ident(action)],
            None => builtin_handler(module, action, input.user),
        },
    }
}

/// The macro name of an HTTP method.
pub open spec fn method_macro(method: Seq<char>) -> Seq<char> {
    if method == "GET"@ {
        "get"@
    } else if method == "POST"@ {
        "post"@
    } else if method == "DELETE"@ {
        "delete"@
    } else if method == "PATCH"@ {
        "patch"@
    } else {
        method
    }
}

/// `get!("/path", handler);` for route `r`.
pub open spec fn decl_toks(r: RouteView, input: RoutesInputView) -> Seq<TokView> {
    seq![
        TokView::Ident(method_macro(r.method)),
        TokView::Punct('!', false),
        TokView::Punct('(', false),
        TokView::Lit(r.path),
        TokView::Punct(',', false),
    ] + handler_spec(r.module, r.action, input) + seq![TokView::Punct(')', false), TokView::Punct(';', false)]
}

/// The declarations of `routes`, in order.
pub open spec fn decls_of(routes: Seq<RouteView>, input: RoutesInputView) -> Seq<TokView>
    decreases routes.len(),
{
    if routes.len() == 0 {
        seq![]
    } else {
        decls_of(routes.drop_last(), input) + decl_toks(routes.last(), input)
    }
}

/// The routes an invocation mounts.
pub open spec fn routes_of(input: RoutesInputView, api_only: bool) -> Seq<RouteView> {
    mounted_routes(
        route_table(
            match input.prefix {
                Some(p) => p,
                None => "/users"@,
            },
        ),
        input.only,
        input.skip,
        api_only,
    )
}

/// What an `auth_routes!(..)` invocation stands for inside a routes block:
/// one declaration per mounted route, or the parse error.
pub open spec fn expand_decls_spec(ts: Seq<TokView>, api_only: bool) -> Result<Seq<TokView>, Seq<char>> {
    match parse_spec(ts) {
        Ok(v) => Ok(decls_of(routes_of(v, api_only), v)),
        Err(e) => Err(e),
    }
}

fn ident(s: &str) -> (t: Tok)
    ensures
        t@ == TokView::Ident(s@),
{
    Tok::Ident(s.to_owned())
}

fn push_toks(out: &mut Vec<Tok>, more: Vec<Tok>)
    ensures
        tok_views(final(out)@) == tok_views(old(out)@) + tok_views(more@),
{
    let ghost start = tok_views(out@);
    let ghost all = tok_views(more@);
    let mut rest = more;
    assert(all.skip(0) =~= all);
    while rest.len() > 0
        invariant
            start + all == tok_views(out@) + tok_views(rest@),
        decreases rest@.len(),
    {
        let ghost o = tok_views(out@);
        let ghost r = tok_views(rest@);
        let t = rest.remove(0);
        assert(tok_views(rest@) =~= r.drop_first());
        out.push(t);
        assert(tok_views(out@) =~= o.push(r[0]));
        assert(o.push(r[0]) + r.drop_first() =~= o + r);
    }
    assert(tok_views(rest@) =~= Seq::<TokView>::empty());
    assert(tok_views(out@) + Seq::<TokView>::empty() =~= tok_views(out@));
}

fn sep_toks() -> (r: Vec<Tok>)
    ensures
        tok_views(r@) == path_sep(),
{
    let mut v: Vec<Tok> = Vec::new();
    v.push(Tok::Punct(':', true));
    v.push(Tok::Punct(':', false));
    assert(tok_views(v@) =~= path_sep());
    v
}

fn one(t: Tok) -> (r: Vec<Tok>)
    ensures
        tok_views(r@) == seq![t@],
{
    let ghost tv = t@;
    let mut v: Vec<Tok> = Vec::new();
    v.push(t);
    assert(tok_views(v@) =~= seq![tv]);
    v
}

fn path_toks_exec(words: &Vec<String>) -> (r: Vec<Tok>)
    ensures
        tok_views(r@) == path_toks(words_view(words@)),
{
    let ghost wv = words_view(words@);
    let mut out: Vec<Tok> = Vec::new();
    let mut i: usize = 0;
    assert(tok_views(out@) =~= path_toks(wv.take(0)));
    while i < words.len()
        invariant
            i <= words@.len(),
            wv == words_view(words@),
            tok_views(out@) == path_toks(wv.take(i as int)),
        decreases words@.len() - i,
    {
        let ghost before = wv.take(i as int);
        assert(wv.take(i + 1).drop_last() =~= before);
        if i > 0 {
            push_toks(&mut out, sep_toks());
        }
        push_toks(&mut out, one(ident(words[i].as_str())));
        if i == 0 {
            assert(tok_views(out@) =~= path_toks(wv.take(1)));
        }
        i += 1;
    }
    assert(wv.take(words@.len() as int) =~= wv);
    out
}

fn lookup_entries<'a>(entries: &'a Vec<(String, Vec<String>)>, key: &str) -> (r: Option<&'a Vec<String>>)
    ensures
        match r {
            Some(v) => lookup_last(entries_view(entries@), key@) == Some(words_view(v@)),
            None => lookup_last(entries_view(entries@), key@) is None,
        },
{
    let ghost ev = entries_view(entries@);
    let mut i = entries.len();
    assert(ev.take(ev.len() as int) =~= ev);
    while i > 0
        invariant
            i <= entries@.len(),
            ev == entries_view(entries@),
            lookup_last(ev, key@) == lookup_last(ev.take(i as int), key@),
        decreases i,
    {
        let ghost t = ev.take(i as int);
        assert(t.drop_last() =~= ev.take(i - 1));
        assert(t.last() == entry_view(entries@[i - 1]));
        if str_eq(entries[i - 1].0.as_str(), key) {
            return Some(&entries[i - 1].1);
        }
        i -= 1;
    }
    None
}

fn lookup_groups<'a>(groups: &'a Vec<(String, Vec<(String, Vec<String>)>)>, key: &str) -> (r: Option<&'a Vec<(String, Vec<String>)>>)
    ensures
        match r {
            Some(v) => lookup_last(groups_view(groups@), key@) == Some(entries_view(v@)),
            None => lookup_last(groups_view(groups@), key@) is None,
        },
{
    let ghost gv = groups_view(groups@);
    let mut i = groups.len();
    assert(gv.take(gv.len() as int) =~= gv);
    while i > 0
        invariant
            i <= groups@.len(),
            gv == groups_view(groups@),
            lookup_last(gv, key@) == lookup_last(gv.take(i as int), key@),
        decreases i,
    {
        let ghost t = gv.take(i as int);
        assert(t.drop_last() =~= gv.take(i - 1));
        assert(t.last() == group_view(groups@[i - 1]));
        if str_eq(groups[i - 1].0.as_str(), key) {
            return Some(&groups[i - 1].1);
        }
        i -= 1;
    }
    None
}

fn controller_path_exec(name: &str, user: Option<&str>, action: &str) -> (r: Vec<Tok>)
    ensures
        tok_views(r@) == controller_path(name@, match user {
            Some(u) => Some(u@),
            None => None,
        }, action@),
{
    let mut out = one(ident("doido_auth"));
    push_toks(&mut out, sep_toks());
    push_toks(&mut out, one(ident("controllers")));
    push_toks(&mut out, sep_toks());
    push_toks(&mut out, one(ident(name)));
    push_toks(&mut out, sep_toks());
    let ghost head = tok_views(out@);
    match user {
        Some(u) => {
            push_toks(&mut out, one(Tok::Punct('<', false)));
            push_toks(&mut out, one(ident(u)));
            push_toks(&mut out, one(Tok::Punct('>', false)));
            push_toks(&mut out, sep_toks());
            push_toks(&mut out, one(ident(action)));
        },
        None => {
            push_toks(&mut out, one(ident(action)));
        },
    }
    assert(tok_views(out@) =~= controller_path(name@, match user {
        Some(u) => Some(u@),
        None => None,
    }, action@));
    out
}

fn builtin_exec(module: &str, action: &str, user: &str) -> (r: Vec<Tok>)
    ensures
        tok_views(r@) == builtin_handler(module@, action@, user@),
{
    if str_eq(module, "sessions") {
        controller_path_exec("AuthSessions", Some(user), action)
    } else if str_eq(module, "registrations") {
        controller_path_exec("AuthRegistrations", Some(user), action)
    } else if str_eq(module, "passwords") {
        controller_path_exec("AuthPasswords", Some(user), action)
    } else if str_eq(module, "two_factor") {
        controller_path_exec("AuthTwoFactor", Some(user), action)
    } else if str_eq(module, "oauth") {
        controller_path_exec("AuthOauth", None, action)
    } else {
        let mut msg = chars_of("unknown auth module `");
        push_str(&mut msg, module);
        push_str(&mut msg, "`");
        let mut out = one(ident("compile_error"));
        push_toks(&mut out, one(Tok::Punct('!', false)));
        push_toks(&mut out, one(Tok::Punct('(', false)));
        push_toks(&mut out, one(Tok::Lit(string_of(&msg))));
        push_toks(&mut out, one(Tok::Punct(')', false)));
        assert(tok_views(out@) =~= builtin_handler(module@, action@, user@));
        out
    }
}

fn handler_exec(module: &str, action: &str, input: &AuthRoutesInput) -> (r: Vec<Tok>)
    ensures
        tok_views(r@) == handler_spec(module@, action@, input@),
{
    match lookup_groups(&input.actions, module) {
        Some(m) => match lookup_entries(m, action) {
            Some(p) => {
                return path_toks_exec(p);
            },
            None => {},
        },
        None => {},
    }
    match lookup_entries(&input.controllers, module) {
        Some(c) => {
            let mut out = path_toks_exec(c);
            push_toks(&mut out, sep_toks());
            push_toks(&mut out, one(ident(action)));
            out
        },
        None => builtin_exec(module, action, input.user.as_str()),
    }
}

fn method_macro_exec(method: &str) -> (r: &str)
    ensures
        r@ == method_macro(method@),
{
    if str_eq(method, "GET") {
        "get"
    } else if str_eq(method, "POST") {
        "post"
    } else if str_eq(method, "DELETE") {
        "delete"
    } else if str_eq(method, "PATCH") {
        "patch"
    } else {
        method
    }
}

fn decl_exec(r: &RouteSpec, input: &AuthRoutesInput) -> (out: Vec<Tok>)
    ensures
        tok_views(out@) == decl_toks(r@, input@),
{
    let mut out = one(ident(method_macro_exec(r.method)));
    push_toks(&mut out, one(Tok::Punct('!', false)));
    push_toks(&mut out, one(Tok::Punct('(', false)));
    push_toks(&mut out, one(Tok::Lit(r.path.clone())));
    push_toks(&mut out, one(Tok::Punct(',', false)));
    push_toks(&mut out, handler_exec(r.module, r.action, input));
    push_toks(&mut out, one(Tok::Punct(')', false)));
    push_toks(&mut out, one(Tok::Punct(';', false)));
    assert(tok_views(out@) =~= decl_toks(r@, input@));
    out
}

/// The route declarations an `auth_routes!(..)` invocation's tokens stand
/// for, or why they do not parse.
pub fn expand_auth_route_decls(ts: &Vec<Tok>, api_only: bool) -> (r: Result<Vec<Tok>, String>)
    ensures
        match r {
            Ok(d) => expand_decls_spec(tok_views(ts@), api_only) == Ok::<Seq<TokView>, Seq<char>>(tok_views(d@)),
            Err(e) => expand_decls_spec(tok_views(ts@), api_only) == Err::<Seq<TokView>, Seq<char>>(e@),
        },
{
    let input = match AuthRoutesInput::parse(ts) {
        Ok(v) => v,
        Err(e) => {
            return Err(e);
        },
    };
    let routes = plan_auth_routes(
        match &input.prefix {
            Some(p) => Some(p.as_str()),
            None => None,
        },
        &input.only,
        &input.skip,
        api_only,
    );
    let ghost rs = routes_of(input@, api_only);
    assert(list_view(input.only) == input@.only) by {
        match input.only {
            Some(v) => {
                assert(v@.map_values(|s: String| s@) =~= words_view(v@));
            },
            None => {},
        }
    }
    assert(list_view(input.skip) == input@.skip) by {
        match input.skip {
            Some(v) => {
                assert(v@.map_values(|s: String| s@) =~= words_view(v@));
            },
            None => {},
        }
    }
    assert(routes@.map_values(|s: RouteSpec| s@) == rs);
    let mut out: Vec<Tok> = Vec::new();
    let mut i: usize = 0;
    assert(rs.take(0) =~= Seq::<RouteView>::empty());
    assert(tok_views(out@) =~= Seq::<TokView>::empty());
    while i < routes.len()
        invariant
            i <= routes@.len(),
            rs == routes@.map_values(|s: RouteSpec| s@),
            tok_views(out@) == decls_of(rs.take(i as int), input@),
        decreases routes@.len() - i,
    {
        assert(rs.take(i + 1).drop_last() =~= rs.take(i as int));
        assert(rs[i as int] == routes@[i as int]@);
        push_toks(&mut out, decl_exec(&routes[i], &input));
        i += 1;
    }
    assert(rs.take(routes@.len() as int) =~= rs);
    Ok(out)
}

/// Index of the `)` that closes the group open at depth `depth` when
/// scanning from `j`, or -1.
pub open spec fn close_from(ts: Seq<TokView>, j: int, depth: int) -> int
    decreases ts.len() - j,
{
    if j < 0 || j >= ts.len() {
        -1
    } else if punct_at_is(ts, j, '(') {
        close_from(ts, j + 1, depth + 1)
    } else if punct_at_is(ts, j, ')') {
        if depth == 1 {
            j
        } else {
            close_from(ts, j + 1, depth - 1)
        }
    } else {
        close_from(ts, j + 1, depth)
    }
}

pub proof fn lemma_close_from(ts: Seq<TokView>, j: int, depth: int)
    ensures
        close_from(ts, j, depth) == -1 || (j <= close_from(ts, j, depth) < ts.len()),
    decreases ts.len() - j,
{
    if 0 <= j < ts.len() {
        if punct_at_is(ts, j, '(') {
            lemma_close_from(ts, j + 1, depth + 1);
        } else if punct_at_is(ts, j, ')') {
            if depth != 1 {
                lemma_close_from(ts, j + 1, depth - 1);
            }
        } else {
            lemma_close_from(ts, j + 1, depth);
        }
    }
}

/// Whether `auth_routes!( .. )`, with its closing parenthesis, starts at `i`.
pub open spec fn auth_call_at(ts: Seq<TokView>, i: int) -> bool {
    &&& word_at(ts, i) == Some("auth_routes"@)
    &&& punct_at_is(ts, i + 1, '!')
    &&& punct_at_is(ts, i + 2, '(')
    &&& close_from(ts, i + 3, 1) >= 0
}

/// What one `auth_routes!(..)` call becomes: its declarations, or a
/// `compile_error!` with the parse error.
pub open spec fn call_toks(inner: Seq<TokView>, api_only: bool) -> Seq<TokView> {
    match expand_decls_spec(inner, api_only) {
        Ok(d) => d,
        Err(m) => compile_error_toks(m) + seq![TokView::Punct(';', false)],
    }
}

/// The tokens of a routes block from `i` with every `auth_routes!(..)` call
/// (and the `;` after it) replaced by what it stands for.
pub open spec fn body_from(ts: Seq<TokView>, i: int, api_only: bool) -> Seq<TokView>
    decreases ts.len() - i,
{
    if i < 0 || i >= ts.len() {
        seq![]
    } else if auth_call_at(ts, i) {
        let c = close_from(ts, i + 3, 1);
        proof {
            lemma_close_from(ts, i + 3, 1);
        }
        let next = if punct_at_is(ts, c + 1, ';') {
            c + 2
        } else {
            c + 1
        };
        call_toks(ts.subrange(i + 3, c), api_only) + body_from(ts, next, api_only)
    } else {
        seq![ts[i]] + body_from(ts, i + 1, api_only)
    }
}

/// The text of a token.
pub open spec fn tok_text(t: TokView) -> Seq<char> {
    match t {
        TokView::Ident(w) => w,
        TokView::Punct(c, _) => seq![c],
        TokView::Lit(v) => seq!['"'] + v + seq!['"'],
    }
}

/// A joint punctuation character is printed against what follows it.
pub open spec fn glued(t: TokView) -> bool {
    t matches TokView::Punct(_, j) && j
}

/// The text of the first `n` tokens, separated by spaces except after
/// joint punctuation.
pub open spec fn render_prefix(ts: Seq<TokView>, n: int) -> Seq<char>
    decreases n,
{
    if n <= 0 {
        seq![]
    } else {
        render_prefix(ts, n - 1) + (if n >= 2 && !glued(ts[n - 2]) {
            seq![' ']
        } else {
            seq![]
        }) + tok_text(ts[n - 1])
    }
}

pub open spec fn render_spec(ts: Seq<TokView>) -> Seq<char> {
    render_prefix(ts, ts.len() as int)
}

fn clone_tok(t: &Tok) -> (r: Tok)
    ensures
        r@ == t@,
{
    match t {
        Tok::Ident(w) => Tok::Ident(w.clone()),
        Tok::Punct(c, j) => Tok::Punct(*c, *j),
        Tok::Lit(v) => Tok::Lit(v.clone()),
    }
}

fn slice_toks(ts: &Vec<Tok>, a: usize, b: usize) -> (r: Vec<Tok>)
    requires
        a <= b <= ts@.len(),
    ensures
        tok_views(r@) == tok_views(ts@).subrange(a as int, b as int),
{
    let mut out: Vec<Tok> = Vec::new();
    let mut k = a;
    while k < b
        invariant
            a <= k <= b,
            b <= ts@.len(),
            tok_views(out@) == tok_views(ts@).subrange(a as int, k as int),
        decreases b - k,
    {
        let ghost before = out@;
        let t = clone_tok(&ts[k]);
        assert(t@ == tok_views(ts@)[k as int]);
        out.push(t);
        assert(out@ == before.push(t));
        assert(tok_views(out@) =~= tok_views(before).push(t@));
        assert(tok_views(out@) =~= tok_views(ts@).subrange(a as int, k + 1));
        k += 1;
    }
    out
}

/// Index of the `)` closing the group whose contents start at `start`.
fn find_close(ts: &Vec<Tok>, start: usize) -> (r: Option<usize>)
    requires
        1 <= start <= ts@.len(),
    ensures
        match r {
            Some(c) => close_from(tok_views(ts@), start as int, 1) == c as int,
            None => close_from(tok_views(ts@), start as int, 1) == -1,
        },
{
    let ghost tv = tok_views(ts@);
    let n = ts.len();
    let mut j = start;
    let mut depth: usize = 1;
    while j < ts.len()
        invariant
            n == ts@.len(),
            1 <= start <= j <= ts@.len(),
            1 <= depth <= j - start + 1,
            tv == tok_views(ts@),
            close_from(tv, start as int, 1) == close_from(tv, j as int, depth as int),
        decreases ts@.len() - j,
    {
        if punct_exec(ts, j, '(') {
            depth += 1;
        } else if punct_exec(ts, j, ')') {
            if depth == 1 {
                return Some(j);
            }
            depth -= 1;
        }
        j += 1;
    }
    None
}

/// A routes block's tokens with each `auth_routes!(..)` call replaced by its
/// route declarations.
pub fn expand_body(ts: &Vec<Tok>, api_only: bool) -> (r: Vec<Tok>)
    ensures
        tok_views(r@) == body_from(tok_views(ts@), 0, api_only),
{
    let ghost tv = tok_views(ts@);
    let mut out: Vec<Tok> = Vec::new();
    let mut i: usize = 0;
    assert(tok_views(out@) + body_from(tv, 0, api_only) =~= body_from(tv, 0, api_only));
    while i < ts.len()
        invariant
            i <= ts@.len(),
            tv == tok_views(ts@),
            body_from(tv, 0, api_only) == tok_views(out@) + body_from(tv, i as int, api_only),
        decreases ts@.len() - i,
    {
        let ghost o = tok_views(out@);
        let mut call: Option<usize> = None;
        if punct_exec(ts, i + 1, '!') && punct_exec(ts, i + 2, '(') {
            match word_exec(ts, i) {
                Some(w) => {
                    if str_eq(w.as_str(), "auth_routes") {
                        call = find_close(ts, i + 3);
                    }
                },
                None => {},
            }
        }
        match call {
            Some(c) => {
                proof {
                    lemma_close_from(tv, i + 3, 1);
                    assert(auth_call_at(tv, i as int));
                }
                let inner = slice_toks(ts, i + 3, c);
                let piece = match expand_auth_route_decls(&inner, api_only) {
                    Ok(d) => d,
                    Err(m) => {
                        let mut e = one(ident("compile_error"));
                        push_toks(&mut e, one(Tok::Punct('!', false)));
                        push_toks(&mut e, one(Tok::Punct('(', false)));
                        push_toks(&mut e, one(Tok::Lit(m)));
                        push_toks(&mut e, one(Tok::Punct(')', false)));
                        push_toks(&mut e, one(Tok::Punct(';', false)));
                        e
                    },
                };
                assert(tok_views(piece@) == call_toks(tv.subrange(i + 3, c as int), api_only));
                push_toks(&mut out, piece);
                let next = if punct_exec(ts, c + 1, ';') {
                    c + 2
                } else {
                    c + 1
                };
                assert(o + (call_toks(tv.subrange(i + 3, c as int), api_only) + body_from(tv, next as int, api_only))
                    =~= tok_views(out@) + body_from(tv, next as int, api_only));
                i = next;
            },
            None => {
                proof {
                    if auth_call_at(tv, i as int) {
                        assert(word_at(tv, i as int) is Some);
                    }
                }
                push_toks(&mut out, one(clone_tok(&ts[i])));
                assert(o + (seq![tv[i as int]] + body_from(tv, i + 1, api_only)) =~= tok_views(out@) + body_from(tv, i + 1, api_only));
                i += 1;
            },
        }
    }
    assert(body_from(tv, i as int, api_only) =~= Seq::<TokView>::empty());
    assert(tok_views(out@) + Seq::<TokView>::empty() =~= tok_views(out@));
    out
}

/// Prints tokens, a space between two tokens unless the first is joint
/// punctuation.
pub fn render(ts: &Vec<Tok>) -> (r: String)
    ensures
        r@ == render_spec(tok_views(ts@)),
{
    let ghost tv = tok_views(ts@);
    let mut out: Vec<char> = Vec::new();
    let mut i: usize = 0;
    while i < ts.len()
        invariant
            i <= ts@.len(),
            tv == tok_views(ts@),
            out@ == render_prefix(tv, i as int),
        decreases ts@.len() - i,
    {
        let ghost before = out@;
        if i >= 1 {
            let glue = match &ts[i - 1] {
                Tok::Punct(_, j) => *j,
                _ => false,
            };
            assert(glue == glued(tv[i - 1]));
            if !glue {
                out.push(' ');
            }
        }
        let ghost mid = out@;
        match &ts[i] {
            Tok::Ident(w) => push_str(&mut out, w.as_str()),
            Tok::Punct(c, _) => out.push(*c),
            Tok::Lit(v) => {
                out.push('"');
                push_str(&mut out, v.as_str());
                out.push('"');
            },
        }
        assert(out@ =~= mid + tok_text(tv[i as int]));
        assert(out@ =~= render_prefix(tv, i + 1));
        i += 1;
    }
    string_of(&out)
}

/// The `doido_controller::routes! { .. }` a `doido::auth::routes!` body
/// stands for; a body that does not lex gives an empty block.
pub open spec fn expand_routes_spec(body: Seq<char>, api_only: bool) -> Seq<char> {
    let inner = match lex_spec(body) {
        Ok(ts) => body_from(ts, 0, api_only),
        Err(_) => seq![],
    };
    render_spec(
        seq![TokView::Ident("doido_controller"@)] + path_sep() + seq![
            TokView::Ident("routes"@),
            TokView::Punct('!', false),
            TokView::Punct('{', false),
        ] + inner + seq![TokView::Punct('}', false)],
    )
}

/// Expands the body of a `doido::auth::routes! { .. }` block.
pub fn expand_routes(body: &str, api_only: bool) -> (r: String)
    ensures
        r@ == expand_routes_spec(body@, api_only),
{
    let inner = match lex(body) {
        Ok(ts) => expand_body(&ts, api_only),
        Err(_) => Vec::new(),
    };
    let ghost iv = tok_views(inner@);
    let mut all = one(ident("doido_controller"));
    push_toks(&mut all, sep_toks());
    push_toks(&mut all, one(ident("routes")));
    push_toks(&mut all, one(Tok::Punct('!', false)));
    push_toks(&mut all, one(Tok::Punct('{', false)));
    push_toks(&mut all, inner);
    push_toks(&mut all, one(Tok::Punct('}', false)));
    proof {
        if lex_spec(body@) is Err {
            assert(iv =~= Seq::<TokView>::empty());
        }
    }
    assert(tok_views(all@) =~= seq![TokView::Ident("doido_controller"@)] + path_sep() + seq![
        TokView::Ident("routes"@),
        TokView::Punct('!', false),
        TokView::Punct('{', false),
    ] + iv + seq![TokView::Punct('}', false)]);
    render(&all)
}

/// `::doido_controller::RouteEntry { method: "M".to_string(), path: "P".to_string(), }`.
pub open spec fn entry_toks(r: RouteView) -> Seq<TokView> {
    path_sep() + seq![TokView::Ident("doido_controller"@)] + path_sep() + seq![
        TokView::Ident("RouteEntry"@),
        TokView::Punct('{', false),
        TokView::Ident("method"@),
        TokView::Punct(':', false),
        TokView::Lit(r.method),
        TokView::Punct('.', false),
        TokView::Ident("to_string"@),
        TokView::Punct('(', false),
        TokView::Punct(')', false),
        TokView::Punct(',', false),
        TokView::Ident("path"@),
        TokView::Punct(':', false),
        TokView::Lit(r.path),
        TokView::Punct('.', false),
        TokView::Ident("to_string"@),
        TokView::Punct('(', false),
        TokView::Punct(')', false),
        TokView::Punct(',', false),
        TokView::Punct('}', false),
    ]
}

/// The route entries, separated by commas.
pub open spec fn entries_toks(rs: Seq<RouteView>) -> Seq<TokView>
    decreases rs.len(),
{
    if rs.len() == 0 {
        seq![]
    } else if rs.len() == 1 {
        entry_toks(rs[0])
    } else {
        entries_toks(rs.drop_last()) + seq![TokView::Punct(',', false)] + entry_toks(rs.last())
    }
}

/// `.route("P", doido_controller::axum::routing::m(handler),)`.
pub open spec fn route_call_toks(r: RouteView, input: RoutesInputView) -> Seq<TokView> {
    seq![
        TokView::Punct('.', false),
        TokView::Ident("route"@),
        TokView::Punct('(', false),
        TokView::Lit(r.path),
        TokView::Punct(',', false),
        TokView::Ident("doido_controller"@),
    ] + path_sep() + seq![TokView::Ident("axum"@)] + path_sep() + seq![TokView::Ident("routing"@)] + path_sep()
        + seq![TokView::Ident(method_macro(r.method)), TokView::Punct('(', false)] + handler_spec(
        r.module,
        r.action,
        input,
    ) + seq![TokView::Punct(')', false), TokView::Punct(',', false), TokView::Punct(')', false)]
}

/// The `.route(..)` calls, in order.
pub open spec fn route_calls(rs: Seq<RouteView>, input: RoutesInputView) -> Seq<TokView>
    decreases rs.len(),
{
    if rs.len() == 0 {
        seq![]
    } else {
        route_calls(rs.drop_last(), input) + route_call_toks(rs.last(), input)
    }
}

/// The head of the standalone router around route entries `entries`: the
/// route table registration and `Router::new()`.
pub open spec fn router_head(entries: Seq<TokView>) -> Seq<TokView> {
    seq![TokView::Punct('{', false)] + path_sep() + seq![TokView::Ident("doido_controller"@)] + path_sep() + seq![
        TokView::Ident("register_routes"@),
        TokView::Punct('(', false),
    ] + path_sep() + seq![TokView::Ident("std"@)] + path_sep() + seq![
        TokView::Ident("vec"@),
        TokView::Punct('!', false),
        TokView::Punct('[', false),
    ] + entries + seq![
        TokView::Punct(']', false),
        TokView::Punct(')', false),
        TokView::Punct(';', false),
        TokView::Ident("doido_controller"@),
    ] + path_sep() + seq![TokView::Ident("axum"@)] + path_sep() + seq![TokView::Ident("Router"@)] + path_sep() + seq![
        TokView::Ident("new"@),
        TokView::Punct('(', false),
        TokView::Punct(')', false),
    ]
}

/// What a standalone `auth_routes!(..)` stands for: a block that registers
/// the mounted routes in the route table and builds their router, or a
/// `compile_error!` with the parse error.
pub open spec fn router_spec(ts: Seq<TokView>, api_only: bool) -> Seq<TokView> {
    match parse_spec(ts) {
        Ok(v) => {
            let rs = routes_of(v, api_only);
            router_head(entries_toks(rs)) + route_calls(rs, v) + seq![TokView::Punct('}', false)]
        },
        Err(m) => compile_error_toks(m),
    }
}

fn entry_exec(r: &RouteSpec) -> (out: Vec<Tok>)
    ensures
        tok_views(out@) == entry_toks(r@),
{
    let mut out = sep_toks();
    push_toks(&mut out, one(ident("doido_controller")));
    push_toks(&mut out, sep_toks());
    push_toks(&mut out, one(ident("RouteEntry")));
    push_toks(&mut out, one(Tok::Punct('{', false)));
    push_toks(&mut out, one(ident("method")));
    push_toks(&mut out, one(Tok::Punct(':', false)));
    push_toks(&mut out, one(Tok::Lit(r.method.to_owned())));
    push_toks(&mut out, one(Tok::Punct('.', false)));
    push_toks(&mut out, one(ident("to_string")));
    push_toks(&mut out, one(Tok::Punct('(', false)));
    push_toks(&mut out, one(Tok::Punct(')', false)));
    push_toks(&mut out, one(Tok::Punct(',', false)));
    push_toks(&mut out, one(ident("path")));
    push_toks(&mut out, one(Tok::Punct(':', false)));
    push_toks(&mut out, one(Tok::Lit(r.path.clone())));
    push_toks(&mut out, one(Tok::Punct('.', false)));
    push_toks(&mut out, one(ident("to_string")));
    push_toks(&mut out, one(Tok::Punct('(', false)));
    push_toks(&mut out, one(Tok::Punct(')', false)));
    push_toks(&mut out, one(Tok::Punct(',', false)));
    push_toks(&mut out, one(Tok::Punct('}', false)));
    assert(tok_views(out@) =~= entry_toks(r@));
    out
}

fn route_call_exec(r: &RouteSpec, input: &AuthRoutesInput) -> (out: Vec<Tok>)
    ensures
        tok_views(out@) == route_call_toks(r@, input@),
{
    let mut out = one(Tok::Punct('.', false));
    push_toks(&mut out, one(ident("route")));
    push_toks(&mut out, one(Tok::Punct('(', false)));
    push_toks(&mut out, one(Tok::Lit(r.path.clone())));
    push_toks(&mut out, one(Tok::Punct(',', false)));
    push_toks(&mut out, one(ident("doido_controller")));
    push_toks(&mut out, sep_toks());
    push_toks(&mut out, one(ident("axum")));
    push_toks(&mut out, sep_toks());
    push_toks(&mut out, one(ident("routing")));
    push_toks(&mut out, sep_toks());
    push_toks(&mut out, one(ident(method_macro_exec(r.method))));
    push_toks(&mut out, one(Tok::Punct('(', false)));
    push_toks(&mut out, handler_exec(r.module, r.action, input));
    push_toks(&mut out, one(Tok::Punct(')', false)));
    push_toks(&mut out, one(Tok::Punct(',', false)));
    push_toks(&mut out, one(Tok::Punct(')', false)));
    assert(tok_views(out@) =~= route_call_toks(r@, input@));
    out
}

fn assemble_router(entries: Vec<Tok>, calls: Vec<Tok>) -> (out: Vec<Tok>)
    ensures
        tok_views(out@) == router_head(tok_views(entries@)) + tok_views(calls@) + seq![TokView::Punct('}', false)],
{
    let ghost ev = tok_views(entries@);
    let ghost cv = tok_views(calls@);
    let mut out = one(Tok::Punct('{', false));
    push_toks(&mut out, sep_toks());
    push_toks(&mut out, one(ident("doido_controller")));
    push_toks(&mut out, sep_toks());
    push_toks(&mut out, one(ident("register_routes")));
    push_toks(&mut out, one(Tok::Punct('(', false)));
    push_toks(&mut out, sep_toks());
    push_toks(&mut out, one(ident("std")));
    push_toks(&mut out, sep_toks());
    push_toks(&mut out, one(ident("vec")));
    push_toks(&mut out, one(Tok::Punct('!', false)));
    push_toks(&mut out, one(Tok::Punct('[', false)));
    push_toks(&mut out, entries);
    push_toks(&mut out, one(Tok::Punct(']', false)));
    push_toks(&mut out, one(Tok::Punct(')', false)));
    push_toks(&mut out, one(Tok::Punct(';', false)));
    push_toks(&mut out, one(ident("doido_controller")));
    push_toks(&mut out, sep_toks());
    push_toks(&mut out, one(ident("axum")));
    push_toks(&mut out, sep_toks());
    push_toks(&mut out, one(ident("Router")));
    push_toks(&mut out, sep_toks());
    push_toks(&mut out, one(ident("new")));
    push_toks(&mut out, one(Tok::Punct('(', false)));
    push_toks(&mut out, one(Tok::Punct(')', false)));
    assert(tok_views(out@) =~= router_head(ev));
    push_toks(&mut out, calls);
    push_toks(&mut out, one(Tok::Punct('}', false)));
    out
}

fn router_pieces(routes: &Vec<RouteSpec>, input: &AuthRoutesInput) -> (r: (Vec<Tok>, Vec<Tok>))
    ensures
        tok_views(r.0@) == entries_toks(routes@.map_values(|s: RouteSpec| s@)),
        tok_views(r.1@) == route_calls(routes@.map_values(|s: RouteSpec| s@), input@),
{
    let ghost rs = routes@.map_values(|s: RouteSpec| s@);
    let mut entries: Vec<Tok> = Vec::new();
    let mut calls: Vec<Tok> = Vec::new();
    let mut i: usize = 0;
    assert(rs.take(0) =~= Seq::<RouteView>::empty());
    assert(tok_views(entries@) =~= Seq::<TokView>::empty());
    assert(tok_views(calls@) =~= Seq::<TokView>::empty());
    while i < routes.len()
        invariant
            i <= routes@.len(),
            rs == routes@.map_values(|s: RouteSpec| s@),
            tok_views(entries@) == entries_toks(rs.take(i as int)),
            tok_views(calls@) == route_calls(rs.take(i as int), input@),
        decreases routes@.len() - i,
    {
        assert(rs.take(i + 1).drop_last() =~= rs.take(i as int));
        assert(rs[i as int] == routes@[i as int]@);
        if i > 0 {
            push_toks(&mut entries, one(Tok::Punct(',', false)));
        }
        push_toks(&mut entries, entry_exec(&routes[i]));
        if i == 0 {
            assert(tok_views(entries@) =~= entries_toks(rs.take(1)));
        }
        push_toks(&mut calls, route_call_exec(&routes[i], input));
        i += 1;
    }
    assert(rs.take(routes@.len() as int) =~= rs);
    (entries, calls)
}

/// The standalone router an `auth_routes!(..)` invocation's tokens stand
/// for.
pub fn expand_auth_routes(ts: &Vec<Tok>, api_only: bool) -> (r: Vec<Tok>)
    ensures
        tok_views(r@) == router_spec(tok_views(ts@), api_only),
{
    let input = match AuthRoutesInput::parse(ts) {
        Ok(v) => v,
        Err(m) => {
            let mut e = one(ident("compile_error"));
            push_toks(&mut e, one(Tok::Punct('!', false)));
            push_toks(&mut e, one(Tok::Punct('(', false)));
            push_toks(&mut e, one(Tok::Lit(m)));
            push_toks(&mut e, one(Tok::Punct(')', false)));
            assert(tok_views(e@) =~= router_spec(tok_views(ts@), api_only));
            return e;
        },
    };
    let routes = plan_auth_routes(
        match &input.prefix {
            Some(p) => Some(p.as_str()),
            None => None,
        },
        &input.only,
        &input.skip,
        api_only,
    );
    assert(list_view(input.only) == input@.only) by {
        match input.only {
            Some(v) => {
                assert(v@.map_values(|s: String| s@) =~= words_view(v@));
            },
            None => {},
        }
    }
    assert(list_view(input.skip) == input@.skip) by {
        match input.skip {
            Some(v) => {
                assert(v@.map_values(|s: String| s@) =~= words_view(v@));
            },
            None => {},
        }
    }
    assert(routes@.map_values(|s: RouteSpec| s@) == routes_of(input@, api_only));
    let (entries, calls) = router_pieces(&routes, &input);
    assemble_router(entries, calls)
}

/// The ASCII lower-case form of a method name.
pub open spec fn lowered(m: Seq<char>) -> Seq<char> {
    m.map_values(|c: char| crate::generators::names::lower(c))
}

proof fn lemma_method_macro_lowered(m: Seq<char>)
    requires
        m == "GET"@ || m == "POST"@ || m == "DELETE"@ || m == "PATCH"@,
    ensures
        method_macro(m) == lowered(m),
{
    reveal_strlit("GET");
    reveal_strlit("POST");
    reveal_strlit("DELETE");
    reveal_strlit("PATCH");
    reveal_strlit("get");
    reveal_strlit("post");
    reveal_strlit("delete");
    reveal_strlit("patch");
    assert(method_macro(m) =~= lowered(m));
}

/// Every route of the auth table is declared with the macro, and mounted
/// with the `axum::routing` function, named by its HTTP method in lower
/// case (`PATCH` as `patch!` / `routing::patch`).
pub proof fn route_macros_lower_their_methods(prefix: Seq<char>, input: RoutesInputView, k: int)
    requires
        0 <= k < route_table(prefix).len(),
    ensures
        decl_toks(route_table(prefix)[k], input)[0] == TokView::Ident(lowered(route_table(prefix)[k].method)),
        route_call_toks(route_table(prefix)[k], input)[14] == TokView::Ident(
            lowered(route_table(prefix)[k].method),
        ),
{
    let r = route_table(prefix)[k];
    lemma_method_macro_lowered(r.method);
}

} // verus!
