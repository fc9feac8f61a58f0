//! The example chat application's controllers: what their actions decide
//! once the signed-in user and the stored rows are known.

use vstd::prelude::*;
use crate::text::chars_of;
use crate::controllers::{Reply, ReplyView};

verus! {

/// `GET /login`, `/chat`, `/chat/{id}`.
pub struct ChatController;

/// `/conversations` and their messages.
pub struct ConversationsController;

/// `GET /`.
pub struct HelloController;

/// `GET /users`.
pub struct UsersController;

/// The body of `POST /conversations`.
pub struct CreateConversationForm {
    pub recipient_id: i64,
}

/// A conversation and who takes part in it.
pub struct ConversationPayload {
    pub id: i64,
    pub participant_ids: Vec<i64>,
}

/// A user as listed to others.
pub struct UserSummary {
    pub id: i64,
    pub email: String,
}

pub open spec fn is_digit(c: char) -> bool {
    '0' <= c && c <= '9'
}

/// The value of a run of decimal digits.
pub open spec fn digits_value(s: Seq<char>) -> int
    decreases s.len(),
{
    if s.len() == 0 {
        0
    } else {
        digits_value(s.drop_last()) * 10 + (s.last() as int - '0' as int)
    }
}

/// Every character is a decimal digit.
pub open spec fn all_digits(s: Seq<char>) -> bool {
    forall|i: int| 0 <= i < s.len() ==> is_digit(#[trigger] s[i])
}

/// `s` without a leading sign.
pub open spec fn unsigned_part(s: Seq<char>) -> Seq<char> {
    if s.len() > 0 && (s[0] == '-' || s[0] == '+') {
        s.drop_first()
    } else {
        s
    }
}

/// What `str::parse::<i64>` gives: an optional sign, then at least one
/// digit and nothing else, within the range of `i64`.
pub open spec fn parse_i64_spec(s: Seq<char>) -> Option<int> {
    let neg = s.len() > 0 && s[0] == '-';
    let body = unsigned_part(s);
    if body.len() == 0 || !all_digits(body) {
        None
    } else {
        let v = if neg {
            -digits_value(body)
        } else {
            digits_value(body)
        };
        if i64::MIN <= v <= i64::MAX {
            Some(v)
        } else {
            None
        }
    }
}

/// The `{id}` route parameter as a number, 0 when absent or not a number.
pub open spec fn id_param(param: Option<Seq<char>>) -> int {
    match param {
        Some(p) => match parse_i64_spec(p) {
            Some(v) => v,
            None => 0,
        },
        None => 0,
    }
}

proof fn lemma_digits_nonneg(s: Seq<char>)
    requires
        forall|i: int| 0 <= i < s.len() ==> is_digit(#[trigger] s[i]),
    ensures
        digits_value(s) >= 0,
    decreases s.len(),
{
    if s.len() > 0 {
        lemma_digits_nonneg(s.drop_last());
    }
}

/// Past this bound a digit run is outside `i64` whatever its sign.
pub open spec fn cap() -> int {
    9223372036854775809
}

/// `str::parse::<i64>`.
pub fn parse_i64(s: &str) -> (r: Option<i64>)
    ensures
        match r {
            Some(v) => parse_i64_spec(s@) == Some(v as int),
            None => parse_i64_spec(s@) is None,
        },
{
    let cs = chars_of(s);
    let n = cs.len();
    let neg = n > 0 && cs[0] == '-';
    let start: usize = if n > 0 && (cs[0] == '-' || cs[0] == '+') { 1 } else { 0 };
    let ghost body = if n > 0 && (cs@[0] == '-' || cs@[0] == '+') {
        s@.drop_first()
    } else {
        s@
    };
    assert(body =~= cs@.skip(start as int));
    if start == n {
        return None;
    }
    let mut acc: i128 = 0;
    let mut i: usize = start;
    while i < n
        invariant
            start <= i <= n,
            n == cs@.len(),
            cs@ == s@,
            neg == (s@.len() > 0 && s@[0] == '-'),
            start == (if s@.len() > 0 && (s@[0] == '-' || s@[0] == '+') { 1int } else { 0int }),
            body == unsigned_part(s@),
            body == cs@.skip(start as int),
            forall|k: int| start <= k < i ==> is_digit(#[trigger] cs@[k]),
            acc == if digits_value(cs@.subrange(start as int, i as int)) >= cap() {
                cap()
            } else {
                digits_value(cs@.subrange(start as int, i as int))
            },
            0 <= acc <= cap(),
        decreases n - i,
    {
        let c = cs[i];
        if !('0' <= c && c <= '9') {
            assert(!is_digit(body[i - start]));
            assert(!all_digits(unsigned_part(s@)));
            return None;
        }
        let d: i128 = (c as u32 - '0' as u32) as i128;
        let ghost prev = cs@.subrange(start as int, i as int);
        let ghost next = cs@.subrange(start as int, i + 1);
        assert(next.drop_last() =~= prev);
        proof {
            lemma_digits_nonneg(prev);
        }
        if acc >= 9223372036854775809 {
            acc = 9223372036854775809;
        } else {
            let v = acc * 10 + d;
            acc = if v >= 9223372036854775809 { 9223372036854775809 } else { v };
        }
        i += 1;
    }
    assert(cs@.subrange(start as int, n as int) =~= body);
    proof {
        lemma_digits_nonneg(body);
    }
    if neg {
        if acc <= 9223372036854775808 {
            Some((-acc) as i64)
        } else {
            None
        }
    } else if acc <= 9223372036854775807 {
        Some(acc as i64)
    } else {
        None
    }
}

/// The `{id}` route parameter, 0 when absent or not a number.
pub fn parse_id(param: Option<&str>) -> (r: i64)
    ensures
        r as int == id_param(match param {
            Some(p) => Some(p@),
            None => None,
        }),
{
    match param {
        Some(p) => match parse_i64(p) {
            Some(v) => v,
            None => 0,
        },
        None => 0,
    }
}

/// Whether `GET /chat/{id}` shows the conversation (else it redirects to
/// `/chat`): the id is set and the user takes part in it.
pub fn shows_conversation(id: i64, participant: bool) -> (r: bool)
    ensures
        r == (id != 0 && participant),
{
    id != 0 && participant
}

/// The users other than `me`, for starting a conversation.
pub fn other_users(users: Vec<UserSummary>, me: i64) -> (r: Vec<UserSummary>)
    ensures
        r@.map_values(|u: UserSummary| (u.id, u.email@)) == users@.map_values(
            |u: UserSummary| (u.id, u.email@),
        ).filter(|p: (i64, Seq<char>)| p.0 != me),
{
    let ghost f = |u: UserSummary| (u.id, u.email@);
    let ghost keep = |p: (i64, Seq<char>)| p.0 != me;
    let ghost all = users@;
    let total = users.len();
    let mut out: Vec<UserSummary> = Vec::new();
    let mut rest = users;
    let mut i: usize = 0;
    assert(all.skip(0) =~= all);
    while rest.len() > 0
        invariant
            i + rest@.len() == all.len(),
            all.len() == total,
            rest@ == all.skip(i as int),
            f == (|u: UserSummary| (u.id, u.email@)),
            keep == (|p: (i64, Seq<char>)| p.0 != me),
            out@.map_values(f) == all.take(i as int).map_values(f).filter(keep),
        decreases rest@.len(),
    {
        let u = rest.remove(0);
        proof {
            reveal_with_fuel(Seq::<_>::filter, 1);
            assert(all.take(i + 1).map_values(f).drop_last() =~= all.take(i as int).map_values(f));
            assert(all.take(i + 1).map_values(f).last() == f(u));
            assert(rest@ =~= all.skip(i + 1));
        }
        let ghost before = out@.map_values(f);
        if u.id != me {
            out.push(u);
            assert(out@.map_values(f) =~= before.push(f(u)));
        }
        i += 1;
    }
    assert(all.take(all.len() as int) =~= all);
    out
}

/// `GET /login`: a signed-in user goes to `/chat`; anyone else gets the
/// login page titled "Entrar".
pub fn login_reply(signed_in: bool) -> (r: Reply)
    ensures
        r@ == if signed_in {
            ReplyView::Redirect("/chat"@)
        } else {
            ReplyView::Render("chat/login"@, Some(("title"@, "Entrar"@)))
        },
{
    if signed_in {
        Reply::Redirect("/chat".to_owned())
    } else {
        Reply::Render("chat/login".to_owned(), Some(("title".to_owned(), "Entrar".to_owned())))
    }
}

} // verus!
