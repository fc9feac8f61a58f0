//! Names of the custom auth strategies registered at boot.
//!
//! The strategy objects themselves live with the application; the library keeps
//! the set of their names, which config validation consults.

use vstd::prelude::*;
use crate::text::{chars_of, str_eq};

verus! {

/// The registered custom strategy names, each held once.
pub struct StrategyRegistry {
    names: Vec<String>,
}

/// The characters of each string.
pub open spec fn views_of(v: Seq<String>) -> Seq<Seq<char>> {
    v.map_values(|s: String| s@)
}

impl StrategyRegistry {
    /// The names, in registration order.
    pub closed spec fn names(&self) -> Seq<Seq<char>> {
        views_of(self.names@)
    }

    /// No name is held twice.
    pub closed spec fn wf(&self) -> bool {
        self.names().no_duplicates()
    }

    /// The set of registered names.
    pub open spec fn name_set(&self) -> Set<Seq<char>> {
        self.names().to_set()
    }

    /// An empty registry.
    pub fn new() -> (r: Self)
        ensures
            r.wf(),
            r.name_set() == Set::<Seq<char>>::empty(),
    {
        let r = StrategyRegistry { names: Vec::new() };
        assert(r.names() =~= Seq::<Seq<char>>::empty());
        r
    }

    /// Index of `name`, if registered.
    fn position(&self, name: &str) -> (r: Option<usize>)
        ensures
            match r {
                Some(i) => i < self.names().len() && self.names()[i as int] == name@,
                None => !self.names().contains(name@),
            },
    {
        let mut i: usize = 0;
        while i < self.names.len()
            invariant
                i <= self.names.len(),
                forall|k: int| 0 <= k < i ==> self.names()[k] != name@,
            decreases self.names.len() - i,
        {
            if str_eq(self.names[i].as_str(), name) {
                return Some(i);
            }
            i += 1;
        }
        None
    }

    /// Registers `name` (registering it again keeps one entry).
    pub fn register(&mut self, name: String)
        requires
            old(self).wf(),
        ensures
            final(self).wf(),
            final(self).name_set() == old(self).name_set().insert(name@),
    {
        let ghost old_names = self.names();
        match self.position(name.as_str()) {
            Some(_) => {
                assert(old_names.to_set().insert(name@) =~= old_names.to_set());
            },
            None => {
                self.names.push(name);
                proof {
                    assert(self.names() =~= old_names.push(name@));
                    assert(self.names().to_set() =~= old_names.to_set().insert(name@)) by {
                        assert forall|x| self.names().contains(x) <==> #[trigger] old_names.to_set().insert(name@).contains(x) by {
                            if x == name@ {
                                assert(self.names()[old_names.len() as int] == x);
                            }
                            if old_names.contains(x) {
                                let k = choose|k: int| 0 <= k < old_names.len() && old_names[k] == x;
                                assert(self.names()[k] == x);
                            }
                        }
                    }
                    assert forall|a: int, b: int| 0 <= a < b < self.names().len() implies self.names()[a] != self.names()[b] by {
                        if b == old_names.len() {
                            assert(old_names.contains(old_names[a]));
                        }
                    }
                }
            },
        }
    }

    /// Whether `name` is registered.
    pub fn contains(&self, name: &str) -> (r: bool)
        ensures
            r == self.name_set().contains(name@),
    {
        self.position(name).is_some()
    }
}

/// Strict lexicographic order of character sequences (the order of `str`).
pub open spec fn lex_lt(a: Seq<char>, b: Seq<char>) -> bool
    decreases a.len(),
{
    if a.len() == 0 {
        b.len() > 0
    } else if b.len() == 0 {
        false
    } else if a[0] != b[0] {
        a[0] < b[0]
    } else {
        lex_lt(a.drop_first(), b.drop_first())
    }
}

/// `s` is in strictly increasing order.
pub open spec fn strictly_sorted(s: Seq<Seq<char>>) -> bool {
    forall|i: int, j: int| 0 <= i < j < s.len() ==> lex_lt(#[trigger] s[i], #[trigger] s[j])
}

proof fn lemma_lex_irreflexive(a: Seq<char>)
    ensures
        !lex_lt(a, a),
    decreases a.len(),
{
    if a.len() > 0 {
        lemma_lex_irreflexive(a.drop_first());
    }
}

proof fn lemma_lex_trans(a: Seq<char>, b: Seq<char>, c: Seq<char>)
    requires
        lex_lt(a, b),
        lex_lt(b, c),
    ensures
        lex_lt(a, c),
    decreases a.len(),
{
    if a.len() > 0 && b.len() > 0 && c.len() > 0 && a[0] == b[0] && b[0] == c[0] {
        lemma_lex_trans(a.drop_first(), b.drop_first(), c.drop_first());
    }
}

proof fn lemma_lex_total(a: Seq<char>, b: Seq<char>)
    requires
        a != b,
    ensures
        lex_lt(a, b) || lex_lt(b, a),
    decreases a.len(),
{
    if a.len() > 0 && b.len() > 0 && a[0] == b[0] {
        if a.drop_first() == b.drop_first() {
            assert(a =~= seq![a[0]] + a.drop_first());
            assert(b =~= seq![b[0]] + b.drop_first());
        }
        lemma_lex_total(a.drop_first(), b.drop_first());
    } else if a.len() == 0 && b.len() == 0 {
        assert(a =~= b);
    }
}

/// After a common prefix of length `i`, the order is that of the rests.
proof fn lemma_lex_skip(a: Seq<char>, b: Seq<char>, i: int)
    requires
        0 <= i <= a.len(),
        i <= b.len(),
        forall|k: int| 0 <= k < i ==> a[k] == b[k],
    ensures
        lex_lt(a, b) == lex_lt(a.skip(i), b.skip(i)),
    decreases i,
{
    if i > 0 {
        lemma_lex_skip(a.drop_first(), b.drop_first(), i - 1);
        assert(a.drop_first().skip(i - 1) =~= a.skip(i));
        assert(b.drop_first().skip(i - 1) =~= b.skip(i));
    } else {
        assert(a.skip(0) =~= a);
        assert(b.skip(0) =~= b);
    }
}

/// Whether `a` sorts strictly before `b`.
fn lex_less(a: &Vec<char>, b: &Vec<char>) -> (r: bool)
    ensures
        r == lex_lt(a@, b@),
{
    let mut i: usize = 0;
    while i < a.len() && i < b.len() && a[i] == b[i]
        invariant
            i <= a.len(),
            i <= b.len(),
            forall|k: int| 0 <= k < i ==> a@[k] == b@[k],
        decreases a.len() - i,
    {
        i += 1;
    }
    proof {
        lemma_lex_skip(a@, b@, i as int);
    }
    if i == a.len() {
        i < b.len()
    } else if i == b.len() {
        false
    } else {
        a[i] < b[i]
    }
}

/// The registered names in sorted order.
pub fn registered_strategies(registry: &StrategyRegistry) -> (r: Vec<String>)
    requires
        registry.wf(),
    ensures
        strictly_sorted(views_of(r@)),
        views_of(r@).to_set() == registry.name_set(),
        r@.len() == registry.name_set().len(),
{
    let names = &registry.names;
    let ghost all = registry.names();
    let mut out: Vec<String> = Vec::new();
    let mut i: usize = 0;
    while i < names.len()
        invariant
            i <= names@.len(),
            all == views_of(names@),
            all.no_duplicates(),
            strictly_sorted(views_of(out@)),
            views_of(out@).to_set() == all.take(i as int).to_set(),
            out@.len() == i,
        decreases names@.len() - i,
    {
        let name = names[i].clone();
        let key = chars_of(names[i].as_str());
        let ghost o = views_of(out@);
        let mut j: usize = 0;
        while j < out.len() && lex_less(&chars_of(out[j].as_str()), &key)
            invariant
                j <= out@.len(),
                o == views_of(out@),
                key@ == all[i as int],
                forall|k: int| 0 <= k < j ==> lex_lt(#[trigger] o[k], key@),
            decreases out@.len() - j,
        {
            j += 1;
        }
        proof {
            assert(!o.contains(key@)) by {
                if o.contains(key@) {
                    let k = choose|k: int| 0 <= k < o.len() && o[k] == key@;
                    assert(o.to_set().contains(key@));
                    assert(all.take(i as int).to_set().contains(key@));
                    let m = choose|m: int| 0 <= m < i && all.take(i as int)[m] == key@;
                    assert(all[m] == all[i as int]);
                }
            }
            if j < o.len() {
                lemma_lex_total(o[j as int], key@);
                assert forall|k: int| j <= k < o.len() implies lex_lt(key@, #[trigger] o[k]) by {
                    if k > j {
                        lemma_lex_trans(key@, o[j as int], o[k]);
                    }
                }
            }
        }
        out.insert(j, name);
        proof {
            let n = views_of(out@);
            assert(n =~= o.insert(j as int, key@));
            assert forall|a: int, b: int| 0 <= a < b < n.len() implies lex_lt(#[trigger] n[a], #[trigger] n[b]) by {
                if b < j {
                } else if b == j {
                } else if a < j {
                    lemma_lex_trans(n[a], key@, n[b]);
                } else if a == j {
                } else {
                }
            }
            assert(all.take(i + 1) =~= all.take(i as int).push(key@));
            assert(n.to_set() =~= o.to_set().insert(key@)) by {
                assert forall|x| n.contains(x) <==> #[trigger] o.to_set().insert(key@).contains(x) by {
                    if n.contains(x) {
                        let k = choose|k: int| 0 <= k < n.len() && n[k] == x;
                        if k < j {
                            assert(o[k] == x);
                        } else if k > j {
                            assert(o[k - 1] == x);
                        }
                    }
                    if o.contains(x) {
                        let k = choose|k: int| 0 <= k < o.len() && o[k] == x;
                        if k < j {
                            assert(n[k] == x);
                        } else {
                            assert(n[k + 1] == x);
                        }
                    }
                    if x == key@ {
                        assert(n[j as int] == x);
                    }
                }
            }
            all.take(i as int).lemma_push_to_set_commute(key@);
        }
        i += 1;
    }
    proof {
        assert(all.take(all.len() as int) =~= all);
        all.unique_seq_to_set();
        let n = views_of(out@);
        assert(n.no_duplicates()) by {
            assert forall|a: int, b: int| 0 <= a < n.len() && 0 <= b < n.len() && a != b implies n[a] != n[b] by {
                if a < b {
                    lemma_lex_irreflexive(n[a]);
                    assert(lex_lt(n[a], n[b]));
                } else {
                    lemma_lex_irreflexive(n[b]);
                    assert(lex_lt(n[b], n[a]));
                }
            }
        }
        n.unique_seq_to_set();
    }
    out
}

/// Registers a custom strategy name.
pub fn register_strategy(registry: &mut StrategyRegistry, name: String)
    requires
        old(registry).wf(),
    ensures
        final(registry).wf(),
        final(registry).name_set() == old(registry).name_set().insert(name@),
{
    registry.register(name);
}

/// Whether a custom strategy is registered (used by config validation).
pub fn has_strategy(registry: &StrategyRegistry, name: &str) -> (r: bool)
    ensures
        r == registry.name_set().contains(name@),
{
    registry.contains(name)
}

/// After `name` is registered it is found, and whether any other name is
/// found is unchanged.
pub proof fn registered_name_found(
    before: StrategyRegistry,
    after: StrategyRegistry,
    name: Seq<char>,
    other: Seq<char>,
)
    requires
        after.name_set() == before.name_set().insert(name),
    ensures
        after.name_set().contains(name),
        other != name ==> after.name_set().contains(other) == before.name_set().contains(other),
{
}

} // verus!
