//! The scopes that a client asks for: a set of strings, kept in order and
//! free of duplicates.

use crate::string_map::lemma_put_sorted;
use crate::string_map::put;
use crate::string_map::strictly_sorted;
use crate::string_map::Entries;
use crate::string_map::StringMap;
use crate::text::text_less;
use vstd::prelude::*;

verus! {

/// Whether the texts go up strictly.
pub open spec fn ascending(s: Seq<Seq<char>>) -> bool {
    forall|i: int, j: int| 0 <= i < j < s.len() ==> text_less(#[trigger] s[i], #[trigger] s[j])
}

/// The scopes `s` with the scope `x` among them, at its place in the order.
pub open spec fn with_scope(s: Seq<Seq<char>>, x: Seq<char>) -> Seq<Seq<char>>
    decreases s.len(),
{
    if s.len() == 0 {
        seq![x]
    } else if s[0] == x {
        s
    } else if text_less(x, s[0]) {
        seq![x] + s
    } else {
        seq![s[0]] + with_scope(s.drop_first(), x)
    }
}

/// The scopes `s` with each of `xs` among them.
pub open spec fn with_scopes(s: Seq<Seq<char>>, xs: Seq<Seq<char>>) -> Seq<Seq<char>>
    decreases xs.len(),
{
    if xs.len() == 0 {
        s
    } else {
        with_scope(with_scopes(s, xs.drop_last()), xs.last())
    }
}

/// The keys of the entries, in their order.
spec fn keys_of(entries: Entries) -> Seq<Seq<char>> {
    Seq::new(entries.len(), |i: int| entries[i].0)
}

proof fn lemma_keys_put(entries: Entries, key: Seq<char>)
    ensures
        keys_of(put(entries, key, Seq::empty())) == with_scope(keys_of(entries), key),
    decreases entries.len(),
{
    let value = Seq::<char>::empty();
    let keys = keys_of(entries);
    if entries.len() == 0 {
        assert(keys_of(put(entries, key, value)) =~= seq![key]);
    } else if entries[0].0 == key {
        assert(keys_of(put(entries, key, value)) =~= keys);
    } else if text_less(key, entries[0].0) {
        assert(keys_of(put(entries, key, value)) =~= seq![key] + keys);
    } else {
        lemma_keys_put(entries.drop_first(), key);
        assert(keys_of(entries.drop_first()) =~= keys.drop_first());
        assert(keys_of(put(entries, key, value)) =~= seq![keys[0]] + keys_of(
            put(entries.drop_first(), key, value),
        ));
    }
}

/// A set of scopes, in order.
#[derive(Debug, PartialEq, Eq)]
pub struct ScopeSet {
    members: StringMap,
}

impl View for ScopeSet {
    type V = Seq<Seq<char>>;

    closed spec fn view(&self) -> Seq<Seq<char>> {
        keys_of(self.members@)
    }
}

impl ScopeSet {
    /// The set without scopes.
    pub fn new() -> (r: ScopeSet)
        ensures
            r@ == Seq::<Seq<char>>::empty(),
    {
        let members = StringMap::new();
        assert(keys_of(members@) =~= Seq::<Seq<char>>::empty());
        ScopeSet { members }
    }

    /// The number of scopes.
    pub fn len(&self) -> (r: usize)
        ensures
            r == self@.len(),
    {
        self.members.len()
    }

    /// The scope at `index`, counted in order.
    pub fn get(&self, index: usize) -> (r: &String)
        requires
            index < self@.len(),
        ensures
            r@ == self@[index as int],
    {
        self.members.key_at(index)
    }

    /// States what every set is: in strict order.
    pub fn ordered(&self)
        ensures
            ascending(self@),
    {
        self.members.ordered();
        assert forall|i: int, j: int| 0 <= i < j < self@.len() implies text_less(
            #[trigger] self@[i],
            #[trigger] self@[j],
        ) by {
            assert(text_less(self.members@[i].0, self.members@[j].0));
        }
    }

    /// Adds `scope`, unless it is there.
    pub fn insert(&mut self, scope: &str)
        ensures
            final(self)@ == with_scope(old(self)@, scope@),
    {
        proof {
            lemma_keys_put(self.members@, scope@);
        }
        self.members.insert(scope.to_owned(), String::new());
    }

    /// The scopes as a list.
    pub fn to_vec(&self) -> (r: Vec<String>)
        ensures
            r.deep_view() == self@,
    {
        let mut out: Vec<String> = Vec::new();
        let mut i: usize = 0;
        while i < self.members.len()
            invariant
                i <= self@.len(),
                self@.len() == self.members@.len(),
                out.deep_view() == self@.take(i as int),
            decreases self@.len() - i,
        {
            let ghost before = out.deep_view();
            let scope = self.members.key_at(i).clone();
            out.push(scope);
            assert(out.deep_view() =~= before.push(scope@));
            assert(out.deep_view() =~= self@.take(i as int + 1));
            i = i + 1;
        }
        assert(self@.take(i as int) =~= self@);
        out
    }
}

impl Clone for ScopeSet {
    fn clone(&self) -> (r: ScopeSet)
        ensures
            r@ == self@,
    {
        ScopeSet { members: self.members.clone() }
    }
}

/// Adding a scope keeps the order and adds nothing but the scope: the
/// scopes afterwards are those before and the new one.
pub proof fn law_with_scope_keeps_order(s: Seq<Seq<char>>, x: Seq<char>)
    requires
        ascending(s),
    ensures
        ascending(with_scope(s, x)),
        with_scope(s, x).contains(x),
        forall|y: Seq<char>| s.contains(y) ==> with_scope(s, x).contains(y),
        forall|y: Seq<char>| with_scope(s, x).contains(y) ==> y == x || s.contains(y),
{
    let entries: Entries = Seq::new(s.len(), |i: int| (s[i], Seq::<char>::empty()));
    assert(keys_of(entries) =~= s);
    assert(strictly_sorted(entries));
    lemma_keys_put(entries, x);
    lemma_put_sorted(entries, x, Seq::empty());
    let after = put(entries, x, Seq::empty());
    let r = with_scope(s, x);
    assert forall|i: int, j: int| 0 <= i < j < r.len() implies text_less(
        #[trigger] r[i],
        #[trigger] r[j],
    ) by {
        assert(text_less(after[i].0, after[j].0));
    }
    lemma_members(s, x);
}

/// The members after adding a scope are the old ones and the new one.
proof fn lemma_members(s: Seq<Seq<char>>, x: Seq<char>)
    ensures
        with_scope(s, x).contains(x),
        forall|y: Seq<char>| s.contains(y) ==> with_scope(s, x).contains(y),
        forall|y: Seq<char>| with_scope(s, x).contains(y) ==> y == x || s.contains(y),
    decreases s.len(),
{
    let r = with_scope(s, x);
    if s.len() == 0 {
        assert(r[0] == x);
    } else if s[0] == x {
    } else if text_less(x, s[0]) {
        assert(r[0] == x);
        assert forall|y: Seq<char>| s.contains(y) implies r.contains(y) by {
            let i = choose|i: int| 0 <= i < s.len() && s[i] == y;
            assert(r[i + 1] == y);
        }
        assert forall|y: Seq<char>| r.contains(y) implies y == x || s.contains(y) by {
            let i = choose|i: int| 0 <= i < r.len() && r[i] == y;
            if i > 0 {
                assert(s[i - 1] == y);
            }
        }
    } else {
        let rest = s.drop_first();
        let tail = with_scope(rest, x);
        lemma_members(rest, x);
        assert(r.drop_first() =~= tail);
        let i = choose|i: int| 0 <= i < tail.len() && tail[i] == x;
        assert(r[i + 1] == x);
        assert forall|y: Seq<char>| s.contains(y) implies r.contains(y) by {
            let i = choose|i: int| 0 <= i < s.len() && s[i] == y;
            if i == 0 {
                assert(r[0] == y);
            } else {
                assert(rest[i - 1] == y);
                assert(rest.contains(y));
                assert(tail.contains(y));
                let k = choose|k: int| 0 <= k < tail.len() && tail[k] == y;
                assert(r[k + 1] == y);
            }
        }
        assert forall|y: Seq<char>| r.contains(y) implies y == x || s.contains(y) by {
            let i = choose|i: int| 0 <= i < r.len() && r[i] == y;
            if i == 0 {
                assert(s[0] == y);
            } else {
                assert(tail[i - 1] == y);
                assert(tail.contains(y));
                if y != x {
                    assert(rest.contains(y));
                    let k = choose|k: int| 0 <= k < rest.len() && rest[k] == y;
                    assert(s[k + 1] == y);
                }
            }
        }
    }
}

} // verus!
