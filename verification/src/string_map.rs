//! A map from strings to strings that keeps its entries ordered by key.

use crate::text::compare;
use crate::text::lemma_bytes_less_total;
use crate::text::lemma_bytes_less_transitive;
use crate::text::lemma_encoding_injective;
use crate::text::same_text;
use crate::text::text_less;
use crate::text::Order;
use vstd::prelude::*;
use vstd::utf8::encode_utf8;

verus! {

/// The entries of a map, as pairs of key and value.
pub type Entries = Seq<(Seq<char>, Seq<char>)>;

/// The keys go up strictly, so none occurs twice.
pub open spec fn strictly_sorted(s: Entries) -> bool {
    forall|i: int, j: int| 0 <= i < j < s.len() ==> text_less(#[trigger] s[i].0, #[trigger] s[j].0)
}

/// The entries after `key` has been given `value`: the entry with that key is
/// replaced where there is one, else the new entry goes before the first
/// larger key.
pub open spec fn put(s: Entries, key: Seq<char>, value: Seq<char>) -> Entries
    decreases s.len(),
{
    if s.len() == 0 {
        seq![(key, value)]
    } else if s[0].0 == key {
        s.update(0, (key, value))
    } else if text_less(key, s[0].0) {
        seq![(key, value)] + s
    } else {
        seq![s[0]] + put(s.drop_first(), key, value)
    }
}

/// The entries of `s` after each entry of `t` has been put, first to last.
pub open spec fn put_all(s: Entries, t: Entries) -> Entries
    decreases t.len(),
{
    if t.len() == 0 {
        s
    } else {
        put(put_all(s, t.drop_last()), t.last().0, t.last().1)
    }
}

/// The value that the first entry with `key` holds.
pub open spec fn lookup(s: Entries, key: Seq<char>) -> Option<Seq<char>>
    decreases s.len(),
{
    if s.len() == 0 {
        None
    } else if s[0].0 == key {
        Some(s[0].1)
    } else {
        lookup(s.drop_first(), key)
    }
}

/// Where `key` stands among the first keys of `s` that are below it.
spec fn stands_at(s: Entries, key: Seq<char>, p: int) -> bool {
    &&& 0 <= p <= s.len()
    &&& forall|j: int| 0 <= j < p ==> text_less(#[trigger] s[j].0, key)
    &&& p < s.len() ==> !text_less(s[p].0, key)
}

/// One of two different texts is below the other, and never both.
pub proof fn lemma_text_order(a: Seq<char>, b: Seq<char>)
    ensures
        a == b || text_less(a, b) || text_less(b, a),
        !(text_less(a, b) && text_less(b, a)),
        !text_less(a, a),
{
    lemma_bytes_less_total(encode_utf8(a), encode_utf8(b));
    lemma_bytes_less_total(encode_utf8(a), encode_utf8(a));
    if encode_utf8(a) == encode_utf8(b) {
        lemma_encoding_injective(a, b);
    }
}

/// The order of texts is transitive.
pub proof fn lemma_text_less_transitive(a: Seq<char>, b: Seq<char>, c: Seq<char>)
    requires
        text_less(a, b),
        text_less(b, c),
    ensures
        text_less(a, c),
{
    lemma_bytes_less_transitive(encode_utf8(a), encode_utf8(b), encode_utf8(c));
}

/// Putting at the place where the key stands: an update where the key is
/// there, an insertion where it is not.
proof fn lemma_put_at(s: Entries, key: Seq<char>, value: Seq<char>, p: int)
    requires
        stands_at(s, key, p),
    ensures
        p < s.len() && s[p].0 == key ==> put(s, key, value) == s.update(p, (key, value)),
        !(p < s.len() && s[p].0 == key) ==> put(s, key, value) == s.insert(p, (key, value)),
    decreases s.len(),
{
    if s.len() == 0 {
        assert(seq![(key, value)] =~= s.insert(0, (key, value)));
    } else if p == 0 {
        lemma_text_order(s[0].0, key);
        if s[0].0 != key {
            assert(seq![(key, value)] + s =~= s.insert(0, (key, value)));
        }
    } else {
        lemma_text_order(s[0].0, key);
        let rest = s.drop_first();
        assert(stands_at(rest, key, p - 1)) by {
            assert forall|j: int| 0 <= j < p - 1 implies text_less(#[trigger] rest[j].0, key) by {
                assert(rest[j] == s[j + 1]);
            }
        }
        lemma_put_at(rest, key, value, p - 1);
        if p < s.len() && s[p].0 == key {
            assert(seq![s[0]] + rest.update(p - 1, (key, value)) =~= s.update(p, (key, value)));
        } else {
            assert(seq![s[0]] + rest.insert(p - 1, (key, value)) =~= s.insert(p, (key, value)));
        }
    }
}

/// Putting keeps the keys in order.
pub proof fn lemma_put_sorted(s: Entries, key: Seq<char>, value: Seq<char>)
    requires
        strictly_sorted(s),
    ensures
        strictly_sorted(put(s, key, value)),
        put(s, key, value).len() == s.len() + (if lookup(s, key) is Some {
            0int
        } else {
            1int
        }),
        lookup(put(s, key, value), key) == Some(value),
        forall|other: Seq<char>| other != key ==> lookup(put(s, key, value), other) == lookup(s, other),
    decreases s.len(),
{
    let r = put(s, key, value);
    if s.len() == 0 {
        assert forall|other: Seq<char>| other != key implies lookup(r, other) == lookup(
            s,
            other,
        ) by {
            assert(r.drop_first() =~= s);
        }
    } else if s[0].0 == key {
        assert forall|other: Seq<char>| other != key implies lookup(r, other) == lookup(
            s,
            other,
        ) by {
            assert(r.drop_first() =~= s.drop_first());
        }
    } else if text_less(key, s[0].0) {
        assert forall|i: int, j: int| 0 <= i < j < r.len() implies text_less(
            #[trigger] r[i].0,
            #[trigger] r[j].0,
        ) by {
            if i == 0 {
                if j > 1 {
                    lemma_text_less_transitive(key, s[0].0, s[j - 1].0);
                }
            }
        }
        assert(r.drop_first() =~= s);
        lemma_lookup_absent_below(s, key);
        assert forall|other: Seq<char>| other != key implies lookup(r, other) == lookup(
            s,
            other,
        ) by {
            assert(r[0].0 == key);
        }
    } else {
        let rest = s.drop_first();
        lemma_text_order(s[0].0, key);
        assert(strictly_sorted(rest)) by {
            assert forall|i: int, j: int| 0 <= i < j < rest.len() implies text_less(
                #[trigger] rest[i].0,
                #[trigger] rest[j].0,
            ) by {
                assert(rest[i] == s[i + 1] && rest[j] == s[j + 1]);
            }
        }
        lemma_put_sorted(rest, key, value);
        let tail = put(rest, key, value);
        assert(r.drop_first() =~= tail);
        lemma_put_keys(rest, key, value);
        assert forall|i: int, j: int| 0 <= i < j < r.len() implies text_less(
            #[trigger] r[i].0,
            #[trigger] r[j].0,
        ) by {
            if i == 0 {
                let k = tail[j - 1].0;
                if k != key {
                    let w = choose|w: int| 0 <= w < rest.len() && rest[w].0 == k;
                    assert(rest[w] == s[w + 1]);
                }
            } else {
                assert(r[i] == tail[i - 1] && r[j] == tail[j - 1]);
            }
        }
        assert forall|other: Seq<char>| other != key implies lookup(r, other) == lookup(
            s,
            other,
        ) by {
            assert(r[0] == s[0]);
            assert(lookup(tail, other) == lookup(rest, other));
        }
    }
}

/// Every key after a put is the new key or was there before.
proof fn lemma_put_keys(s: Entries, key: Seq<char>, value: Seq<char>)
    ensures
        forall|i: int|
            0 <= i < put(s, key, value).len() ==> (#[trigger] put(s, key, value)[i]).0 == key
                || exists|w: int| 0 <= w < s.len() && s[w].0 == put(s, key, value)[i].0,
    decreases s.len(),
{
    let r = put(s, key, value);
    if s.len() == 0 {
    } else if s[0].0 == key {
        assert forall|i: int| 0 <= i < r.len() implies (#[trigger] r[i]).0 == key || exists|w: int|
            0 <= w < s.len() && s[w].0 == r[i].0 by {
            if i > 0 {
                assert(s[i].0 == r[i].0);
            }
        }
    } else if text_less(key, s[0].0) {
        assert forall|i: int| 0 <= i < r.len() implies (#[trigger] r[i]).0 == key || exists|w: int|
            0 <= w < s.len() && s[w].0 == r[i].0 by {
            if i > 0 {
                assert(s[i - 1].0 == r[i].0);
            }
        }
    } else {
        let rest = s.drop_first();
        lemma_put_keys(rest, key, value);
        let tail = put(rest, key, value);
        assert forall|i: int| 0 <= i < r.len() implies (#[trigger] r[i]).0 == key || exists|w: int|
            0 <= w < s.len() && s[w].0 == r[i].0 by {
            if i == 0 {
                assert(s[0].0 == r[0].0);
            } else {
                assert(r[i] == tail[i - 1]);
                if tail[i - 1].0 != key {
                    let w = choose|w: int| 0 <= w < rest.len() && rest[w].0 == tail[i - 1].0;
                    assert(s[w + 1].0 == r[i].0);
                }
            }
        }
    }
}

/// A key below every key of a sorted map is not in it.
proof fn lemma_lookup_absent_below(s: Entries, key: Seq<char>)
    requires
        strictly_sorted(s),
        s.len() > 0 ==> text_less(key, s[0].0),
    ensures
        lookup(s, key) is None,
    decreases s.len(),
{
    if s.len() > 0 {
        lemma_text_order(key, s[0].0);
        let rest = s.drop_first();
        if rest.len() > 0 {
            assert(rest[0] == s[1]);
            lemma_text_less_transitive(key, s[0].0, s[1].0);
        }
        assert(strictly_sorted(rest)) by {
            assert forall|i: int, j: int| 0 <= i < j < rest.len() implies text_less(
                #[trigger] rest[i].0,
                #[trigger] rest[j].0,
            ) by {
                assert(rest[i] == s[i + 1] && rest[j] == s[j + 1]);
            }
        }
        lemma_lookup_absent_below(rest, key);
    }
}

/// Putting every entry of `t` keeps the keys in order.
pub proof fn lemma_put_all_sorted(s: Entries, t: Entries)
    requires
        strictly_sorted(s),
    ensures
        strictly_sorted(put_all(s, t)),
    decreases t.len(),
{
    if t.len() > 0 {
        lemma_put_all_sorted(s, t.drop_last());
        lemma_put_sorted(put_all(s, t.drop_last()), t.last().0, t.last().1);
    }
}

/// In a sorted map the lookup of a key that is there finds its entry.
pub proof fn lemma_lookup_entry(s: Entries, i: int)
    requires
        strictly_sorted(s),
        0 <= i < s.len(),
    ensures
        lookup(s, s[i].0) == Some(s[i].1),
    decreases s.len(),
{
    if i > 0 {
        lemma_text_order(s[0].0, s[i].0);
        let rest = s.drop_first();
        assert(strictly_sorted(rest)) by {
            assert forall|a: int, b: int| 0 <= a < b < rest.len() implies text_less(
                #[trigger] rest[a].0,
                #[trigger] rest[b].0,
            ) by {
                assert(rest[a] == s[a + 1] && rest[b] == s[b + 1]);
            }
        }
        assert(rest[i - 1] == s[i]);
        lemma_lookup_entry(rest, i - 1);
    }
}

/// What a lookup finds is the value of an entry.
pub proof fn lemma_lookup_found(s: Entries, key: Seq<char>)
    requires
        lookup(s, key) is Some,
    ensures
        exists|i: int| 0 <= i < s.len() && s[i].0 == key && s[i].1 == lookup(s, key)->0,
    decreases s.len(),
{
    if s.len() > 0 {
        if s[0].0 == key {
            assert(s[0].0 == key && s[0].1 == lookup(s, key)->0);
        } else {
            let rest = s.drop_first();
            lemma_lookup_found(rest, key);
            let i = choose|i: int| 0 <= i < rest.len() && rest[i].0 == key && rest[i].1 == lookup(
                rest,
                key,
            )->0;
            assert(s[i + 1].0 == key && s[i + 1].1 == lookup(s, key)->0);
        }
    }
}

/// Two sorted maps in which every key finds the same are the same map.
pub proof fn lemma_entries_unique(a: Entries, b: Entries)
    requires
        strictly_sorted(a),
        strictly_sorted(b),
        forall|key: Seq<char>| lookup(a, key) == lookup(b, key),
    ensures
        a == b,
    decreases a.len(),
{
    if a.len() == 0 {
        if b.len() > 0 {
            lemma_lookup_entry(b, 0);
            assert(lookup(a, b[0].0) is None);
        }
        assert(a =~= b);
    } else {
        lemma_lookup_entry(a, 0);
        assert(lookup(b, a[0].0) == Some(a[0].1));
        lemma_lookup_found(b, a[0].0);
        let j = choose|j: int| 0 <= j < b.len() && b[j].0 == a[0].0 && b[j].1 == a[0].1;
        lemma_lookup_entry(b, 0);
        assert(lookup(a, b[0].0) == Some(b[0].1));
        lemma_lookup_found(a, b[0].0);
        let i = choose|i: int| 0 <= i < a.len() && a[i].0 == b[0].0 && a[i].1 == b[0].1;
        if j > 0 {
            lemma_text_order(b[0].0, b[j].0);
            if i > 0 {
                lemma_text_order(a[0].0, a[i].0);
            }
            assert(false);
        }
        let ra = a.drop_first();
        let rb = b.drop_first();
        assert(strictly_sorted(ra)) by {
            assert forall|x: int, y: int| 0 <= x < y < ra.len() implies text_less(
                #[trigger] ra[x].0,
                #[trigger] ra[y].0,
            ) by {
                assert(ra[x] == a[x + 1] && ra[y] == a[y + 1]);
            }
        }
        assert(strictly_sorted(rb)) by {
            assert forall|x: int, y: int| 0 <= x < y < rb.len() implies text_less(
                #[trigger] rb[x].0,
                #[trigger] rb[y].0,
            ) by {
                assert(rb[x] == b[x + 1] && rb[y] == b[y + 1]);
            }
        }
        assert forall|key: Seq<char>| lookup(ra, key) == lookup(rb, key) by {
            if key == a[0].0 {
                if ra.len() > 0 {
                    assert(ra[0] == a[1]);
                }
                if rb.len() > 0 {
                    assert(rb[0] == b[1]);
                }
                lemma_lookup_absent_below(ra, key);
                lemma_lookup_absent_below(rb, key);
            } else {
                assert(lookup(a, key) == lookup(b, key));
            }
        }
        lemma_entries_unique(ra, rb);
        assert(a =~= seq![a[0]] + ra);
        assert(b =~= seq![b[0]] + rb);
    }
}

/// A map from strings to strings, ordered by key.
#[derive(Debug, PartialEq, Eq)]
pub struct StringMap {
    entries: Vec<(String, String)>,
}

impl View for StringMap {
    type V = Entries;

    closed spec fn view(&self) -> Entries {
        self.entries.deep_view()
    }
}

impl StringMap {
    /// The keys are in strict order.
    #[verifier::type_invariant]
    pub closed spec fn wf(self) -> bool {
        strictly_sorted(self.entries.deep_view())
    }

    /// The map without entries.
    pub fn new() -> (r: StringMap)
        ensures
            r@ == Seq::<(Seq<char>, Seq<char>)>::empty(),
            r.wf(),
    {
        let entries: Vec<(String, String)> = Vec::new();
        assert(entries.deep_view() =~= Seq::<(Seq<char>, Seq<char>)>::empty());
        StringMap { entries }
    }

    /// The number of entries.
    pub fn len(&self) -> (r: usize)
        ensures
            r == self@.len(),
    {
        self.entries.len()
    }

    /// Whether the map holds no entry.
    pub fn is_empty(&self) -> (r: bool)
        ensures
            r == (self@.len() == 0),
    {
        self.entries.len() == 0
    }

    /// The key of the entry at `index`, counted in key order.
    pub fn key_at(&self, index: usize) -> (r: &String)
        requires
            index < self@.len(),
        ensures
            r@ == self@[index as int].0,
    {
        &self.entries[index].0
    }

    /// The value of the entry at `index`, counted in key order.
    pub fn value_at(&self, index: usize) -> (r: &String)
        requires
            index < self@.len(),
        ensures
            r@ == self@[index as int].1,
    {
        &self.entries[index].1
    }

    /// States what every map is: ordered by key.
    pub fn ordered(&self)
        ensures
            self.wf(),
            strictly_sorted(self@),
    {
        proof {
            use_type_invariant(self);
        }
    }

    /// The value stored under `key`.
    pub fn get(&self, key: &str) -> (r: Option<&String>)
        ensures
            r.deep_view() == lookup(self@, key@),
    {
        let mut i: usize = 0;
        assert(self@.skip(0) =~= self@);
        while i < self.entries.len()
            invariant
                i <= self.entries.len(),
                lookup(self@, key@) == lookup(self@.skip(i as int), key@),
            decreases self.entries.len() - i,
        {
            if same_text(self.entries[i].0.as_str(), key) {
                assert(self@.skip(i as int)[0] == self@[i as int]);
                return Some(&self.entries[i].1);
            }
            assert(self@.skip(i as int)[0] == self@[i as int]);
            assert(self@.skip(i as int).drop_first() =~= self@.skip(i as int + 1));
            i = i + 1;
        }
        None
    }

    /// Whether an entry has `key`.
    pub fn contains_key(&self, key: &str) -> (r: bool)
        ensures
            r == lookup(self@, key@).is_some(),
    {
        self.get(key).is_some()
    }

    /// Stores `value` under `key` and hands back the value it replaces.
    pub fn insert(&mut self, key: String, value: String) -> (r: Option<String>)
        ensures
            final(self)@ == put(old(self)@, key@, value@),
            r.deep_view() == lookup(old(self)@, key@),
            final(self).wf(),
    {
        proof {
            use_type_invariant(&*self);
        }
        let ghost before = self@;
        let mut entries: Vec<(String, String)> = Vec::new();
        assert(entries.deep_view() =~= Seq::<(Seq<char>, Seq<char>)>::empty());
        std::mem::swap(&mut self.entries, &mut entries);
        let mut p: usize = 0;
        while p < entries.len() && compare(entries[p].0.as_str(), key.as_str()) == Order::Less
            invariant
                p <= entries.len(),
                entries.deep_view() == before,
                forall|j: int| 0 <= j < p ==> text_less(#[trigger] before[j].0, key@),
            decreases entries.len() - p,
        {
            p = p + 1;
        }
        assert(stands_at(before, key@, p as int));
        proof {
            lemma_put_at(before, key@, value@, p as int);
            lemma_put_sorted(before, key@, value@);
            lemma_lookup_at(before, key@, p as int);
        }
        let previous = if p < entries.len() && same_text(entries[p].0.as_str(), key.as_str()) {
            let previous = entries[p].1.clone();
            entries.set(p, (key, value));
            assert(entries.deep_view() =~= before.update(p as int, (key@, value@)));
            Some(previous)
        } else {
            entries.insert(p, (key, value));
            assert(entries.deep_view() =~= before.insert(p as int, (key@, value@)));
            None
        };
        std::mem::swap(&mut self.entries, &mut entries);
        previous
    }

    /// Stores every entry of `other`, replacing what was under the same key.
    pub fn extend(&mut self, other: &StringMap)
        ensures
            final(self)@ == put_all(old(self)@, other@),
            final(self).wf(),
    {
        proof {
            use_type_invariant(&*self);
        }
        let mut i: usize = 0;
        while i < other.entries.len()
            invariant
                i <= other.entries.len(),
                self@ == put_all(old(self)@, other@.take(i as int)),
                self.wf(),
            decreases other.entries.len() - i,
        {
            let key = other.entries[i].0.clone();
            let value = other.entries[i].1.clone();
            self.insert(key, value);
            assert(other@.take(i as int + 1).drop_last() =~= other@.take(i as int));
            i = i + 1;
        }
        assert(other@.take(i as int) =~= other@);
    }

    /// Stores each of `pairs`, first to last, replacing what was under the
    /// same key.
    pub fn insert_pairs(&mut self, pairs: &Vec<(String, String)>)
        ensures
            final(self)@ == put_all(old(self)@, pairs.deep_view()),
            final(self).wf(),
    {
        proof {
            use_type_invariant(&*self);
        }
        let mut i: usize = 0;
        assert(pairs.deep_view().take(0) =~= Seq::<(Seq<char>, Seq<char>)>::empty());
        while i < pairs.len()
            invariant
                i <= pairs.len(),
                self@ == put_all(old(self)@, pairs.deep_view().take(i as int)),
                self.wf(),
            decreases pairs.len() - i,
        {
            let key = pairs[i].0.clone();
            let value = pairs[i].1.clone();
            self.insert(key, value);
            assert(pairs.deep_view().take(i as int + 1).drop_last() =~= pairs.deep_view().take(
                i as int,
            ));
            assert(pairs.deep_view().take(i as int + 1).last() == pairs.deep_view()[i as int]);
            i = i + 1;
        }
        assert(pairs.deep_view().take(i as int) =~= pairs.deep_view());
    }

    /// Whether both maps hold the same entries.
    pub fn same_entries(&self, other: &StringMap) -> (r: bool)
        ensures
            r == (self@ == other@),
    {
        if self.entries.len() != other.entries.len() {
            assert(self@.len() != other@.len());
            return false;
        }
        let mut i: usize = 0;
        while i < self.entries.len()
            invariant
                i <= self.entries.len(),
                self.entries.len() == other.entries.len(),
                forall|j: int| 0 <= j < i ==> self@[j] == other@[j],
            decreases self.entries.len() - i,
        {
            if !same_text(self.entries[i].0.as_str(), other.entries[i].0.as_str()) || !same_text(
                self.entries[i].1.as_str(),
                other.entries[i].1.as_str(),
            ) {
                assert(self@[i as int] != other@[i as int]);
                return false;
            }
            i = i + 1;
        }
        assert(self@ =~= other@);
        true
    }
}

/// Where the key stands, the lookup finds it or nothing.
proof fn lemma_lookup_at(s: Entries, key: Seq<char>, p: int)
    requires
        stands_at(s, key, p),
        strictly_sorted(s),
    ensures
        lookup(s, key) == if p < s.len() && s[p].0 == key {
            Some(s[p].1)
        } else {
            None
        },
    decreases s.len(),
{
    if s.len() == 0 {
    } else if p == 0 {
        lemma_text_order(s[0].0, key);
        if s[0].0 != key {
            lemma_lookup_absent_below(s, key);
        }
    } else {
        lemma_text_order(s[0].0, key);
        let rest = s.drop_first();
        assert(stands_at(rest, key, p - 1)) by {
            assert forall|j: int| 0 <= j < p - 1 implies text_less(#[trigger] rest[j].0, key) by {
                assert(rest[j] == s[j + 1]);
            }
        }
        assert(strictly_sorted(rest)) by {
            assert forall|i: int, j: int| 0 <= i < j < rest.len() implies text_less(
                #[trigger] rest[i].0,
                #[trigger] rest[j].0,
            ) by {
                assert(rest[i] == s[i + 1] && rest[j] == s[j + 1]);
            }
        }
        lemma_lookup_at(rest, key, p - 1);
    }
}

impl Clone for StringMap {
    fn clone(&self) -> (r: StringMap)
        ensures
            r@ == self@,
    {
        proof {
            use_type_invariant(self);
        }
        let mut entries: Vec<(String, String)> = Vec::new();
        let mut i: usize = 0;
        while i < self.entries.len()
            invariant
                i <= self.entries.len(),
                entries.deep_view() == self.entries.deep_view().take(i as int),
            decreases self.entries.len() - i,
        {
            let ghost before = entries.deep_view();
            let key = self.entries[i].0.clone();
            let value = self.entries[i].1.clone();
            entries.push((key, value));
            assert(entries.deep_view() =~= before.push((key@, value@)));
            assert(self.entries.deep_view()[i as int] == (key@, value@));
            assert(entries.deep_view() =~= self.entries.deep_view().take(i as int + 1));
            i = i + 1;
        }
        assert(self.entries.deep_view().take(i as int) =~= self.entries.deep_view());
        StringMap { entries }
    }
}

impl Default for StringMap {
    fn default() -> (r: StringMap)
        ensures
            r@ == Seq::<(Seq<char>, Seq<char>)>::empty(),
    {
        StringMap::new()
    }
}

} // verus!
