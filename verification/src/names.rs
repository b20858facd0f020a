//! Maps keyed by text, kept in the order of their keys.
use vstd::prelude::*;

use crate::text::chars_of;

verus! {

/// Whether `a` comes strictly before `b` when text is ordered by code points.
pub open spec fn before(a: Seq<char>, b: Seq<char>) -> bool
    decreases a.len(),
{
    if b.len() == 0 {
        false
    } else if a.len() == 0 {
        true
    } else if a[0] != b[0] {
        a[0] < b[0]
    } else {
        before(a.drop_first(), b.drop_first())
    }
}

/// No text comes before itself, and of two texts at most one comes before the other.
pub proof fn before_is_asymmetric(a: Seq<char>, b: Seq<char>)
    ensures
        !(before(a, b) && before(b, a)),
        !before(a, a),
    decreases a.len(),
{
    if a.len() > 0 {
        before_is_asymmetric(a.drop_first(), b.drop_first());
    }
}

/// Of two different texts one comes before the other.
pub proof fn before_is_total(a: Seq<char>, b: Seq<char>)
    ensures
        a == b || before(a, b) || before(b, a),
    decreases a.len(),
{
    if a.len() == 0 || b.len() == 0 {
        assert(a.len() == b.len() ==> a =~= b);
    } else {
        before_is_total(a.drop_first(), b.drop_first());
        if a[0] == b[0] && a.drop_first() == b.drop_first() {
            assert(a =~= seq![a[0]] + a.drop_first());
            assert(b =~= seq![b[0]] + b.drop_first());
        }
    }
}

/// What comes before `b` comes before everything that `b` comes before.
pub proof fn before_is_transitive(a: Seq<char>, b: Seq<char>, c: Seq<char>)
    requires
        before(a, b),
        before(b, c),
    ensures
        before(a, c),
    decreases a.len(),
{
    if a.len() > 0 && a[0] == b[0] && b[0] == c[0] {
        before_is_transitive(a.drop_first(), b.drop_first(), c.drop_first());
    }
}

/// Whether `a` comes strictly before `b`.
pub fn comes_before(a: &str, b: &str) -> (r: bool)
    ensures
        r == before(a@, b@),
{
    let left = chars_of(a);
    let right = chars_of(b);
    let mut i: usize = 0;
    assert(a@.skip(0) =~= a@ && b@.skip(0) =~= b@);
    while i < left.len() && i < right.len() && left[i] == right[i]
        invariant
            left@ == a@,
            right@ == b@,
            i <= left.len(),
            i <= right.len(),
            before(a@, b@) == before(a@.skip(i as int), b@.skip(i as int)),
        decreases left.len() - i,
    {
        assert(a@.skip(i as int).drop_first() =~= a@.skip(i + 1));
        assert(b@.skip(i as int).drop_first() =~= b@.skip(i + 1));
        i = i + 1;
    }
    if i >= right.len() {
        false
    } else if i >= left.len() {
        true
    } else {
        left[i] < right[i]
    }
}

/// Keys listed from the first to the last, each one once.
pub open spec fn ascending(keys: Seq<Seq<char>>) -> bool {
    forall|i: int, j: int| 0 <= i < j < keys.len() ==> before(#[trigger] keys[i], #[trigger] keys[j])
}

/// `keys` lists exactly the members of `dom`, in order.
pub open spec fn lists(keys: Seq<Seq<char>>, dom: Set<Seq<char>>) -> bool {
    &&& ascending(keys)
    &&& forall|k: Seq<char>| #[trigger] dom.contains(k) <==> keys.contains(k)
}

/// Two listings of the same texts are the same.
proof fn same_listing(one: Seq<Seq<char>>, other: Seq<Seq<char>>, dom: Set<Seq<char>>)
    requires
        lists(one, dom),
        lists(other, dom),
    ensures
        one == other,
    decreases one.len(),
{
    if one.len() == 0 {
        if other.len() > 0 {
            assert(other.contains(other[0]));
            assert(dom.contains(other[0]));
        }
        assert(one =~= other);
    } else {
        let first = one[0];
        assert(one.contains(first));
        assert(dom.contains(first));
        let j = choose|j: int| 0 <= j < other.len() && other[j] == first;
        assert(other.contains(other[0]));
        assert(dom.contains(other[0]));
        let i = choose|i: int| 0 <= i < one.len() && one[i] == other[0];
        if first != other[0] {
            assert(before(one[0], one[i]));
            assert(before(other[0], other[j]));
            before_is_asymmetric(first, other[0]);
        }
        let rest = dom.remove(first);
        drop_first_of_listing(one, dom);
        drop_first_of_listing(other, dom);
        same_listing(one.drop_first(), other.drop_first(), rest);
        assert(one =~= seq![first] + one.drop_first());
        assert(other =~= seq![first] + other.drop_first());
    }
}

/// A listing without its first text lists the others.
proof fn drop_first_of_listing(keys: Seq<Seq<char>>, dom: Set<Seq<char>>)
    requires
        lists(keys, dom),
        keys.len() > 0,
    ensures
        lists(keys.drop_first(), dom.remove(keys[0])),
{
    let rest = keys.drop_first();
    assert forall|i: int, j: int| 0 <= i < j < rest.len() implies before(
        #[trigger] rest[i],
        #[trigger] rest[j],
    ) by {
        assert(before(keys[i + 1], keys[j + 1]));
    }
    assert forall|k: Seq<char>| #[trigger] dom.remove(keys[0]).contains(k) <==> rest.contains(
        k,
    ) by {
        if dom.remove(keys[0]).contains(k) {
            assert(dom.contains(k));
            let i = choose|i: int| 0 <= i < keys.len() && keys[i] == k;
            assert(rest[i - 1] == k);
        }
        if rest.contains(k) {
            let i = choose|i: int| 0 <= i < rest.len() && rest[i] == k;
            assert(keys[i + 1] == k);
            assert(keys.contains(k));
            assert(dom.contains(k));
            assert(before(keys[0], keys[i + 1]));
            before_is_asymmetric(keys[0], k);
        }
    }
}

/// The members of `dom` in order.
pub open spec fn listing(dom: Set<Seq<char>>) -> Seq<Seq<char>> {
    choose|keys: Seq<Seq<char>>| lists(keys, dom)
}

/// A set of texts has only one listing.
pub proof fn only_one_listing(keys: Seq<Seq<char>>, dom: Set<Seq<char>>)
    requires
        lists(keys, dom),
    ensures
        listing(dom) == keys,
{
    same_listing(keys, listing(dom), dom);
}

/// `k` is the first member of `dom`.
pub open spec fn is_first(k: Seq<char>, dom: Set<Seq<char>>) -> bool {
    &&& dom.contains(k)
    &&& forall|other: Seq<char>| #[trigger] dom.contains(other) ==> other == k || before(k, other)
}

/// The first member of `dom`, which has one.
pub open spec fn first_of(dom: Set<Seq<char>>) -> Seq<char> {
    choose|k: Seq<char>| is_first(k, dom)
}

/// A set of texts has only one first member.
pub proof fn only_one_is_first(k: Seq<char>, dom: Set<Seq<char>>)
    requires
        is_first(k, dom),
    ensures
        first_of(dom) == k,
{
    let other = first_of(dom);
    before_is_asymmetric(k, other);
}

/// A finite set of texts that has members has a first one.
pub proof fn a_first_member_exists(dom: Set<Seq<char>>)
    requires
        dom.finite(),
        !(dom =~= Set::empty()),
    ensures
        is_first(first_of(dom), dom),
    decreases dom.len(),
{
    let k = choose|k: Seq<char>| dom.contains(k);
    assert(dom.contains(k));
    let rest = dom.remove(k);
    if rest =~= Set::empty() {
        assert forall|other: Seq<char>| #[trigger] dom.contains(other) implies other == k || before(
            k,
            other,
        ) by {
            assert(!rest.contains(other));
        }
        assert(is_first(k, dom));
    } else {
        a_first_member_exists(rest);
        let first = first_of(rest);
        before_is_total(k, first);
        if before(k, first) {
            assert forall|other: Seq<char>| #[trigger] dom.contains(other) implies other == k
                || before(k, other) by {
                if other != k {
                    assert(rest.contains(other));
                    if other != first {
                        before_is_transitive(k, first, other);
                    }
                }
            }
            assert(is_first(k, dom));
        } else {
            assert forall|other: Seq<char>| #[trigger] dom.contains(other) implies other == first
                || before(first, other) by {
                if other != k {
                    assert(rest.contains(other));
                }
            }
            assert(is_first(first, dom));
        }
    }
}

/// A finite set of texts can be listed.
pub proof fn a_listing_exists(dom: Set<Seq<char>>)
    requires
        dom.finite(),
    ensures
        lists(listing(dom), dom),
    decreases dom.len(),
{
    if dom =~= Set::empty() {
        let none = Seq::<Seq<char>>::empty();
        assert(lists(none, dom));
    } else {
        a_first_member_exists(dom);
        let first = first_of(dom);
        let rest = dom.remove(first);
        a_listing_exists(rest);
        let others = listing(rest);
        let keys = seq![first] + others;
        assert forall|i: int, j: int| 0 <= i < j < keys.len() implies before(
            #[trigger] keys[i],
            #[trigger] keys[j],
        ) by {
            assert(keys[j] == others[j - 1]);
            if i == 0 {
                assert(others.contains(others[j - 1]));
                assert(rest.contains(others[j - 1]));
                assert(dom.contains(keys[j]));
            } else {
                assert(keys[i] == others[i - 1]);
            }
        }
        assert forall|k: Seq<char>| #[trigger] dom.contains(k) <==> keys.contains(k) by {
            if dom.contains(k) {
                if k == first {
                    assert(keys[0] == k);
                } else {
                    assert(rest.contains(k));
                    let i = choose|i: int| 0 <= i < others.len() && others[i] == k;
                    assert(keys[i + 1] == k);
                }
            }
            if keys.contains(k) {
                let i = choose|i: int| 0 <= i < keys.len() && keys[i] == k;
                if i > 0 {
                    assert(others[i - 1] == k);
                    assert(others.contains(k));
                    assert(rest.contains(k));
                }
            }
        }
        assert(lists(keys, dom));
    }
}

/// Text is ordered by its first difference: by the code points there, or, where one text starts with
/// the other, by length.
pub proof fn the_first_difference_decides(front: Seq<char>, a: Seq<char>, b: Seq<char>)
    ensures
        a.len() > 0 && b.len() > 0 && a[0] < b[0] ==> before(front + a, front + b),
        a.len() == 0 && b.len() > 0 ==> before(front + a, front + b),
        b.len() == 0 ==> !before(front + a, front + b),
        a.len() > 0 && b.len() > 0 && a[0] > b[0] ==> !before(
            front + a,
            front + b,
        ),
    decreases front.len(),
{
    if front.len() == 0 {
        assert(front + a =~= a);
        assert(front + b =~= b);
    } else {
        the_first_difference_decides(front.drop_first(), a, b);
        assert((front + a).drop_first() =~= front.drop_first() + a);
        assert((front + b).drop_first() =~= front.drop_first() + b);
    }
}

/// A map from text to `V` that walks its entries in the order of the keys.
#[derive(Debug)]
pub struct NameMap<V> {
    pub(crate) entries: Vec<(String, V)>,
}

pub(crate) open spec fn entry_keys<V>(entries: Seq<(String, V)>) -> Seq<Seq<char>> {
    entries.map_values(|e: (String, V)| e.0@)
}

pub(crate) open spec fn entry_map<V>(entries: Seq<(String, V)>) -> Map<Seq<char>, V>
    decreases entries.len(),
{
    if entries.len() == 0 {
        Map::empty()
    } else {
        entry_map(entries.drop_last()).insert(entries.last().0@, entries.last().1)
    }
}

/// With ascending keys, a map holds a key exactly where an entry has it, with that entry's value.
pub(crate) proof fn entry_map_holds<V>(entries: Seq<(String, V)>)
    requires
        ascending(entry_keys(entries)),
    ensures
        lists(entry_keys(entries), entry_map(entries).dom()),
        entry_map(entries).dom().finite(),
        forall|i: int|
            0 <= i < entries.len() ==> entry_map(entries).dom().contains(entries[i].0@) && entry_map(entries)[(#[trigger] entries[i]).0@] == entries[i].1,
    decreases entries.len(),
{
    let keys = entry_keys(entries);
    if entries.len() > 0 {
        let front = entries.drop_last();
        let front_keys = entry_keys(front);
        assert(front_keys =~= keys.drop_last());
        entry_map_holds(front);
        let last = entries.last();
        assert forall|k: Seq<char>| #[trigger] entry_map(entries).dom().contains(k) <==> keys.contains(k) by {
            if k == last.0@ {
                assert(keys[entries.len() - 1] == k);
            } else if keys.contains(k) {
                let i = choose|i: int| 0 <= i < keys.len() && keys[i] == k;
                assert(front_keys[i] == k);
            } else if front_keys.contains(k) {
                let i = choose|i: int| 0 <= i < front_keys.len() && front_keys[i] == k;
                assert(keys[i] == k);
            }
        }
        assert forall|i: int| 0 <= i < entries.len() implies entry_map(entries).dom().contains(entries[i].0@) && entry_map(entries)[(#[trigger] entries[i]).0@]
            == entries[i].1 by {
            if i < entries.len() - 1 {
                assert(front[i] == entries[i]);
                assert(before(keys[i], keys[entries.len() - 1]));
                before_is_asymmetric(keys[i], keys[i]);
            }
        }
    }
}

impl<V> NameMap<V> {
    #[verifier::type_invariant]
    pub(crate) closed spec fn in_order(self) -> bool {
        ascending(entry_keys(self.entries@))
    }

    /// The keys, from the first to the last.
    pub closed spec fn keys(self) -> Seq<Seq<char>> {
        entry_keys(self.entries@)
    }
}

impl<V> View for NameMap<V> {
    type V = Map<Seq<char>, V>;

    closed spec fn view(&self) -> Map<Seq<char>, V> {
        entry_map(self.entries@)
    }
}

/// What a map holds is what its entries say.
pub(crate) proof fn view_of_entries<V>(m: NameMap<V>)
    ensures
        m@ == entry_map(m.entries@),
        m.keys() == entry_keys(m.entries@),
{
}

/// Two lists of entries with ascending keys that agree on every key hold the same map.
proof fn same_map<V>(entries: Seq<(String, V)>, m: Map<Seq<char>, V>)
    requires
        ascending(entry_keys(entries)),
        forall|k: Seq<char>| #[trigger] m.dom().contains(k) <==> entry_keys(entries).contains(k),
        forall|i: int| 0 <= i < entries.len() ==> m[(#[trigger] entries[i]).0@] == entries[i].1,
    ensures
        entry_map(entries) == m,
{
    entry_map_holds(entries);
    let n = entry_map(entries);
    assert forall|k: Seq<char>| n.dom().contains(k) implies n[k] == m[k] by {
        let i = choose|i: int| 0 <= i < entries.len() && entry_keys(entries)[i] == k;
        assert(entries[i].0@ == k);
    }
    assert(n =~= m);
}

impl<V> NameMap<V> {
    /// The map that holds nothing.
    pub fn new() -> (r: Self)
        ensures
            r@ == Map::<Seq<char>, V>::empty(),
    {
        NameMap { entries: Vec::new() }
    }

    /// How many keys the map holds.
    pub fn len(&self) -> (r: usize)
        ensures
            r == self.keys().len(),
            lists(self.keys(), self@.dom()),
            self@.dom().finite(),
    {
        proof {
            use_type_invariant(self);
            entry_map_holds(self.entries@);
        }
        self.entries.len()
    }

    /// The key at position `i` in the order of the keys.
    pub fn key_at(&self, i: usize) -> (r: &String)
        requires
            i < self.keys().len(),
        ensures
            r@ == self.keys()[i as int],
    {
        &self.entries[i].0
    }

    /// The value of the key at position `i` in the order of the keys.
    pub fn value_at(&self, i: usize) -> (r: &V)
        requires
            i < self.keys().len(),
        ensures
            self@.dom().contains(self.keys()[i as int]),
            *r == self@[self.keys()[i as int]],
    {
        proof {
            use_type_invariant(self);
            entry_map_holds(self.entries@);
            assert(self.entries@[i as int].0@ == self.keys()[i as int]);
        }
        &self.entries[i].1
    }

    /// The position of the first key that does not come before `key`.
    fn position(&self, key: &str) -> (r: usize)
        ensures
            r <= self.keys().len(),
            forall|j: int| 0 <= j < r ==> before(#[trigger] self.keys()[j], key@),
            forall|j: int| r <= j < self.keys().len() ==> !before(#[trigger] self.keys()[j], key@),
    {
        let mut i: usize = 0;
        proof {
            use_type_invariant(self);
        }
        while i < self.entries.len() && comes_before(self.entries[i].0.as_str(), key)
            invariant
                self.in_order(),
                i <= self.entries.len(),
                forall|j: int| 0 <= j < i ==> before(#[trigger] self.keys()[j], key@),
            decreases self.entries.len() - i,
        {
            assert(self.keys()[i as int] == self.entries@[i as int].0@);
            i = i + 1;
        }
        proof {
            assert forall|j: int| i <= j < self.keys().len() implies !before(
                #[trigger] self.keys()[j],
                key@,
            ) by {
                assert(self.keys()[i as int] == self.entries@[i as int].0@);
                if before(self.keys()[j], key@) && i < j {
                    before_is_transitive(self.keys()[i as int], self.keys()[j], key@);
                }
            }
        }
        i
    }

    /// The value of `key`, if the map holds `key`.
    pub fn get(&self, key: &str) -> (r: Option<&V>)
        ensures
            match r {
                Some(v) => self@.dom().contains(key@) && *v == self@[key@],
                None => !self@.dom().contains(key@),
            },
    {
        let i = self.position(key);
        proof {
            use_type_invariant(self);
            entry_map_holds(self.entries@);
        }
        if i < self.entries.len() && self.entries[i].0 == key.to_owned() {
            Some(&self.entries[i].1)
        } else {
            proof {
                if self@.dom().contains(key@) {
                    let j = choose|j: int| 0 <= j < self.keys().len() && self.keys()[j] == key@;
                    before_is_asymmetric(key@, key@);
                    assert(i <= j);
                    if i < j {
                        assert(before(self.keys()[i as int], self.keys()[j]));
                    }
                    assert(self.keys()[i as int] == self.entries@[i as int].0@);
                }
            }
            None
        }
    }

    /// Whether the map holds `key`.
    pub fn contains_key(&self, key: &str) -> (r: bool)
        ensures
            r == self@.dom().contains(key@),
    {
        self.get(key).is_some()
    }

    /// The first key in order, if the map holds any.
    pub fn first_key(&self) -> (r: Option<&String>)
        ensures
            match r {
                Some(k) => is_first(k@, self@.dom()),
                None => self@ == Map::<Seq<char>, V>::empty(),
            },
    {
        proof {
            use_type_invariant(self);
            entry_map_holds(self.entries@);
        }
        if self.entries.len() == 0 {
            None
        } else {
            proof {
                let first = self.entries@[0].0@;
                assert(self.keys()[0] == first);
                assert forall|other: Seq<char>| #[trigger] self@.dom().contains(other) implies other
                    == first || before(first, other) by {
                    let j = choose|j: int| 0 <= j < self.keys().len() && self.keys()[j] == other;
                    assert(before(self.keys()[0], self.keys()[j]) || j == 0);
                }
            }
            Some(&self.entries[0].0)
        }
    }

    /// Gives `key` the value `value`, in place of the one it had.
    pub fn insert(&mut self, key: String, value: V)
        ensures
            final(self)@ == old(self)@.insert(key@, value),
    {
        let i = self.position(key.as_str());
        let ghost before_insert = self.entries@;
        let ghost keys = self.keys();
        proof {
            use_type_invariant(&*self);
            entry_map_holds(self.entries@);
        }
        let mut entries: Vec<(String, V)> = Vec::new();
        std::mem::swap(&mut entries, &mut self.entries);
        let replaced = i < entries.len() && entries[i].0 == key;
        if replaced {
            entries.remove(i);
        }
        let ghost added = key@;
        entries.insert(i, (key, value));
        proof {
            let m = old(self)@.insert(added, value);
            let new_keys = entry_keys(entries@);
            let shift: int = if replaced { 0 } else { 1 };
            assert(forall|j: int| 0 <= j < i ==> new_keys[j] == keys[j]);
            assert(new_keys[i as int] == added);
            assert(forall|j: int| i < j < new_keys.len() ==> #[trigger] new_keys[j] == keys[j - shift]);
            assert forall|j: int| i < j < new_keys.len() implies before(added, #[trigger] new_keys[j]) by {
                before_is_total(added, keys[j - shift]);
                before_is_asymmetric(added, added);
                if i < keys.len() {
                    assert(keys[i as int] == before_insert[i as int].0@);
                    if i < j - shift {
                        assert(before(keys[i as int], keys[j - shift]));
                        before_is_total(added, keys[i as int]);
                        if keys[i as int] != added {
                            before_is_transitive(added, keys[i as int], keys[j - shift]);
                        }
                    }
                }
            }
            assert(ascending(new_keys));
            assert forall|k: Seq<char>| #[trigger] m.dom().contains(k) <==> new_keys.contains(k) by {
                if new_keys.contains(k) {
                    let j = choose|j: int| 0 <= j < new_keys.len() && new_keys[j] == k;
                    if j < i {
                        assert(keys.contains(k)) by { assert(keys[j] == k); }
                    } else if j > i {
                        assert(keys.contains(k)) by { assert(keys[j - shift] == k); }
                    }
                }
                if m.dom().contains(k) && k != added {
                    let j = choose|j: int| 0 <= j < keys.len() && keys[j] == k;
                    if j < i {
                        assert(new_keys[j] == k);
                    } else {
                        if replaced { assert(keys[i as int] == added); }
                        assert(new_keys[j + shift] == k);
                    }
                }
                if k == added {
                    assert(new_keys[i as int] == k);
                }
            }
            assert forall|j: int| 0 <= j < entries@.len() implies m[(#[trigger] entries@[j]).0@] == entries@[j].1 by {
                assert(new_keys[j] == entries@[j].0@);
                before_is_asymmetric(added, added);
                if j < i {
                    assert(entries@[j] == before_insert[j]);
                    assert(before(keys[j], added));
                } else if j > i {
                    assert(entries@[j] == before_insert[j - shift]);
                    assert(before(added, new_keys[j]));
                }
            }
            same_map(entries@, m);
        }
        self.entries = entries;
    }

    /// Takes `key` and its value out of the map, if it is there.
    pub fn remove(&mut self, key: &str)
        ensures
            final(self)@ == old(self)@.remove(key@),
    {
        let i = self.position(key);
        let ghost before_removal = self.entries@;
        let ghost keys = self.keys();
        proof {
            use_type_invariant(&*self);
            entry_map_holds(self.entries@);
        }
        let mut entries: Vec<(String, V)> = Vec::new();
        std::mem::swap(&mut entries, &mut self.entries);
        let present = i < entries.len() && entries[i].0 == key.to_owned();
        if present {
            entries.remove(i);
        }
        proof {
            let m = old(self)@.remove(key@);
            let new_keys = entry_keys(entries@);
            let shift: int = if present { 1 } else { 0 };
            before_is_asymmetric(key@, key@);
            assert(forall|j: int| 0 <= j < i ==> new_keys[j] == keys[j]);
            assert(forall|j: int| i <= j < new_keys.len() ==> #[trigger] new_keys[j] == keys[j + shift]);
            if i < keys.len() {
                assert(keys[i as int] == before_removal[i as int].0@);
            }
            assert forall|j: int| 0 <= j < new_keys.len() implies #[trigger] new_keys[j] != key@ by {
                if j >= i {
                    if present {
                        assert(before(keys[i as int], keys[j + shift]));
                    } else if i < j {
                        assert(before(keys[i as int], keys[j]));
                    }
                }
            }
            assert forall|k: Seq<char>| #[trigger] m.dom().contains(k) <==> new_keys.contains(k) by {
                if new_keys.contains(k) {
                    let j = choose|j: int| 0 <= j < new_keys.len() && new_keys[j] == k;
                    if j < i {
                        assert(keys.contains(k)) by { assert(keys[j] == k); }
                    } else {
                        assert(keys.contains(k)) by { assert(keys[j + shift] == k); }
                    }
                }
                if m.dom().contains(k) {
                    let j = choose|j: int| 0 <= j < keys.len() && keys[j] == k;
                    if j < i {
                        assert(new_keys[j] == k);
                    } else {
                        assert(new_keys[j - shift] == k);
                    }
                }
            }
            assert forall|j: int| 0 <= j < entries@.len() implies m[(#[trigger] entries@[j]).0@] == entries@[j].1 by {
                assert(new_keys[j] == entries@[j].0@);
                if j < i {
                    assert(entries@[j] == before_removal[j]);
                } else {
                    assert(entries@[j] == before_removal[j + shift]);
                }
            }
            same_map(entries@, m);
        }
        self.entries = entries;
    }
}

impl<V: Clone> Clone for NameMap<V> {
    /// The same keys, each with a clone of its value.
    fn clone(&self) -> (r: Self)
        ensures
            r.keys() == self.keys(),
            r@.dom() == self@.dom(),
            forall|k: Seq<char>| #[trigger] self@.dom().contains(k) ==> cloned(self@[k], r@[k]),
    {
        let mut entries: Vec<(String, V)> = Vec::new();
        let mut i: usize = 0;
        proof {
            use_type_invariant(self);
        }
        while i < self.entries.len()
            invariant
                i <= self.entries.len(),
                entries.len() == i,
                forall|j: int|
                    0 <= j < i ==> (#[trigger] entries@[j]).0@ == self.entries@[j].0@ && cloned(
                        self.entries@[j].1,
                        entries@[j].1,
                    ),
            decreases self.entries.len() - i,
        {
            entries.push((self.entries[i].0.clone(), self.entries[i].1.clone()));
            i = i + 1;
        }
        proof {
            assert(entry_keys(entries@) =~= self.keys());
            entry_map_holds(self.entries@);
            entry_map_holds(entries@);
            assert(entry_map(entries@).dom() =~= self@.dom());
            assert forall|k: Seq<char>| #[trigger] self@.dom().contains(k) implies cloned(
                self@[k],
                entry_map(entries@)[k],
            ) by {
                let j = choose|j: int| 0 <= j < self.keys().len() && self.keys()[j] == k;
                assert(self.entries@[j].0@ == k && entries@[j].0@ == k);
            }
        }
        NameMap { entries }
    }
}

} // verus!
