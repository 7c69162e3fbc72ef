//! A map and a set keyed by text, kept in the order of their keys.
use crate::text;
use vstd::prelude::*;

verus! {

/// Whether the texts come in strictly increasing order.
pub open spec fn increasing(keys: Seq<Seq<char>>) -> bool {
    forall|i: int, j: int| 0 <= i < j < keys.len() ==> text::before(keys[i], keys[j])
}

/// A map from text to `V` whose entries are kept in key order.
#[derive(Debug)]
pub struct TextMap<V> {
    entries: Vec<(String, V)>,
}

/// The keys of `entries`, in order.
pub open spec fn keys_of<V>(entries: Seq<(String, V)>) -> Seq<Seq<char>> {
    entries.map_values(|e: (String, V)| e.0@)
}

/// What `entries` map their keys to.
pub open spec fn map_of<V>(entries: Seq<(String, V)>) -> Map<Seq<char>, V> {
    Map::new(
        |k: Seq<char>| keys_of(entries).contains(k),
        |k: Seq<char>| entries[keys_of(entries).index_of(k)].1,
    )
}

proof fn lemma_key_index<V>(entries: Seq<(String, V)>, i: int)
    requires
        increasing(keys_of(entries)),
        0 <= i < entries.len(),
    ensures
        map_of(entries).contains_key(entries[i].0@),
        map_of(entries)[entries[i].0@] == entries[i].1,
{
    let keys = keys_of(entries);
    let k = entries[i].0@;
    assert(keys[i] == k);
    assert(keys.contains(k));
    let j = keys.index_of(k);
    if j < i {
        text::lemma_before_total(keys[j], keys[i]);
    } else if i < j {
        text::lemma_before_total(keys[i], keys[j]);
    }
}

impl<V> View for TextMap<V> {
    type V = Map<Seq<char>, V>;

    closed spec fn view(&self) -> Map<Seq<char>, V> {
        map_of(self.entries@)
    }
}

impl<V> TextMap<V> {
    /// The keys are in strictly increasing order.
    #[verifier::type_invariant]
    spec fn ordered(self) -> bool {
        increasing(keys_of(self.entries@))
    }

    /// The entries, in key order.
    pub closed spec fn items(&self) -> Seq<(String, V)> {
        self.entries@
    }

    /// The keys, in order.
    pub open spec fn keys(&self) -> Seq<Seq<char>> {
        keys_of(self.items())
    }

    /// The empty map.
    pub fn new() -> (r: Self)
        ensures
            r@ == Map::<Seq<char>, V>::empty(),
            r.items() == Seq::<(String, V)>::empty(),
    {
        let r = TextMap { entries: Vec::new() };
        assert(r@ =~= Map::<Seq<char>, V>::empty());
        r
    }

    /// Number of entries. The entries come in strictly increasing key order
    /// and hold exactly the pairs of the map.
    pub fn len(&self) -> (r: usize)
        ensures
            r == self.items().len(),
            r == self@.dom().len(),
            self@.dom() == self.keys().to_set(),
            increasing(self.keys()),
            self@ == map_of(self.items()),
            forall|i: int|
                0 <= i < self.items().len() ==> #[trigger] self@.contains_key(self.items()[i].0@)
                    && self@[self.items()[i].0@] == self.items()[i].1,
    {
        proof {
            use_type_invariant(self);
            assert forall|i: int| 0 <= i < self.items().len() implies #[trigger] self@.contains_key(
                self.items()[i].0@,
            ) && self@[self.items()[i].0@] == self.items()[i].1 by {
                lemma_key_index(self.entries@, i);
            }
            assert(self@.dom() =~= self.keys().to_set());
            assert(self.keys().no_duplicates()) by {
                assert forall|i: int, j: int|
                    0 <= i < self.keys().len() && 0 <= j < self.keys().len() && i
                        != j implies self.keys()[i] != self.keys()[j] by {
                    text::lemma_before_total(self.keys()[i], self.keys()[j]);
                }
            }
            self.keys().unique_seq_to_set();
        }
        self.entries.len()
    }

    /// Whether the map has no entry.
    pub fn is_empty(&self) -> (r: bool)
        ensures
            r == (self@ == Map::<Seq<char>, V>::empty()),
            r == (self.items().len() == 0),
    {
        let r = self.entries.len() == 0;
        proof {
            use_type_invariant(self);
            if r {
                assert(self@ =~= Map::<Seq<char>, V>::empty());
            } else {
                lemma_key_index(self.entries@, 0);
            }
        }
        r
    }

    /// The entry at position `i` of the key order.
    pub fn item(&self, i: usize) -> (r: (&String, &V))
        requires
            i < self.items().len(),
        ensures
            *r.0 == self.items()[i as int].0,
            *r.1 == self.items()[i as int].1,
            self@.contains_key(r.0@),
            self@[r.0@] == *r.1,
    {
        proof {
            use_type_invariant(self);
            lemma_key_index(self.entries@, i as int);
        }
        let e = &self.entries[i];
        (&e.0, &e.1)
    }

    /// The position at which `key` stands, or at which it would be inserted.
    fn search(&self, key: &str) -> (r: (usize, bool))
        ensures
            r.0 <= self.entries@.len(),
            r.1 ==> r.0 < self.entries@.len() && self.entries@[r.0 as int].0@ == key@,
            !r.1 ==> !self@.contains_key(key@),
            forall|j: int| 0 <= j < r.0 ==> text::before(#[trigger] self.keys()[j], key@),
            !r.1 ==> forall|j: int|
                r.0 <= j < self.entries@.len() ==> text::before(key@, #[trigger] self.keys()[j]),
    {
        proof {
            use_type_invariant(self);
        }
        let mut i: usize = 0;
        while i < self.entries.len() && text::is_before(self.entries[i].0.as_str(), key)
            invariant
                i <= self.entries@.len(),
                forall|j: int| 0 <= j < i ==> text::before(#[trigger] self.keys()[j], key@),
            decreases self.entries@.len() - i,
        {
            assert(self.keys()[i as int] == self.entries@[i as int].0@);
            i += 1;
        }
        let found = i < self.entries.len() && text::same(self.entries[i].0.as_str(), key);
        proof {
            let keys = self.keys();
            if i < self.entries@.len() {
                assert(keys[i as int] == self.entries@[i as int].0@);
                text::lemma_before_total(keys[i as int], key@);
            }
            if !found {
                assert forall|j: int| i <= j < self.entries@.len() implies text::before(
                    key@,
                    #[trigger] keys[j],
                ) by {
                    if j > i {
                        text::lemma_before_transitive(key@, keys[i as int], keys[j]);
                    }
                }
                if keys.contains(key@) {
                    let j = choose|j: int| 0 <= j < keys.len() && keys[j] == key@;
                    text::lemma_before_total(key@, key@);
                    assert(text::before(keys[j], key@) || text::before(key@, keys[j]));
                }
            }
        }
        (i, found)
    }

    /// What the map holds for `key`.
    pub fn get(&self, key: &str) -> (r: Option<&V>)
        ensures
            match r {
                Some(v) => self@.contains_key(key@) && *v == self@[key@],
                None => !self@.contains_key(key@),
            },
    {
        let (i, found) = self.search(key);
        if found {
            proof {
                use_type_invariant(self);
                lemma_key_index(self.entries@, i as int);
            }
            Some(&self.entries[i].1)
        } else {
            None
        }
    }

    /// Whether the map holds something for `key`.
    pub fn contains_key(&self, key: &str) -> (r: bool)
        ensures
            r == self@.contains_key(key@),
    {
        self.get(key).is_some()
    }

    /// Sets what the map holds for `key`, and hands out what it held before.
    pub fn insert(&mut self, key: String, value: V) -> (r: Option<V>)
        ensures
            final(self)@ == old(self)@.insert(key@, value),
            match r {
                Some(v) => old(self)@.contains_key(key@) && v == old(self)@[key@],
                None => !old(self)@.contains_key(key@),
            },
    {
        let (i, found) = self.search(key.as_str());
        let ghost before = self.entries@;
        proof {
            use_type_invariant(&*self);
            assert(self.keys() == keys_of(before));
        }
        let mut entries: Vec<(String, V)> = Vec::new();
        std::mem::swap(&mut entries, &mut self.entries);
        let r = if found {
            let old_entry = entries.remove(i);
            proof {
                lemma_key_index(before, i as int);
            }
            Some(old_entry.1)
        } else {
            None
        };
        let ghost k = key@;
        entries.insert(i, (key, value));
        proof {
            let after = entries@;
            lemma_inserted(before, after, i as int, found, k, value);
        }
        std::mem::swap(&mut entries, &mut self.entries);
        r
    }

    /// Takes out what the map holds for `key`.
    pub fn remove(&mut self, key: &str) -> (r: Option<V>)
        ensures
            final(self)@ == old(self)@.remove(key@),
            match r {
                Some(v) => old(self)@.contains_key(key@) && v == old(self)@[key@],
                None => !old(self)@.contains_key(key@),
            },
    {
        let (i, found) = self.search(key);
        let ghost before = self.entries@;
        if !found {
            assert(self@.remove(key@) =~= self@);
            return None;
        }
        proof {
            use_type_invariant(&*self);
            lemma_key_index(before, i as int);
        }
        let mut entries: Vec<(String, V)> = Vec::new();
        std::mem::swap(&mut entries, &mut self.entries);
        let old_entry = entries.remove(i);
        proof {
            lemma_removed(before, entries@, i as int);
        }
        std::mem::swap(&mut entries, &mut self.entries);
        Some(old_entry.1)
    }
}

proof fn lemma_removed<V>(before: Seq<(String, V)>, after: Seq<(String, V)>, i: int)
    requires
        increasing(keys_of(before)),
        0 <= i < before.len(),
        after == before.remove(i),
    ensures
        increasing(keys_of(after)),
        map_of(after) == map_of(before).remove(before[i].0@),
{
    let b = keys_of(before);
    let a = keys_of(after);
    let k = before[i].0@;
    assert(forall|j: int| 0 <= j < i ==> a[j] == b[j]);
    assert(forall|j: int| i <= j < a.len() ==> a[j] == b[j + 1]);
    let m = map_of(after);
    let n = map_of(before).remove(k);
    assert forall|q: Seq<char>| m.contains_key(q) == n.contains_key(q) by {
        if m.contains_key(q) {
            let j = choose|j: int| 0 <= j < a.len() && a[j] == q;
            let o = if j < i { j } else { j + 1 };
            assert(b[o] == q && b[i] == k);
            text::lemma_before_total(b[o], b[i]);
        }
        if n.contains_key(q) {
            let j = choose|j: int| 0 <= j < b.len() && b[j] == q;
            let o = if j < i { j } else { j - 1 };
            assert(a[o] == q);
        }
    }
    assert forall|q: Seq<char>| m.contains_key(q) implies m[q] == n[q] by {
        let j = choose|j: int| 0 <= j < a.len() && a[j] == q;
        lemma_key_index(after, j);
        lemma_key_index(before, if j < i { j } else { j + 1 });
    }
    assert(m =~= n);
}

proof fn lemma_inserted<V>(
    before: Seq<(String, V)>,
    after: Seq<(String, V)>,
    i: int,
    found: bool,
    k: Seq<char>,
    value: V,
)
    requires
        increasing(keys_of(before)),
        0 <= i < after.len(),
        after[i].0@ == k,
        after[i].1 == value,
        found ==> before.len() == after.len() && before[i].0@ == k && (forall|j: int|
            0 <= j < before.len() && j != i ==> #[trigger] after[j] == before[j]),
        !found ==> after.len() == before.len() + 1 && (forall|j: int|
            0 <= j < i ==> #[trigger] after[j] == before[j]) && (forall|j: int|
            i < j < after.len() ==> #[trigger] after[j] == before[j - 1]),
        forall|j: int| 0 <= j < i ==> text::before(#[trigger] keys_of(before)[j], k),
        !found ==> forall|j: int|
            i <= j < before.len() ==> text::before(k, #[trigger] keys_of(before)[j]),
    ensures
        increasing(keys_of(after)),
        map_of(after) == map_of(before).insert(k, value),
{
    let b = keys_of(before);
    let a = keys_of(after);
    assert forall|x: int, y: int| 0 <= x < y < a.len() implies text::before(a[x], a[y]) by {
        assert(a[x] == after[x].0@ && a[y] == after[y].0@);
        if found {
            assert(a[x] == b[x] && a[y] == b[y]);
        } else {
            if y < i {
                assert(a[x] == b[x] && a[y] == b[y]);
            } else if y == i {
                assert(a[x] == b[x]);
            } else if x < i {
                assert(a[x] == b[x] && a[y] == b[y - 1]);
            } else if x == i {
                assert(a[y] == b[y - 1]);
            } else {
                assert(a[x] == b[x - 1] && a[y] == b[y - 1]);
            }
        }
    }
    let m = map_of(after);
    let n = map_of(before).insert(k, value);
    assert forall|q: Seq<char>| m.contains_key(q) == n.contains_key(q) by {
        if m.contains_key(q) {
            let j = choose|j: int| 0 <= j < a.len() && a[j] == q;
            if j != i {
                let o = if found || j < i { j } else { j - 1 };
                assert(b[o] == q);
            }
        }
        if n.contains_key(q) {
            if q == k {
                assert(a[i] == k);
            } else {
                let j = choose|j: int| 0 <= j < b.len() && b[j] == q;
                let o = if found || j < i { j } else { j + 1 };
                assert(a[o] == q);
            }
        }
    }
    assert forall|q: Seq<char>| m.contains_key(q) implies m[q] == n[q] by {
        let j = choose|j: int| 0 <= j < a.len() && a[j] == q;
        lemma_key_index(after, j);
        if j != i {
            let o = if found || j < i { j } else { j - 1 };
            lemma_key_index(before, o);
            assert(a[j] != a[i]) by {
                text::lemma_before_total(a[j], a[i]);
                if j < i {
                    assert(text::before(a[j], a[i]));
                } else {
                    assert(text::before(a[i], a[j]));
                }
            }
        }
    }
    assert(m =~= n);
}

/// The members of a set in strictly increasing order.
pub open spec fn listing(s: Set<Seq<char>>) -> Seq<Seq<char>> {
    choose|l: Seq<Seq<char>>| increasing(l) && l.to_set() == s
}

/// Whether `l` lists the members of a set in strictly increasing order.
pub open spec fn lists(l: Seq<Seq<char>>, s: Set<Seq<char>>) -> bool {
    increasing(l) && l.to_set() == s
}

proof fn lemma_listing_with_one_more(l: Seq<Seq<char>>, x: Seq<char>) -> (r: Seq<Seq<char>>)
    requires
        increasing(l),
        !l.contains(x),
    ensures
        lists(r, l.to_set().insert(x)),
    decreases l.len(),
{
    if l.len() == 0 {
        let r = seq![x];
        assert(r[0] == x);
        assert(r.to_set() =~= l.to_set().insert(x));
        r
    } else {
        let last = l.last();
        assert(l.contains(last));
        text::lemma_before_total(last, x);
        if text::before(last, x) {
            let r = l.push(x);
            assert forall|i: int, j: int| 0 <= i < j < r.len() implies #[trigger] text::before(
                r[i],
                r[j],
            ) by {
                if j == l.len() && i < l.len() - 1 {
                    assert(text::before(l[i], l[l.len() - 1]));
                    text::lemma_before_transitive(l[i], last, x);
                }
            }
            l.lemma_push_to_set_commute(x);
            r
        } else {
            let front = l.drop_last();
            assert(!front.contains(x)) by {
                if front.contains(x) {
                    let i = choose|i: int| 0 <= i < front.len() && front[i] == x;
                    assert(l[i] == x);
                }
            }
            let r0 = lemma_listing_with_one_more(front, x);
            let r = r0.push(last);
            assert forall|i: int, j: int| 0 <= i < j < r.len() implies #[trigger] text::before(
                r[i],
                r[j],
            ) by {
                if j == r0.len() {
                    assert(r0.to_set().contains(r0[i]));
                    if r0[i] != x {
                        assert(front.contains(r0[i]));
                        let k = choose|k: int| 0 <= k < front.len() && front[k] == r0[i];
                        assert(text::before(l[k], l[l.len() - 1]));
                    }
                }
            }
            r0.lemma_push_to_set_commute(last);
            front.lemma_push_to_set_commute(last);
            assert(front.push(last) =~= l);
            assert(r.to_set() =~= l.to_set().insert(x));
            r
        }
    }
}

/// Every finite set has a listing: [`listing`] gives its members, each once
/// and in strictly increasing order.
pub proof fn law_listings_are_ordered(s: Set<Seq<char>>)
    requires
        s.finite(),
    ensures
        lists(listing(s), s),
    decreases s.len(),
{
    if s.len() == 0 {
        let none = Seq::<Seq<char>>::empty();
        assert(none.to_set() =~= s);
        assert(increasing(none) && none.to_set() == s);
    } else {
        let x = s.choose();
        let rest = s.remove(x);
        law_listings_are_ordered(rest);
        let l = listing(rest);
        assert(!l.contains(x)) by {
            if l.contains(x) {
                assert(l.to_set().contains(x));
            }
        }
        let r = lemma_listing_with_one_more(l, x);
        assert(rest.insert(x) =~= s);
        assert(increasing(r) && r.to_set() == s);
    }
}

/// The one strictly increasing listing of a set.
pub proof fn lemma_listing(l: Seq<Seq<char>>)
    requires
        increasing(l),
    ensures
        listing(l.to_set()) == l,
{
    lemma_increasing_unique(listing(l.to_set()), l);
}

/// A set of texts kept in order.
#[derive(Debug)]
pub struct TextSet {
    map: TextMap<()>,
}

impl View for TextSet {
    type V = Set<Seq<char>>;

    closed spec fn view(&self) -> Set<Seq<char>> {
        self.map@.dom()
    }
}

impl TextSet {
    /// The empty set.
    pub fn new() -> (r: Self)
        ensures
            r@ == Set::<Seq<char>>::empty(),
    {
        let r = TextSet { map: TextMap::new() };
        assert(r@ =~= Set::<Seq<char>>::empty());
        r
    }

    /// Whether `item` is in the set.
    pub fn contains(&self, item: &str) -> (r: bool)
        ensures
            r == self@.contains(item@),
    {
        self.map.contains_key(item)
    }

    /// Adds `item`; tells whether it was not there before.
    pub fn insert(&mut self, item: &str) -> (r: bool)
        ensures
            final(self)@ == old(self)@.insert(item@),
            r == !old(self)@.contains(item@),
    {
        let before = self.map.insert(item.to_owned(), ());
        assert(self@ =~= old(self)@.insert(item@));
        before.is_none()
    }

    /// The members in strictly increasing order.
    pub fn to_vec(&self) -> (r: Vec<String>)
        ensures
            text::texts(r@) == listing(self@),
            increasing(text::texts(r@)),
            text::texts(r@).to_set() == self@,
    {
        let mut out: Vec<String> = Vec::new();
        let n = self.map.len();
        let mut i: usize = 0;
        while i < n
            invariant
                i <= n,
                n == self.map.items().len(),
                out@.len() == i,
                forall|j: int| 0 <= j < i ==> #[trigger] out@[j]@ == self.map.items()[j].0@,
            decreases n - i,
        {
            let (k, _v) = self.map.item(i);
            out.push(k.clone());
            i += 1;
        }
        proof {
            let t = text::texts(out@);
            assert(t =~= self.map.keys());
            assert forall|q: Seq<char>| t.to_set().contains(q) == self@.contains(q) by {
                assert(self@.contains(q) == self.map.keys().contains(q));
            }
            assert(t.to_set() =~= self@);
            lemma_listing(t);
        }
        out
    }
}

/// A set has one strictly increasing listing.
pub proof fn lemma_increasing_unique(a: Seq<Seq<char>>, b: Seq<Seq<char>>)
    requires
        increasing(a),
        increasing(b),
        a.to_set() == b.to_set(),
    ensures
        a == b,
    decreases a.len(),
{
    if a.len() == 0 {
        if b.len() > 0 {
            assert(b.to_set().contains(b[0]));
            assert(a.to_set().contains(b[0]));
        }
        assert(a =~= b);
    } else if b.len() == 0 {
        assert(a.to_set().contains(a[0]));
        assert(b.to_set().contains(a[0]));
    } else {
        lemma_last_is_greatest(a, b);
        lemma_last_is_greatest(b, a);
        text::lemma_before_total(a.last(), b.last());
        let x = a.drop_last();
        let y = b.drop_last();
        assert(x.to_set() =~= y.to_set()) by {
            assert forall|q: Seq<char>| x.to_set().contains(q) implies y.to_set().contains(q) by {
                lemma_keep_all_but_last(a, b, q);
            }
            assert forall|q: Seq<char>| y.to_set().contains(q) implies x.to_set().contains(q) by {
                lemma_keep_all_but_last(b, a, q);
            }
        }
        lemma_increasing_unique(x, y);
        assert(a =~= x.push(a.last()));
        assert(b =~= y.push(b.last()));
    }
}

proof fn lemma_last_is_greatest(a: Seq<Seq<char>>, b: Seq<Seq<char>>)
    requires
        increasing(a),
        increasing(b),
        a.len() > 0,
        b.len() > 0,
        a.to_set() == b.to_set(),
    ensures
        a.last() == b.last() || text::before(a.last(), b.last()),
{
    assert(a.to_set().contains(a.last()));
    assert(b.contains(a.last()));
    let j = choose|j: int| 0 <= j < b.len() && b[j] == a.last();
    if j < b.len() - 1 {
        assert(text::before(b[j], b[b.len() - 1]));
    }
}

proof fn lemma_keep_all_but_last(a: Seq<Seq<char>>, b: Seq<Seq<char>>, q: Seq<char>)
    requires
        increasing(a),
        a.len() > 0,
        b.len() > 0,
        a.to_set() == b.to_set(),
        a.last() == b.last(),
        a.drop_last().contains(q),
    ensures
        b.drop_last().contains(q),
{
    let i = choose|i: int| 0 <= i < a.len() - 1 && a.drop_last()[i] == q;
    assert(a[i] == q);
    assert(text::before(a[i], a[a.len() - 1]));
    text::lemma_before_total(q, a.last());
    assert(a.to_set().contains(q));
    assert(b.contains(q));
    let j = choose|j: int| 0 <= j < b.len() && b[j] == q;
    assert(b.drop_last()[j] == q);
}

} // verus!
