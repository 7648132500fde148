//! Sets and maps on vectors, keyed by values that are compared by their views.

use vstd::prelude::*;

verus! {

/// What a set or a map can be keyed by.
pub trait Key: View + Sized {
    /// Whether the two are the same key.
    fn same(&self, other: &Self) -> (r: bool)
        ensures
            r == (self@ == other@),
    ;

    /// Another copy of the key.
    fn copy(&self) -> (r: Self)
        ensures
            r@ == self@,
    ;
}

/// The views of the items, in their order.
pub open spec fn views<K: View>(items: Seq<K>) -> Seq<K::V> {
    Seq::new(items.len(), |i: int| items[i]@)
}

/// A finite set in which no key occurs twice.
#[derive(Debug)]
pub struct KeySet<K: Key> {
    items: Vec<K>,
}

impl<K: Key> View for KeySet<K> {
    type V = Set<K::V>;

    closed spec fn view(&self) -> Set<K::V> {
        views(self.items@).to_set()
    }
}

impl<K: Key> KeySet<K> {
    #[verifier::type_invariant]
    spec fn well_formed(self) -> bool {
        views(self.items@).no_duplicates()
    }

    pub fn new() -> (r: KeySet<K>)
        ensures
            r@ == Set::<K::V>::empty(),
    {
        let r = KeySet { items: Vec::new() };
        assert(r@ =~= Set::<K::V>::empty());
        r
    }

    fn position(&self, key: &K) -> (r: Option<usize>)
        ensures
            match r {
                Some(i) => i < self.items@.len() && self.items@[i as int]@ == key@ && self@.contains(key@),
                None => !self@.contains(key@),
            },
    {
        let mut i: usize = 0;
        while i < self.items.len()
            invariant
                i <= self.items@.len(),
                forall|j: int| 0 <= j < i ==> views(self.items@)[j] != key@,
            decreases self.items@.len() - i,
        {
            if self.items[i].same(key) {
                assert(views(self.items@)[i as int] == key@);
                return Some(i);
            }
            i += 1;
        }
        None
    }

    pub fn contains(&self, key: &K) -> (r: bool)
        ensures
            r == self@.contains(key@),
    {
        match self.position(key) {
            Some(_) => true,
            None => false,
        }
    }

    /// Adds a key, and tells whether it was new.
    pub fn insert(&mut self, key: K) -> (r: bool)
        ensures
            final(self)@ == old(self)@.insert(key@),
            r == !old(self)@.contains(key@),
    {
        proof {
            use_type_invariant(&*self);
        }
        if self.contains(&key) {
            assert(self@ =~= old(self)@.insert(key@));
            false
        } else {
            let ghost before = self.items@;
            let mut items: Vec<K> = Vec::new();
            std::mem::swap(&mut items, &mut self.items);
            items.push(key);
            proof {
                lemma_push(before, key);
            }
            self.items = items;
            true
        }
    }

    /// Removes a key, and tells whether it was there.
    pub fn remove(&mut self, key: &K) -> (r: bool)
        ensures
            final(self)@ == old(self)@.remove(key@),
            r == old(self)@.contains(key@),
    {
        proof {
            use_type_invariant(&*self);
        }
        match self.position(key) {
            Some(i) => {
                let ghost before = self.items@;
                let mut items: Vec<K> = Vec::new();
                std::mem::swap(&mut items, &mut self.items);
                items.remove(i);
                proof {
                    lemma_remove(before, i as int);
                }
                self.items = items;
                true
            },
            None => {
                assert(self@ =~= old(self)@.remove(key@));
                false
            },
        }
    }

    pub fn len(&self) -> (r: usize)
        ensures
            r == self@.len(),
            self@.finite(),
    {
        proof {
            use_type_invariant(self);
            views(self.items@).unique_seq_to_set();
        }
        self.items.len()
    }

    pub fn is_empty(&self) -> (r: bool)
        ensures
            r == (self@ == Set::<K::V>::empty()),
    {
        let empty: bool = self.items.len() == 0;
        assert(empty ==> self@ =~= Set::<K::V>::empty());
        assert(!empty ==> self@.contains(views(self.items@)[0]));
        empty
    }

    /// The keys, each once, in no particular order.
    pub fn to_vec(&self) -> (r: Vec<K>)
        ensures
            views(r@).no_duplicates(),
            views(r@).to_set() == self@,
    {
        proof {
            use_type_invariant(self);
        }
        let mut r: Vec<K> = Vec::new();
        let mut i: usize = 0;
        while i < self.items.len()
            invariant
                i <= self.items@.len(),
                views(r@) == views(self.items@).take(i as int),
            decreases self.items@.len() - i,
        {
            let key = self.items[i].copy();
            let ghost before = r@;
            r.push(key);
            assert(views(r@) =~= views(before).push(key@));
            assert(views(self.items@).take(i + 1) =~= views(self.items@).take(i as int).push(key@));
            i += 1;
        }
        assert(views(r@) =~= views(self.items@));
        r
    }

    /// Another copy of the set.
    pub fn copy(&self) -> (r: KeySet<K>)
        ensures
            r@ == self@,
    {
        let items: Vec<K> = self.to_vec();
        KeySet { items }
    }

    /// The set of these keys.
    pub fn from_vec(keys: &Vec<K>) -> (r: KeySet<K>)
        ensures
            r@ == views(keys@).to_set(),
    {
        let mut r: KeySet<K> = KeySet::new();
        let mut i: usize = 0;
        assert(r@ =~= views(keys@).take(0).to_set());
        while i < keys.len()
            invariant
                i <= keys@.len(),
                r@ == views(keys@).take(i as int).to_set(),
            decreases keys@.len() - i,
        {
            r.insert(keys[i].copy());
            proof {
                lemma_take_next(views(keys@), i as int);
            }
            i += 1;
        }
        assert(views(keys@).take(i as int) =~= views(keys@));
        r
    }
}

pub proof fn lemma_take_next<A>(s: Seq<A>, i: int)
    requires
        0 <= i < s.len(),
    ensures
        s.take(i + 1).to_set() == s.take(i).to_set().insert(s[i]),
{
    let a = s.take(i + 1).to_set();
    let b = s.take(i).to_set().insert(s[i]);
    assert forall|x: A| b.contains(x) implies a.contains(x) by {
        if x == s[i] {
            assert(s.take(i + 1)[i] == x);
        } else {
            let j = choose|j: int| 0 <= j < i && s.take(i)[j] == x;
            assert(s.take(i + 1)[j] == x);
        }
    }
    assert forall|x: A| a.contains(x) implies b.contains(x) by {
        let t = s.take(i + 1);
        let j = choose|j: int| 0 <= j < t.len() && t[j] == x;
        if j < i {
            assert(s.take(i)[j] == x);
        }
    }
    assert(a =~= b);
}

proof fn lemma_push<K: View>(items: Seq<K>, key: K)
    requires
        views(items).no_duplicates(),
        !views(items).to_set().contains(key@),
    ensures
        views(items.push(key)).no_duplicates(),
        views(items.push(key)).to_set() == views(items).to_set().insert(key@),
{
    let s = views(items.push(key));
    assert(s.take(items.len() as int) =~= views(items));
    assert(s.take(items.len() as int + 1) =~= s);
    lemma_take_next(s, items.len() as int);
    assert forall|i: int, j: int| 0 <= i < s.len() && 0 <= j < s.len() && i != j implies s[i] != s[j] by {
        if i == items.len() {
            assert(views(items).contains(views(items)[j]));
        } else if j == items.len() {
            assert(views(items).contains(views(items)[i]));
        } else {
            assert(views(items)[i] != views(items)[j]);
        }
    }
}

proof fn lemma_remove<K: View>(items: Seq<K>, i: int)
    requires
        views(items).no_duplicates(),
        0 <= i < items.len(),
    ensures
        views(items.remove(i)).no_duplicates(),
        views(items.remove(i)).to_set() == views(items).to_set().remove(items[i]@),
{
    let old_s = views(items);
    let s = views(items.remove(i));
    assert forall|a: int, b: int| 0 <= a < s.len() && 0 <= b < s.len() && a != b implies s[a] != s[b] by {
        let a2 = if a < i { a } else { a + 1 };
        let b2 = if b < i { b } else { b + 1 };
        assert(s[a] == old_s[a2] && s[b] == old_s[b2]);
    }
    let x = s.to_set();
    let y = old_s.to_set().remove(items[i]@);
    assert forall|v: K::V| y.contains(v) implies x.contains(v) by {
        let a = choose|a: int| 0 <= a < old_s.len() && old_s[a] == v;
        let b = if a < i { a } else { a - 1 };
        assert(s[b] == v);
    }
    assert forall|v: K::V| x.contains(v) implies y.contains(v) by {
        let b = choose|b: int| 0 <= b < s.len() && s[b] == v;
        let a = if b < i { b } else { b + 1 };
        assert(old_s[a] == v);
        assert(old_s[a] != old_s[i]);
    }
    assert(x =~= y);
}

/// The map that the entries make, later ones over earlier ones.
spec fn entries_map<K: View, V>(entries: Seq<(K, V)>) -> Map<K::V, V>
    decreases entries.len(),
{
    if entries.len() == 0 {
        Map::empty()
    } else {
        entries_map(entries.drop_last()).insert(entries.last().0@, entries.last().1)
    }
}

spec fn distinct_keys<K: View, V>(entries: Seq<(K, V)>) -> bool {
    forall|i: int, j: int|
        0 <= i < entries.len() && 0 <= j < entries.len() && i != j ==> (#[trigger] entries[i]).0@ != (
        #[trigger] entries[j]).0@
}

/// A finite map in which no key occurs twice.
#[derive(Debug)]
pub struct KeyMap<K: Key, V> {
    entries: Vec<(K, V)>,
}

impl<K: Key, V> View for KeyMap<K, V> {
    type V = Map<K::V, V>;

    closed spec fn view(&self) -> Map<K::V, V> {
        entries_map(self.entries@)
    }
}

impl<K: Key, V> KeyMap<K, V> {
    #[verifier::type_invariant]
    spec fn well_formed(self) -> bool {
        distinct_keys(self.entries@)
    }

    pub fn new() -> (r: KeyMap<K, V>)
        ensures
            r@ == Map::<K::V, V>::empty(),
    {
        KeyMap { entries: Vec::new() }
    }

    fn position(&self, key: &K) -> (r: Option<usize>)
        ensures
            match r {
                Some(i) => i < self.entries@.len() && self.entries@[i as int].0@ == key@
                    && self@.contains_key(key@) && self@[key@] == self.entries@[i as int].1,
                None => !self@.contains_key(key@),
            },
    {
        proof {
            use_type_invariant(self);
        }
        let mut i: usize = 0;
        while i < self.entries.len()
            invariant
                i <= self.entries@.len(),
                distinct_keys(self.entries@),
                forall|j: int| 0 <= j < i ==> (#[trigger] self.entries@[j]).0@ != key@,
            decreases self.entries@.len() - i,
        {
            if self.entries[i].0.same(key) {
                proof {
                    lemma_entry(self.entries@, i as int);
                }
                return Some(i);
            }
            i += 1;
        }
        proof {
            lemma_no_entry(self.entries@, key@);
        }
        None
    }

    pub fn contains_key(&self, key: &K) -> (r: bool)
        ensures
            r == self@.contains_key(key@),
    {
        match self.position(key) {
            Some(_) => true,
            None => false,
        }
    }

    pub fn get(&self, key: &K) -> (r: Option<&V>)
        ensures
            match r {
                Some(v) => self@.contains_key(key@) && *v == self@[key@],
                None => !self@.contains_key(key@),
            },
    {
        match self.position(key) {
            Some(i) => Some(&self.entries[i].1),
            None => None,
        }
    }

    /// Sets the value of a key, and returns the value that it had before.
    pub fn insert(&mut self, key: K, value: V) -> (r: Option<V>)
        ensures
            final(self)@ == old(self)@.insert(key@, value),
            r == (if old(self)@.contains_key(key@) {
                Some(old(self)@[key@])
            } else {
                None
            }),
    {
        let before: Option<V> = self.remove(&key);
        proof {
            use_type_invariant(&*self);
        }
        let ghost entries_before = self.entries@;
        let mut entries: Vec<(K, V)> = Vec::new();
        std::mem::swap(&mut entries, &mut self.entries);
        entries.push((key, value));
        proof {
            assert(entries@.drop_last() =~= entries_before);
            assert forall|i: int| 0 <= i < entries_before.len() implies (
            #[trigger] entries_before[i]).0@ != key@ by {
                lemma_entry(entries_before, i);
            }
            assert(entries_map(entries@) =~= old(self)@.insert(key@, value));
        }
        self.entries = entries;
        before
    }

    /// Removes a key, and returns the value that it had.
    pub fn remove(&mut self, key: &K) -> (r: Option<V>)
        ensures
            final(self)@ == old(self)@.remove(key@),
            r == (if old(self)@.contains_key(key@) {
                Some(old(self)@[key@])
            } else {
                None
            }),
    {
        proof {
            use_type_invariant(&*self);
        }
        match self.position(key) {
            Some(i) => {
                let ghost before = self.entries@;
                let mut entries: Vec<(K, V)> = Vec::new();
                std::mem::swap(&mut entries, &mut self.entries);
                let entry: (K, V) = entries.remove(i);
                proof {
                    lemma_remove_entry(before, i as int);
                }
                self.entries = entries;
                Some(entry.1)
            },
            None => {
                assert(self@ =~= old(self)@.remove(key@));
                None
            },
        }
    }

    /// The keys, each once, in no particular order.
    pub fn keys(&self) -> (r: Vec<K>)
        ensures
            views(r@).no_duplicates(),
            views(r@).to_set() == self@.dom(),
    {
        proof {
            use_type_invariant(self);
        }
        let mut r: Vec<K> = Vec::new();
        let mut i: usize = 0;
        while i < self.entries.len()
            invariant
                i <= self.entries@.len(),
                r@.len() == i,
                forall|j: int| 0 <= j < i ==> (#[trigger] r@[j])@ == self.entries@[j].0@,
            decreases self.entries@.len() - i,
        {
            r.push(self.entries[i].0.copy());
            i += 1;
        }
        proof {
            let s = views(r@);
            assert forall|i: int, j: int| 0 <= i < s.len() && 0 <= j < s.len() && i != j implies s[i]
                != s[j] by {
                assert(s[i] == r@[i]@ && s[j] == r@[j]@);
            }
            assert forall|k: K::V| self@.contains_key(k) implies s.to_set().contains(k) by {
                if forall|j: int| 0 <= j < self.entries@.len() ==> (#[trigger] self.entries@[j]).0@ != k {
                    lemma_no_entry(self.entries@, k);
                }
                let j = choose|j: int| 0 <= j < self.entries@.len() && (#[trigger] self.entries@[j]).0@ == k;
                assert(s[j] == r@[j]@);
            }
            assert forall|k: K::V| s.to_set().contains(k) implies self@.contains_key(k) by {
                let j = choose|j: int| 0 <= j < s.len() && s[j] == k;
                lemma_entry(self.entries@, j);
                assert(s[j] == r@[j]@);
            }
            assert(s.to_set() =~= self@.dom());
        }
        r
    }
}

proof fn lemma_entry<K: View, V>(entries: Seq<(K, V)>, i: int)
    requires
        distinct_keys(entries),
        0 <= i < entries.len(),
    ensures
        entries_map(entries).contains_key(entries[i].0@),
        entries_map(entries)[entries[i].0@] == entries[i].1,
    decreases entries.len(),
{
    if i < entries.len() - 1 {
        let rest = entries.drop_last();
        assert forall|a: int, b: int|
            0 <= a < rest.len() && 0 <= b < rest.len() && a != b implies (#[trigger] rest[a]).0@ != (
        #[trigger] rest[b]).0@ by {
            assert(rest[a] == entries[a] && rest[b] == entries[b]);
        }
        lemma_entry(rest, i);
    }
}

proof fn lemma_no_entry<K: View, V>(entries: Seq<(K, V)>, key: K::V)
    requires
        forall|j: int| 0 <= j < entries.len() ==> (#[trigger] entries[j]).0@ != key,
    ensures
        !entries_map(entries).contains_key(key),
    decreases entries.len(),
{
    if entries.len() > 0 {
        let rest = entries.drop_last();
        assert forall|j: int| 0 <= j < rest.len() implies (#[trigger] rest[j]).0@ != key by {
            assert(rest[j] == entries[j]);
        }
        lemma_no_entry(rest, key);
    }
}

proof fn lemma_remove_entry<K: View, V>(entries: Seq<(K, V)>, i: int)
    requires
        distinct_keys(entries),
        0 <= i < entries.len(),
    ensures
        distinct_keys(entries.remove(i)),
        entries_map(entries.remove(i)) == entries_map(entries).remove(entries[i].0@),
    decreases entries.len(),
{
    let rest = entries.drop_last();
    let left = entries.remove(i);
    let key = entries[i].0@;
    assert forall|a: int, b: int|
        0 <= a < left.len() && 0 <= b < left.len() && a != b implies (#[trigger] left[a]).0@ != (
    #[trigger] left[b]).0@ by {
        let a2 = if a < i { a } else { a + 1 };
        let b2 = if b < i { b } else { b + 1 };
        assert(left[a] == entries[a2] && left[b] == entries[b2]);
    }
    if i == entries.len() - 1 {
        assert(left =~= rest);
        assert forall|j: int| 0 <= j < rest.len() implies (#[trigger] rest[j]).0@ != key by {
            assert(rest[j] == entries[j]);
            assert(entries[j].0@ != entries[i].0@);
        }
        lemma_no_entry(rest, key);
        assert(entries_map(left) =~= entries_map(entries).remove(key));
    } else {
        assert forall|a: int, b: int|
            0 <= a < rest.len() && 0 <= b < rest.len() && a != b implies (#[trigger] rest[a]).0@ != (
        #[trigger] rest[b]).0@ by {
            assert(rest[a] == entries[a] && rest[b] == entries[b]);
        }
        lemma_remove_entry(rest, i);
        assert(left.drop_last() =~= rest.remove(i));
        assert(left.last() == entries.last());
        assert(entries.last().0@ != entries[i].0@);
        assert(entries_map(left) =~= entries_map(entries).remove(key));
    }
}

/// The views of items are taken one by one.
pub proof fn views_are_taken_one_by_one<K: View>(items: Seq<K>, i: int)
    requires
        0 <= i < items.len(),
    ensures
        views(items).len() == items.len(),
        views(items)[i] == items[i]@,
{
}

} // verus!
