//! The staged key-value store that genesis bootstrap writes into.
use vstd::prelude::*;

verus! {

/// A key that can be compared with another key of its type.
pub trait StoreKey: View + Sized {
    fn same_key(&self, other: &Self) -> (r: bool)
        ensures
            r == (self@ == other@),
    ;
}

/// Compares two byte strings.
pub fn bytes_eq(a: &Vec<u8>, b: &Vec<u8>) -> (r: bool)
    ensures
        r == (a@ == b@),
{
    if a.len() != b.len() {
        return false;
    }
    let mut i: usize = 0;
    while i < a.len()
        invariant
            a@.len() == b@.len(),
            i <= a@.len(),
            forall|j: int| 0 <= j < i ==> a@[j] == b@[j],
        decreases a@.len() - i,
    {
        if a[i] != b[i] {
            return false;
        }
        i = i + 1;
    }
    assert(a@ =~= b@);
    true
}

impl StoreKey for Vec<u8> {
    fn same_key(&self, other: &Self) -> (r: bool) {
        bytes_eq(self, other)
    }
}

impl StoreKey for (Vec<u8>, Vec<u8>) {
    fn same_key(&self, other: &Self) -> (r: bool) {
        bytes_eq(&self.0, &other.0) && bytes_eq(&self.1, &other.1)
    }
}

impl StoreKey for String {
    fn same_key(&self, other: &Self) -> (r: bool) {
        *self == *other
    }
}

/// The map that a log of writes leaves: a later write to a key replaces an
/// earlier one.
pub open spec fn log_map<K: View, V: View>(log: Seq<(K, V)>) -> Map<K::V, V::V>
    decreases log.len(),
{
    if log.len() == 0 {
        Map::empty()
    } else {
        log_map(log.drop_last()).insert(log.last().0@, log.last().1@)
    }
}

/// A map kept as the ordered log of the writes made to it.
pub struct KeyMap<K, V> {
    log: Vec<(K, V)>,
}

impl<K: View, V: View> View for KeyMap<K, V> {
    type V = Map<K::V, V::V>;

    closed spec fn view(&self) -> Map<K::V, V::V> {
        log_map(self.log@)
    }
}

impl<K: StoreKey, V: View> KeyMap<K, V> {
    /// An empty map.
    pub fn new() -> (r: Self)
        ensures
            r@ == Map::<K::V, V::V>::empty(),
    {
        KeyMap { log: Vec::new() }
    }

    /// Sets `key` to `value`.
    pub fn insert(&mut self, key: K, value: V)
        ensures
            final(self)@ == old(self)@.insert(key@, value@),
    {
        self.log.push((key, value));
        assert(self.log@.drop_last() =~= old(self).log@);
    }

    /// The value stored under `key`, if any.
    pub fn get(&self, key: &K) -> (r: Option<&V>)
        ensures
            r is Some <==> self@.contains_key(key@),
            r is Some ==> r.unwrap()@ == self@[key@],
    {
        let mut i: usize = self.log.len();
        assert(self.log@.take(i as int) =~= self.log@);
        while i > 0
            invariant
                i <= self.log@.len(),
                log_map(self.log@).contains_key(key@) == log_map(
                    self.log@.take(i as int),
                ).contains_key(key@),
                log_map(self.log@).contains_key(key@) ==> log_map(self.log@)[key@] == log_map(
                    self.log@.take(i as int),
                )[key@],
            decreases i,
        {
            let ghost prefix = self.log@.take(i as int);
            assert(prefix.drop_last() =~= self.log@.take(i - 1));
            assert(prefix.last() == self.log@[i - 1]);
            if self.log[i - 1].0.same_key(key) {
                return Some(&self.log[i - 1].1);
            }
            i = i - 1;
        }
        assert(self.log@.take(0) =~= Seq::<(K, V)>::empty());
        None
    }

    /// Whether `key` holds a value.
    pub fn contains(&self, key: &K) -> (r: bool)
        ensures
            r == self@.contains_key(key@),
    {
        self.get(key).is_some()
    }
}

} // verus!
