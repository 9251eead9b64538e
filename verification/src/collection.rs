//! A small fixed-size array of values, each found by its key.
use vstd::prelude::*;
use vstd::std_specs::cmp::PartialEqSpec;

verus! {

/// A fixed-size array of key and value pairs, where a value is found by its key.
pub struct SmallKeyArray<K, V, const N: usize> {
    array: [(K, V); N],
}

impl<K, V, const N: usize> SmallKeyArray<K, V, N> {
    /// The pairs, in order.
    pub closed spec fn view(&self) -> Seq<(K, V)> {
        self.array@
    }
}

/// The position of the first pair of `s` whose key equals `key`.
pub open spec fn first_key_index<K: PartialEq, V>(s: Seq<(K, V)>, key: K, i: int) -> bool {
    &&& 0 <= i < s.len()
    &&& s[i].0.eq_spec(&key)
    &&& forall|j: int| 0 <= j < i ==> !(#[trigger] s[j].0.eq_spec(&key))
}

/// Some pair of `s` has a key equal to `key`.
pub open spec fn has_key<K: PartialEq, V>(s: Seq<(K, V)>, key: K) -> bool {
    exists|i: int| 0 <= i < s.len() && #[trigger] s[i].0.eq_spec(&key)
}

impl<K: PartialEq, V, const N: usize> SmallKeyArray<K, V, N> {
    /// The array of the given pairs.
    pub fn new(array: [(K, V); N]) -> (r: SmallKeyArray<K, V, N>)
        ensures
            r.view() == array@,
    {
        Self { array }
    }

    /// Find the first pair whose key equals `key`, where the keys' `==` is that of their
    /// specification.
    fn find(&self, key: &K) -> (r: Option<usize>)
        ensures
            r matches Some(i) ==> i < N,
            K::obeys_eq_spec() ==> match r {
                Some(i) => first_key_index(self.view(), *key, i as int),
                None => !has_key(self.view(), *key),
            },
    {
        let mut i: usize = 0;
        while i < N
            invariant
                i <= N,
                self.array@.len() == N,
                K::obeys_eq_spec() ==> forall|j: int|
                    0 <= j < i ==> !(#[trigger] self.array@[j].0.eq_spec(key)),
            decreases N - i,
        {
            if self.array[i].0 == *key {
                return Some(i);
            }
            i = i + 1;
        }
        None
    }

    /// Give the first pair whose key equals `key` the value `value`; where no key equals it,
    /// nothing changes.
    pub fn set(&mut self, key: K, value: V)
        ensures
            K::obeys_eq_spec() ==> if has_key(old(self).view(), key) {
                exists|i: int|
                    first_key_index(old(self).view(), key, i) && final(self).view()
                        == old(self).view().update(i, (old(self).view()[i].0, value))
            } else {
                final(self).view() == old(self).view()
            },
    {
        match self.find(&key) {
            Some(i) => {
                self.array[i].1 = value;
            },
            None => {},
        }
    }

    /// The value of the first pair whose key equals `key`; some pair must have it.
    pub fn get(&self, key: &K) -> (r: &V)
        requires
            has_key(self.view(), *key),
        ensures
            K::obeys_eq_spec() ==> exists|i: int|
                first_key_index(self.view(), *key, i) && *r == self.view()[i].1,
    {
        match self.find(key) {
            Some(i) => &self.array[i].1,
            None => &self.array[0].1,
        }
    }

    /// The value of the first pair whose key equals `key`, to change; some pair must have it.
    pub fn get_mut(&mut self, key: &K) -> (r: &mut V)
        requires
            has_key(old(self).view(), *key),
        ensures
            K::obeys_eq_spec() ==> exists|i: int|
                first_key_index(old(self).view(), *key, i) && *r == old(self).view()[i].1
                    && final(self).view() == old(self).view().update(
                    i,
                    (old(self).view()[i].0, *final(r)),
                ),
    {
        match self.find(key) {
            Some(i) => &mut self.array[i].1,
            None => &mut self.array[0].1,
        }
    }

    /// The result of `f` on the value of the first pair whose key equals `key`; some pair
    /// must have it.
    pub fn with<F, R>(&self, key: &K, f: F) -> (r: R) where F: FnOnce(&V) -> R
        requires
            has_key(self.view(), *key),
            K::obeys_eq_spec() ==> forall|i: int|
                first_key_index(self.view(), *key, i) ==> f.requires((&self.view()[i].1,)),
            !K::obeys_eq_spec() ==> forall|i: int|
                0 <= i < self.view().len() ==> f.requires((&#[trigger] self.view()[i].1,)),
        ensures
            K::obeys_eq_spec() ==> exists|i: int|
                first_key_index(self.view(), *key, i) && f.ensures((&self.view()[i].1,), r),
    {
        match self.find(key) {
            Some(i) => f(&self.array[i].1),
            None => f(&self.array[0].1),
        }
    }

    /// The result of `f` on the value of the first pair whose key equals `key`, which `f` may
    /// change; some pair must have it.
    pub fn with_mut<F, R>(&mut self, key: &K, f: F) -> (r: R) where F: FnOnce(&mut V) -> R
        requires
            has_key(old(self).view(), *key),
            K::obeys_eq_spec() ==> forall|m: &mut V|
                (exists|i: int|
                    #[trigger] first_key_index(old(self).view(), *key, i) && *m == old(
                        self,
                    ).view()[i].1) ==> #[trigger] f.requires((m,)),
            !K::obeys_eq_spec() ==> forall|m: &mut V| #[trigger] f.requires((m,)),
        ensures
            K::obeys_eq_spec() ==> exists|i: int, m: &mut V|
                #![trigger first_key_index(old(self).view(), *key, i), f.ensures((m,), r)]
                first_key_index(old(self).view(), *key, i) && *m == old(self).view()[i].1
                    && f.ensures((m,), r) && final(self).view() == old(self).view().update(
                    i,
                    (old(self).view()[i].0, *final(m)),
                ),
    {
        match self.find(key) {
            Some(i) => f(&mut self.array[i].1),
            None => f(&mut self.array[0].1),
        }
    }
}

/// A key paired with a value.
fn keyed<K, V>(key: K, value: V) -> (r: (K, V))
    ensures
        r == (key, value),
{
    (key, value)
}

/// `<[V; N]>::map`, pairing each value with the key: the values in order, each with the key.
#[verifier::external_body]
fn pair_each_with_key<K: Copy, V, const N: usize>(key: K, array: [V; N]) -> (r: [(K, V); N])
    ensures
        r@ == array@.map_values(|v: V| (key, v)),
{
    array.map(|v| keyed(key, v))
}

impl<K: Copy + PartialEq, V, const N: usize> SmallKeyArray<K, V, N> {
    /// The array pairing each of the values, in order, with the same key.
    pub fn new_same_key(key: K, array: [V; N]) -> (r: SmallKeyArray<K, V, N>)
        ensures
            r.view() == array@.map_values(|v: V| (key, v)),
    {
        Self { array: pair_each_with_key(key, array) }
    }
}

/// Setting the value of a key that some pair has and then getting it gives the value set.
pub proof fn law_set_then_get<K: PartialEq, V>(s: Seq<(K, V)>, key: K, i: int, value: V)
    requires
        first_key_index(s, key, i),
    ensures
        first_key_index(s.update(i, (s[i].0, value)), key, i),
        s.update(i, (s[i].0, value))[i].1 == value,
{
    let t = s.update(i, (s[i].0, value));
    assert forall|j: int| 0 <= j < i implies !(#[trigger] t[j].0.eq_spec(&key)) by {
        assert(t[j] == s[j]);
    }
}

} // verus!
