//! A keyed container of erased values.

use std::collections::HashMap;
use std::hash::Hash;
use vstd::prelude::*;
use vstd::std_specs::hash::obeys_key_model;

use crate::cast::AsAny;
use crate::cast::ErasedValue;
use crate::cast::deref_as;
use crate::cast::deref_mut_as;
use crate::cast::unerase_as;

verus! {

/// Relies on `HashMap::capacity`: the number of entries the map can
/// hold without reallocating, which is never below the number it
/// holds.
#[verifier::external_body]
fn map_capacity<K: Eq + Hash>(m: &HashMap<K, ErasedValue>) -> (r: usize)
    ensures
        obeys_key_model::<K>() ==> r >= m@.len(),
{
    m.capacity()
}

/// Relies on `HashMap::shrink_to_fit`: it only shrinks the allocation
/// and leaves the entries as they are.
#[verifier::external_body]
fn map_shrink_to_fit<K: Eq + Hash>(m: &mut HashMap<K, ErasedValue>)
    ensures
        final(m)@ == old(m)@,
{
    m.shrink_to_fit()
}

/// Relies on `HashMap::get_mut`: a mutable borrow of the entry at `k`
/// when `k` is present, and the empty result, with the map untouched,
/// when it is absent.
#[verifier::external_body]
fn map_get_mut<'a, K: Eq + Hash>(m: &'a mut HashMap<K, ErasedValue>, k: &K) -> (r: Option<
    &'a mut ErasedValue,
>)
    ensures
        obeys_key_model::<K>() ==> {
            &&& r is Some ==> old(m)@.contains_key(*k) && *r.unwrap() == old(m)@[*k]
                && final(m)@ == old(m)@.insert(*k, *final(r.unwrap()))
            &&& r is None ==> !old(m)@.contains_key(*k) && final(m)@ == old(m)@
        },
{
    m.get_mut(k)
}

/// A mapping with unique keys, each key holding one erased handle. Its
/// view is the map from keys to handles; a typed accessor names the
/// concrete type it expects and receives the empty result when the
/// entry holds another.
///
/// The contracts below are meaningful for key types that obey vstd's
/// hash-table key model, among them the primitive integers; for a key
/// type outside that model they state nothing, as vstd's own `HashMap`
/// contracts do.
pub struct AnyHashMap<K: Eq + Hash> {
    data: HashMap<K, ErasedValue>,
}

impl<K: Eq + Hash> View for AnyHashMap<K> {
    type V = Map<K, ErasedValue>;

    closed spec fn view(&self) -> Map<K, ErasedValue> {
        self.data@
    }
}

impl<K: Eq + Hash> AnyHashMap<K> {
    /// Constructs an empty container.
    pub fn new() -> (r: Self)
        ensures
            r@ == Map::<K, ErasedValue>::empty(),
    {
        AnyHashMap { data: HashMap::new() }
    }

    /// Constructs an empty container pre-sized for `capacity` entries.
    pub fn with_capacity(capacity: usize) -> (r: Self)
        ensures
            r@ == Map::<K, ErasedValue>::empty(),
    {
        AnyHashMap { data: HashMap::with_capacity(capacity) }
    }

    /// The number of entries the container can hold without
    /// reallocating; never below the number it holds.
    pub fn capacity(&self) -> (r: usize)
        ensures
            obeys_key_model::<K>() ==> r >= self@.len(),
    {
        map_capacity(&self.data)
    }

    /// Requests room for at least `additional` more entries. The
    /// entries stay as they are.
    pub fn reserve(&mut self, additional: usize)
        ensures
            final(self)@ == old(self)@,
    {
        self.data.reserve(additional)
    }

    /// Drops excess capacity. The entries stay as they are.
    pub fn shrink_to_fit(&mut self)
        ensures
            final(self)@ == old(self)@,
    {
        map_shrink_to_fit(&mut self.data)
    }

    /// Removes every entry, dropping each stored value.
    pub fn clear(&mut self)
        ensures
            final(self)@ == Map::<K, ErasedValue>::empty(),
    {
        self.data.clear()
    }

    /// The number of entries held.
    pub fn len(&self) -> (r: usize)
        ensures
            obeys_key_model::<K>() ==> r == self@.len(),
    {
        self.data.len()
    }

    /// Whether the container holds no entry.
    pub fn is_empty(&self) -> (r: bool)
        ensures
            r <==> self@.is_empty(),
    {
        self.data.is_empty()
    }

    /// Whether an entry exists at `k`; no type is involved.
    pub fn contains_key(&self, k: &K) -> (r: bool)
        ensures
            obeys_key_model::<K>() ==> r == self@.contains_key(*k),
    {
        self.data.contains_key(k)
    }

    /// Erases `v` into the entry at `k`. The entry previously at `k`,
    /// if any, is handed back as type `V`: on a fresh key, and on a
    /// previous value of another type, the result is empty, and in the
    /// latter case the previous value is dropped. Afterwards `k` is
    /// present and every other entry keeps its handle.
    pub fn insert<V: 'static>(&mut self, k: K, v: V) -> (r: Option<V>)
        ensures
            obeys_key_model::<K>() ==> {
                &&& final(self)@.dom() == old(self)@.dom().insert(k)
                &&& forall|k2: K|
                    #[trigger] old(self)@.contains_key(k2) && k2 != k
                        ==> final(self)@[k2] == old(self)@[k2]
                &&& r is Some ==> old(self)@.contains_key(k)
                &&& !old(self)@.contains_key(k) ==> r is None
            },
    {
        match self.data.insert(k, v.asany()) {
            None => None,
            Some(prev) => match unerase_as::<V>(prev) {
                Ok(value) => Some(value),
                Err(_) => None,
            },
        }
    }

    /// A reference to the value at `k` as type `V`: empty when `k` is
    /// absent or the entry holds another type.
    pub fn get<'a, V: 'static>(&'a self, k: &K) -> (r: Option<&'a V>)
        ensures
            obeys_key_model::<K>() ==> {
                &&& r is Some ==> self@.contains_key(*k)
                &&& !self@.contains_key(*k) ==> r is None
            },
    {
        match self.data.get(k) {
            None => None,
            Some(handle) => deref_as::<V>(handle),
        }
    }

    /// A mutable reference to the value at `k` as type `V`: empty when
    /// `k` is absent or the entry holds another type, and then the
    /// container is left as it was. Every other entry keeps its handle
    /// either way.
    pub fn get_mut<'a, V: 'static>(&'a mut self, k: &K) -> (r: Option<&'a mut V>)
        ensures
            obeys_key_model::<K>() ==> {
                &&& final(self)@.dom() == old(self)@.dom()
                &&& forall|k2: K|
                    #[trigger] old(self)@.contains_key(k2) && k2 != *k
                        ==> final(self)@[k2] == old(self)@[k2]
                &&& r is Some ==> old(self)@.contains_key(*k)
                &&& !old(self)@.contains_key(*k) ==> r is None
                &&& r is None ==> final(self)@ == old(self)@
            },
    {
        match map_get_mut(&mut self.data, k) {
            None => None,
            Some(handle) => deref_mut_as::<V>(handle),
        }
    }
}

} // verus!
