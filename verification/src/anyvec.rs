//! An ordered, index-addressed container of erased values.

use vstd::prelude::*;

use crate::cast::AsAny;
use crate::cast::ErasedValue;
use crate::cast::deref_as;
use crate::cast::deref_mut_as;
use crate::cast::unerase_as;

verus! {

/// Relies on `Vec::capacity`: the number of elements the vector can
/// hold without reallocating, which is never below its length.
#[verifier::external_body]
fn vec_capacity(v: &Vec<ErasedValue>) -> (r: usize)
    ensures
        r >= v@.len(),
{
    v.capacity()
}

/// Relies on `Vec::reserve_exact`: it only grows the allocation and
/// leaves the elements as they are.
#[verifier::external_body]
fn vec_reserve_exact(v: &mut Vec<ErasedValue>, additional: usize)
    ensures
        final(v)@ == old(v)@,
{
    v.reserve_exact(additional)
}

/// Relies on `Vec::shrink_to_fit`: it only shrinks the allocation and
/// leaves the elements as they are.
#[verifier::external_body]
fn vec_shrink_to_fit(v: &mut Vec<ErasedValue>)
    ensures
        final(v)@ == old(v)@,
{
    v.shrink_to_fit()
}

/// An ordered, 0-indexed, contiguous sequence of erased handles, each
/// slot holding a value of its own concrete type. Its view is the
/// sequence of handles; a typed accessor names the concrete type it
/// expects and receives the empty result when the slot holds another.
pub struct AnyVec {
    data: Vec<ErasedValue>,
}

impl View for AnyVec {
    type V = Seq<ErasedValue>;

    closed spec fn view(&self) -> Seq<ErasedValue> {
        self.data@
    }
}

impl AnyVec {
    /// Constructs an empty container.
    pub fn new() -> (r: Self)
        ensures
            r@ == Seq::<ErasedValue>::empty(),
    {
        AnyVec { data: Vec::new() }
    }

    /// Constructs an empty container pre-sized for `capacity` elements.
    pub fn with_capacity(capacity: usize) -> (r: Self)
        ensures
            r@ == Seq::<ErasedValue>::empty(),
    {
        AnyVec { data: Vec::with_capacity(capacity) }
    }

    /// The number of elements the container can hold without
    /// reallocating; never below the number it holds.
    pub fn capacity(&self) -> (r: usize)
        ensures
            r >= self@.len(),
    {
        vec_capacity(&self.data)
    }

    /// Requests room for at least `additional` more elements, possibly
    /// over-allocating for amortized growth. The contents stay as they
    /// are.
    pub fn reserve(&mut self, additional: usize)
        ensures
            final(self)@ == old(self)@,
    {
        self.data.reserve(additional)
    }

    /// Requests room for exactly `additional` more elements, without
    /// extra headroom. The contents stay as they are.
    pub fn reserve_exact(&mut self, additional: usize)
        ensures
            final(self)@ == old(self)@,
    {
        vec_reserve_exact(&mut self.data, additional)
    }

    /// Drops excess capacity. The contents stay as they are.
    pub fn shrink_to_fit(&mut self)
        ensures
            final(self)@ == old(self)@,
    {
        vec_shrink_to_fit(&mut self.data)
    }

    /// The number of elements held.
    pub fn len(&self) -> (r: usize)
        ensures
            r == self@.len(),
    {
        self.data.len()
    }

    /// Whether the container holds no element.
    pub fn is_empty(&self) -> (r: bool)
        ensures
            r <==> self@.len() == 0,
    {
        self.data.is_empty()
    }

    /// Removes every element, dropping each stored value.
    pub fn clear(&mut self)
        ensures
            final(self)@ == Seq::<ErasedValue>::empty(),
    {
        self.data.clear()
    }

    /// Erases `value` into the slot at `index`, shifting every element
    /// at a position at or above `index` one position higher.
    pub fn insert<T: 'static>(&mut self, index: usize, value: T)
        requires
            index <= old(self)@.len(),
        ensures
            final(self)@.len() == old(self)@.len() + 1,
            forall|j: int| 0 <= j < index ==> final(self)@[j] == old(self)@[j],
            forall|j: int|
                index <= j < old(self)@.len() ==> final(self)@[j + 1] == old(self)@[j],
    {
        self.data.insert(index, value.asany());
    }

    /// Erases `value` into a new last slot; every existing element
    /// keeps its position.
    pub fn push<T: 'static>(&mut self, value: T)
        ensures
            final(self)@.len() == old(self)@.len() + 1,
            final(self)@.drop_last() == old(self)@,
            forall|j: int| 0 <= j < old(self)@.len() ==> final(self)@[j] == old(self)@[j],
    {
        self.data.push(value.asany());
    }

    /// A reference to the value at `index` as type `T`: empty when
    /// `index` is out of range or the slot holds another type.
    pub fn get<'a, T: 'static>(&'a self, index: usize) -> (r: Option<&'a T>)
        ensures
            index >= self@.len() ==> r is None,
            r is Some ==> index < self@.len(),
    {
        if index < self.data.len() {
            deref_as::<T>(&self.data[index])
        } else {
            None
        }
    }

    /// A mutable reference to the value at `index` as type `T`: empty
    /// when `index` is out of range or the slot holds another type, and
    /// then the container is left as it was. Every other slot keeps its
    /// handle either way.
    pub fn get_mut<'a, T: 'static>(&'a mut self, index: usize) -> (r: Option<&'a mut T>)
        ensures
            final(self)@.len() == old(self)@.len(),
            forall|j: int|
                0 <= j < old(self)@.len() && j != index ==> final(self)@[j] == old(self)@[j],
            index >= old(self)@.len() ==> r is None,
            r is Some ==> index < old(self)@.len(),
            r is None ==> final(self)@ == old(self)@,
    {
        if index < self.data.len() {
            deref_mut_as::<T>(&mut self.data[index])
        } else {
            None
        }
    }

    /// Removes the last element and hands it out as type `T`. Empty
    /// when the container is empty or the last slot holds another type;
    /// on a type mismatch the container is left exactly as it was.
    pub fn pop<T: 'static>(&mut self) -> (r: Option<T>)
        ensures
            old(self)@.len() == 0 ==> r is None,
            r is Some ==> old(self)@.len() > 0 && final(self)@ == old(self)@.drop_last(),
            r is None ==> final(self)@ == old(self)@,
    {
        match self.data.pop() {
            None => None,
            Some(handle) => match unerase_as::<T>(handle) {
                Ok(value) => Some(value),
                Err(handle) => {
                    self.data.push(handle);
                    None
                },
            },
        }
    }
}

/// Last in, first out, at the level of the verified model: a push onto
/// contents `s` appends exactly one slot, holding some handle `e`, and
/// the successful pop that follows removes exactly that slot and
/// restores the contents to `s`. So a run of pushes followed by as many
/// successful pops visits the pushed slots in reverse order of
/// insertion and leaves the container as it began. This is the glue
/// between the contracts of [`AnyVec::push`] and [`AnyVec::pop`].
pub proof fn lemma_push_then_pop_restores(s: Seq<ErasedValue>, e: ErasedValue)
    ensures
        s.push(e).len() == s.len() + 1,
        s.push(e).last() == e,
        s.push(e).drop_last() == s,
{
    assert(s.push(e).drop_last() =~= s);
}

} // verus!
