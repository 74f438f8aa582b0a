//! Fixed-size backing storage abstraction: a small indexed container of at
//! most 255 values, with a sequence view.

use vstd::prelude::*;

verus! {

/// A fixed-size indexed container. `contents` is its mathematical view; the
/// length never changes over the container's lifetime.
pub trait Storage: Sized {
    /// The type of the stored values.
    type Value;

    /// The stored values, in slot order.
    spec fn contents(&self) -> Seq<Self::Value>;

    /// The number of slots.
    fn len(&self) -> (n: u8)
        requires
            self.contents().len() <= 255,
        ensures
            n as int == self.contents().len(),
    ;

    /// Whether the container has no slots at all.
    fn is_empty(&self) -> (r: bool)
        requires
            self.contents().len() <= 255,
        ensures
            r == (self.contents().len() == 0),
    {
        self.len() == 0
    }

    /// Read the value in a slot.
    fn get(&self, index: u8) -> (v: &Self::Value)
        requires
            index < self.contents().len(),
        ensures
            *v == self.contents()[index as int],
    ;

    /// Replace the value in a slot.
    fn set(&mut self, index: u8, value: Self::Value)
        requires
            index < old(self).contents().len(),
        ensures
            final(self).contents() == old(self).contents().update(index as int, value),
    ;
}

/// A vector of slots; its length must stay within a byte.
impl<V> Storage for Vec<V> {
    type Value = V;

    open spec fn contents(&self) -> Seq<V> {
        self@
    }

    fn len(&self) -> (n: u8) {
        Vec::len(self) as u8
    }

    fn get(&self, index: u8) -> (v: &V) {
        &self[index as usize]
    }

    fn set(&mut self, index: u8, value: V) {
        let slot = &mut self[index as usize];
        *slot = value;
    }
}

/// Storage of exactly one slot.
pub struct Cell<V>(pub V);

impl<V> Cell<V> {
    /// Create a one-slot storage holding the given value.
    pub fn new(value: V) -> (r: Cell<V>)
        ensures
            r.0 == value,
    {
        Cell(value)
    }
}

impl<V> Storage for Cell<V> {
    type Value = V;

    open spec fn contents(&self) -> Seq<V> {
        seq![self.0]
    }

    fn len(&self) -> (n: u8) {
        1
    }

    fn get(&self, index: u8) -> (v: &V) {
        &self.0
    }

    fn set(&mut self, index: u8, value: V) {
        self.0 = value;
        assert(self.contents() =~= old(self).contents().update(index as int, value));
    }
}

} // verus!
