//! Reference-counted buffer data type.
//!
//! A `BufferRef` shares its value between its clones; the value is freed
//! with the last of them.
use vstd::prelude::*;
use std::sync::Arc;

verus! {

/// Reference-counted buffer reference.
pub struct BufferRef<T> {
    data: Arc<T>,
}

impl<T> BufferRef<T> {
    /// The shared value.
    pub closed spec fn value(&self) -> T {
        *self.data
    }

    /// Constructs a new instance of `BufferRef`.
    pub fn new(val: T) -> (r: Self)
        ensures
            r.value() == val,
    {
        BufferRef { data: Arc::new(val) }
    }

    /// Reports the number of references for the current instance.
    pub fn get_num_refs(&self) -> (r: usize)
        ensures
            r >= 1,
    {
        strong_count(&self.data)
    }

    /// Returns a mutable reference to the value when no other reference
    /// shares it, `None` when one does.
    pub fn as_mut(&mut self) -> (r: Option<&mut T>)
        ensures
            r matches Some(m) ==> *m == old(self).value() && final(self).value() == *final(m),
            r is None ==> final(self).value() == old(self).value(),
    {
        unique_mut(&mut self.data)
    }

    /// Returns a reference to the shared value.
    pub fn as_ref(&self) -> (r: &T)
        ensures
            *r == self.value(),
    {
        &self.data
    }
}

/// `Arc::strong_count`: how many `Arc`s share the value, this one included,
/// hence at least one. How many there are depends on the other clones, so
/// nothing more is promised.
#[verifier::external_body]
fn strong_count<T>(a: &Arc<T>) -> (r: usize)
    ensures
        r >= 1,
{
    Arc::strong_count(a)
}

/// `Arc::get_mut`: a mutable reference to the value when no other `Arc`
/// points to it, `None` otherwise. Which of the two comes back depends on
/// the other clones, so only what holds of each is stated.
#[verifier::external_body]
fn unique_mut<T>(a: &mut Arc<T>) -> (r: Option<&mut T>)
    ensures
        r matches Some(m) ==> *m == **old(a) && **final(a) == *final(m),
        r is None ==> **final(a) == **old(a),
{
    Arc::get_mut(a)
}

/// `Arc::clone`: a new pointer to the same allocation, so the result
/// points to the very value that `a` points to.
#[verifier::external_body]
pub(crate) fn share<T>(a: &Arc<T>) -> (r: Arc<T>)
    ensures
        r == *a,
{
    Arc::clone(a)
}

impl<T> Clone for BufferRef<T> {
    /// Another reference to the same shared value.
    fn clone(&self) -> (r: Self)
        ensures
            r == *self,
    {
        BufferRef { data: share(&self.data) }
    }
}

impl<T> std::ops::Deref for BufferRef<T> {
    type Target = T;

    fn deref(&self) -> (r: &T)
        ensures
            *r == self.value(),
    {
        &self.data
    }
}

impl<T: Default> Default for BufferRef<T> {
    fn default() -> (r: Self)
        ensures
            call_ensures(T::default, (), r.value()),
    {
        Self::new(T::default())
    }
}

} // verus!
