//! A one-shot wrapper around an iterator that is to be serialized into an
//! array representation.
//!
//! The wrapped iterator can be handed out exactly once; serializing the
//! same instance a second time is a programmer error, which [`take`]
//! excludes by its precondition. The serialization itself is domain-free
//! and is performed by the embedding application, which drains the
//! iterator it takes from here into an array.
//!
//! [`take`]: IteratorSerializeAsArray::take

use vstd::prelude::*;

verus! {

/// Holds an iterator until it is drained, once, into a serialized array.
pub struct IteratorSerializeAsArray<T> {
    inner: Option<T>,
}

impl<T> IteratorSerializeAsArray<T> {
    /// The wrapped iterator, while it has not been taken yet.
    pub closed spec fn pending(&self) -> Option<T> {
        self.inner
    }

    /// The wrapper still holds its iterator: it has not been serialized.
    pub open spec fn available(&self) -> bool {
        self.pending() is Some
    }

    pub fn new(iterator: T) -> (r: Self)
        ensures
            r.pending() == Some(iterator),
    {
        IteratorSerializeAsArray { inner: Some(iterator) }
    }

    /// Hands the wrapped iterator out. Taking it twice is a programmer
    /// error: the wrapper must still be available.
    pub fn take(&mut self) -> (r: T)
        requires
            old(self).available(),
        ensures
            Some(r) == old(self).pending(),
            !final(self).available(),
    {
        let taken = self.inner.take();
        match taken {
            Some(v) => v,
            None => vstd::pervasive::unreached(),
        }
    }

    /// Whether the wrapper can still be serialized.
    pub fn is_available(&self) -> (r: bool)
        ensures
            r == self.available(),
    {
        self.inner.is_some()
    }
}

} // verus!
