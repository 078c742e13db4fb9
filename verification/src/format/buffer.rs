//! Buffered data helpers.
use vstd::prelude::*;

pub mod accreader;

pub use self::accreader::AccReader;

verus! {

/// Used to interact with a buffer.
pub trait Buffered {
    /// The data a buffer holds.
    spec fn buffered(&self) -> Seq<u8>;

    /// How many bytes a buffer can hold.
    spec fn buffer_size(&self) -> nat;

    /// Returns the data contained in a buffer as a sequence of bytes.
    fn data(&self) -> (r: &[u8])
        ensures
            r@ == self.buffered(),
    ;

    /// Increases the size of a buffer by `len` bytes, keeping its data.
    fn grow(&mut self, len: usize)
        requires
            old(self).buffer_size() + len <= usize::MAX,
        ensures
            final(self).buffer_size() == old(self).buffer_size() + len,
            final(self).buffered() == old(self).buffered(),
    ;
}

} // verus!
