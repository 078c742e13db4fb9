//! Data structs shared between encoders and decoders.
use vstd::prelude::*;
use crate::format::muxer::str_eq;

verus! {

/// `i` is the first position of `names` holding `name`.
pub open spec fn first_with_name(names: Seq<&str>, name: &str, i: int) -> bool {
    &&& 0 <= i < names.len()
    &&& names[i]@ == name@
    &&& forall|j: int| 0 <= j < i ==> names[j]@ != name@
}

/// The first position of `names` holding `name`.
pub fn position_of_name(names: &[&str], name: &str) -> (r: Option<usize>)
    ensures
        match r {
            Some(i) => first_with_name(names@, name, i as int),
            None => forall|j: int| 0 <= j < names@.len() ==> names@[j]@ != name@,
        },
{
    let mut k: usize = 0;
    while k < names.len()
        invariant
            k <= names@.len(),
            forall|j: int| 0 <= j < k ==> names@[j]@ != name@,
        decreases names@.len() - k,
    {
        if str_eq(names[k], name) {
            return Some(k);
        }
        k += 1;
    }
    None
}

/// Defines a series of methods to interact with a list of codec descriptors.
pub trait CodecList: Sized {
    /// The type of the structure used to describe a codec.
    type D: ?Sized;

    /// The codec descriptors of the list, in the order they were appended.
    spec fn entries(&self) -> Seq<&'static Self::D>;

    /// Creates a new, empty codec list.
    fn new() -> (r: Self)
        ensures
            r.entries().len() == 0,
    ;

    /// Search by name whether a codec descriptor is in the codec list and
    /// returns it.
    ///
    /// If the requested codec descriptor is not in the list,
    /// `None` is returned.
    fn by_name(&self, name: &str) -> (r: Option<&'static Self::D>)
        ensures
            r matches Some(d) ==> self.entries().contains(d),
    ;

    /// Appends a codec to the list.
    fn append(&mut self, desc: &'static Self::D)
        ensures
            final(self).entries() == old(self).entries().push(desc),
    ;

    /// Creates a new codec list starting from a list of codec descriptors.
    fn from_list(descs: &[&'static Self::D]) -> (r: Self)
        ensures
            r.entries() == descs@,
    {
        let mut c = Self::new();
        let mut i: usize = 0;
        while i < descs.len()
            invariant
                i <= descs@.len(),
                c.entries() == descs@.take(i as int),
            decreases descs@.len() - i,
        {
            c.append(descs[i]);
            i += 1;
            assert(c.entries() =~= descs@.take(i as int));
        }
        assert(descs@.take(descs@.len() as int) =~= descs@);
        c
    }
}

} // verus!
