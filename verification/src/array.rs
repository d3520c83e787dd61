//! Arrays in native memory, as one native call hands them over.

use vstd::prelude::*;
use libc::c_int;

verus! {

/// What an array in native memory is to the layer: where it starts and what
/// it holds.
pub struct ArrayModel<T> {
    pub addr: usize,
    pub elems: Seq<T>,
}

/// A base address together with the elements found there, both taken from the
/// output of one native call.  The address is opaque: it is never read
/// through, only handed back when the array is released.
#[derive(Debug)]
pub struct RawArray<'a, T> {
    pub addr: usize,
    pub elems: &'a [T],
}

impl<'a, T> View for RawArray<'a, T> {
    type V = ArrayModel<T>;

    open spec fn view(&self) -> ArrayModel<T> {
        ArrayModel { addr: self.addr, elems: self.elems@ }
    }
}

impl<'a, T> RawArray<'a, T> {
    pub fn new(addr: usize, elems: &'a [T]) -> (raw: Self)
        ensures
            raw@ == (ArrayModel { addr, elems: elems@ }),
    {
        RawArray { addr, elems }
    }
}

/// The number of elements that a native element count stands for.  The native
/// layer counts in signed integers; a count below zero describes no elements.
pub fn element_count(count: c_int) -> (n: usize)
    ensures
        count >= 0 ==> n == count,
        count < 0 ==> n == 0,
{
    if count < 0 {
        0
    } else {
        count as usize
    }
}

} // verus!
