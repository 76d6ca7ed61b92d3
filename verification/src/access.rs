//! Generic element access through the slice-view capabilities.
//!
//! These functions are the usage pattern the capability pair exists for:
//! code that is generic over the buffer's storage shape (slice, array, or
//! any depth of references to either) and always works on the flat view.

use vstd::prelude::*;
use vstd::slice::slice_index_get;

use crate::AsMutSlice;
use crate::AsSlice;

verus! {

/// Reads element `i` of the receiver's immutable slice view.
pub fn read_element<S: ?Sized + AsSlice>(buf: &S, i: usize) -> (r: &S::Element)
    requires
        i < buf.spec_elements().len(),
    ensures
        *r == buf.spec_elements()[i as int],
{
    let s = buf.as_slice();
    slice_index_get(s, i)
}

/// Writes `v` at index `i` of the receiver's mutable slice view; every other
/// element of the view is left as it was.
pub fn write_element<S: ?Sized + AsMutSlice>(buf: &mut S, i: usize, v: S::Element)
    requires
        i < (*old(buf)).spec_elements().len(),
    ensures
        (*final(buf)).spec_elements() == (*old(buf)).spec_elements().update(i as int, v),
{
    let s = buf.as_mut_slice();
    s[i] = v;
}

/// Writing through a mutable reference to the receiver has exactly the same
/// observable effect on the receiver's view as writing to the receiver
/// directly: this function mutates via a `&mut S` delegate, and its contract
/// is `write_element`'s, verbatim.
pub fn write_element_via_ref<S: ?Sized + AsMutSlice>(buf: &mut S, i: usize, v: S::Element)
    requires
        i < (*old(buf)).spec_elements().len(),
    ensures
        (*final(buf)).spec_elements() == (*old(buf)).spec_elements().update(i as int, v),
{
    let mut delegate: &mut S = buf;
    let s = <&mut S as AsMutSlice>::as_mut_slice(&mut delegate);
    s[i] = v;
}

} // verus!
