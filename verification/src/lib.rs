//! `AsSlice` and `AsMutSlice` traits
//!
//! These traits are somewhat similar to `AsRef` and `AsMut` except that they
//! are **not** polymorphic (no input type parameter) and their methods always
//! return slices (`[T]`).
//!
//! The main use case of these traits is writing generic code that accepts
//! (fixed size) buffers. For example, a bound
//! `T: StableDeref + AsMutSlice<Element = u8> + 'static` accepts types like
//! `&'static mut [u8]` and `&'static mut [u8; 128]` -- all of them are
//! appropriate for DMA transfers.
//!
//! Each implementer models its contents as a mathematical sequence of
//! elements, `spec_elements`; the contracts of `as_slice` and `as_mut_slice`
//! say that the returned slice views exactly that sequence.

use vstd::prelude::*;

mod access;
mod laws;

pub use access::read_element;
pub use access::write_element;
pub use access::write_element_via_ref;
pub use laws::lemma_dynamic_view;
pub use laws::lemma_fixed_length_view;
pub use laws::lemma_mut_ref_view_delegation;
pub use laws::lemma_nested_ref_delegation;
pub use laws::lemma_ref_delegation;
pub use laws::lemma_write_then_read;

verus! {

/// Something that can be seen as an immutable slice
pub trait AsSlice {
    /// The element type of the slice view
    type Element;

    /// The elements of `Self`, as a mathematical sequence
    spec fn spec_elements(&self) -> Seq<Self::Element>;

    /// Returns the immutable slice view of `Self`
    fn as_slice(&self) -> (r: &[Self::Element])
        ensures
            r@ == self.spec_elements(),
    ;
}

/// Something that can be seen as a mutable slice
///
/// An implementer of this capability also implements `AsSlice`, and both
/// capabilities view the same elements: the mutable slice handed out by
/// `as_mut_slice` starts out equal to `spec_elements`, and whatever the
/// caller leaves in that slice is what `spec_elements` reports afterwards.
pub trait AsMutSlice: AsSlice {
    /// Returns the mutable slice view of `Self`
    fn as_mut_slice(&mut self) -> (r: &mut [Self::Element])
        ensures
            r@ == old(self).spec_elements(),
            (*final(self)).spec_elements() == final(r)@,
    ;
}

/// An immutable reference delegates to its referent, and provides only the
/// readable capability: mutation rights cannot be granted through `&S`.
impl<'a, S> AsSlice for &'a S where S: ?Sized + AsSlice {
    type Element = S::Element;

    open spec fn spec_elements(&self) -> Seq<S::Element> {
        (**self).spec_elements()
    }

    fn as_slice(&self) -> (r: &[S::Element]) {
        (**self).as_slice()
    }
}

impl<'a, S> AsSlice for &'a mut S where S: ?Sized + AsSlice {
    type Element = S::Element;

    open spec fn spec_elements(&self) -> Seq<S::Element> {
        (**self).spec_elements()
    }

    fn as_slice(&self) -> (r: &[S::Element]) {
        (**self).as_slice()
    }
}

/// A mutable reference delegates both capabilities to its referent.
impl<'a, S> AsMutSlice for &'a mut S where S: ?Sized + AsMutSlice {
    /// Delegation keeps the incoming reference: the receiver finally holds
    /// the very reference it held before the call. The extra clause states
    /// the observable consequence: the reference the receiver finally holds
    /// and the reference it held at the call agree, at their resolution, on
    /// their referents' elements. It is what lets a caller carry the effect
    /// of mutating the returned slice back to the original referent.
    fn as_mut_slice(&mut self) -> (r: &mut [S::Element])
        ensures
            (*final(*final(self))).spec_elements() == (*final(*old(self))).spec_elements(),
    {
        (**self).as_mut_slice()
    }
}

impl<T> AsSlice for [T] {
    type Element = T;

    open spec fn spec_elements(&self) -> Seq<T> {
        self@
    }

    fn as_slice(&self) -> (r: &[T]) {
        self
    }
}

impl<T> AsMutSlice for [T] {
    fn as_mut_slice(&mut self) -> (r: &mut [T]) {
        self
    }
}

impl<T, const N: usize> AsSlice for [T; N] {
    type Element = T;

    open spec fn spec_elements(&self) -> Seq<T> {
        self@
    }

    fn as_slice(&self) -> (r: &[T]) {
        self
    }
}

impl<T, const N: usize> AsMutSlice for [T; N] {
    fn as_mut_slice(&mut self) -> (r: &mut [T]) {
        self
    }
}

} // verus!
