//! Laws of the slice-view capabilities.
//!
//! Each proof function states one property that holds of every implementer,
//! over the `spec_elements` model that the capability contracts speak of.

use vstd::prelude::*;

use crate::AsMutSlice;
use crate::AsSlice;

verus! {

/// Law: a fixed-length sequence's view has exactly the compile-time length
/// `N`, and its elements are the sequence's elements in order.
pub proof fn lemma_fixed_length_view<T, const N: usize>(a: &[T; N])
    ensures
        a.spec_elements().len() == N,
        forall|i: int| 0 <= i < N ==> a.spec_elements()[i] == a@[i],
{
}

/// Law: a dynamic sequence's view has the sequence's own length, and its
/// elements are the sequence's elements in order.
pub proof fn lemma_dynamic_view<T>(s: &[T])
    ensures
        s.spec_elements().len() == s@.len(),
        forall|i: int| 0 <= i < s@.len() ==> s.spec_elements()[i] == s@[i],
{
}

/// Law: write-then-read consistency. After the view is updated at index `i`
/// with `v` (which is what writing through `as_mut_slice` does, by its
/// contract), reading the view at `i` observes `v`, the length is unchanged,
/// and every other element is unchanged.
pub proof fn lemma_write_then_read<T>(elems: Seq<T>, i: int, v: T)
    requires
        0 <= i < elems.len(),
    ensures
        elems.update(i, v)[i] == v,
        elems.update(i, v).len() == elems.len(),
        forall|j: int| 0 <= j < elems.len() && j != i ==> elems.update(i, v)[j] == elems[j],
{
}

/// Law: delegation equivalence. The view of an immutable reference to a
/// receiver equals the view of the receiver itself, so `as_slice` returns
/// the same elements through the reference as it does directly.
pub proof fn lemma_ref_delegation<S: ?Sized + AsSlice>(s: &S)
    ensures
        (&s).spec_elements() == s.spec_elements(),
{
}

/// Law: nested delegation. The view of a reference to a reference to a
/// receiver equals the view of the receiver itself: delegation resolves
/// through two levels of references.
pub proof fn lemma_nested_ref_delegation<S: ?Sized + AsSlice>(s: &S)
    ensures
        (&&s).spec_elements() == s.spec_elements(),
{
}

/// Law: a mutable reference delegates its readable view to its referent, so
/// both capabilities of `&mut S` expose the referent's own elements.
pub proof fn lemma_mut_ref_view_delegation<S: ?Sized + AsMutSlice>(m: &&mut S)
    ensures
        m.spec_elements() == (*old(*m)).spec_elements(),
{
}

} // verus!
