//! Extras aimed at storing common items.
//!
//! Many channels may produce byte-identical states or sounds.  A store of
//! reference-counted values bounds that memory: equal values share one
//! allocation, and entries that nothing outside the store still holds can be
//! evicted.  The store has no ordering obligations; it is purely a storage
//! optimization keyed by structural equality.

use std::rc::Rc;
use vstd::prelude::*;

verus! {

/// Relies on `std::rc::Rc::strong_count`; the count reflects the program's
/// sharing state at the moment of the call, so nothing more is assumed than
/// that the handle in hand is counted.
#[verifier::external_body]
fn rc_strong_count<T>(rc: &Rc<T>) -> (r: usize)
    ensures
        r >= 1,
{
    Rc::strong_count(rc)
}

/// Relies on `std::rc::Rc`'s `Clone`, which returns a handle to the same
/// value.
#[verifier::external_body]
fn rc_clone<T>(rc: &Rc<T>) -> (r: Rc<T>)
    ensures
        r == *rc,
{
    Rc::clone(rc)
}

/// Relies on `std::rc::Rc`'s `Deref`, which borrows the shared value.
#[verifier::external_body]
fn rc_as_ref<T>(rc: &Rc<T>) -> (r: &T)
    ensures
        *r == *rc,
{
    rc.as_ref()
}

/// A store of reference-counted values.
///
/// Used to cache or deduplicate immutable data, for example resource states
/// or produced sounds.
pub trait SetRc<T> {
    /// The stored handles.
    spec fn entries(&self) -> Seq<Rc<T>>;

    /// Remove the values that do not exist outside of the store.
    ///
    /// Everything kept was already stored; nothing new appears.
    fn trim(&mut self)
        ensures
            forall|i: int|
                0 <= i < final(self).entries().len() ==> old(self).entries().contains(
                    #[trigger] final(self).entries()[i],
                ),
    ;

    /// Store `value` unless an equal value is already present, and return a
    /// shared handle: either to the already stored value or to this one.
    fn wrap(&mut self, value: T) -> (r: Rc<T>)
        ensures
            final(self).entries().contains(r),
            r == value || old(self).entries().contains(r),
    ;
}

impl<T: PartialEq> SetRc<T> for Vec<Rc<T>> {
    open spec fn entries(&self) -> Seq<Rc<T>> {
        self@
    }

    fn trim(&mut self) {
        let ghost orig = self@;
        let mut kept: Vec<Rc<T>> = Vec::new();
        proof {
            assert(self@ =~= orig.skip(0));
        }
        let mut i: usize = 0;
        while i < self.len()
            invariant
                i <= self@.len(),
                self@ == orig,
                forall|q: int| 0 <= q < kept@.len() ==> orig.contains(#[trigger] kept@[q]),
            decreases self@.len() - i,
        {
            // A count of one means the store itself holds the only handle.
            if rc_strong_count(&self[i]) != 1 {
                kept.push(rc_clone(&self[i]));
                proof {
                    assert(orig.contains(orig[i as int]));
                }
            }
            i = i + 1;
        }
        *self = kept;
    }

    fn wrap(&mut self, value: T) -> (r: Rc<T>) {
        let mut i: usize = 0;
        while i < self.len()
            invariant
                i <= self@.len(),
                self@ == old(self)@,
            decreases self@.len() - i,
        {
            if rc_as_ref(&self[i]) == &value {
                proof {
                    assert(self@.contains(self@[i as int]));
                }
                return rc_clone(&self[i]);
            }
            i = i + 1;
        }
        let rc = Rc::new(value);
        let handle = rc_clone(&rc);
        self.push(rc);
        proof {
            assert(self@.contains(self@[self@.len() - 1]));
        }
        handle
    }
}

} // verus!
