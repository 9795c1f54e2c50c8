//! A single-slot ownership-transfer cell.

use vstd::prelude::*;
use vstd::multiset::Multiset;

verus! {

broadcast use vstd::multiset::group_multiset_axioms;

/// A single-slot container holding zero or one exclusively owned boxed value.
///
/// The slot's whole purpose is an exactly-once ownership guarantee: every
/// `swap` hands back the previous occupant and installs the new one, so any
/// value ever placed in the cell is received by exactly one later call (or
/// still sits in the cell) — no duplication, no loss. Exclusive access is
/// carried by `&mut`; an embedder that moves the cell's contents between
/// threads keeps the cell behind a lock or an atomic exchange and relies on
/// the same single-owner contract, stated by [`lemma_single_ownership`] over
/// the order in which the exchanges took effect.
pub struct AtomicCell<T> {
    data: Option<Box<T>>,
}

/// The plain value held by an optional box.
pub open spec fn box_contents<T>(o: Option<Box<T>>) -> Option<T> {
    match o {
        Some(b) => Some(*b),
        None => None,
    }
}

impl<T> AtomicCell<T> {
    /// The value currently resident in the slot, if any.
    pub closed spec fn contents(self) -> Option<T> {
        box_contents(self.data)
    }

    /// Creates a cell holding `data` (possibly empty).
    pub fn new(data: Option<Box<T>>) -> (cell: AtomicCell<T>)
        ensures
            cell.contents() == box_contents(data),
    {
        AtomicCell { data }
    }

    /// Exchanges the slot's occupant for `val`, returning whatever was held
    /// before. The caller becomes the sole owner of the returned value.
    pub fn swap(&mut self, val: Option<Box<T>>) -> (prev: Option<Box<T>>)
        ensures
            final(self).contents() == box_contents(val),
            box_contents(prev) == old(self).contents(),
    {
        let mut slot = val;
        core::mem::swap(&mut self.data, &mut slot);
        slot
    }

    /// Installs `val`, releasing any previous occupant in its place.
    pub fn set(&mut self, val: Box<T>)
        ensures
            final(self).contents() == Some(*val),
    {
        let _ = self.swap(Some(val));
    }

    /// Removes and returns the occupant, leaving the slot empty.
    pub fn take(&mut self) -> (prev: Option<Box<T>>)
        ensures
            final(self).contents() is None,
            box_contents(prev) == old(self).contents(),
    {
        self.swap(None)
    }
}

/// The multiset holding an occupant's value, or nothing.
pub open spec fn occupant_multiset<T>(o: Option<T>) -> Multiset<T> {
    match o {
        Some(v) => Multiset::empty().insert(v),
        None => Multiset::empty(),
    }
}

/// All values occurring in a sequence of optional occupants, as a multiset.
pub open spec fn occupants_multiset<T>(s: Seq<Option<T>>) -> Multiset<T>
    decreases s.len(),
{
    if s.len() == 0 {
        Multiset::empty()
    } else {
        occupants_multiset(s.drop_last()).add(occupant_multiset(s.last()))
    }
}

/// What each call in a sequence of swaps receives, when the cell starts out
/// holding `init` and the calls install `inserted[0]`, `inserted[1]`, ... in
/// the order in which their exchanges took effect: the first call receives
/// `init`, and every later call receives what its predecessor installed.
pub open spec fn swap_results<T>(init: Option<T>, inserted: Seq<Option<T>>) -> Seq<Option<T>> {
    Seq::new(inserted.len(), |i: int| if i == 0 { init } else { inserted[i - 1] })
}

/// What remains in the cell after that sequence of swaps.
pub open spec fn swap_resident<T>(init: Option<T>, inserted: Seq<Option<T>>) -> Option<T> {
    if inserted.len() == 0 {
        init
    } else {
        inserted.last()
    }
}

/// Law (single ownership): over any sequence of `swap` calls on one cell —
/// `take` and `set` are swaps too — the initial occupant together with every
/// value inserted is, as a multiset, exactly what the calls received together
/// with the final resident. Each value is handed to exactly one caller or
/// still sits in the cell; none is seen twice, none is lost. Calls made
/// concurrently are covered by reading `inserted` in the order in which the
/// exchanges took effect.
pub proof fn lemma_single_ownership<T>(init: Option<T>, inserted: Seq<Option<T>>)
    ensures
        occupant_multiset(init).add(occupants_multiset(inserted)) =~= occupants_multiset(
            swap_results(init, inserted),
        ).add(occupant_multiset(swap_resident(init, inserted))),
    decreases inserted.len(),
{
    let results = swap_results(init, inserted);
    if inserted.len() == 0 {
        assert(results =~= Seq::<Option<T>>::empty());
    } else {
        let prefix = inserted.drop_last();
        lemma_single_ownership(init, prefix);
        assert(results.drop_last() =~= swap_results(init, prefix));
        assert(results.last() == swap_resident(init, prefix));
        assert(occupants_multiset(results) == occupants_multiset(swap_results(init, prefix)).add(
            occupant_multiset(swap_resident(init, prefix)),
        ));
    }
}

} // verus!
