//! The handle-based container. A [`Canvas`] owns a growable sequence of
//! shared, independently lockable object slots. Inserting an object wraps it
//! in a fresh reader/writer lock, shares ownership of that slot between the
//! container and the returned [`Handle`], and appends the slot to the
//! sequence. All later access goes through a handle — either directly, with
//! the free functions below, or through the container's convenience methods,
//! which are equivalent.

use std::sync::Arc;
use vstd::prelude::*;
use vstd::rwlock::ReadHandle;
use vstd::rwlock::RwLock;
use vstd::rwlock::RwLockPredicate;

use crate::shape::Shape;

verus! {

/// The invariant attached to a slot's lock: the stored object is in a valid
/// state, and its measure is the one pinned when the slot was created — an
/// object's measure is a function of its own fields alone and relocation
/// preserves it, so it never changes for the lifetime of the slot. Acquiring
/// a slot's lock therefore always yields a valid object with the pinned
/// measure, and releasing it requires handing such an object back.
pub struct SlotInv<S: Shape> {
    pub area: S::Measure,
}

impl<S: Shape> RwLockPredicate<S> for SlotInv<S> {
    open spec fn inv(self, v: S) -> bool {
        v.wf() && v.area_spec() == self.area
    }
}

/// A cloneable, shareable reference to exactly one object slot.
///
/// Ownership of the slot is reference-counted: the container keeps one
/// handle, every external holder keeps another, and the slot lives until the
/// last handle is dropped. A handle carries no index or position; it is the
/// direct reference to the slot, independent of the container's internal
/// storage. Cloning a handle does not clone the object: all clones observe
/// the same slot and the same mutations.
pub type Handle<S> = Arc<RwLock<S, SlotInv<S>>>;

/// The measure pinned by the handle's slot invariant: the measure the object
/// in this slot had when it was inserted, and provably still has.
pub open spec fn slot_area<S: Shape>(h: Handle<S>) -> S::Measure {
    (*h).pred().area
}

/// Acquires a shared (read) lock on the handle's slot, computes the object's
/// measure, and releases the lock. The result is always present — the lock
/// cannot end up in a broken state — and is exactly the slot's pinned
/// measure: no write through this or any other handle can change it.
pub fn read_measure<S: Shape>(h: &Handle<S>) -> (m: Option<S::Measure>)
    ensures
        m == Some(slot_area(*h)),
{
    let lock: &RwLock<S, SlotInv<S>> = &**h;
    let guard = lock.acquire_read();
    let a = guard.borrow().get_area();
    guard.release_read();
    Some(a)
}

/// Acquires a shared (read) lock on the handle's slot, reads the object's
/// current coordinate, and releases the lock. The lock cannot end up in a
/// broken state, so the result is always present; it is the coordinate of the
/// valid object the read observed, which carries the slot's pinned measure.
pub fn read_position<S: Shape>(h: &Handle<S>) -> (p: Option<(S::Coord, S::Coord)>)
    ensures
        p is Some,
        p matches Some(q) ==> exists|s: S|
            s.wf() && s.area_spec() == slot_area(*h) && q == #[trigger] s.origin_spec(),
{
    let lock: &RwLock<S, SlotInv<S>> = &**h;
    let guard = lock.acquire_read();
    let q = guard.borrow().origin();
    guard.release_read();
    Some(q)
}

/// Acquires the exclusive (write) lock on the handle's slot, replaces the
/// object's coordinate with `p`, and releases the lock. The mutation is
/// visible to every holder of a handle to the same slot as soon as the lock
/// is released; slots reached through other handles are never touched. The
/// new value stored behind the lock is again valid, has coordinate `p`, and —
/// the slot invariant demands it — still carries the slot's pinned measure.
///
/// The lock has no poisoned state: a write either completes or, if the
/// object's own relocation code terminates abnormally while the exclusive
/// lock is held, leaves the slot locked for good, blocking later accessors
/// rather than surfacing an absent result.
pub fn write_position<S: Shape>(h: &Handle<S>, p: (S::Coord, S::Coord)) {
    let lock: &RwLock<S, SlotInv<S>> = &**h;
    let (mut s, guard) = lock.acquire_write();
    s.set_origin(p);
    guard.release_write(s);
}

/// Reads the slot's coordinate through two handles at once, holding both
/// shared locks together. Whenever the two handles refer to one slot — in
/// particular when one is a clone of the other — the two reads observe the
/// same coordinate: overlapping readers of one slot agree, and a read never
/// sees a partially applied write.
pub fn read_position_pair<S: Shape>(h1: &Handle<S>, h2: &Handle<S>) -> (r: (
    (S::Coord, S::Coord),
    (S::Coord, S::Coord),
))
    requires
        h1 == h2,
    ensures
        r.0 == r.1,
{
    let lock1: &RwLock<S, SlotInv<S>> = &**h1;
    let lock2: &RwLock<S, SlotInv<S>> = &**h2;
    let guard1 = lock1.acquire_read();
    let guard2 = lock2.acquire_read();
    proof {
        ReadHandle::lemma_readers_match(&guard1, &guard2);
    }
    let p1 = guard1.borrow().origin();
    let p2 = guard2.borrow().origin();
    guard1.release_read();
    guard2.release_read();
    (p1, p2)
}

/// The container: an ordered sequence of shared object slots, in insertion
/// order. The container is a factory and registry, not a gatekeeper: it keeps
/// one handle per slot, and its accessor methods are plain equivalents of the
/// free handle functions. Addressing is always by handle; the order of the
/// sequence serves inspection only.
pub struct Canvas<S: Shape> {
    shapes: Vec<Handle<S>>,
}

impl<S: Shape> Canvas<S> {
    /// The slots the container has retained, in insertion order.
    pub closed spec fn slots(&self) -> Seq<Handle<S>> {
        self.shapes@
    }

    /// Creates an empty container.
    pub fn new() -> (c: Self)
        ensures
            c.slots() == Seq::<Handle<S>>::empty(),
    {
        Canvas { shapes: Vec::new() }
    }

    /// Wraps `shape` in a fresh, independently lockable slot, appends the
    /// slot to the sequence, and returns a handle to it. The returned handle
    /// and the slot the container retains are one and the same: two owners of
    /// one shared object, not copies. The new slot pins the inserted object's
    /// measure. No existing slot is touched, so an insertion never waits on
    /// any other slot's lock.
    pub fn add(&mut self, shape: S) -> (h: Handle<S>)
        requires
            shape.wf(),
        ensures
            final(self).slots() == old(self).slots().push(h),
            slot_area(h) == shape.area_spec(),
    {
        let ghost pinned = shape.area_spec();
        let slot: Handle<S> = Arc::new(RwLock::new(shape, Ghost(SlotInv { area: pinned })));
        self.shapes.push(slot.clone());
        slot
    }

    /// Reads the measure of the object in the handle's slot; equivalent to
    /// calling [`read_measure`] on the handle directly, and like it returns
    /// exactly the slot's pinned measure.
    pub fn get_area(&self, h: &Handle<S>) -> (m: Option<S::Measure>)
        ensures
            m == Some(slot_area(*h)),
    {
        read_measure(h)
    }

    /// Reads the coordinate of the object in the handle's slot; equivalent to
    /// calling [`read_position`] on the handle directly.
    pub fn get_origin(&self, h: &Handle<S>) -> (p: Option<(S::Coord, S::Coord)>)
        ensures
            p is Some,
            p matches Some(q) ==> exists|s: S|
                s.wf() && s.area_spec() == slot_area(*h) && q == #[trigger] s.origin_spec(),
    {
        read_position(h)
    }

    /// Replaces the coordinate of the object in the handle's slot; equivalent
    /// to calling [`write_position`] on the handle directly. The container is
    /// only passed through: its sequence of slots is not consulted and cannot
    /// change.
    pub fn set_origin(&self, h: &Handle<S>, origin: (S::Coord, S::Coord)) {
        write_position(h, origin);
    }

    /// How many objects have been inserted.
    pub fn len(&self) -> (n: usize)
        ensures
            n == self.slots().len(),
    {
        self.shapes.len()
    }

    /// A handle to the slot at position `i` of the insertion order, for
    /// inspection of the container's layout. The returned handle shares the
    /// retained slot, exactly as the handle `add` returned for it did.
    pub fn handle_at(&self, i: usize) -> (h: Handle<S>)
        requires
            i < self.slots().len(),
        ensures
            h == self.slots()[i as int],
    {
        self.shapes[i].clone()
    }
}

/// Insertion-order stability: appending a slot to the sequence keeps every
/// existing slot at its index and places the new slot last. Since `add` is
/// the only operation that changes the sequence of slots — reads and writes
/// through handles borrow the container immutably or bypass it entirely —
/// mutating any object never reorders storage.
pub proof fn lemma_insertion_order_stable<S: Shape>(slots: Seq<Handle<S>>, h: Handle<S>)
    ensures
        slots.push(h).len() == slots.len() + 1,
        forall|i: int| 0 <= i < slots.len() ==> slots.push(h)[i] == slots[i],
        slots.push(h)[slots.len() as int] == h,
{
}

} // verus!


