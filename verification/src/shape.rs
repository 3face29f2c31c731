//! The capability contract a value must satisfy to be storable in a
//! [`Canvas`](crate::canvas::Canvas): report a scalar measure, report a 2-D
//! reference coordinate, and replace that coordinate. The container never
//! inspects which concrete kind of object it holds; it relies only on this
//! contract.

use vstd::prelude::*;

verus! {

/// The minimal interface any storable object must satisfy.
///
/// An implementation chooses its own scalar types for the coordinate and the
/// measure, states in `wf` which of its internal states are valid, and keeps
/// every operation total on valid states: `get_area` and `origin` never fail,
/// and `set_origin` replaces the coordinate unconditionally while leaving the
/// measure unchanged.
pub trait Shape: Sized {
    /// Scalar type of each component of the 2-D reference coordinate.
    type Coord;

    /// Scalar type of the derived measure.
    type Measure;

    /// Which internal states of the object are valid. Every slot of a
    /// container keeps its object in a valid state at all times. By default
    /// every state is valid; an implementation with an internal invariant
    /// overrides this.
    open spec fn wf(&self) -> bool {
        true
    }

    /// The measure the object reports, as a function of its own fields.
    /// Unconstrained by default; a verified implementation overrides it with
    /// its measure formula.
    open spec fn area_spec(&self) -> Self::Measure {
        arbitrary()
    }

    /// The reference coordinate the object reports. Unconstrained by default;
    /// a verified implementation overrides it with the coordinate it stores.
    open spec fn origin_spec(&self) -> (Self::Coord, Self::Coord) {
        arbitrary()
    }

    /// Computes the scalar measure from the object's own fields alone.
    /// No side effects; always produces a value on a valid state.
    fn get_area(&self) -> (a: Self::Measure)
        requires
            self.wf(),
        ensures
            a == self.area_spec(),
    ;

    /// Returns the object's current 2-D reference coordinate. No side effects.
    fn origin(&self) -> (p: (Self::Coord, Self::Coord))
        requires
            self.wf(),
        ensures
            p == self.origin_spec(),
    ;

    /// Replaces the reference coordinate unconditionally; the previous
    /// coordinate is discarded, every other field — and hence the measure —
    /// is untouched, and the state stays valid.
    fn set_origin(&mut self, origin: (Self::Coord, Self::Coord))
        requires
            old(self).wf(),
        ensures
            final(self).wf(),
            final(self).origin_spec() == origin,
            final(self).area_spec() == old(self).area_spec(),
    ;
}

/// A reference implementation of the contract: an axis-aligned block with
/// integer sides. Its measure is the exact product of its sides, which always
/// fits in the measure type.
pub struct Block {
    pub width: u32,
    pub height: u32,
    pub origin: (i64, i64),
}

impl Shape for Block {
    type Coord = i64;

    type Measure = u64;

    open spec fn wf(&self) -> bool {
        true
    }

    open spec fn area_spec(&self) -> u64 {
        (self.width as u64 * self.height as u64) as u64
    }

    open spec fn origin_spec(&self) -> (i64, i64) {
        self.origin
    }

    fn get_area(&self) -> (a: u64) {
        proof {
            assert(self.width as u64 * self.height as u64 <= u64::MAX) by (nonlinear_arith)
                requires
                    self.width <= u32::MAX,
                    self.height <= u32::MAX,
            ;
        }
        self.width as u64 * self.height as u64
    }

    fn origin(&self) -> (p: (i64, i64)) {
        self.origin
    }

    fn set_origin(&mut self, origin: (i64, i64))
        ensures
            final(self).width == old(self).width,
            final(self).height == old(self).height,
    {
        self.origin = origin;
    }
}

} // verus!
