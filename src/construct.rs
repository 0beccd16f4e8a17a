//! Building flat, ordered geometry out of a widget tree.

use crate::geometry::Line;
use vstd::prelude::*;

verus! {

/// A flat, ordered collection of primitives that a widget tree builds.
pub trait StandardConstructTarget: Sized {
    type Item;

    /// The primitives, in order.
    spec fn items(&self) -> Seq<Self::Item>;

    fn empty() -> (r: Self)
        ensures
            r.items() == Seq::<Self::Item>::empty(),
    ;

    fn append(&mut self, value: Self)
        ensures
            final(self).items() == old(self).items() + value.items(),
    ;

    fn append_into(self, value: Self) -> (r: Self)
        ensures
            r.items() == self.items() + value.items(),
    ;
}

/// A widget that builds geometry of type `C`.
pub trait Construct<C: StandardConstructTarget> {
    /// The primitives that `construct` produces.
    spec fn constructed(&self) -> Seq<C::Item>;

    fn construct(&self) -> (r: C)
        ensures
            r.items() == self.constructed(),
    ;
}

/// Geometry made of line segments.
#[derive(Debug, Clone)]
pub struct LineTarget(pub Vec<Line>);

impl StandardConstructTarget for LineTarget {
    type Item = Line;

    open spec fn items(&self) -> Seq<Line> {
        self.0@
    }

    fn empty() -> (r: Self) {
        LineTarget(Vec::new())
    }

    fn append(&mut self, value: Self) {
        let mut value = value;
        self.0.append(&mut value.0);
    }

    fn append_into(self, value: Self) -> (r: Self) {
        let mut s = self;
        s.append(value);
        s
    }
}

impl Default for LineTarget {
    fn default() -> (r: Self)
        ensures
            r.0@ == Seq::<Line>::empty(),
    {
        Self::empty()
    }
}

/// A filled capsule: every point within `radius` of the segment from
/// (`p1x`, `p1y`) to (`p2x`, `p2y`).
#[derive(Debug, Clone, Copy, PartialEq, Eq, Structural)]
pub struct Freeform2DCapsule {
    pub p1x: i64,
    pub p1y: i64,
    pub p2x: i64,
    pub p2y: i64,
    pub radius: u32,
}

/// Geometry made of filled capsules.
#[derive(Debug, Clone)]
pub struct Freeform2DCapsuleTarget(pub Vec<Freeform2DCapsule>);

impl StandardConstructTarget for Freeform2DCapsuleTarget {
    type Item = Freeform2DCapsule;

    open spec fn items(&self) -> Seq<Freeform2DCapsule> {
        self.0@
    }

    fn empty() -> (r: Self) {
        Freeform2DCapsuleTarget(Vec::new())
    }

    fn append(&mut self, value: Self) {
        let mut value = value;
        self.0.append(&mut value.0);
    }

    fn append_into(self, value: Self) -> (r: Self) {
        let mut s = self;
        s.append(value);
        s
    }
}

} // verus!
