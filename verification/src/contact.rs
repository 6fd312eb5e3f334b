//! How many points two shapes have in common, decided from how their measures
//! compare.
//!
//! The measures themselves (distances, radii, a discriminant) are real-valued
//! and are taken by the caller, who also decides when two of them count as
//! equal. What is decided here is which case a pair of shapes falls under once
//! the comparisons are known.

use vstd::prelude::*;

verus! {

/// How a measure compares with another.
#[derive(Clone, Copy, Debug, PartialEq, Eq, Structural)]
pub enum Relation {
    Below,
    Equal,
    Above,
    /// One of the two is not a number.
    Undefined,
}

/// How two shapes meet.
#[derive(Clone, Copy, Debug, PartialEq, Eq, Structural)]
pub enum Contact {
    /// The shapes are one and the same, and share every point.
    Coincident,
    /// No common point is found.
    Disjoint,
    /// The shapes touch in one point.
    Touching,
    /// The shapes cross in two points.
    Crossing,
}

impl Contact {
    /// The number of points that are reported for this contact. Shapes that
    /// coincide share more points than can be listed, and none is reported.
    pub open spec fn points_spec(self) -> nat {
        match self {
            Contact::Coincident => 0,
            Contact::Disjoint => 0,
            Contact::Touching => 1,
            Contact::Crossing => 2,
        }
    }

    /// The number of points that are reported for this contact.
    pub fn points(self) -> (n: usize)
        ensures
            n == self.points_spec(),
    {
        match self {
            Contact::Coincident => 0,
            Contact::Disjoint => 0,
            Contact::Touching => 1,
            Contact::Crossing => 2,
        }
    }
}

/// The sign of a measure, given how it compares with zero: -1 below zero, 1
/// above it and 0 otherwise. A measure of zero has sign 0, not 1.
pub open spec fn sgn_spec(x: Relation) -> int {
    match x {
        Relation::Below => -1,
        Relation::Above => 1,
        _ => 0,
    }
}

/// The sign of a measure, given how it compares with zero.
pub fn sgn(x: Relation) -> (s: i8)
    ensures
        s == sgn_spec(x),
{
    match x {
        Relation::Below => -1,
        Relation::Above => 1,
        Relation::Equal => 0,
        Relation::Undefined => 0,
    }
}

/// How a line meets a circle, given how the discriminant of their quadratic
/// compares with zero: below zero they are disjoint, at zero the line is a
/// tangent, and in every other case two points are computed.
pub open spec fn line_circle_contact_spec(discriminant: Relation) -> Contact {
    match discriminant {
        Relation::Below => Contact::Disjoint,
        Relation::Equal => Contact::Touching,
        _ => Contact::Crossing,
    }
}

/// How a line meets a circle, given how the discriminant of their quadratic
/// compares with zero.
pub fn line_circle_contact(discriminant: Relation) -> (c: Contact)
    ensures
        c == line_circle_contact_spec(discriminant),
{
    match discriminant {
        Relation::Below => Contact::Disjoint,
        Relation::Equal => Contact::Touching,
        Relation::Above => Contact::Crossing,
        Relation::Undefined => Contact::Crossing,
    }
}

/// What is known of two circles with radii `r1`, `r2` whose centers are `d`
/// apart.
#[derive(Clone, Copy, Debug, PartialEq, Eq, Structural)]
pub struct CirclePair {
    /// `d` against `r1 + r2`.
    pub reach: Relation,
    /// `d` plus the smaller radius against the larger radius.
    pub nesting: Relation,
    /// Whether `d` is zero.
    pub concentric: bool,
    /// Whether `r1` equals `r2`.
    pub same_radius: bool,
}

impl CirclePair {
    /// The two circles are one and the same.
    pub open spec fn coincident(self) -> bool {
        self.concentric && self.same_radius
    }

    /// The circles touch from outside or from inside.
    pub open spec fn tangent(self) -> bool {
        self.reach == Relation::Equal || self.nesting == Relation::Equal
    }

    /// The circles are too far apart, or one lies strictly inside the other,
    /// or they share a center and differ in radius.
    pub open spec fn disjoint(self) -> bool {
        self.reach == Relation::Above || self.nesting == Relation::Below || (self.concentric
            && !self.same_radius)
    }

    /// The circles overlap properly.
    pub open spec fn overlapping(self) -> bool {
        self.nesting == Relation::Above || self.reach == Relation::Below
    }

    /// How the circles meet. Whether they coincide is settled first, so that
    /// two identical circles are never taken for tangent ones. Of the
    /// remaining pairs the tangent ones touch, and those that are neither
    /// tangent nor disjoint cross if they overlap.
    pub open spec fn contact_spec(self) -> Contact {
        if self.coincident() {
            Contact::Coincident
        } else if self.tangent() {
            Contact::Touching
        } else if self.disjoint() {
            Contact::Disjoint
        } else if self.overlapping() {
            Contact::Crossing
        } else {
            Contact::Disjoint
        }
    }

    /// How the circles meet.
    pub fn contact(&self) -> (c: Contact)
        ensures
            c == self.contact_spec(),
    {
        if self.concentric && self.same_radius {
            Contact::Coincident
        } else if self.reach == Relation::Equal || self.nesting == Relation::Equal {
            Contact::Touching
        } else if self.reach == Relation::Above || self.nesting == Relation::Below
            || self.concentric {
            Contact::Disjoint
        } else if self.nesting == Relation::Above || self.reach == Relation::Below {
            Contact::Crossing
        } else {
            Contact::Disjoint
        }
    }
}

/// Two identical circles are told from every other pair and report no point,
/// however their distance and radii compare otherwise.
pub proof fn identical_circles_report_no_point(pair: CirclePair)
    ensures
        pair.contact_spec() == Contact::Coincident <==> pair.concentric && pair.same_radius,
        pair.concentric && pair.same_radius ==> pair.contact_spec().points_spec() == 0,
{
}

/// Circles that are not identical touch in one point exactly when they are
/// tangent from outside or from inside, and cross in two points only if they
/// overlap and are neither tangent nor disjoint.
pub proof fn tangent_circles_touch(pair: CirclePair)
    requires
        !pair.coincident(),
    ensures
        pair.contact_spec().points_spec() == 1 <==> pair.tangent(),
        pair.contact_spec().points_spec() == 2 <==> pair.overlapping() && !pair.tangent()
            && !pair.disjoint(),
{
}

} // verus!
