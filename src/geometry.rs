//! Axis-aligned rectangles on the horizontal plane of the world.
use vstd::prelude::*;
use crate::text::{decimal, decimal_of};

verus! {

/// A point `(x, z)` of the world's horizontal plane.
#[derive(Clone, Copy, Debug, PartialEq, Eq, Structural)]
pub struct Point(pub i64, pub i64);

/// A rectangle given by two opposite corners, in any order.
#[derive(Clone, Copy, Debug, PartialEq, Eq, Structural)]
pub struct Perimeter(pub Point, pub Point);

/// A named plot with its owner.
#[derive(Clone, Debug)]
pub struct Region {
    pub perimeter: Perimeter,
    pub name: String,
    pub owner: u64,
}

pub open spec fn min(a: int, b: int) -> int {
    if a <= b { a } else { b }
}

pub open spec fn max(a: int, b: int) -> int {
    if a <= b { b } else { a }
}

pub open spec fn abs(a: int) -> int {
    if a < 0 { -a } else { a }
}

impl Perimeter {
    pub open spec fn lo_x(self) -> int {
        min(self.0.0 as int, self.1.0 as int)
    }

    pub open spec fn hi_x(self) -> int {
        max(self.0.0 as int, self.1.0 as int)
    }

    pub open spec fn lo_z(self) -> int {
        min(self.0.1 as int, self.1.1 as int)
    }

    pub open spec fn hi_z(self) -> int {
        max(self.0.1 as int, self.1.1 as int)
    }

    /// The first corner is the lesser one on both axes.
    pub open spec fn is_normalized(self) -> bool {
        self.0.0 <= self.1.0 && self.0.1 <= self.1.1
    }

    /// Each axis is ordered on its own: the lesser value of each axis goes to
    /// the first corner.
    pub open spec fn spec_normalize(self) -> Perimeter {
        Perimeter(
            Point(self.lo_x() as i64, self.lo_z() as i64),
            Point(self.hi_x() as i64, self.hi_z() as i64),
        )
    }

    /// The horizontal area, `|dx| * |dz|`.
    pub open spec fn spec_size(self) -> int {
        abs(self.1.0 - self.0.0) * abs(self.1.1 - self.0.1)
    }

    /// `pt` lies strictly inside the rectangle on both axes.
    pub open spec fn spec_contains_point(self, pt: Point) -> bool {
        self.lo_x() < pt.0 < self.hi_x() && self.lo_z() < pt.1 < self.hi_z()
    }

    /// `c` is one of the four corners of the rectangle: its stored x values
    /// combined with its stored z values.
    pub open spec fn is_corner(self, c: Point) -> bool {
        (c.0 == self.0.0 || c.0 == self.1.0) && (c.1 == self.0.1 || c.1 == self.1.1)
    }

    /// Some corner of `other` lies strictly inside `self`.
    pub open spec fn holds_corner_of(self, other: Perimeter) -> bool {
        self.spec_contains_point(other.0)
        || self.spec_contains_point(other.1)
        || self.spec_contains_point(Point(other.0.0, other.1.1))
        || self.spec_contains_point(Point(other.1.0, other.0.1))
    }

    /// Some corner of either rectangle lies strictly inside the other.
    pub open spec fn spec_intersects(self, other: Perimeter) -> bool {
        self.holds_corner_of(other) || other.holds_corner_of(self)
    }

    /// `pt` lies on an edge or at a corner of the rectangle.
    pub open spec fn on_boundary(self, pt: Point) -> bool {
        let on_x_range = self.lo_x() <= pt.0 <= self.hi_x();
        let on_z_range = self.lo_z() <= pt.1 <= self.hi_z();
        ((pt.0 == self.lo_x() || pt.0 == self.hi_x()) && on_z_range)
        || ((pt.1 == self.lo_z() || pt.1 == self.hi_z()) && on_x_range)
    }

    /// The closed rectangles meet, their interiors do not: they share an edge,
    /// part of one, or a single corner.
    pub open spec fn touches_only(self, other: Perimeter) -> bool {
        let closed_meet = self.lo_x() <= other.hi_x() && other.lo_x() <= self.hi_x()
            && self.lo_z() <= other.hi_z() && other.lo_z() <= self.hi_z();
        let open_meet = self.lo_x() < other.hi_x() && other.lo_x() < self.hi_x()
            && self.lo_z() < other.hi_z() && other.lo_z() < self.hi_z();
        closed_meet && !open_meet
    }

    /// The area of the rectangle.
    pub fn size(&self) -> (r: i64)
        requires
            self.spec_size() <= i64::MAX,
        ensures
            r == self.spec_size(),
    {
        let dx: i128 = self.1.0 as i128 - self.0.0 as i128;
        let dz: i128 = self.1.1 as i128 - self.0.1 as i128;
        let adx: i128 = if dx < 0 { -dx } else { dx };
        let adz: i128 = if dz < 0 { -dz } else { dz };
        assert(adx * adz == self.spec_size());
        assert(0 <= adx * adz) by (nonlinear_arith)
            requires 0 <= adx, 0 <= adz;
        (adx * adz) as i64
    }

    /// The same rectangle with its lesser x and lesser z in the first corner.
    pub fn normalize(&self) -> (r: Perimeter)
        ensures
            r == self.spec_normalize(),
            r.is_normalized(),
    {
        let mut new = *self;
        if new.0.0 > new.1.0 {
            let t = new.0;
            new.0 = new.1;
            new.1 = t;
        }
        if new.0.1 > new.1.1 {
            let t: i64 = new.0.1;
            new.0.1 = new.1.1;
            new.1.1 = t;
        }
        new
    }

    /// Whether `p` lies strictly inside the rectangle: points on an edge or
    /// at a corner are not contained.
    pub fn contains_point(&self, p: &Point) -> (r: bool)
        ensures
            r == self.spec_contains_point(*p),
    {
        let n = self.normalize();
        n.0.0 < p.0 && n.1.0 > p.0 && n.0.1 < p.1 && n.1.1 > p.1
    }

    /// Whether some corner of either rectangle lies strictly inside the
    /// other one.
    pub fn intersects(&self, other: &Perimeter) -> (r: bool)
        ensures
            r == self.spec_intersects(*other),
    {
        self.intersects_unidirect(other) || other.intersects_unidirect(self)
    }

    /// Whether some corner of `other` lies strictly inside `self`.
    pub fn intersects_unidirect(&self, other: &Perimeter) -> (r: bool)
        ensures
            r == self.holds_corner_of(*other),
    {
        let corners = [other.0, other.1, Point(other.0.0, other.1.1), Point(other.1.0, other.0.1)];
        let mut i: usize = 0;
        while i < 4
            invariant
                0 <= i <= 4,
                corners@ == seq![other.0, other.1, Point(other.0.0, other.1.1), Point(other.1.0, other.0.1)],
                forall|j: int| 0 <= j < i ==> !self.spec_contains_point(#[trigger] corners@[j]),
            decreases 4 - i,
        {
            if self.contains_point(&corners[i]) {
                return true;
            }
            i += 1;
        }
        assert(!self.spec_contains_point(corners@[0]));
        assert(!self.spec_contains_point(corners@[1]));
        assert(!self.spec_contains_point(corners@[2]));
        assert(!self.spec_contains_point(corners@[3]));
        false
    }
}

impl Region {
    /// How a plot is listed: its name in backticks and its area.
    pub open spec fn spec_label(self) -> Seq<char> {
        "`"@ + self.name@ + "` ("@ + decimal(self.perimeter.spec_size()) + "m\u{b2})"@
    }

    /// The plot's name and area, for a listing.
    pub fn label(&self) -> (r: String)
        requires
            self.perimeter.spec_size() <= i64::MAX,
        ensures
            r@ == self.spec_label(),
    {
        let mut s = String::from_str("`");
        s.append(self.name.as_str());
        s.append("` (");
        let n = decimal_of(self.perimeter.size() as i128);
        s.append(n.as_str());
        s.append("m\u{b2})");
        s
    }
}

/// Normalizing orders both axes, and normalizing again changes nothing.
pub proof fn lemma_normalize_idempotent(p: Perimeter)
    ensures
        p.spec_normalize().is_normalized(),
        p.spec_normalize().spec_normalize() == p.spec_normalize(),
{
}

/// No point on an edge or at a corner of a rectangle is contained in it.
pub proof fn lemma_boundary_not_contained(p: Perimeter, pt: Point)
    requires
        p.spec_normalize().on_boundary(pt),
    ensures
        !p.spec_contains_point(pt),
{
}

/// Intersection does not depend on the order of the two rectangles.
pub proof fn lemma_intersects_symmetric(a: Perimeter, b: Perimeter)
    ensures
        a.spec_intersects(b) == b.spec_intersects(a),
{
}

/// Rectangles that share only an edge or a corner do not intersect.
pub proof fn lemma_touching_disjoint(a: Perimeter, b: Perimeter)
    requires
        a.touches_only(b),
    ensures
        !a.spec_intersects(b),
        !b.spec_intersects(a),
{
}

/// The interiors of the two rectangles overlap.
pub open spec fn interiors_meet(a: Perimeter, b: Perimeter) -> bool {
    a.lo_x() < b.hi_x() && b.lo_x() < a.hi_x() && a.lo_z() < b.hi_z() && b.lo_z() < a.hi_z()
}

/// Intersecting rectangles overlap in their interiors: the corner test never
/// reports plots that are apart or only touch.
pub proof fn lemma_intersects_overlap(a: Perimeter, b: Perimeter)
    requires
        a.spec_intersects(b),
    ensures
        interiors_meet(a, b),
{
}

/// A corner of one rectangle strictly inside the other makes the two
/// intersect, in either order.
pub proof fn lemma_inner_corner_intersects(a: Perimeter, b: Perimeter, c: Point)
    requires
        b.is_corner(c),
        a.spec_contains_point(c),
    ensures
        a.spec_intersects(b),
        b.spec_intersects(a),
{
}

} // verus!
