use vstd::prelude::*;
use crate::point::ColoredPoint;

verus! {

/// The mathematical box: a lower and an upper bound on each axis.
pub struct BoxModel {
    pub min_x: int,
    pub min_y: int,
    pub min_z: int,
    pub max_x: int,
    pub max_y: int,
    pub max_z: int,
}

impl BoxModel {
    /// Lower bounds do not exceed upper bounds.
    pub open spec fn wf(self) -> bool {
        &&& self.min_x <= self.max_x
        &&& self.min_y <= self.max_y
        &&& self.min_z <= self.max_z
    }

    /// The point lies inside the box, bounds included.
    pub open spec fn contains(self, x: int, y: int, z: int) -> bool {
        &&& self.min_x <= x <= self.max_x
        &&& self.min_y <= y <= self.max_y
        &&& self.min_z <= z <= self.max_z
    }
}

/// The box that holds the one point (x, y, z).
pub open spec fn point_box(x: int, y: int, z: int) -> BoxModel {
    BoxModel { min_x: x, min_y: y, min_z: z, max_x: x, max_y: y, max_z: z }
}

pub open spec fn min_int(a: int, b: int) -> int {
    if a <= b { a } else { b }
}

pub open spec fn max_int(a: int, b: int) -> int {
    if a >= b { a } else { b }
}

/// The smallest box that holds both `b` and the point (x, y, z).
pub open spec fn extended(b: BoxModel, x: int, y: int, z: int) -> BoxModel {
    BoxModel {
        min_x: min_int(b.min_x, x),
        min_y: min_int(b.min_y, y),
        min_z: min_int(b.min_z, z),
        max_x: max_int(b.max_x, x),
        max_y: max_int(b.max_y, y),
        max_z: max_int(b.max_z, z),
    }
}

/// The box of a non-empty sequence of points: the box of the first point,
/// extended by each following point in turn.
pub open spec fn box_of(pts: Seq<ColoredPoint>) -> BoxModel
    recommends
        pts.len() > 0,
    decreases pts.len(),
{
    if pts.len() <= 1 {
        point_box(pts[0].x as int, pts[0].y as int, pts[0].z as int)
    } else {
        let p = pts.last();
        extended(box_of(pts.drop_last()), p.x as int, p.y as int, p.z as int)
    }
}

/// An axis-aligned bounding box over stored integer coordinates.
#[derive(Clone, Copy, Debug)]
pub struct Bbox {
    minx: i32,
    miny: i32,
    minz: i32,
    maxx: i32,
    maxy: i32,
    maxz: i32,
}

impl View for Bbox {
    type V = BoxModel;

    closed spec fn view(&self) -> BoxModel {
        BoxModel {
            min_x: self.minx as int,
            min_y: self.miny as int,
            min_z: self.minz as int,
            max_x: self.maxx as int,
            max_y: self.maxy as int,
            max_z: self.maxz as int,
        }
    }
}

impl Bbox {
    /// The box that holds exactly the point (x, y, z).
    pub fn new(x: i32, y: i32, z: i32) -> (r: Bbox)
        ensures
            r@ == point_box(x as int, y as int, z as int),
            r@.wf(),
    {
        Bbox { minx: x, maxx: x, miny: y, maxy: y, minz: z, maxz: z }
    }

    /// Grows the box just enough to hold the point (x, y, z).
    pub fn extend(&mut self, x: i32, y: i32, z: i32)
        ensures
            final(self)@ == extended(old(self)@, x as int, y as int, z as int),
            old(self)@.wf() ==> final(self)@.wf(),
    {
        if x < self.minx { self.minx = x; }
        if x > self.maxx { self.maxx = x; }
        if y < self.miny { self.miny = y; }
        if y > self.maxy { self.maxy = y; }
        if z < self.minz { self.minz = z; }
        if z > self.maxz { self.maxz = z; }
    }

    /// The midpoint of the box on each axis, in half units of the coordinate grid:
    /// each component is min + max, twice the midpoint, so that it stays exact.
    pub fn center(&self) -> (r: (i64, i64, i64))
        ensures
            r.0 == self@.min_x + self@.max_x,
            r.1 == self@.min_y + self@.max_y,
            r.2 == self@.min_z + self@.max_z,
    {
        (
            self.minx as i64 + self.maxx as i64,
            self.miny as i64 + self.maxy as i64,
            self.minz as i64 + self.maxz as i64,
        )
    }

    /// The lower corner (min x, min y, min z).
    pub fn min_corner(&self) -> (r: (i32, i32, i32))
        ensures
            r.0 as int == self@.min_x,
            r.1 as int == self@.min_y,
            r.2 as int == self@.min_z,
    {
        (self.minx, self.miny, self.minz)
    }

    /// The upper corner (max x, max y, max z).
    pub fn max_corner(&self) -> (r: (i32, i32, i32))
        ensures
            r.0 as int == self@.max_x,
            r.1 as int == self@.max_y,
            r.2 as int == self@.max_z,
    {
        (self.maxx, self.maxy, self.maxz)
    }
}

/// The bounding box of the points: none for no points, else the box of the first
/// point extended by every other.
pub fn bounds_of(pts: &Vec<ColoredPoint>) -> (r: Option<Bbox>)
    ensures
        pts@.len() == 0 <==> r is None,
        r matches Some(b) ==> b@ == box_of(pts@) && b@.wf(),
{
    if pts.len() == 0 {
        return None;
    }
    let mut b = Bbox::new(pts[0].x, pts[0].y, pts[0].z);
    let mut i: usize = 1;
    while i < pts.len()
        invariant
            1 <= i <= pts.len(),
            b@ == box_of(pts@.subrange(0, i as int)),
            b@.wf(),
        decreases pts.len() - i,
    {
        let p = pts[i];
        assert(pts@.subrange(0, i + 1).drop_last() == pts@.subrange(0, i as int));
        b.extend(p.x, p.y, p.z);
        i = i + 1;
    }
    assert(pts@.subrange(0, pts@.len() as int) == pts@);
    Some(b)
}

/// A box built from one point and extended by that same point again is the
/// box of that one point: min and max both equal the point on every axis.
pub proof fn lemma_extend_by_own_point(x: int, y: int, z: int)
    ensures
        extended(point_box(x, y, z), x, y, z) == point_box(x, y, z),
        point_box(x, y, z).min_x == x == point_box(x, y, z).max_x,
        point_box(x, y, z).min_y == y == point_box(x, y, z).max_y,
        point_box(x, y, z).min_z == z == point_box(x, y, z).max_z,
{
}

/// Extending a box by a point it already holds leaves it unchanged.
pub proof fn lemma_extend_inside(b: BoxModel, x: int, y: int, z: int)
    requires
        b.contains(x, y, z),
    ensures
        extended(b, x, y, z) == b,
{
}

/// The box of a non-empty sequence of points is the tightest box around it: it
/// holds every point, and each of its six bounds is reached by some point.
pub proof fn lemma_box_of_is_tight(pts: Seq<ColoredPoint>)
    requires
        pts.len() > 0,
    ensures
        box_of(pts).wf(),
        forall|i: int| 0 <= i < pts.len() ==> box_of(pts).contains(#[trigger] pts[i].x as int, pts[i].y as int, pts[i].z as int),
        exists|i: int| 0 <= i < pts.len() && pts[i].x as int == box_of(pts).min_x,
        exists|i: int| 0 <= i < pts.len() && pts[i].y as int == box_of(pts).min_y,
        exists|i: int| 0 <= i < pts.len() && pts[i].z as int == box_of(pts).min_z,
        exists|i: int| 0 <= i < pts.len() && pts[i].x as int == box_of(pts).max_x,
        exists|i: int| 0 <= i < pts.len() && pts[i].y as int == box_of(pts).max_y,
        exists|i: int| 0 <= i < pts.len() && pts[i].z as int == box_of(pts).max_z,
    decreases pts.len(),
{
    if pts.len() > 1 {
        let init = pts.drop_last();
        lemma_box_of_is_tight(init);
        let b = box_of(pts);
        assert forall|i: int| 0 <= i < pts.len() implies b.contains(#[trigger] pts[i].x as int, pts[i].y as int, pts[i].z as int) by {
            if i < init.len() {
                assert(init[i] == pts[i]);
                assert(box_of(init).contains(init[i].x as int, init[i].y as int, init[i].z as int));
            }
        }
        assert forall|i: int| 0 <= i < init.len() implies init[i] == pts[i] by {}
    }
}

} // verus!
