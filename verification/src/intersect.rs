//! The slab method: where a ray first meets an axis-aligned box, and
//! through which face.

use vstd::prelude::*;
use crate::fraction::{Fraction, Ratio, lemma_product_bounded};
use crate::geometry::{AxisAlignedBox, Cuboid, Line, Ray};
use crate::intersect_proofs::{
    lemma_entry_is_first_contact, lemma_entry_lies_on_its_face, lemma_miss_has_no_entry,
    lemma_orthogonal_hit, lemma_origin_inside_has_no_entry,
};
use crate::vector::{Axis, Point, Vector3, EPSILON, UNIT, WORLD_LIMIT};

verus! {

/// A set of ray parameters: none, all, or those between two bounds, the
/// bounds included.
pub enum Window {
    Empty,
    Whole,
    Span { enter: Ratio, exit: Ratio },
}

impl Window {
    /// The parameter `s` belongs to the window.
    pub open spec fn holds(self, s: Ratio) -> bool {
        match self {
            Window::Empty => false,
            Window::Whole => true,
            Window::Span { enter, exit } => enter.le(s) && s.le(exit),
        }
    }

    /// The bounds of a span are valid ratios, in order.
    pub open spec fn valid(self) -> bool {
        match self {
            Window::Span { enter, exit } => enter.valid() && exit.valid() && enter.le(exit),
            _ => true,
        }
    }

    /// A span of the window, if it is one, starts below zero.
    pub open spec fn starts_behind(self) -> bool {
        match self {
            Window::Span { enter, exit } => enter.num < 0,
            _ => true,
        }
    }

    /// The parameters that belong to both windows. Two spans that only
    /// touch still meet, in that one parameter.
    pub open spec fn meet(self, other: Window) -> Window {
        match (self, other) {
            (Window::Empty, _) => Window::Empty,
            (_, Window::Empty) => Window::Empty,
            (Window::Whole, w) => w,
            (w, Window::Whole) => w,
            (Window::Span { enter: a, exit: b }, Window::Span { enter: c, exit: d }) => {
                if d.lt(a) || b.lt(c) {
                    Window::Empty
                } else {
                    Window::Span {
                        enter: if a.lt(c) {
                            c
                        } else {
                            a
                        },
                        exit: if d.lt(b) {
                            d
                        } else {
                            b
                        },
                    }
                }
            },
        }
    }
}

/// The parameters at which a ray is between `lo` and `hi` on one axis,
/// where it starts at `o` and moves by `d` per unit of the parameter. A ray
/// that does not move along the axis is between them always or never.
pub open spec fn axis_window(o: int, d: int, lo: int, hi: int) -> Window {
    if d > 0 {
        Window::Span { enter: Ratio { num: lo - o, den: d }, exit: Ratio { num: hi - o, den: d } }
    } else if d < 0 {
        Window::Span {
            enter: Ratio { num: o - hi, den: -d },
            exit: Ratio { num: o - lo, den: -d },
        }
    } else if lo <= o <= hi {
        Window::Whole
    } else {
        Window::Empty
    }
}

/// The parameters at which the line is inside the box: the three axes'
/// windows, met in the order x, y, z.
pub open spec fn window(line: Line, cuboid: Cuboid) -> Window {
    axis_window(line.origin.x, line.direction.x, cuboid.lo.x, cuboid.hi.x).meet(
        axis_window(line.origin.y, line.direction.y, cuboid.lo.y, cuboid.hi.y),
    ).meet(axis_window(line.origin.z, line.direction.z, cuboid.lo.z, cuboid.hi.z))
}

/// The parameter at which the ray enters the box, if it does so at or after
/// its origin.
pub open spec fn entry(line: Line, cuboid: Cuboid) -> Option<Ratio> {
    match window(line, cuboid) {
        Window::Span { enter, exit } => if enter.num >= 0 {
            Some(enter)
        } else {
            None
        },
        _ => None,
    }
}

/// On one axis, the ray's point at `s` is between `lo` and `hi`.
pub open spec fn axis_inside(o: int, d: int, lo: int, hi: int, s: Ratio) -> bool {
    lo * s.den <= o * s.den + d * s.num <= hi * s.den
}

/// The ray's point at `s` is in the box, faces included.
pub open spec fn inside_at(line: Line, cuboid: Cuboid, s: Ratio) -> bool {
    &&& axis_inside(line.origin.x, line.direction.x, cuboid.lo.x, cuboid.hi.x, s)
    &&& axis_inside(line.origin.y, line.direction.y, cuboid.lo.y, cuboid.hi.y, s)
    &&& axis_inside(line.origin.z, line.direction.z, cuboid.lo.z, cuboid.hi.z, s)
}

/// Twice the signed distance from the box's centre to the ray's point at
/// `t`, along one axis, scaled by `t.den`.
pub open spec fn axis_offset(o: int, d: int, lo: int, hi: int, t: Ratio) -> int {
    2 * (o * t.den + d * t.num) - (lo + hi) * t.den
}

/// The ray's point at `t` is within [`EPSILON`] of one of the two faces
/// that bound the box along one axis.
pub open spec fn axis_on_face(o: int, d: int, lo: int, hi: int, t: Ratio) -> bool {
    let offset = axis_offset(o, d, lo, hi, t);
    let reach = if offset >= 0 {
        offset
    } else {
        -offset
    };
    let gap = reach - (hi - lo) * t.den;
    -2 * EPSILON * t.den < gap < 2 * EPSILON * t.den
}

/// The unit normal along `axis`, pointing up the axis if `positive`.
pub open spec fn unit_normal(axis: Axis, positive: bool) -> Point {
    let c: int = if positive {
        UNIT as int
    } else {
        -UNIT
    };
    match axis {
        Axis::X => Point { x: c, y: 0, z: 0 },
        Axis::Y => Point { x: 0, y: c, z: 0 },
        Axis::Z => Point { x: 0, y: 0, z: c },
    }
}

/// The ray's point at `t` is within [`EPSILON`] of one of the two faces
/// that bound the box along `axis`.
pub open spec fn on_face(line: Line, cuboid: Cuboid, axis: Axis, t: Ratio) -> bool {
    axis_on_face(
        line.origin.get(axis),
        line.direction.get(axis),
        cuboid.lo.get(axis),
        cuboid.hi.get(axis),
        t,
    )
}

/// The axis of the face that the ray's point at `t` is taken to lie on: the
/// first of x, y, z on which the point is on a face, and z if it is on
/// none.
pub open spec fn face_axis(line: Line, cuboid: Cuboid, t: Ratio) -> Axis {
    if on_face(line, cuboid, Axis::X, t) {
        Axis::X
    } else if on_face(line, cuboid, Axis::Y, t) {
        Axis::Y
    } else {
        Axis::Z
    }
}

/// The normal of the face that the ray's point at `t` is taken to lie on.
/// It points away from the box's centre; a point level with the centre
/// gets the normal that points down the axis.
pub open spec fn normal_at(line: Line, cuboid: Cuboid, t: Ratio) -> Point {
    let axis = face_axis(line, cuboid, t);
    unit_normal(
        axis,
        axis_offset(
            line.origin.get(axis),
            line.direction.get(axis),
            cuboid.lo.get(axis),
            cuboid.hi.get(axis),
            t,
        ) > 0,
    )
}

/// The coordinate `c` is within [`EPSILON`] of `lo` or of `hi`.
pub open spec fn near_face(c: int, lo: int, hi: int) -> bool {
    let offset = 2 * c - (lo + hi);
    let reach = if offset >= 0 {
        offset
    } else {
        -offset
    };
    -2 * EPSILON < reach - (hi - lo) < 2 * EPSILON
}

/// On one axis the ray does not move, and stays between the two faces.
pub open spec fn axis_level(o: int, d: int, lo: int, hi: int) -> bool {
    d == 0 && lo <= o <= hi
}

/// The ray runs along `axis` alone, starts outside the box beyond the face
/// that bounds it up the axis (if `positive`) or down the axis, and points
/// at that face.
pub open spec fn aimed_at_face(line: Line, cuboid: Cuboid, axis: Axis, positive: bool) -> bool {
    let level_x = axis_level(line.origin.x, line.direction.x, cuboid.lo.x, cuboid.hi.x);
    let level_y = axis_level(line.origin.y, line.direction.y, cuboid.lo.y, cuboid.hi.y);
    let level_z = axis_level(line.origin.z, line.direction.z, cuboid.lo.z, cuboid.hi.z);
    &&& match axis {
        Axis::X => level_y && level_z,
        Axis::Y => level_x && level_z,
        Axis::Z => level_x && level_y,
    }
    &&& if positive {
        line.direction.get(axis) < 0 && line.origin.get(axis) > cuboid.hi.get(axis)
    } else {
        line.direction.get(axis) > 0 && line.origin.get(axis) < cuboid.lo.get(axis)
    }
}

/// A ray along `axis` passes none of the faces that are tried before those
/// of `axis` closer than [`EPSILON`]: it is not aimed at an edge that the
/// face shares with a face of an earlier axis.
pub open spec fn clear_of_earlier_faces(line: Line, cuboid: Cuboid, axis: Axis) -> bool {
    let near_x = near_face(line.origin.x, cuboid.lo.x, cuboid.hi.x);
    let near_y = near_face(line.origin.y, cuboid.lo.y, cuboid.hi.y);
    match axis {
        Axis::X => true,
        Axis::Y => !near_x,
        Axis::Z => !near_x && !near_y,
    }
}

/// The ray is aimed at a face whose normal the face rule decides for that
/// face: aimed at it from outside, clear of the faces of earlier axes, and,
/// for the face up the axis, at a box with some thickness along the axis.
pub open spec fn aimed_squarely(line: Line, cuboid: Cuboid, axis: Axis, positive: bool) -> bool {
    &&& aimed_at_face(line, cuboid, axis, positive)
    &&& clear_of_earlier_faces(line, cuboid, axis)
    &&& positive ==> cuboid.thick(axis)
}

/// Where a ray meets a box: the parameter of the entry point and the normal
/// of the face entered.
pub struct Contact {
    pub t: Ratio,
    pub normal: Point,
}

/// The contact of a ray with a box, if the ray enters the box at or after
/// its origin.
pub open spec fn contact(line: Line, cuboid: Cuboid) -> Option<Contact> {
    match entry(line, cuboid) {
        Some(t) => Some(Contact { t, normal: normal_at(line, cuboid, t) }),
        None => None,
    }
}

/// A window whose bounds are fractions.
enum Slab {
    Empty,
    Whole,
    Span { enter: Fraction, exit: Fraction },
}

impl Slab {
    spec fn view(self) -> Window {
        match self {
            Slab::Empty => Window::Empty,
            Slab::Whole => Window::Whole,
            Slab::Span { enter, exit } => Window::Span { enter: enter@, exit: exit@ },
        }
    }
}

/// A ratio that the slab method can produce from coordinates inside the
/// world: a difference of two coordinates over a coordinate.
spec fn moderate(r: Ratio) -> bool {
    &&& -2 * WORLD_LIMIT <= r.num <= 2 * WORLD_LIMIT
    &&& 0 < r.den <= WORLD_LIMIT
}

spec fn moderate_window(w: Window) -> bool {
    match w {
        Window::Span { enter, exit } => moderate(enter) && moderate(exit),
        _ => true,
    }
}

spec fn coordinate(c: int) -> bool {
    -WORLD_LIMIT <= c <= WORLD_LIMIT
}

fn ratio_of(num: i64, den: i64) -> (f: Fraction)
    requires
        den > 0,
    ensures
        f@ == (Ratio { num: num as int, den: den as int }),
{
    Fraction::new(num, den).unwrap()
}

fn axis_slab(o: i64, d: i64, lo: i64, hi: i64) -> (s: Slab)
    requires
        coordinate(o as int),
        coordinate(d as int),
        coordinate(lo as int),
        coordinate(hi as int),
    ensures
        s@ == axis_window(o as int, d as int, lo as int, hi as int),
        moderate_window(s@),
{
    if d > 0 {
        Slab::Span { enter: ratio_of(lo - o, d), exit: ratio_of(hi - o, d) }
    } else if d < 0 {
        Slab::Span { enter: ratio_of(o - hi, -d), exit: ratio_of(o - lo, -d) }
    } else if lo <= o && o <= hi {
        Slab::Whole
    } else {
        Slab::Empty
    }
}

fn meet(first: Slab, second: Slab) -> (m: Slab)
    ensures
        m@ == first@.meet(second@),
        moderate_window(first@) && moderate_window(second@) ==> moderate_window(m@),
{
    match (first, second) {
        (Slab::Empty, _) => Slab::Empty,
        (_, Slab::Empty) => Slab::Empty,
        (Slab::Whole, w) => w,
        (w, Slab::Whole) => w,
        (Slab::Span { enter: a, exit: b }, Slab::Span { enter: c, exit: d }) => {
            if d.lt(&a) || b.lt(&c) {
                Slab::Empty
            } else {
                Slab::Span {
                    enter: if a.lt(&c) {
                        c
                    } else {
                        a
                    },
                    exit: if d.lt(&b) {
                        d
                    } else {
                        b
                    },
                }
            }
        },
    }
}

/// Twice the offset of the ray's point at `t` from the box's centre, along
/// one axis, scaled by the denominator of `t`.
fn offset_along(o: i64, d: i64, lo: i64, hi: i64, t: &Fraction) -> (offset: i128)
    requires
        coordinate(o as int),
        coordinate(d as int),
        coordinate(lo as int),
        coordinate(hi as int),
        moderate(t@),
    ensures
        offset == axis_offset(o as int, d as int, lo as int, hi as int, t@),
        -8 * WORLD_LIMIT * WORLD_LIMIT <= offset <= 8 * WORLD_LIMIT * WORLD_LIMIT,
{
    let tn: i128 = t.num() as i128;
    let td: i128 = t.den() as i128;
    proof {
        lemma_product_bounded(o as int, td as int, WORLD_LIMIT as int, WORLD_LIMIT as int);
        lemma_product_bounded(d as int, tn as int, WORLD_LIMIT as int, 2 * WORLD_LIMIT);
        lemma_product_bounded((lo + hi) as int, td as int, 2 * WORLD_LIMIT, WORLD_LIMIT as int);
    }
    2 * ((o as i128) * td + (d as i128) * tn) - ((lo as i128) + (hi as i128)) * td
}

/// Whether the ray's point at `t` is on a face that bounds the box along
/// one axis.
fn on_face_along(o: i64, d: i64, lo: i64, hi: i64, t: &Fraction) -> (b: bool)
    requires
        coordinate(o as int),
        coordinate(d as int),
        coordinate(lo as int),
        coordinate(hi as int),
        moderate(t@),
    ensures
        b == axis_on_face(o as int, d as int, lo as int, hi as int, t@),
{
    let offset: i128 = offset_along(o, d, lo, hi, t);
    let td: i128 = t.den() as i128;
    let reach: i128 = if offset >= 0 {
        offset
    } else {
        -offset
    };
    proof {
        lemma_product_bounded((hi - lo) as int, td as int, 2 * WORLD_LIMIT, WORLD_LIMIT as int);
    }
    let gap: i128 = reach - ((hi as i128) - (lo as i128)) * td;
    let width: i128 = 2 * (EPSILON as i128);
    let slack: i128 = width * td;
    proof {
        assert(width == 2);
        assert(2 * EPSILON * t@.den == slack);
        assert(-2 * EPSILON * t@.den == -slack);
    }
    -slack < gap && gap < slack
}

fn normal_along(axis: Axis, positive: bool) -> (n: Vector3)
    ensures
        n@ == unit_normal(axis, positive),
{
    let c: i64 = if positive {
        UNIT
    } else {
        -UNIT
    };
    match axis {
        Axis::X => Vector3::new(c, 0, 0),
        Axis::Y => Vector3::new(0, c, 0),
        Axis::Z => Vector3::new(0, 0, c),
    }
}

/// The point of a hit and the face it lies on: the ray's parameter there,
/// and the face's normal, one grid unit long.
#[derive(Clone, Copy, Debug)]
pub struct Hit {
    pub t: Fraction,
    pub normal: Vector3,
}

impl View for Hit {
    type V = Contact;

    open spec fn view(&self) -> Contact {
        Contact { t: self.t@, normal: self.normal@ }
    }
}

/// The view of an optional hit.
pub open spec fn hit_view(h: Option<Hit>) -> Option<Contact> {
    match h {
        Some(hit) => Some(hit@),
        None => None,
    }
}

/// Where `ray` enters `bx`, and through which face, if it enters it at or
/// after its origin.
///
/// The hit is at the first point of the ray that is in the box, and that
/// point is on the face whose normal is returned. A ray that starts
/// strictly inside the box, or is nowhere inside it, has no hit. A ray
/// aimed squarely at a face from outside hits that face, after its origin.
pub fn intersect(ray: &Ray, bx: &AxisAlignedBox) -> (r: Option<Hit>)
    ensures
        hit_view(r) == contact(ray@, bx@),
        r matches Some(h) ==> h.t@.valid() && h.t@.num >= 0 && inside_at(ray@, bx@, h.t@),
        r matches Some(h) ==> on_face(ray@, bx@, face_axis(ray@, bx@, h.t@), h.t@),
        forall|s: Ratio|
            #![trigger inside_at(ray@, bx@, s)]
            r matches Some(h) ==> (s.valid() && inside_at(ray@, bx@, s) ==> h.t@.le(s)),
        bx@.strictly_contains(ray@.origin) ==> r is None,
        (forall|s: Ratio| s.valid() && s.num >= 0 ==> !inside_at(ray@, bx@, s)) ==> r is None,
        forall|axis: Axis, positive: bool| #[trigger]
            aimed_squarely(ray@, bx@, axis, positive) ==> (r matches Some(h) && h.t@.num > 0
                && h.normal@ == unit_normal(axis, positive)),
{
    proof {
        use_type_invariant(ray);
        use_type_invariant(bx);
        lemma_entry_is_first_contact(ray@, bx@, Ratio::whole(0));
        lemma_entry_lies_on_its_face(ray@, bx@);
        assert forall|s: Ratio|
            #![trigger inside_at(ray@, bx@, s)]
            s.valid() && inside_at(ray@, bx@, s) && entry(ray@, bx@) is Some implies entry(
            ray@,
            bx@,
        )->0.le(s) by {
            lemma_entry_is_first_contact(ray@, bx@, s);
        }
        if bx@.strictly_contains(ray@.origin) {
            lemma_origin_inside_has_no_entry(ray@, bx@);
        }
        if forall|s: Ratio| s.valid() && s.num >= 0 ==> !inside_at(ray@, bx@, s) {
            lemma_miss_has_no_entry(ray@, bx@);
        }
        assert forall|axis: Axis, positive: bool| #[trigger]
            aimed_squarely(ray@, bx@, axis, positive) implies (contact(ray@, bx@) matches Some(c)
            && c.t.num > 0 && c.normal == unit_normal(axis, positive)) by {
            lemma_orthogonal_hit(ray@, bx@, axis, positive);
        }
    }
    let o = ray.origin();
    let d = ray.direction();
    let lo = bx.min();
    let hi = bx.max();
    let x = axis_slab(o.x, d.x, lo.x, hi.x);
    let y = axis_slab(o.y, d.y, lo.y, hi.y);
    let z = axis_slab(o.z, d.z, lo.z, hi.z);
    match meet(meet(x, y), z) {
        Slab::Span { enter, exit } => {
            if enter.is_negative() {
                None
            } else {
                let normal = if on_face_along(o.x, d.x, lo.x, hi.x, &enter) {
                    normal_along(Axis::X, offset_along(o.x, d.x, lo.x, hi.x, &enter) > 0)
                } else if on_face_along(o.y, d.y, lo.y, hi.y, &enter) {
                    normal_along(Axis::Y, offset_along(o.y, d.y, lo.y, hi.y, &enter) > 0)
                } else {
                    normal_along(Axis::Z, offset_along(o.z, d.z, lo.z, hi.z, &enter) > 0)
                };
                Some(Hit { t: enter, normal })
            }
        },
        _ => None,
    }
}

} // verus!
