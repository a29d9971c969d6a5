//! What the slab method means: its window is exactly the set of parameters
//! at which the ray is inside the box.

use vstd::prelude::*;
use crate::fraction::{Ratio, lemma_ratio_order_transitive};
use crate::geometry::{Cuboid, Line};
use crate::intersect::{
    aimed_squarely, axis_inside, axis_offset, axis_on_face, axis_window, contact, entry,
    face_axis, inside_at, near_face, on_face, unit_normal, window, Window,
};
use crate::vector::{Axis, EPSILON};

verus! {

/// On one axis, the window's parameters are those at which the ray is
/// between the two faces.
pub proof fn lemma_axis_window_holds(o: int, d: int, lo: int, hi: int, s: Ratio)
    requires
        lo <= hi,
        s.valid(),
    ensures
        axis_window(o, d, lo, hi).valid(),
        axis_window(o, d, lo, hi).holds(s) == axis_inside(o, d, lo, hi, s),
{
    let (p, q) = (s.num, s.den);
    assert((lo - o) * q == lo * q - o * q) by (nonlinear_arith);
    assert((hi - o) * q == hi * q - o * q) by (nonlinear_arith);
    assert((o - lo) * q == o * q - lo * q) by (nonlinear_arith);
    assert((o - hi) * q == o * q - hi * q) by (nonlinear_arith);
    assert(p * d == d * p) by (nonlinear_arith);
    assert(p * (-d) == -(d * p)) by (nonlinear_arith);
    if d > 0 {
        assert((lo - o) * d <= (hi - o) * d) by (nonlinear_arith)
            requires
                lo <= hi,
                d > 0,
        ;
    } else if d < 0 {
        assert((o - hi) * (-d) <= (o - lo) * (-d)) by (nonlinear_arith)
            requires
                lo <= hi,
                d < 0,
        ;
    } else {
        assert(d * p == 0) by (nonlinear_arith)
            requires
                d == 0,
        ;
        assert((lo * q <= o * q) == (lo <= o)) by (nonlinear_arith)
            requires
                q > 0,
        ;
        assert((o * q <= hi * q) == (o <= hi)) by (nonlinear_arith)
            requires
                q > 0,
        ;
    }
}

/// A parameter belongs to the meet of two windows exactly if it belongs to
/// both.
pub proof fn lemma_meet_holds(first: Window, second: Window, s: Ratio)
    requires
        first.valid(),
        second.valid(),
        s.valid(),
    ensures
        first.meet(second).valid(),
        first.meet(second).holds(s) == (first.holds(s) && second.holds(s)),
{
    match (first, second) {
        (Window::Span { enter: a, exit: b }, Window::Span { enter: c, exit: d }) => {
            lemma_ratio_order_transitive(a, s, d);
            lemma_ratio_order_transitive(c, s, b);
            lemma_ratio_order_transitive(a, c, s);
            lemma_ratio_order_transitive(c, a, s);
            lemma_ratio_order_transitive(s, d, b);
            lemma_ratio_order_transitive(s, b, d);
        },
        _ => {},
    }
}

/// The window of a ray and a box holds exactly the parameters at which the
/// ray is inside the box.
pub proof fn lemma_window_holds(line: Line, cuboid: Cuboid, s: Ratio)
    requires
        cuboid.valid(),
        s.valid(),
    ensures
        window(line, cuboid).valid(),
        window(line, cuboid).holds(s) == inside_at(line, cuboid, s),
{
    let x = axis_window(line.origin.x, line.direction.x, cuboid.lo.x, cuboid.hi.x);
    let y = axis_window(line.origin.y, line.direction.y, cuboid.lo.y, cuboid.hi.y);
    let z = axis_window(line.origin.z, line.direction.z, cuboid.lo.z, cuboid.hi.z);
    lemma_axis_window_holds(line.origin.x, line.direction.x, cuboid.lo.x, cuboid.hi.x, s);
    lemma_axis_window_holds(line.origin.y, line.direction.y, cuboid.lo.y, cuboid.hi.y, s);
    lemma_axis_window_holds(line.origin.z, line.direction.z, cuboid.lo.z, cuboid.hi.z, s);
    lemma_meet_holds(x, y, s);
    lemma_meet_holds(x.meet(y), z, s);
}

/// The entry parameter is the first at which the ray is inside the box.
/// Where there is none, the line misses the box or is inside it somewhere
/// behind the ray's origin.
pub proof fn lemma_entry_is_first_contact(line: Line, cuboid: Cuboid, s: Ratio)
    requires
        line.valid(),
        cuboid.valid(),
        s.valid(),
    ensures
        match entry(line, cuboid) {
            Some(t) => {
                &&& t.valid()
                &&& t.num >= 0
                &&& inside_at(line, cuboid, t)
                &&& inside_at(line, cuboid, s) ==> t.le(s)
            },
            None => inside_at(line, cuboid, s) ==> (window(line, cuboid) matches Window::Span {
                enter,
                exit,
            } && enter.valid() && enter.num < 0 && inside_at(line, cuboid, enter) && enter.le(
                s,
            )),
        },
{
    lemma_window_holds(line, cuboid, s);
    match window(line, cuboid) {
        Window::Span { enter, exit } => {
            lemma_window_holds(line, cuboid, enter);
        },
        _ => {},
    }
}

/// A ray that is nowhere inside the box, from its origin on, has no entry.
pub proof fn lemma_miss_has_no_entry(line: Line, cuboid: Cuboid)
    requires
        line.valid(),
        cuboid.valid(),
        forall|s: Ratio| s.valid() && s.num >= 0 ==> !inside_at(line, cuboid, s),
    ensures
        entry(line, cuboid) is None,
{
    lemma_entry_is_first_contact(line, cuboid, Ratio::whole(0));
}

/// A ray that starts strictly inside the box has no entry: it would have
/// entered before its origin.
pub proof fn lemma_origin_inside_has_no_entry(line: Line, cuboid: Cuboid)
    requires
        cuboid.strictly_contains(line.origin),
    ensures
        entry(line, cuboid) is None,
{
    let x = axis_window(line.origin.x, line.direction.x, cuboid.lo.x, cuboid.hi.x);
    let y = axis_window(line.origin.y, line.direction.y, cuboid.lo.y, cuboid.hi.y);
    let z = axis_window(line.origin.z, line.direction.z, cuboid.lo.z, cuboid.hi.z);
    assert(x.starts_behind() && y.starts_behind() && z.starts_behind());
    assert(x.meet(y).starts_behind());
    assert(x.meet(y).meet(z).starts_behind());
}

/// Where the ray does not move along an axis, its point is on a face of
/// that axis at every parameter or at none.
pub proof fn lemma_level_axis_on_face(o: int, lo: int, hi: int, t: Ratio)
    requires
        t.valid(),
    ensures
        axis_on_face(o, 0, lo, hi, t) == near_face(o, lo, hi),
{
    let q = t.den;
    let offset = 2 * o - (lo + hi);
    assert(0 * t.num == 0) by (nonlinear_arith);
    assert(axis_offset(o, 0, lo, hi, t) == offset * q) by (nonlinear_arith)
        requires
            axis_offset(o, 0, lo, hi, t) == 2 * (o * q + 0) - (lo + hi) * q,
            offset == 2 * o - (lo + hi),
    ;
    let reach = if offset >= 0 {
        offset
    } else {
        -offset
    };
    let scaled = if offset * q >= 0 {
        offset * q
    } else {
        -(offset * q)
    };
    assert(scaled == reach * q) by (nonlinear_arith)
        requires
            q > 0,
            reach == if offset >= 0 {
                offset
            } else {
                -offset
            },
            scaled == if offset * q >= 0 {
                offset * q
            } else {
                -(offset * q)
            },
    ;
    let gap = reach - (hi - lo);
    assert(scaled - (hi - lo) * q == gap * q) by (nonlinear_arith)
        requires
            scaled == reach * q,
            gap == reach - (hi - lo),
    ;
    assert(2 * EPSILON * q == 2 * q && -2 * EPSILON * q == -2 * q);
    assert((gap * q < 2 * q) == (gap < 2)) by (nonlinear_arith)
        requires
            q > 0,
    ;
    assert((-2 * q < gap * q) == (-2 < gap)) by (nonlinear_arith)
        requires
            q > 0,
    ;
}

/// Where the ray enters through a face of an axis, its point there is on
/// that face, on the side it came from.
pub proof fn lemma_entry_axis_on_face(o: int, d: int, lo: int, hi: int)
    requires
        lo <= hi,
        d != 0,
    ensures
        axis_window(o, d, lo, hi) matches Window::Span { enter, exit } && axis_on_face(
            o,
            d,
            lo,
            hi,
            enter,
        ) && axis_offset(o, d, lo, hi, enter) == (if d > 0 {
            -(hi - lo) * d
        } else {
            (hi - lo) * (-d)
        }),
{
    if d > 0 {
        let t = Ratio { num: lo - o, den: d };
        assert(axis_offset(o, d, lo, hi, t) == -(hi - lo) * d) by (nonlinear_arith)
            requires
                axis_offset(o, d, lo, hi, t) == 2 * (o * d + d * (lo - o)) - (lo + hi) * d,
        ;
        assert((hi - lo) * d >= 0) by (nonlinear_arith)
            requires
                lo <= hi,
                d > 0,
        ;
        assert(-(hi - lo) * d == -((hi - lo) * d)) by (nonlinear_arith);
        assert(2 * EPSILON * d == 2 * d && -2 * EPSILON * d == -2 * d);
    } else {
        let t = Ratio { num: o - hi, den: -d };
        assert(axis_offset(o, d, lo, hi, t) == (hi - lo) * (-d)) by (nonlinear_arith)
            requires
                axis_offset(o, d, lo, hi, t) == 2 * (o * (-d) + d * (o - hi)) - (lo + hi) * (-d),
        ;
        assert((hi - lo) * (-d) >= 0) by (nonlinear_arith)
            requires
                lo <= hi,
                d < 0,
        ;
        assert(2 * EPSILON * (-d) == 2 * (-d) && -2 * EPSILON * (-d) == -2 * (-d));
    }
}

/// The entry point is on the face that the face rule picks for it, also
/// where the rule falls through to the z axis: the ray enters through a
/// face of some axis, and is on that face there.
pub proof fn lemma_entry_lies_on_its_face(line: Line, cuboid: Cuboid)
    requires
        cuboid.valid(),
    ensures
        entry(line, cuboid) matches Some(t) ==> on_face(
            line,
            cuboid,
            face_axis(line, cuboid, t),
            t,
        ),
{
    if line.direction.x != 0 {
        lemma_entry_axis_on_face(line.origin.x, line.direction.x, cuboid.lo.x, cuboid.hi.x);
    }
    if line.direction.y != 0 {
        lemma_entry_axis_on_face(line.origin.y, line.direction.y, cuboid.lo.y, cuboid.hi.y);
    }
    if line.direction.z != 0 {
        lemma_entry_axis_on_face(line.origin.z, line.direction.z, cuboid.lo.z, cuboid.hi.z);
    }
}

/// A ray aimed squarely at a face from outside meets the box there: after
/// its origin, and with the face's outward normal.
pub proof fn lemma_orthogonal_hit(line: Line, cuboid: Cuboid, axis: Axis, positive: bool)
    requires
        cuboid.valid(),
        aimed_squarely(line, cuboid, axis, positive),
    ensures
        contact(line, cuboid) matches Some(c) && c.t.valid() && c.t.num > 0 && c.normal
            == unit_normal(axis, positive),
{
    let o = line.origin.get(axis);
    let d = line.direction.get(axis);
    let lo = cuboid.lo.get(axis);
    let hi = cuboid.hi.get(axis);
    lemma_entry_axis_on_face(o, d, lo, hi);
    let t = entry(line, cuboid)->0;
    assert(axis_window(o, d, lo, hi) matches Window::Span { enter, exit } && enter == t);
    lemma_level_axis_on_face(line.origin.x, cuboid.lo.x, cuboid.hi.x, t);
    lemma_level_axis_on_face(line.origin.y, cuboid.lo.y, cuboid.hi.y, t);
    assert(face_axis(line, cuboid, t) == axis);
    if positive {
        assert((hi - lo) * (-d) > 0) by (nonlinear_arith)
            requires
                lo < hi,
                d < 0,
        ;
    } else {
        assert((hi - lo) * d >= 0) by (nonlinear_arith)
            requires
                lo <= hi,
                d > 0,
        ;
        assert(-(hi - lo) * d == -((hi - lo) * d)) by (nonlinear_arith);
    }
}

} // verus!
