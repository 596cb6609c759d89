use vstd::prelude::*;

verus! {

/// A quarter circle of radius `radius` about `(cx, cy)`, swept clockwise on
/// screen (y grows downward) from angle `quarter` * 90 degrees to the next
/// quarter: 0 runs from east to south, 1 from south to west, 2 from west to
/// north, 3 from north to east.
#[derive(PartialEq, Eq, Structural, Clone, Copy, Debug)]
pub struct QuarterArc {
    pub cx: i64,
    pub cy: i64,
    pub radius: i64,
    pub quarter: u8,
}

/// The box `(left, top, right, bottom)` that a quarter arc spans.
pub open spec fn arc_box(a: QuarterArc) -> (int, int, int, int) {
    let (cx, cy, r) = (a.cx as int, a.cy as int, a.radius as int);
    if a.quarter == 0 {
        (cx, cy, cx + r, cy + r)
    } else if a.quarter == 1 {
        (cx - r, cy, cx, cy + r)
    } else if a.quarter == 2 {
        (cx - r, cy - r, cx, cy)
    } else {
        (cx, cy - r, cx + r, cy)
    }
}

/// Where a quarter arc starts and ends.
pub open spec fn arc_start(a: QuarterArc) -> (int, int) {
    let (cx, cy, r) = (a.cx as int, a.cy as int, a.radius as int);
    if a.quarter == 0 {
        (cx + r, cy)
    } else if a.quarter == 1 {
        (cx, cy + r)
    } else if a.quarter == 2 {
        (cx - r, cy)
    } else {
        (cx, cy - r)
    }
}

pub open spec fn arc_end(a: QuarterArc) -> (int, int) {
    let (cx, cy, r) = (a.cx as int, a.cy as int, a.radius as int);
    if a.quarter == 0 {
        (cx, cy + r)
    } else if a.quarter == 1 {
        (cx - r, cy)
    } else if a.quarter == 2 {
        (cx, cy - r)
    } else {
        (cx + r, cy)
    }
}

/// The corner radius for a bar of height `height`: a fifth of it.
pub fn corner_radius(height: u16) -> (r: u16)
    ensures
        r as int == height as int / 5,
{
    height / 5
}

/// A quarter arc with the given centre and radius.
pub open spec fn arc(cx: int, cy: int, r: int, quarter: u8) -> QuarterArc {
    QuarterArc { cx: cx as i64, cy: cy as i64, radius: r as i64, quarter }
}

/// The four corner arcs of a rounded rectangle, clockwise from top right.
pub open spec fn rounded_rectangle_arcs(x: i32, y: i32, width: u16, height: u16, r: u16) -> Seq<
    QuarterArc,
> {
    seq![
        arc(x + width - r, y + r, r as int, 3),
        arc(x + width - r, y + height - r, r as int, 0),
        arc(x + r, y + height - r, r as int, 1),
        arc(x + r, y + r, r as int, 2),
    ]
}

/// The closed path of a `width` by `height` rectangle at `(x, y)` whose
/// corners are rounded with radius `r`: four quarter arcs, top right, bottom
/// right, bottom left, top left, joined by straight edges.
pub fn rounded_rectangle(x: i32, y: i32, width: u16, height: u16, r: u16) -> (path: Vec<QuarterArc>)
    ensures
        path@.len() == 4,
        path@ == rounded_rectangle_arcs(x, y, width, height, r),
{
    let (x, y, w, h, r) = (x as i64, y as i64, width as i64, height as i64, r as i64);
    let mut path: Vec<QuarterArc> = Vec::new();
    path.push(QuarterArc { cx: x + w - r, cy: y + r, radius: r, quarter: 3 });
    path.push(QuarterArc { cx: x + w - r, cy: y + h - r, radius: r, quarter: 0 });
    path.push(QuarterArc { cx: x + r, cy: y + h - r, radius: r, quarter: 1 });
    path.push(QuarterArc { cx: x + r, cy: y + r, radius: r, quarter: 2 });
    assert(path@ =~= rounded_rectangle_arcs(x as i32, y as i32, width, height, r as u16));
    path
}

/// The box that the four arcs of a path span together.
pub open spec fn path_box(p: Seq<QuarterArc>) -> (int, int, int, int) {
    let (b0, b1, b2, b3) = (arc_box(p[0]), arc_box(p[1]), arc_box(p[2]), arc_box(p[3]));
    (
        min4(b0.0, b1.0, b2.0, b3.0),
        min4(b0.1, b1.1, b2.1, b3.1),
        max4(b0.2, b1.2, b2.2, b3.2),
        max4(b0.3, b1.3, b2.3, b3.3),
    )
}

pub open spec fn min4(a: int, b: int, c: int, d: int) -> int {
    let ab = if a <= b { a } else { b };
    let cd = if c <= d { c } else { d };
    if ab <= cd { ab } else { cd }
}

pub open spec fn max4(a: int, b: int, c: int, d: int) -> int {
    let ab = if a >= b { a } else { b };
    let cd = if c >= d { c } else { d };
    if ab >= cd { ab } else { cd }
}

/// The point `(px, py)` lies farther from the arc's centre than its radius.
pub open spec fn outside_arc(a: QuarterArc, px: int, py: int) -> bool {
    (px - a.cx) * (px - a.cx) + (py - a.cy) * (py - a.cy) > a.radius * a.radius
}

/// A rounded rectangle whose radius fits in it (twice the radius at most its
/// width and its height) spans exactly its rectangle; each arc sits in its own
/// corner, meeting the two edges at distance `r` from the corner, and each
/// corner point itself lies outside the region when `r` is positive, being
/// farther than `r` from its arc's centre.
pub proof fn lemma_rounded_rectangle_shape(
    x: i32,
    y: i32,
    width: u16,
    height: u16,
    r: u16,
    path: Seq<QuarterArc>,
)
    requires
        2 * r <= width,
        2 * r <= height,
        path == rounded_rectangle_arcs(x, y, width, height, r),
    ensures
        path_box(path) == (x as int, y as int, x + width, y + height),
        arc_start(path[0]) == (x + width - r, y as int),
        arc_end(path[0]) == (x + width, y + r),
        arc_start(path[1]) == (x + width, y + height - r),
        arc_end(path[1]) == (x + width - r, y + height),
        arc_start(path[2]) == (x + r, y + height),
        arc_end(path[2]) == (x as int, y + height - r),
        arc_start(path[3]) == (x as int, y + r),
        arc_end(path[3]) == (x + r, y as int),
        r > 0 ==> outside_arc(path[0], x + width, y as int),
        r > 0 ==> outside_arc(path[1], x + width, y + height),
        r > 0 ==> outside_arc(path[2], x as int, y + height),
        r > 0 ==> outside_arc(path[3], x as int, y as int),
{
    let ri = r as int;
    assert(ri > 0 ==> ri * ri + ri * ri > ri * ri) by (nonlinear_arith);
    assert((-ri) * (-ri) == ri * ri) by (nonlinear_arith);
}

} // verus!
