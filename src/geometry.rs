use vstd::prelude::*;

verus! {

/// Fixed-point one: every quantity counts thousandths.
pub const SCALE: i64 = 1000;

/// Largest magnitude of a size, or of a coordinate of scenery.
pub const LIMIT: i64 = 0x1_0000_0000;

pub open spec fn within(v: int, bound: int) -> bool {
    -bound <= v <= bound
}

/// `v` saturated to `[-bound, bound]`.
pub open spec fn clamp(v: int, bound: int) -> int {
    if v > bound {
        bound
    } else if v < -bound {
        -bound
    } else {
        v
    }
}

/// Bound on the intermediate products of the fixed-point arithmetic.
pub const WIDE: i128 = 0x1_0000_0000_0000_0000_0000_0000_0000;

/// `|a * b| <= ba * bb` when `|a| <= ba` and `|b| <= bb`.
pub proof fn lemma_mul_within(a: int, b: int, ba: int, bb: int)
    requires
        within(a, ba),
        within(b, bb),
    ensures
        within(a * b, ba * bb),
{
    assert(within(a * b, ba * bb)) by (nonlinear_arith)
        requires
            within(a, ba),
            within(b, bb),
    ;
}

/// `|p / s| <= k` when `|p| <= k * s`.
pub proof fn lemma_div_within(p: int, k: int, s: int)
    requires
        0 < s,
        0 <= k,
        within(p, k * s),
    ensures
        within(p / s, k),
{
    assert((-k) * s == -(k * s)) by (nonlinear_arith);
    assert(k * s == s * k) by (nonlinear_arith);
    assert((-k) * s == s * (-k)) by (nonlinear_arith);
    vstd::arithmetic::div_mod::lemma_div_is_ordered((-k) * s, p, s);
    vstd::arithmetic::div_mod::lemma_div_is_ordered(p, k * s, s);
    vstd::arithmetic::div_mod::lemma_div_multiples_vanish(k, s);
    vstd::arithmetic::div_mod::lemma_div_multiples_vanish(-k, s);
}

/// Floor division by a positive divisor.
pub fn floor_div(a: i128, b: i128) -> (q: i128)
    requires
        0 < b,
        within(a as int, WIDE as int),
    ensures
        q as int == a as int / b as int,
{
    let d = b as u128;
    if a >= 0 {
        (a as u128 / d) as i128
    } else {
        let n = (-a) as u128;
        let t = (n + d - 1) / d;
        proof {
            let m = n as int + d as int - 1;
            let r2 = m % (d as int);
            vstd::arithmetic::div_mod::lemma_fundamental_div_mod(m, d as int);
            assert(a as int == -(t as int) * (b as int) + (b as int - 1 - r2)) by (nonlinear_arith)
                requires
                    m == (d as int) * (t as int) + r2,
                    m == n as int + d as int - 1,
                    a as int == -(n as int),
                    b as int == d as int,
            ;
            vstd::arithmetic::div_mod::lemma_fundamental_div_mod_converse(
                a as int,
                b as int,
                -(t as int),
                b as int - 1 - r2,
            );
            assert(m <= n as int * d as int) by (nonlinear_arith)
                requires
                    m == n as int + d as int - 1,
                    n >= 1,
                    d >= 1,
            ;
            vstd::arithmetic::div_mod::lemma_div_is_ordered(m, n as int * d as int, d as int);
            vstd::arithmetic::div_mod::lemma_div_multiples_vanish(n as int, d as int);
        }
        -(t as i128)
    }
}

/// `v` saturated to `[-bound, bound]`.
pub fn clamp_to(v: i128, bound: i64) -> (r: i64)
    requires
        bound >= 0,
    ensures
        r == clamp(v as int, bound as int),
{
    if v > bound as i128 {
        bound
    } else if v < -(bound as i128) {
        -bound
    } else {
        v as i64
    }
}

/// A point or a displacement in the plane.
#[derive(Clone, Copy, Debug, PartialEq, Eq, Structural)]
pub struct Vector2 {
    pub x: i64,
    pub y: i64,
}

impl Vector2 {
    pub fn new(x: i64, y: i64) -> (r: Vector2)
        ensures
            r.x == x,
            r.y == y,
    {
        Vector2 { x, y }
    }

    /// Makes `self` equal to `other`.
    pub fn set(&mut self, other: &Vector2)
        ensures
            *final(self) == *other,
    {
        self.x = other.x;
        self.y = other.y;
    }

    /// The sum of two vectors.
    pub fn add(vector1: &Vector2, vector2: &Vector2) -> (r: Vector2)
        requires
            within(vector1.x + vector2.x, i64::MAX as int),
            within(vector1.y + vector2.y, i64::MAX as int),
        ensures
            r.x == vector1.x + vector2.x,
            r.y == vector1.y + vector2.y,
    {
        Vector2::new(vector1.x + vector2.x, vector1.y + vector2.y)
    }

    /// The vector scaled by the fixed-point ratio `scalar / SCALE`, rounded down.
    pub fn multiply(vector: &Vector2, scalar: i64) -> (r: Vector2)
        requires
            within(vector.x as int, 8 * LIMIT),
            within(vector.y as int, 8 * LIMIT),
            within(scalar as int, 8 * LIMIT),
        ensures
            r.x == vector.x * scalar / SCALE as int,
            r.y == vector.y * scalar / SCALE as int,
    {
        proof {
            lemma_mul_within(vector.x as int, scalar as int, 8 * LIMIT, 8 * LIMIT);
            lemma_mul_within(vector.y as int, scalar as int, 8 * LIMIT, 8 * LIMIT);
            assert((8 * LIMIT) * (8 * LIMIT) == 0x40_0000_0000_0000_0000int) by (nonlinear_arith);
            assert(0x2000_0000_0000_0000int * SCALE == 0x7d_0000_0000_0000_0000int);
            lemma_div_within(vector.x * scalar, 0x2000_0000_0000_0000, SCALE as int);
            lemma_div_within(vector.y * scalar, 0x2000_0000_0000_0000, SCALE as int);
        }
        let px = vector.x as i128 * scalar as i128;
        let py = vector.y as i128 * scalar as i128;
        let x = floor_div(px, SCALE as i128);
        let y = floor_div(py, SCALE as i128);
        Vector2::new(x as i64, y as i64)
    }

    /// The point at fraction `t / span` of the way from `vector1` to `vector2`, rounded down.
    pub fn lerp(vector1: &Vector2, vector2: &Vector2, t: i64, span: i64) -> (r: Vector2)
        requires
            0 <= t <= span,
            0 < span,
            within(vector1.x as int, LIMIT as int),
            within(vector1.y as int, LIMIT as int),
            within(vector2.x as int, LIMIT as int),
            within(vector2.y as int, LIMIT as int),
        ensures
            r.x == lerp_spec(vector1.x as int, vector2.x as int, t as int, span as int),
            r.y == lerp_spec(vector1.y as int, vector2.y as int, t as int, span as int),
            within(r.x as int, LIMIT as int),
            within(r.y as int, LIMIT as int),
    {
        let x = lerp_axis(vector1.x, vector2.x, t, span);
        let y = lerp_axis(vector1.y, vector2.y, t, span);
        Vector2::new(x, y)
    }

    /// Adds `self` to `other`.
    pub fn add_to(&self, other: &mut Vector2)
        requires
            within(self.x + old(other).x, i64::MAX as int),
            within(self.y + old(other).y, i64::MAX as int),
        ensures
            final(other).x == old(other).x + self.x,
            final(other).y == old(other).y + self.y,
    {
        let sum = Vector2::add(self, other);
        other.set(&sum);
    }
}

/// The coordinate at fraction `t / span` of the way from `a` to `b`, rounded down.
pub open spec fn lerp_spec(a: int, b: int, t: int, span: int) -> int {
    a + (b - a) * t / span
}

fn lerp_axis(a: i64, b: i64, t: i64, span: i64) -> (r: i64)
    requires
        0 <= t <= span,
        0 < span,
        within(a as int, LIMIT as int),
        within(b as int, LIMIT as int),
    ensures
        r == lerp_spec(a as int, b as int, t as int, span as int),
        within(r as int, LIMIT as int),
{
    let d = b as i128 - a as i128;
    proof {
        lemma_mul_within(d as int, t as int, 2 * LIMIT, i64::MAX as int);
    }
    let p = d * t as i128;
    let q = floor_div(p, span as i128);
    proof {
        let di = d as int;
        let ti = t as int;
        let si = span as int;
        // the result lies between the two end points
        assert(di >= 0 ==> 0 <= di * ti / si <= di) by (nonlinear_arith)
            requires
                0 <= ti <= si,
                0 < si,
        {
            if di >= 0 {
                assert(di * ti <= di * si);
                assert(0 <= di * ti);
                vstd::arithmetic::div_mod::lemma_div_is_ordered(di * ti, di * si, si);
                vstd::arithmetic::div_mod::lemma_div_multiples_vanish(di, si);
                vstd::arithmetic::div_mod::lemma_div_pos_is_pos(di * ti, si);
            }
        }
        assert(di < 0 ==> di <= di * ti / si <= 0) by (nonlinear_arith)
            requires
                0 <= ti <= si,
                0 < si,
        {
            if di < 0 {
                assert(di * si <= di * ti);
                assert(di * ti <= 0);
                vstd::arithmetic::div_mod::lemma_div_is_ordered(di * si, di * ti, si);
                vstd::arithmetic::div_mod::lemma_div_is_ordered(di * ti, 0, si);
                vstd::arithmetic::div_mod::lemma_div_multiples_vanish(di, si);
            }
        }
    }
    (a as i128 + q) as i64
}

/// The edges of an axis-aligned rectangle.
#[derive(Clone, Copy, Debug, PartialEq, Eq, Structural)]
pub struct Bounds {
    pub top: i64,
    pub left: i64,
    pub bottom: i64,
    pub right: i64,
}

impl Bounds {
    /// The point lies in the rectangle, edges included.
    pub open spec fn holds(self, p: Vector2) -> bool {
        self.left <= p.x <= self.right && self.bottom <= p.y <= self.top
    }

    /// Determines whether `point` lies within the bounds, edges included.
    pub fn contains_point(&self, point: &Vector2) -> (r: bool)
        ensures
            r == self.holds(*point),
    {
        !(point.x < self.left || self.right < point.x || point.y < self.bottom || self.top
            < point.y)
    }
}

/// The lower half of an extent: the distance from the center to the left or bottom edge.
pub open spec fn half_low(extent: int) -> int {
    extent / 2
}

/// The upper half of an extent: the distance from the center to the right or top edge.
pub open spec fn half_high(extent: int) -> int {
    extent - extent / 2
}

/// A center and extents that describe a rectangle whose edges fit the fixed-point range.
pub open spec fn shape_wf(center: Vector2, width: i64, height: i64) -> bool {
    &&& 0 < width <= LIMIT
    &&& 0 < height <= LIMIT
    &&& within(center.x as int, 4 * LIMIT)
    &&& within(center.y as int, 4 * LIMIT)
}

/// The edges of the rectangle with the given center and extents.
pub open spec fn bounds_of(center: Vector2, width: i64, height: i64) -> Bounds {
    Bounds {
        left: (center.x - half_low(width as int)) as i64,
        right: (center.x + half_high(width as int)) as i64,
        bottom: (center.y - half_low(height as int)) as i64,
        top: (center.y + half_high(height as int)) as i64,
    }
}

/// Two open intervals `(a_lo, a_hi)` and `(b_lo, b_hi)` share a point: touching ends do not count.
pub open spec fn overlap(a_lo: int, a_hi: int, b_lo: int, b_hi: int) -> bool {
    a_lo < b_hi && b_lo < a_hi
}

/// The horizontal extents of two rectangles overlap.
pub open spec fn overlap_x(a: Bounds, b: Bounds) -> bool {
    overlap(a.left as int, a.right as int, b.left as int, b.right as int)
}

/// The vertical extents of two rectangles overlap.
pub open spec fn overlap_y(a: Bounds, b: Bounds) -> bool {
    overlap(a.bottom as int, a.top as int, b.bottom as int, b.top as int)
}

/// Two rectangles intersect in an area.
pub open spec fn intersect(a: Bounds, b: Bounds) -> bool {
    overlap_x(a, b) && overlap_y(a, b)
}

/// The extent `(a_lo, a_hi)` lies within `(b_lo, b_hi)`.
pub open spec fn inside(a_lo: int, a_hi: int, b_lo: int, b_hi: int) -> bool {
    b_lo <= a_lo && a_hi <= b_hi
}

/// Bounds of a proper rectangle: each edge lies beyond the opposite one.
pub open spec fn proper(b: Bounds) -> bool {
    b.left < b.right && b.bottom < b.top
}

/// Intersection of rectangles is symmetric, and a rectangle that lies within
/// another one intersects it on both axes.
pub proof fn lemma_intersection_laws(a: Bounds, b: Bounds)
    requires
        proper(a),
        proper(b),
    ensures
        intersect(a, b) == intersect(b, a),
        overlap_x(a, b) == overlap_x(b, a),
        overlap_y(a, b) == overlap_y(b, a),
        inside(a.left as int, a.right as int, b.left as int, b.right as int) ==> overlap_x(a, b)
            && overlap_x(b, a),
        inside(a.bottom as int, a.top as int, b.bottom as int, b.top as int) ==> overlap_y(a, b)
            && overlap_y(b, a),
{
}

/// The bounds of a well-formed shape are proper and fit the fixed-point range.
pub proof fn lemma_bounds_of(center: Vector2, width: i64, height: i64)
    requires
        shape_wf(center, width, height),
    ensures
        proper(bounds_of(center, width, height)),
        bounds_of(center, width, height).right - bounds_of(center, width, height).left == width,
        bounds_of(center, width, height).top - bounds_of(center, width, height).bottom == height,
        within(bounds_of(center, width, height).left as int, 5 * LIMIT),
        within(bounds_of(center, width, height).right as int, 5 * LIMIT),
        within(bounds_of(center, width, height).bottom as int, 5 * LIMIT),
        within(bounds_of(center, width, height).top as int, 5 * LIMIT),
{
}

/// A rectangle given by its center and extents.
pub trait RectObject {
    spec fn center_spec(&self) -> Vector2;

    spec fn width_spec(&self) -> i64;

    spec fn height_spec(&self) -> i64;

    /// Returns the center of the object.
    fn center(&self) -> (r: Vector2)
        ensures
            r == self.center_spec(),
    ;

    /// Returns the width of the object.
    fn width(&self) -> (r: i64)
        ensures
            r == self.width_spec(),
    ;

    /// Returns the height of the object.
    fn height(&self) -> (r: i64)
        ensures
            r == self.height_spec(),
    ;

    /// Returns the four corners clockwise, starting at the top left.
    fn points(&self) -> (r: Vec<Vector2>)
        requires
            shape_wf(self.center_spec(), self.width_spec(), self.height_spec()),
        ensures
            r@ == ({
                let b = bounds_of(self.center_spec(), self.width_spec(), self.height_spec());
                seq![
                    Vector2 { x: b.left, y: b.top },
                    Vector2 { x: b.right, y: b.top },
                    Vector2 { x: b.right, y: b.bottom },
                    Vector2 { x: b.left, y: b.bottom },
                ]
            }),
    {
        let b = self.bounds();
        let mut points: Vec<Vector2> = Vec::new();
        points.push(Vector2::new(b.left, b.top));
        points.push(Vector2::new(b.right, b.top));
        points.push(Vector2::new(b.right, b.bottom));
        points.push(Vector2::new(b.left, b.bottom));
        points
    }

    /// Returns the left, right, bottom and top edges.
    fn bounds(&self) -> (r: Bounds)
        requires
            shape_wf(self.center_spec(), self.width_spec(), self.height_spec()),
        ensures
            r == bounds_of(self.center_spec(), self.width_spec(), self.height_spec()),
    {
        let center = self.center();
        let width = self.width();
        let height = self.height();
        Bounds {
            left: center.x - width / 2,
            right: center.x + (width - width / 2),
            bottom: center.y - height / 2,
            top: center.y + (height - height / 2),
        }
    }

    /// Determines whether `point` lies within the object, edges included.
    fn contains_point(&self, point: &Vector2) -> (r: bool)
        requires
            shape_wf(self.center_spec(), self.width_spec(), self.height_spec()),
        ensures
            r == bounds_of(self.center_spec(), self.width_spec(), self.height_spec()).holds(
                *point,
            ),
    {
        self.bounds().contains_point(point)
    }

    /// The horizontal extents of `self` and the rectangle `other` overlap.
    fn collides_with_x(&self, other: &Bounds) -> (r: bool)
        requires
            shape_wf(self.center_spec(), self.width_spec(), self.height_spec()),
            proper(*other),
        ensures
            r == overlap_x(
                bounds_of(self.center_spec(), self.width_spec(), self.height_spec()),
                *other,
            ),
    {
        let a = self.bounds();
        let b = other;
        a.left < b.right && b.left < a.right
    }

    /// The vertical extents of `self` and the rectangle `other` overlap.
    fn collides_with_y(&self, other: &Bounds) -> (r: bool)
        requires
            shape_wf(self.center_spec(), self.width_spec(), self.height_spec()),
            proper(*other),
        ensures
            r == overlap_y(
                bounds_of(self.center_spec(), self.width_spec(), self.height_spec()),
                *other,
            ),
    {
        let a = self.bounds();
        let b = other;
        a.bottom < b.top && b.bottom < a.top
    }

    /// `self` and the rectangle `other` intersect in an area; touching edges do not count.
    fn collides_with(&self, other: &Bounds) -> (r: bool)
        requires
            shape_wf(self.center_spec(), self.width_spec(), self.height_spec()),
            proper(*other),
        ensures
            r == intersect(
                bounds_of(self.center_spec(), self.width_spec(), self.height_spec()),
                *other,
            ),
    {
        self.collides_with_x(other) && self.collides_with_y(other)
    }
}

} // verus!
