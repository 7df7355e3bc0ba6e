use vstd::prelude::*;

verus! {

/// Fixed-point resolution: world coordinates are kept in thousandths of a unit.
pub const MILLI: i64 = 1000;

/// Largest coordinate magnitude, in thousandths of a unit; positions are held
/// inside this square so that every product below fits in 64 bits.
pub const COORD_LIMIT: i64 = 1_000_000_000;

/// A point or a vector of the plane, in thousandths of a unit.
#[derive(Clone, Copy, Debug, PartialEq, Eq, Structural)]
pub struct Point {
    pub x: i64,
    pub y: i64,
}

impl Point {
    /// Both coordinates lie in the playing field.
    pub open spec fn in_field(&self) -> bool {
        -COORD_LIMIT <= self.x <= COORD_LIMIT && -COORD_LIMIT <= self.y <= COORD_LIMIT
    }
}

/// Squared Euclidean distance between two points.
pub open spec fn dist_sq(a: Point, b: Point) -> int {
    (a.x - b.x) * (a.x - b.x) + (a.y - b.y) * (a.y - b.y)
}

/// `v` clamped into the playing field's range.
pub open spec fn clamp_coord(v: int) -> int {
    if v < -COORD_LIMIT {
        -COORD_LIMIT as int
    } else if v > COORD_LIMIT {
        COORD_LIMIT as int
    } else {
        v
    }
}

/// `a * m / l` rounded toward zero, as a signed fixed-point rescale does.
pub open spec fn scale_toward_zero(a: int, m: int, l: int) -> int {
    if a >= 0 {
        (a * m) / l
    } else {
        -(((-a) * m) / l)
    }
}

/// The integer square root: the largest `r` with `r * r <= n`.
pub open spec fn is_isqrt(n: int, r: int) -> bool {
    0 <= r && r * r <= n < (r + 1) * (r + 1)
}

/// Whether the centres `a` and `b` lie strictly closer than `radius`.
pub fn within(a: Point, b: Point, radius: i64) -> (r: bool)
    requires
        radius >= 0,
    ensures
        r == (dist_sq(a, b) < radius * radius),
{
    let dx: i128 = a.x as i128 - b.x as i128;
    let dy: i128 = a.y as i128 - b.y as i128;
    let rr: i128 = radius as i128;
    if dx >= rr || dx <= -rr || dy >= rr || dy <= -rr {
        proof {
            assert(dx * dx >= rr * rr || dy * dy >= rr * rr) by (nonlinear_arith)
                requires
                    rr >= 0,
                    dx >= rr || dx <= -rr || dy >= rr || dy <= -rr,
            ;
            assert(dx * dx >= 0 && dy * dy >= 0) by (nonlinear_arith);
        }
        false
    } else {
        proof {
            assert(dx * dx <= rr * rr && dy * dy <= rr * rr) by (nonlinear_arith)
                requires
                    rr >= 0,
                    -rr < dx < rr,
                    -rr < dy < rr,
            ;
            assert(rr * rr <= 0x7fff_ffff_ffff_ffff * 0x7fff_ffff_ffff_ffff) by (nonlinear_arith)
                requires
                    0 <= rr <= 0x7fff_ffff_ffff_ffff,
            ;
            assert(dx * dx >= 0 && dy * dy >= 0) by (nonlinear_arith);
            assert(dx * dx + dy * dy <= 2 * (0x7fff_ffff_ffff_ffff * 0x7fff_ffff_ffff_ffff));
        }
        dx * dx + dy * dy < rr * rr
    }
}

/// The integer square root of `n`.
pub fn isqrt(n: u64) -> (r: u64)
    ensures
        is_isqrt(n as int, r as int),
{
    let mut lo: u64 = 0;
    let mut hi: u64 = 0x1_0000_0000;
    assert(n < hi * hi);
    while lo + 1 < hi
        invariant
            lo < hi <= 0x1_0000_0000,
            lo * lo <= n,
            n < hi * hi,
        decreases hi - lo,
    {
        let mid: u64 = lo + (hi - lo) / 2;
        assert(mid * mid < 0x1_0000_0000 * 0x1_0000_0000) by (nonlinear_arith)
            requires
                0 <= mid < 0x1_0000_0000,
        ;
        if mid * mid <= n {
            lo = mid;
        } else {
            hi = mid;
        }
    }
    lo
}

/// Rounds `a * m / l` toward zero.
pub fn rescale(a: i64, m: i64, l: i64) -> (r: i64)
    requires
        -COORD_LIMIT * 2 <= a <= COORD_LIMIT * 2,
        0 <= m <= MILLI * MILLI,
        l >= 1,
        -l <= a <= l,
    ensures
        r == scale_toward_zero(a as int, m as int, l as int),
        -m <= r <= m,
{
    let mag: i64 = if a >= 0 { a } else { -a };
    proof {
        assert(0 <= mag * m <= 2 * COORD_LIMIT * (MILLI * MILLI)) by (nonlinear_arith)
            requires
                0 <= mag <= 2 * COORD_LIMIT,
                0 <= m <= MILLI * MILLI,
        ;
        assert((mag as int) * (m as int) / (l as int) <= m) by (nonlinear_arith)
            requires
                0 <= mag <= l,
                0 <= m,
                l >= 1,
        ;
        assert((mag as int) * (m as int) / (l as int) >= 0) by (nonlinear_arith)
            requires
                0 <= mag * m,
                l >= 1,
        ;
    }
    let q: i64 = mag * m / l;
    if a >= 0 {
        q
    } else {
        -q
    }
}

/// A vector of length about `speed` pointing along `(dx, dy)`, each component
/// rounded toward zero; the zero vector when `(dx, dy)` is zero.
pub open spec fn toward(dx: int, dy: int, speed: int, len: int) -> Point {
    if len == 0 {
        Point { x: 0, y: 0 }
    } else {
        Point {
            x: scale_toward_zero(dx, speed, len) as i64,
            y: scale_toward_zero(dy, speed, len) as i64,
        }
    }
}

/// The vector of length about `speed` from `from` toward `to`, with the
/// distance between them rounded down to a whole number of thousandths.
pub fn heading(from: Point, to: Point, speed: i64) -> (r: Point)
    requires
        from.in_field(),
        to.in_field(),
        0 <= speed <= MILLI * MILLI,
    ensures
        exists|len: int|
            is_isqrt(dist_sq(from, to), len) && r == toward(
                to.x - from.x,
                to.y - from.y,
                speed as int,
                len,
            ),
        -speed <= r.x <= speed,
        -speed <= r.y <= speed,
{
    let dx: i64 = to.x - from.x;
    let dy: i64 = to.y - from.y;
    proof {
        assert(dx * dx <= 4 * COORD_LIMIT * COORD_LIMIT) by (nonlinear_arith)
            requires
                -2 * COORD_LIMIT <= dx <= 2 * COORD_LIMIT,
        ;
        assert(dy * dy <= 4 * COORD_LIMIT * COORD_LIMIT) by (nonlinear_arith)
            requires
                -2 * COORD_LIMIT <= dy <= 2 * COORD_LIMIT,
        ;
        assert(dx * dx >= 0 && dy * dy >= 0) by (nonlinear_arith);
    }
    let sq: u64 = (dx * dx) as u64 + (dy * dy) as u64;
    proof {
        assert(sq == dist_sq(from, to)) by (nonlinear_arith)
            requires
                sq == dx * dx + dy * dy,
                dx == to.x - from.x,
                dy == to.y - from.y,
        ;
    }
    let len: u64 = isqrt(sq);
    if len == 0 {
        let r = Point { x: 0, y: 0 };
        assert(is_isqrt(dist_sq(from, to), len as int) && r == toward(
            to.x - from.x,
            to.y - from.y,
            speed as int,
            len as int,
        ));
        return r;
    }
    proof {
        lemma_component_within_root(dx as int, dy as int, len as int);
        lemma_component_within_root(dy as int, dx as int, len as int);
        assert(len <= 4 * COORD_LIMIT) by (nonlinear_arith)
            requires
                len * len <= 8 * COORD_LIMIT * COORD_LIMIT,
                len >= 0,
        ;
    }
    let r = Point { x: rescale(dx, speed, len as i64), y: rescale(dy, speed, len as i64) };
    assert(is_isqrt(dist_sq(from, to), len as int) && r == toward(
        to.x - from.x,
        to.y - from.y,
        speed as int,
        len as int,
    ));
    r
}

/// Each component of a vector is at most its length rounded down.
proof fn lemma_component_within_root(a: int, b: int, len: int)
    requires
        is_isqrt(a * a + b * b, len),
    ensures
        -len <= a <= len,
{
    let m = if a >= 0 { a } else { -a };
    assert(m * m == a * a) by (nonlinear_arith)
        requires
            m == a || m == -a,
    ;
    assert(b * b >= 0) by (nonlinear_arith);
    if m > len {
        assert(m * m >= (len + 1) * (len + 1)) by (nonlinear_arith)
            requires
                m >= len + 1,
                len >= 0,
        ;
    }
}

} // verus!
