//! Fixed-point positions, axis-aligned rectangles and headings.
use vstd::prelude::*;

verus! {

/// Sub-units per terminal cell: coordinates carry three decimal places.
pub const SUB: i64 = 1000;

/// Largest magnitude of a coordinate held by a well-formed entity.
pub const LIMIT: i64 = 1_000_000_000;

/// Largest magnitude of a canvas coordinate or extent, and of the player's
/// position.
pub const ARENA: i64 = 500_000_000;

/// Largest magnitude of a direction vector component.
pub const DIR_LIMIT: i64 = 3_000_000_000;

/// Largest speed component a heading can be scaled to.
pub const MAX_SPEED: i64 = 100_000;

pub open spec fn within(v: int, bound: int) -> bool {
    -bound <= v <= bound
}

/// `v` limited to at most `hi`, then to at least `lo`: `lo` wins when the
/// range is empty.
pub open spec fn clamped(v: int, lo: int, hi: int) -> int {
    let m = if v < hi {
        v
    } else {
        hi
    };
    if m < lo {
        lo
    } else {
        m
    }
}

/// Limits `v` to the range `[lo, hi]`; see `clamped`.
pub fn clamp(v: i128, lo: i64, hi: i64) -> (r: i64)
    ensures
        r == clamped(v as int, lo as int, hi as int),
{
    let m: i128 = if v < hi as i128 {
        v
    } else {
        hi as i128
    };
    if m < lo as i128 {
        lo
    } else {
        m as i64
    }
}

/// The cell index of coordinate `v`: zero below zero, at most `u16::MAX`.
pub open spec fn cell_index(v: int) -> int {
    if v < 0 {
        0
    } else if v / (SUB as int) > u16::MAX {
        u16::MAX as int
    } else {
        v / (SUB as int)
    }
}

fn cell_of(v: i64) -> (r: u16)
    ensures
        r as int == cell_index(v as int),
{
    if v < 0 {
        0
    } else if v / SUB > u16::MAX as i64 {
        u16::MAX
    } else {
        (v / SUB) as u16
    }
}

/// A point (or a vector) in sub-units of a cell.
#[derive(Debug, Clone, Copy, PartialEq, Eq, Structural)]
pub struct Pos(pub i64, pub i64);

/// `r` is the integer square root of `n`.
pub open spec fn is_root(n: int, r: int) -> bool {
    0 <= r && r * r <= n && n < (r + 1) * (r + 1)
}

/// The integer square root of `n`.
pub open spec fn root(n: int) -> int {
    choose|r: int| is_root(n, r)
}

/// `c * s / len`, truncated toward zero.
pub open spec fn scale_part(c: int, s: int, len: int) -> int {
    if c >= 0 {
        c * s / len
    } else {
        -((-c) * s / len)
    }
}

proof fn lemma_root_unique(n: int, a: int, b: int)
    requires
        is_root(n, a),
        is_root(n, b),
    ensures
        a == b,
{
    if a < b {
        assert((a + 1) * (a + 1) <= b * b) by (nonlinear_arith)
            requires
                0 <= a,
                a + 1 <= b,
        ;
    } else if b < a {
        assert((b + 1) * (b + 1) <= a * a) by (nonlinear_arith)
            requires
                0 <= b,
                b + 1 <= a,
        ;
    }
}

/// A root that is witnessed is the root.
proof fn lemma_root_is(n: int, r: int)
    requires
        is_root(n, r),
    ensures
        root(n) == r,
{
    lemma_root_unique(n, r, root(n));
}

/// Each component of a vector is at most its length in magnitude.
/// Every natural number has an integer square root.
proof fn lemma_root_exists(n: int)
    requires
        0 <= n,
    ensures
        is_root(n, root(n)),
    decreases n,
{
    if n == 0 {
        assert(is_root(0, 0));
    } else {
        lemma_root_exists(n - 1);
        let r = root(n - 1);
        if (r + 1) * (r + 1) <= n {
            assert(n < (r + 2) * (r + 2)) by (nonlinear_arith)
                requires
                    n - 1 < (r + 1) * (r + 1),
                    0 <= r,
            ;
            assert(is_root(n, r + 1));
        } else {
            assert(is_root(n, r));
        }
    }
}

proof fn lemma_component_le_root(c: int, other: int, len: int)
    requires
        is_root(c * c + other * other, len),
    ensures
        -len <= c <= len,
{
    assert(c * c <= c * c + other * other) by (nonlinear_arith);
    if c > len {
        assert((len + 1) * (len + 1) <= c * c) by (nonlinear_arith)
            requires
                0 <= len,
                len + 1 <= c,
        ;
    } else if c < -len {
        assert((len + 1) * (len + 1) <= c * c) by (nonlinear_arith)
            requires
                0 <= len,
                c <= -(len + 1),
        ;
    }
}

proof fn lemma_scale_part_bounded(c: int, s: int, len: int)
    requires
        -len <= c <= len,
        0 < len,
        0 <= s,
    ensures
        -s <= scale_part(c, s, len) <= s,
{
    let m = if c >= 0 { c } else { -c };
    assert(0 <= m * s <= len * s) by (nonlinear_arith)
        requires
            0 <= m <= len,
            0 <= s,
    ;
    assert(0 <= m * s / len <= s) by (nonlinear_arith)
        requires
            0 <= m * s <= len * s,
            0 < len,
    ;
}

/// A heading scaled to speed `(sx, sy)` moves at most `sx` (`sy`) along each
/// axis, and never against the sign of the direction's component.
pub proof fn lemma_along_bounds(d: Pos, sx: int, sy: int)
    requires
        0 <= sx <= MAX_SPEED,
        0 <= sy <= MAX_SPEED,
    ensures
        within(d.along(sx, sy).0 as int, sx),
        within(d.along(sx, sy).1 as int, sy),
        d.0 >= 0 ==> d.along(sx, sy).0 >= 0,
        d.0 < 0 ==> d.along(sx, sy).0 <= 0,
        d.1 >= 0 ==> d.along(sx, sy).1 >= 0,
        d.1 < 0 ==> d.along(sx, sy).1 <= 0,
{
    let n = d.0 * d.0 + d.1 * d.1;
    assert(0 <= d.0 * d.0 + d.1 * d.1) by (nonlinear_arith);
    lemma_root_exists(n);
    let len = root(n);
    if len == 0 {
        assert(0 <= d.1 * d.1) by (nonlinear_arith);
        assert(d.0 == 0) by (nonlinear_arith)
            requires
                d.0 * d.0 + d.1 * d.1 < 1,
                0 <= d.1 * d.1,
        ;
    } else {
        lemma_component_le_root(d.0 as int, d.1 as int, len);
        assert(d.1 * d.1 + d.0 * d.0 == n);
        lemma_component_le_root(d.1 as int, d.0 as int, len);
        lemma_scale_part_bounded(d.0 as int, sx, len);
        lemma_scale_part_bounded(d.1 as int, sy, len);
        lemma_scale_part_sign(d.0 as int, sx, len);
        lemma_scale_part_sign(d.1 as int, sy, len);
    }
}

proof fn lemma_scale_part_sign(c: int, s: int, len: int)
    requires
        0 < len,
        0 <= s,
    ensures
        c >= 0 ==> scale_part(c, s, len) >= 0,
        c < 0 ==> scale_part(c, s, len) <= 0,
{
    let m = if c >= 0 { c } else { -c };
    assert(0 <= m * s / len) by (nonlinear_arith)
        requires
            0 <= m,
            0 <= s,
            0 < len,
    ;
}

/// Integer square root: the largest `r` with `r * r <= n`.
pub fn isqrt(n: u64) -> (r: u64)
    ensures
        is_root(n as int, r as int),
        r as int == root(n as int),
{
    let mut lo: u64 = 0;
    let mut hi: u64 = 4294967296;
    while hi - lo > 1
        invariant
            lo < hi <= 4294967296,
            lo * lo <= n,
            n < hi * hi,
        decreases hi - lo,
    {
        let mid: u64 = lo + (hi - lo) / 2;
        assert((mid as u128) * (mid as u128) <= 18446744073709551616u128) by (nonlinear_arith)
            requires
                0 <= mid <= 4294967296,
        ;
        if (mid as u128) * (mid as u128) <= n as u128 {
            lo = mid;
        } else {
            hi = mid;
        }
    }
    proof {
        lemma_root_is(n as int, lo as int);
    }
    lo
}

impl Pos {
    /// Both coordinates lie within `LIMIT`.
    pub open spec fn in_bounds(self) -> bool {
        within(self.0 as int, LIMIT as int) && within(self.1 as int, LIMIT as int)
    }

    /// Both components lie within `DIR_LIMIT`: a usable direction vector.
    pub open spec fn is_direction(self) -> bool {
        within(self.0 as int, DIR_LIMIT as int) && within(self.1 as int, DIR_LIMIT as int)
    }

    /// The point moved by the vector `d`.
    pub open spec fn plus(self, d: Pos) -> Pos {
        Pos((self.0 + d.0) as i64, (self.1 + d.1) as i64)
    }

    /// `self` less `other`: the vector from `other` to `self`.
    pub open spec fn minus(self, other: Pos) -> Pos {
        Pos((self.0 - other.0) as i64, (self.1 - other.1) as i64)
    }

    /// The per-tick movement of speed `(sx, sy)` along this direction: each
    /// component is the direction's cosine (sine) times `sx` (`sy`), rounded
    /// toward zero, with the integer square root as the length. The zero
    /// vector heads along the positive x axis, as the angle zero does.
    pub open spec fn along(self, sx: int, sy: int) -> Pos {
        let len = root(self.0 * self.0 + self.1 * self.1);
        if len == 0 {
            Pos(sx as i64, 0)
        } else {
            Pos(scale_part(self.0 as int, sx, len) as i64, scale_part(self.1 as int, sy, len) as i64)
        }
    }

    /// The terminal cell holding this point: coordinates are truncated to
    /// whole cells and limited to the range of a cell index.
    pub fn to_cell(&self) -> (r: (u16, u16))
        ensures
            r.0 as int == cell_index(self.0 as int),
            r.1 as int == cell_index(self.1 as int),
    {
        (cell_of(self.0), cell_of(self.1))
    }

    /// The point moved by `d`.
    pub fn transpose(&self, d: Pos) -> (r: Pos)
        requires
            i64::MIN <= self.0 + d.0 <= i64::MAX,
            i64::MIN <= self.1 + d.1 <= i64::MAX,
        ensures
            r == self.plus(d),
    {
        Pos(self.0 + d.0, self.1 + d.1)
    }

    /// The vector from `origin` to `self`.
    pub fn offset_from(&self, origin: &Pos) -> (r: Pos)
        requires
            i64::MIN <= self.0 - origin.0 <= i64::MAX,
            i64::MIN <= self.1 - origin.1 <= i64::MAX,
        ensures
            r == self.minus(*origin),
    {
        Pos(self.0 - origin.0, self.1 - origin.1)
    }

    /// The movement of speed `(sx, sy)` along this direction; see `along`.
    pub fn step_along(&self, sx: i64, sy: i64) -> (r: Pos)
        requires
            self.is_direction(),
            0 <= sx <= MAX_SPEED,
            0 <= sy <= MAX_SPEED,
        ensures
            r == self.along(sx as int, sy as int),
    {
        proof {
            lemma_along_bounds(*self, sx as int, sy as int);
        }
        let ax: u64 = if self.0 >= 0 { self.0 as u64 } else { (-self.0) as u64 };
        let ay: u64 = if self.1 >= 0 { self.1 as u64 } else { (-self.1) as u64 };
        assert(ax * ax <= 9_000_000_000_000_000_000) by (nonlinear_arith)
            requires ax <= 3_000_000_000;
        assert(ay * ay <= 9_000_000_000_000_000_000) by (nonlinear_arith)
            requires ay <= 3_000_000_000;
        proof {
            assert(ax * ax == self.0 * self.0) by (nonlinear_arith)
                requires ax == self.0 || ax == -self.0;
            assert(ay * ay == self.1 * self.1) by (nonlinear_arith)
                requires ay == self.1 || ay == -self.1;
        }
        let len = isqrt(ax * ax + ay * ay);
        if len == 0 {
            return Pos(sx, 0);
        }
        proof {
            lemma_component_le_root(self.0 as int, self.1 as int, len as int);
            lemma_component_le_root(self.1 as int, self.0 as int, len as int);
            lemma_scale_part_bounded(self.0 as int, sx as int, len as int);
            lemma_scale_part_bounded(self.1 as int, sy as int, len as int);
        }
        assert(ax * (sx as u64) <= 300_000_000_000_000) by (nonlinear_arith)
            requires 0 <= ax <= 3_000_000_000, 0 <= sx <= 100_000;
        assert(ay * (sy as u64) <= 300_000_000_000_000) by (nonlinear_arith)
            requires 0 <= ay <= 3_000_000_000, 0 <= sy <= 100_000;
        let px = (ax * (sx as u64) / len) as i64;
        let py = (ay * (sy as u64) / len) as i64;
        let rx = if self.0 >= 0 { px } else { -px };
        let ry = if self.1 >= 0 { py } else { -py };
        Pos(rx, ry)
    }
}

/// An axis-aligned rectangle: top-left corner, width and height.
#[derive(Debug, Clone, Copy, PartialEq, Eq, Structural)]
pub struct Rect {
    pub pos: Pos,
    pub w: i64,
    pub h: i64,
}

impl Rect {
    pub open spec fn left(self) -> int {
        self.pos.0 as int
    }

    pub open spec fn right(self) -> int {
        self.pos.0 + self.w
    }

    pub open spec fn top(self) -> int {
        self.pos.1 as int
    }

    pub open spec fn bottom(self) -> int {
        self.pos.1 + self.h
    }

    /// Open overlap on both axes: touching edges do not count.
    pub open spec fn overlaps(self, other: Rect) -> bool {
        self.left() < other.right() && self.right() > other.left() && self.top() < other.bottom()
            && self.bottom() > other.top()
    }

    /// The half-open test `left <= x < right`, `top <= y < bottom`.
    pub open spec fn holds(self, p: Pos) -> bool {
        self.left() <= p.0 < self.right() && self.top() <= p.1 < self.bottom()
    }

    /// The center, rounded down to a sub-unit.
    pub open spec fn mid(self) -> Pos {
        Pos((self.pos.0 + self.w / 2) as i64, (self.pos.1 + self.h / 2) as i64)
    }

    pub fn new(pos: &Pos, w: i64, h: i64) -> (r: Rect)
        ensures
            r == (Rect { pos: *pos, w, h }),
    {
        Rect { pos: *pos, w, h }
    }

    pub fn center(&self) -> (r: Pos)
        requires
            0 <= self.w,
            0 <= self.h,
            self.pos.0 + self.w / 2 <= i64::MAX,
            self.pos.1 + self.h / 2 <= i64::MAX,
        ensures
            r == self.mid(),
    {
        Pos(self.pos.0 + self.w / 2, self.pos.1 + self.h / 2)
    }

    /// Whether `p` lies in the rectangle (left and top edges included).
    pub fn contains(&self, p: &Pos) -> (r: bool)
        ensures
            r == self.holds(*p),
    {
        let x = p.0 as i128;
        let y = p.1 as i128;
        self.pos.0 as i128 <= x && x < self.pos.0 as i128 + self.w as i128 && self.pos.1 as i128
            <= y && y < self.pos.1 as i128 + self.h as i128
    }

    /// Whether the two rectangles overlap; see `overlaps`.
    pub fn intersects(&self, other: &Rect) -> (r: bool)
        ensures
            r == self.overlaps(*other),
    {
        (self.pos.0 as i128) < other.pos.0 as i128 + other.w as i128 && self.pos.0 as i128
            + self.w as i128 > other.pos.0 as i128 && (self.pos.1 as i128) < other.pos.1 as i128
            + other.h as i128 && self.pos.1 as i128 + self.h as i128 > other.pos.1 as i128
    }
}

/// Intersection is symmetric.
pub proof fn lemma_intersection_symmetric(a: Rect, b: Rect)
    ensures
        a.overlaps(b) == b.overlaps(a),
{
}

/// A rectangle does not intersect a copy of itself moved by exactly its own
/// width (or height) along one axis: touching edges are no intersection.
pub proof fn lemma_edge_touch_excluded(a: Rect, b: Rect)
    requires
        b.w == a.w,
        b.h == a.h,
        (b.pos.0 == a.pos.0 + a.w && b.pos.1 == a.pos.1) || (b.pos.0 == a.pos.0 && b.pos.1
            == a.pos.1 + a.h),
    ensures
        !a.overlaps(b),
        !b.overlaps(a),
{
}

} // verus!
