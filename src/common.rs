use vstd::prelude::*;

verus! {

/// An integer point on a map.
#[derive(Clone, Copy, Debug, PartialEq, Eq, Structural)]
pub struct Position {
    pub x: i32,
    pub y: i32,
}

/// An axis-aligned rectangle given by two corners, both included.
#[derive(Clone, Copy, Debug, PartialEq, Eq, Structural)]
pub struct Rect {
    pub top_left: Position,
    pub bottom_right: Position,
}

/// The origin, used where no starting position is set.
pub open spec fn origin() -> Position {
    Position { x: 0, y: 0 }
}

/// `dx * dx + dy * dy` between two points.
pub open spec fn distance_squared_spec(a: Position, b: Position) -> int {
    (a.x - b.x) * (a.x - b.x) + (a.y - b.y) * (a.y - b.y)
}

/// `r` is the integer square root of `n`: the largest number whose square is at most `n`.
pub open spec fn is_floor_sqrt(n: int, r: int) -> bool {
    0 <= r && r * r <= n && n < (r + 1) * (r + 1)
}

impl Position {
    /// Squared Euclidean distance to `other`.
    pub fn distance_squared(&self, other: &Position) -> (r: i32)
        requires
            distance_squared_spec(*self, *other) <= i32::MAX,
            -0x8000_0000 <= self.x - other.x <= 0x7fff_ffff,
            -0x8000_0000 <= self.y - other.y <= 0x7fff_ffff,
        ensures
            r == distance_squared_spec(*self, *other),
    {
        let dx: i32 = self.x - other.x;
        let dy: i32 = self.y - other.y;
        assert(0 <= dx * dx) by (nonlinear_arith);
        assert(0 <= dy * dy) by (nonlinear_arith);
        assert(dx * dx <= i32::MAX);
        assert(dy * dy <= i32::MAX);
        dx * dx + dy * dy
    }

    /// Euclidean distance to `other`, rounded down.
    pub fn distance(&self, other: &Position) -> (r: i32)
        requires
            distance_squared_spec(*self, *other) <= i32::MAX,
            -0x8000_0000 <= self.x - other.x <= 0x7fff_ffff,
            -0x8000_0000 <= self.y - other.y <= 0x7fff_ffff,
        ensures
            is_floor_sqrt(distance_squared_spec(*self, *other), r as int),
    {
        let d = self.distance_squared(other);
        proof {
            lemma_squares_sum_nonneg((self.x - other.x) as int, (self.y - other.y) as int);
        }
        floor_sqrt(d)
    }
}

proof fn lemma_squares_sum_nonneg(a: int, b: int)
    ensures
        0 <= a * a + b * b,
{
    assert(0 <= a * a) by (nonlinear_arith);
    assert(0 <= b * b) by (nonlinear_arith);
}

/// Integer square root of a non-negative `i32`, by bisection.
fn floor_sqrt(n: i32) -> (r: i32)
    requires
        0 <= n,
    ensures
        is_floor_sqrt(n as int, r as int),
{
    // Invariant: lo * lo <= n < hi * hi.
    let mut lo: i64 = 0;
    let mut hi: i64 = 46341;
    assert(46341 * 46341 > i32::MAX) by (nonlinear_arith);
    while hi - lo > 1
        invariant
            0 <= lo < hi <= 46341,
            lo * lo <= n,
            n < hi * hi,
        decreases hi - lo,
    {
        let mid: i64 = lo + (hi - lo) / 2;
        assert(0 <= mid * mid <= 46341 * 46341) by (nonlinear_arith)
            requires
                0 <= mid <= 46341,
        ;
        if mid * mid <= n as i64 {
            lo = mid;
        } else {
            hi = mid;
        }
    }
    assert(hi == lo + 1);
    lo as i32
}

impl Default for Position {
    fn default() -> (r: Position)
        ensures
            r == origin(),
    {
        Position { x: 0, y: 0 }
    }
}

/// The rectangle's width times its height, as corner differences.
pub open spec fn area_spec(r: Rect) -> int {
    (r.bottom_right.x - r.top_left.x) * (r.bottom_right.y - r.top_left.y)
}

impl Rect {
    /// Whether `position` lies in the rectangle, borders included.
    pub fn contains(&self, position: &Position) -> (r: bool)
        ensures
            r == (self.top_left.x <= position.x <= self.bottom_right.x && self.top_left.y
                <= position.y <= self.bottom_right.y),
    {
        position.x >= self.top_left.x && position.x <= self.bottom_right.x && position.y
            >= self.top_left.y && position.y <= self.bottom_right.y
    }

    /// Whether the two rectangles share at least one point.
    pub fn intersects(&self, other: &Rect) -> (r: bool)
        ensures
            r == (self.top_left.x <= other.bottom_right.x && self.bottom_right.x
                >= other.top_left.x && self.top_left.y <= other.bottom_right.y
                && self.bottom_right.y >= other.top_left.y),
    {
        self.top_left.x <= other.bottom_right.x && self.bottom_right.x >= other.top_left.x
            && self.top_left.y <= other.bottom_right.y && self.bottom_right.y >= other.top_left.y
    }

    /// Width times height.
    pub fn area(&self) -> (r: i32)
        requires
            i32::MIN <= self.bottom_right.x - self.top_left.x <= i32::MAX,
            i32::MIN <= self.bottom_right.y - self.top_left.y <= i32::MAX,
            i32::MIN <= area_spec(*self) <= i32::MAX,
        ensures
            r == area_spec(*self),
    {
        (self.bottom_right.x - self.top_left.x) * (self.bottom_right.y - self.top_left.y)
    }
}

impl Default for Rect {
    fn default() -> (r: Rect)
        ensures
            r.top_left == origin() && r.bottom_right == origin(),
    {
        Rect { top_left: Position::default(), bottom_right: Position::default() }
    }
}

} // verus!

verus! {

/// Length of a text in bytes, as stored: the length of its UTF-8 encoding,
/// as `str::len` reports it.
pub open spec fn byte_len(s: Seq<char>) -> int {
    (vstd::utf8::encode_utf8(s).len() as usize) as int
}

/// Byte length of a stored text.
pub fn text_len(s: &String) -> (r: usize)
    ensures
        r == byte_len(s@),
{
    s.as_str().len()
}

} // verus!
