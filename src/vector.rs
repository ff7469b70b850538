use vstd::prelude::*;

verus! {

/// A two-dimensional integer vector, such as a linear velocity.
#[derive(Clone, Copy, Debug, PartialEq, Eq, Structural)]
pub struct Vector2 {
    pub x: i64,
    pub y: i64,
}

impl View for Vector2 {
    type V = (int, int);

    open spec fn view(&self) -> (int, int) {
        (self.x as int, self.y as int)
    }
}

/// Whether both coordinates of a mathematical vector fit in `i64`.
pub open spec fn fits_i64(p: (int, int)) -> bool {
    &&& i64::MIN <= p.0 <= i64::MAX
    &&& i64::MIN <= p.1 <= i64::MAX
}

/// `c` brought into the range of `i64`.
pub open spec fn clamp_i64(c: int) -> int {
    if c < i64::MIN {
        i64::MIN as int
    } else if c > i64::MAX {
        i64::MAX as int
    } else {
        c
    }
}

/// Both coordinates of a mathematical vector brought into the range of `i64`.
pub open spec fn saturate(p: (int, int)) -> (int, int) {
    (clamp_i64(p.0), clamp_i64(p.1))
}

/// `c` brought into the range of `i64`.
pub fn saturating_i64(c: i128) -> (r: i64)
    ensures
        r == clamp_i64(c as int),
{
    if c < i64::MIN as i128 {
        i64::MIN
    } else if c > i64::MAX as i128 {
        i64::MAX
    } else {
        c as i64
    }
}

impl Vector2 {
    /// The squared Euclidean length, over mathematical integers.
    pub open spec fn len_sqr(self) -> int {
        self.x * self.x + self.y * self.y
    }

    pub fn new(x: i64, y: i64) -> (r: Vector2)
        ensures
            r.x == x,
            r.y == y,
    {
        Vector2 { x, y }
    }

    /// The vector with both components zero.
    pub fn zero() -> (r: Vector2)
        ensures
            r.x == 0,
            r.y == 0,
    {
        Vector2 { x: 0, y: 0 }
    }

    /// Whether both components are zero.
    pub fn is_zero(&self) -> (r: bool)
        ensures
            r == (self.x == 0 && self.y == 0),
    {
        self.x == 0 && self.y == 0
    }

    /// `x * x + y * y`, computed without overflow.
    pub fn length_squared(&self) -> (r: u128)
        ensures
            r == self.len_sqr(),
    {
        let x = self.x as i128;
        let y = self.y as i128;
        proof {
            lemma_square_bound(x as int);
            lemma_square_bound(y as int);
        }
        let xx = (x * x) as u128;
        let yy = (y * y) as u128;
        xx + yy
    }
}

/// The square of a value of `i64` lies in `[0, 2^126]`.
proof fn lemma_square_bound(v: int)
    requires
        i64::MIN <= v <= i64::MAX,
    ensures
        0 <= v * v <= 0x4000_0000_0000_0000_0000_0000_0000_0000,
{
    assert(0 <= v * v <= 0x4000_0000_0000_0000_0000_0000_0000_0000) by (nonlinear_arith)
        requires
            -0x8000_0000_0000_0000 <= v <= 0x7fff_ffff_ffff_ffff,
    ;
}

} // verus!
