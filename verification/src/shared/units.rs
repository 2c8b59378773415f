//! Fixed-point quantities: integers counted in millionths, with saturating
//! arithmetic, and the three-component vector built from them.

use vstd::prelude::*;

verus! {

/// How many raw steps make one unit.
pub const MICRO: i64 = 1_000_000;

/// `v` limited to the range of `i64`.
pub open spec fn saturate(v: int) -> int {
    if v < i64::MIN as int {
        i64::MIN as int
    } else if v > i64::MAX as int {
        i64::MAX as int
    } else {
        v
    }
}

/// A raw product of two quantities brought back to millionths, rounded toward
/// zero.
pub open spec fn rescale(p: int) -> int {
    if p >= 0 {
        p / 1_000_000
    } else {
        -((-p) / 1_000_000)
    }
}

/// Saturating sum.
pub open spec fn spec_plus(a: i64, b: i64) -> i64 {
    saturate(a + b) as i64
}

/// Saturating difference.
pub open spec fn spec_minus(a: i64, b: i64) -> i64 {
    saturate(a - b) as i64
}

/// Saturating negation: only `i64::MIN` is affected.
pub open spec fn spec_negate(a: i64) -> i64 {
    saturate(-a) as i64
}

/// Saturating fixed-point product, rounded toward zero.
pub open spec fn spec_times(a: i64, b: i64) -> i64 {
    saturate(rescale(a * b)) as i64
}

/// `v` limited to `lo ..= hi`.
pub open spec fn spec_clamp(v: i64, lo: i64, hi: i64) -> i64 {
    if v < lo {
        lo
    } else if v > hi {
        hi
    } else {
        v
    }
}

fn narrow(v: i128) -> (r: i64)
    ensures
        r == saturate(v as int),
{
    if v < -0x8000_0000_0000_0000i128 {
        i64::MIN
    } else if v > 0x7fff_ffff_ffff_ffffi128 {
        i64::MAX
    } else {
        v as i64
    }
}

/// Adds two quantities, stopping at the ends of the `i64` range.
pub fn plus(a: i64, b: i64) -> (r: i64)
    ensures
        r == spec_plus(a, b),
{
    narrow(a as i128 + b as i128)
}

/// Subtracts `b` from `a`, stopping at the ends of the `i64` range.
pub fn minus(a: i64, b: i64) -> (r: i64)
    ensures
        r == spec_minus(a, b),
{
    narrow(a as i128 - b as i128)
}

/// Negates a quantity; `i64::MIN` becomes `i64::MAX`.
pub fn negate(a: i64) -> (r: i64)
    ensures
        r == spec_negate(a),
{
    narrow(-(a as i128))
}

/// Multiplies two fixed-point quantities: the exact product divided by
/// [`MICRO`], rounded toward zero, stopping at the ends of the `i64` range.
pub fn times(a: i64, b: i64) -> (r: i64)
    ensures
        r == spec_times(a, b),
{
    assert(-0x4000_0000_0000_0000_0000_0000_0000_0000 <= (a as int) * (b as int)
        <= 0x4000_0000_0000_0000_0000_0000_0000_0000) by (nonlinear_arith)
        requires
            -0x8000_0000_0000_0000 <= a <= 0x7fff_ffff_ffff_ffff,
            -0x8000_0000_0000_0000 <= b <= 0x7fff_ffff_ffff_ffff,
    ;
    let p: i128 = (a as i128) * (b as i128);
    let q: i128 = p / 1_000_000;
    narrow(q)
}

/// Limits `v` to `lo ..= hi`.
pub fn clamp(v: i64, lo: i64, hi: i64) -> (r: i64)
    requires
        lo <= hi,
    ensures
        r == spec_clamp(v, lo, hi),
        lo <= r <= hi,
{
    if v < lo {
        lo
    } else if v > hi {
        hi
    } else {
        v
    }
}

/// Whether `root` is the integer square root of `n`: the largest number whose
/// square does not exceed `n`.
pub open spec fn is_root(n: int, root: int) -> bool {
    0 <= root && root * root <= n < (root + 1) * (root + 1)
}

/// The integer square root of `n`, for `n` that is not negative.
pub open spec fn root_of(n: int) -> int {
    choose|root: int| is_root(n, root)
}

/// A number has one integer square root at most.
pub proof fn lemma_root_is_unique(n: int, first: int, second: int)
    requires
        is_root(n, first),
        is_root(n, second),
    ensures
        first == second,
{
    if first < second {
        assert((first + 1) * (first + 1) <= second * second) by (nonlinear_arith)
            requires
                0 <= first + 1 <= second,
        ;
    }
    if second < first {
        assert((second + 1) * (second + 1) <= first * first) by (nonlinear_arith)
            requires
                0 <= second + 1 <= first,
        ;
    }
}

/// The absolute value of `v`.
pub open spec fn magnitude(v: int) -> int {
    if v < 0 {
        -v
    } else {
        v
    }
}

/// The integer square root of `n`.
pub fn integer_root(n: u128) -> (root: u64)
    ensures
        is_root(n as int, root as int),
        root == root_of(n as int),
{
    let mut low: u128 = 0;
    let mut high: u128 = 0x1_0000_0000_0000_0000;
    while high - low > 1
        invariant
            low < high <= 0x1_0000_0000_0000_0000,
            low * low <= n,
            high == 0x1_0000_0000_0000_0000 || n < high * high,
        decreases high - low,
    {
        let middle: u128 = low + (high - low) / 2;
        assert(middle * middle <= 0xffff_ffff_ffff_ffff * 0xffff_ffff_ffff_ffff)
            by (nonlinear_arith)
            requires
                0 <= middle <= 0xffff_ffff_ffff_ffff,
        ;
        if middle * middle <= n {
            low = middle;
        } else {
            high = middle;
        }
    }
    assert(n < (low + 1) * (low + 1)) by {
        if high == 0x1_0000_0000_0000_0000 {
            assert(0x1_0000_0000_0000_0000 * 0x1_0000_0000_0000_0000 > u128::MAX)
                by (nonlinear_arith);
        }
    }
    proof {
        lemma_root_is_unique(n as int, low as int, root_of(n as int));
    }
    low as u64
}

fn absolute(v: i64) -> (r: u128)
    ensures
        r == magnitude(v as int),
{
    if v < 0 {
        (-(v as i128)) as u128
    } else {
        v as u128
    }
}

/// The share of one unit that a component `c` has in a vector of raw length
/// `length`: `c` times [`MICRO`] divided by `length`, rounded toward zero and
/// limited to the range of `i64`.
pub open spec fn unit_share(c: int, length: int) -> int {
    saturate(
        if c >= 0 {
            (c * 1_000_000) / length
        } else {
            -(((-c) * 1_000_000) / length)
        },
    )
}

fn share(c: i64, length: u64) -> (r: i64)
    requires
        length >= 1,
    ensures
        r == unit_share(c as int, length as int),
{
    let scaled: i128 = (c as i128) * 1_000_000;
    narrow(scaled / (length as i128))
}

/// A vector of three fixed-point components.
#[derive(Clone, Copy, Debug, PartialEq, Eq, Structural)]
pub struct Vec3 {
    pub x: i64,
    pub y: i64,
    pub z: i64,
}

impl Vec3 {
    /// The vector with every component zero.
    pub open spec fn spec_zeros() -> Vec3 {
        Vec3 { x: 0, y: 0, z: 0 }
    }

    /// Component-wise saturating sum.
    pub open spec fn spec_plus(self, other: Vec3) -> Vec3 {
        Vec3 {
            x: self::spec_plus(self.x, other.x),
            y: self::spec_plus(self.y, other.y),
            z: self::spec_plus(self.z, other.z),
        }
    }

    /// Component-wise saturating difference.
    pub open spec fn spec_minus(self, other: Vec3) -> Vec3 {
        Vec3 {
            x: self::spec_minus(self.x, other.x),
            y: self::spec_minus(self.y, other.y),
            z: self::spec_minus(self.z, other.z),
        }
    }

    /// Every component negated.
    pub open spec fn spec_negate(self) -> Vec3 {
        Vec3 {
            x: self::spec_negate(self.x),
            y: self::spec_negate(self.y),
            z: self::spec_negate(self.z),
        }
    }

    /// Every component multiplied by the fixed-point factor `k`.
    pub open spec fn spec_scale(self, k: i64) -> Vec3 {
        Vec3 {
            x: spec_times(self.x, k),
            y: spec_times(self.y, k),
            z: spec_times(self.z, k),
        }
    }

    /// Builds a vector from its components.
    pub fn new(x: i64, y: i64, z: i64) -> (v: Vec3)
        ensures
            v == (Vec3 { x, y, z }),
    {
        Vec3 { x, y, z }
    }

    /// The zero vector.
    pub fn zeros() -> (v: Vec3)
        ensures
            v == Vec3::spec_zeros(),
    {
        Vec3 { x: 0, y: 0, z: 0 }
    }

    /// Component-wise saturating sum.
    pub fn plus(self, other: Vec3) -> (v: Vec3)
        ensures
            v == self.spec_plus(other),
    {
        Vec3 {
            x: self::plus(self.x, other.x),
            y: self::plus(self.y, other.y),
            z: self::plus(self.z, other.z),
        }
    }

    /// Component-wise saturating difference.
    pub fn minus(self, other: Vec3) -> (v: Vec3)
        ensures
            v == self.spec_minus(other),
    {
        Vec3 {
            x: self::minus(self.x, other.x),
            y: self::minus(self.y, other.y),
            z: self::minus(self.z, other.z),
        }
    }

    /// The opposite vector.
    pub fn negate(self) -> (v: Vec3)
        ensures
            v == self.spec_negate(),
    {
        Vec3 { x: self::negate(self.x), y: self::negate(self.y), z: self::negate(self.z) }
    }

    /// The vector scaled by the fixed-point factor `k`.
    pub fn scale(self, k: i64) -> (v: Vec3)
        ensures
            v == self.spec_scale(k),
    {
        Vec3 { x: times(self.x, k), y: times(self.y, k), z: times(self.z, k) }
    }

    /// The sum of the squares of the raw components.
    pub open spec fn spec_magnitude_squared(self) -> int {
        self.x * self.x + self.y * self.y + self.z * self.z
    }

    /// The raw length: the integer square root of
    /// [`Vec3::spec_magnitude_squared`].
    pub open spec fn spec_length(self) -> int {
        root_of(self.spec_magnitude_squared())
    }

    /// The vector of length one that points the same way, each component
    /// rounded toward zero. The zero vector stays as it is.
    pub open spec fn spec_normalize(self) -> Vec3 {
        if self.spec_magnitude_squared() == 0 {
            self
        } else {
            Vec3 {
                x: unit_share(self.x as int, self.spec_length()) as i64,
                y: unit_share(self.y as int, self.spec_length()) as i64,
                z: unit_share(self.z as int, self.spec_length()) as i64,
            }
        }
    }

    /// The sum of the squares of the raw components.
    pub fn magnitude_squared(&self) -> (sum: u128)
        ensures
            sum == self.spec_magnitude_squared(),
    {
        let x = absolute(self.x);
        let y = absolute(self.y);
        let z = absolute(self.z);
        assert(x * x <= 0x8000_0000_0000_0000 * 0x8000_0000_0000_0000) by (nonlinear_arith)
            requires
                0 <= x <= 0x8000_0000_0000_0000,
        ;
        assert(y * y <= 0x8000_0000_0000_0000 * 0x8000_0000_0000_0000) by (nonlinear_arith)
            requires
                0 <= y <= 0x8000_0000_0000_0000,
        ;
        assert(z * z <= 0x8000_0000_0000_0000 * 0x8000_0000_0000_0000) by (nonlinear_arith)
            requires
                0 <= z <= 0x8000_0000_0000_0000,
        ;
        assert(magnitude(self.x as int) * magnitude(self.x as int) == self.x * self.x)
            by (nonlinear_arith);
        assert(magnitude(self.y as int) * magnitude(self.y as int) == self.y * self.y)
            by (nonlinear_arith);
        assert(magnitude(self.z as int) * magnitude(self.z as int) == self.z * self.z)
            by (nonlinear_arith);
        x * x + y * y + z * z
    }

    /// The vector of length one that points the same way; the zero vector
    /// stays as it is.
    pub fn normalize(self) -> (v: Vec3)
        ensures
            v == self.spec_normalize(),
    {
        let sum = self.magnitude_squared();
        if sum == 0 {
            return self;
        }
        let length = integer_root(sum);
        assert(length >= 1) by {
            if length == 0 {
                assert((length + 1) * (length + 1) == 1);
            }
        }
        let v = Vec3 {
            x: share(self.x, length),
            y: share(self.y, length),
            z: share(self.z, length),
        };
        v
    }

    /// Whether every component is zero.
    pub fn is_zero(&self) -> (b: bool)
        ensures
            b == (*self == Vec3::spec_zeros()),
    {
        self.x == 0 && self.y == 0 && self.z == 0
    }
}

/// A vector of two fixed-point components.
#[derive(Clone, Copy, Debug, PartialEq, Eq, Structural)]
pub struct Vec2 {
    pub x: i64,
    pub y: i64,
}

impl Vec2 {
    /// The vector with both components zero.
    pub open spec fn spec_zeros() -> Vec2 {
        Vec2 { x: 0, y: 0 }
    }

    /// The zero vector.
    pub fn zeros() -> (v: Vec2)
        ensures
            v == Vec2::spec_zeros(),
    {
        Vec2 { x: 0, y: 0 }
    }
}

/// Position and orientation of an entity: a translation and Euler angles.
#[derive(Clone, Copy, Debug, PartialEq, Eq, Structural)]
pub struct TransformComponent {
    pub translation: Vec3,
    pub rotation: Vec3,
}

} // verus!
