//! Fixed-dimension vectors with axis capabilities gated by the dimension.
//!
//! A `Vector<T, N>` is an ordered tuple of `N` components of a numeric
//! type `T`.  Directional unit vectors (`left`, `up`, `fwd`, ...) and
//! named-axis indexing are only offered for dimensions that actually have
//! the axis: asking a 2-dimensional vector for its third component is a
//! type error caught before the program runs, never a runtime fault.
//! Each supported dimension therefore carries its own implementations of
//! the capability traits below.

use vstd::prelude::*;

verus! {

/// Token naming the first axis of a vector.
pub struct X;

/// Token naming the second axis of a vector.
pub struct Y;

/// Token naming the third axis of a vector.
pub struct Z;

/// Token naming the fourth axis of a vector.
pub struct W;

/// Numeric types with an additive identity.
pub trait Zero: Sized {
    /// The additive identity, as a mathematical value.
    spec fn zero_spec() -> Self;

    /// Returns the additive identity.
    fn zero() -> (r: Self)
        ensures
            r == Self::zero_spec(),
    ;
}

/// Numeric types with a multiplicative identity and its negation.
pub trait One: Sized {
    /// The multiplicative identity, as a mathematical value.
    spec fn one_spec() -> Self;

    /// The negated multiplicative identity, as a mathematical value.
    spec fn neg_one_spec() -> Self;

    /// Returns the multiplicative identity.
    fn one() -> (r: Self)
        ensures
            r == Self::one_spec(),
    ;

    /// Returns the negated multiplicative identity.
    fn neg_one() -> (r: Self)
        ensures
            r == Self::neg_one_spec(),
    ;
}

/// Scalars that support the four elementwise operations the vector type
/// offers.  Each operation comes with a guard saying when the machine
/// type can perform it (no overflow, no division by zero); the vector
/// operations inherit those guards componentwise.
pub trait Numeric: Sized + Copy {
    /// When `self + rhs` is representable.
    spec fn add_ok(self, rhs: Self) -> bool;

    /// The sum, defined when `add_ok` holds.
    spec fn add_spec(self, rhs: Self) -> Self;

    /// When `self - rhs` is representable.
    spec fn sub_ok(self, rhs: Self) -> bool;

    /// The difference, defined when `sub_ok` holds.
    spec fn sub_spec(self, rhs: Self) -> Self;

    /// When `self * rhs` is representable.
    spec fn mul_ok(self, rhs: Self) -> bool;

    /// The product, defined when `mul_ok` holds.
    spec fn mul_spec(self, rhs: Self) -> Self;

    /// When `self / rhs` is defined and representable.
    spec fn div_ok(self, rhs: Self) -> bool;

    /// The quotient, defined when `div_ok` holds.
    spec fn div_spec(self, rhs: Self) -> Self;

    /// Adds two scalars.
    fn add(self, rhs: Self) -> (r: Self)
        requires
            self.add_ok(rhs),
        ensures
            r == self.add_spec(rhs),
    ;

    /// Subtracts `rhs` from `self`.
    fn sub(self, rhs: Self) -> (r: Self)
        requires
            self.sub_ok(rhs),
        ensures
            r == self.sub_spec(rhs),
    ;

    /// Multiplies two scalars.
    fn mul(self, rhs: Self) -> (r: Self)
        requires
            self.mul_ok(rhs),
        ensures
            r == self.mul_spec(rhs),
    ;

    /// Divides `self` by `rhs`.
    fn div(self, rhs: Self) -> (r: Self)
        requires
            self.div_ok(rhs),
        ensures
            r == self.div_spec(rhs),
    ;
}

impl Zero for i32 {
    open spec fn zero_spec() -> i32 {
        0
    }

    fn zero() -> i32 {
        0
    }
}

impl One for i32 {
    open spec fn one_spec() -> i32 {
        1
    }

    open spec fn neg_one_spec() -> i32 {
        -1i32
    }

    fn one() -> i32 {
        1
    }

    fn neg_one() -> i32 {
        -1
    }
}

impl Numeric for i32 {
    open spec fn add_ok(self, rhs: i32) -> bool {
        i32::MIN <= self + rhs <= i32::MAX
    }

    open spec fn add_spec(self, rhs: i32) -> i32 {
        (self + rhs) as i32
    }

    open spec fn sub_ok(self, rhs: i32) -> bool {
        i32::MIN <= self - rhs <= i32::MAX
    }

    open spec fn sub_spec(self, rhs: i32) -> i32 {
        (self - rhs) as i32
    }

    open spec fn mul_ok(self, rhs: i32) -> bool {
        i32::MIN <= self * rhs <= i32::MAX
    }

    open spec fn mul_spec(self, rhs: i32) -> i32 {
        (self * rhs) as i32
    }

    open spec fn div_ok(self, rhs: i32) -> bool {
        rhs != 0 && !(self == i32::MIN && rhs == -1)
    }

    /// Truncating division, as the machine performs it: the magnitudes
    /// divide and the signs combine, rounding toward zero.
    open spec fn div_spec(self, rhs: i32) -> i32 {
        if self >= 0 {
            (self / rhs) as i32
        } else {
            (-((-self) / (rhs as int))) as i32
        }
    }

    fn add(self, rhs: i32) -> i32 {
        self + rhs
    }

    fn sub(self, rhs: i32) -> i32 {
        self - rhs
    }

    fn mul(self, rhs: i32) -> i32 {
        self * rhs
    }

    fn div(self, rhs: i32) -> i32 {
        self / rhs
    }
}

/// A fixed-dimension vector: `N` components of type `T`, viewed as the
/// sequence of its components in axis order.
#[derive(Clone, Copy, Debug)]
pub struct Vector<T, const N: usize> {
    v: [T; N],
}

/// A 2-dimensional integer vector.
pub type Vec2i = Vector<i32, 2>;

/// A 3-dimensional integer vector.
pub type Vec3i = Vector<i32, 3>;

/// A 4-dimensional integer vector.
pub type Vec4i = Vector<i32, 4>;

impl<T, const N: usize> View for Vector<T, N> {
    type V = Seq<T>;

    closed spec fn view(&self) -> Seq<T> {
        self.v@
    }
}

/// A vector's view always has exactly as many components as the
/// dimension says.
pub proof fn lemma_vector_len<T, const N: usize>(v: &Vector<T, N>)
    ensures
        v@.len() == N,
{
}

impl<T, const N: usize> Vector<T, N> {
    /// The dimension of the vector type.
    pub fn len() -> (r: usize)
        ensures
            r == N,
    {
        N
    }

    /// Replaces the component at position `i`.
    pub fn set(&mut self, i: usize, val: T)
        requires
            i < N,
        ensures
            final(self)@ == old(self)@.update(i as int, val),
    {
        self.v[i] = val;
    }
}

impl<T: Copy, const N: usize> Vector<T, N> {
    /// The component at position `i` (0-based raw indexing).
    pub fn get(&self, i: usize) -> (r: T)
        requires
            i < N,
        ensures
            r == self@[i as int],
    {
        self.v[i]
    }
}

impl<T, const N: usize> From<[T; N]> for Vector<T, N> {
    /// Wraps a fixed-size array of components as a vector.
    fn from(v: [T; N]) -> (r: Self)
        ensures
            r@ == v@,
    {
        Vector { v }
    }
}

impl<T, const N: usize> vstd::std_specs::convert::FromSpecImpl<[T; N]> for Vector<T, N> {
    open spec fn obeys_from_spec() -> bool {
        true
    }

    closed spec fn from_spec(v: [T; N]) -> Self {
        Vector { v }
    }
}

/// Vectors whose dimension has a first axis offer a leftward unit vector.
pub trait Left: Sized {
    /// The unit vector pointing in the negative direction of the first axis.
    fn left() -> Self;
}

/// Vectors whose dimension has a first axis offer a rightward unit vector.
pub trait Right: Sized {
    /// The unit vector pointing in the positive direction of the first axis.
    fn right() -> Self;
}

/// Vectors whose dimension has a second axis offer an upward unit vector.
pub trait Up: Sized {
    /// The unit vector pointing in the positive direction of the second axis.
    fn up() -> Self;
}

/// Vectors whose dimension has a second axis offer a downward unit vector.
pub trait Down: Sized {
    /// The unit vector pointing in the negative direction of the second axis.
    fn down() -> Self;
}

/// Vectors whose dimension has a third axis offer a forward unit vector.
pub trait Forward: Sized {
    /// The unit vector pointing in the positive direction of the third axis.
    fn fwd() -> Self;
}

/// Vectors whose dimension has a third axis offer a backward unit vector.
pub trait Backward: Sized {
    /// The unit vector pointing in the negative direction of the third axis.
    fn back() -> Self;
}

/// Dimensions with a first axis.
pub trait FirstDimension: Left + Right {
}

/// Dimensions with first and second axes.
pub trait SecondDimension: Left + Right + Up + Down {
}

/// Dimensions with first, second and third axes.
pub trait ThirdDimension: Left + Right + Up + Down + Forward + Backward {
}

impl<T: Zero + One> Left for Vector<T, 1> {
    fn left() -> (r: Self)
        ensures
            r@.len() == 1,
            forall|i: int| 0 <= i < 1 ==> r@[i] == (if i == 0 { T::neg_one_spec() } else { T::zero_spec() }),
    {
        Vector { v: [T::neg_one()] }
    }
}

impl<T: Zero + One> Left for Vector<T, 2> {
    fn left() -> (r: Self)
        ensures
            r@.len() == 2,
            forall|i: int| 0 <= i < 2 ==> r@[i] == (if i == 0 { T::neg_one_spec() } else { T::zero_spec() }),
    {
        Vector { v: [T::neg_one(), T::zero()] }
    }
}

impl<T: Zero + One> Left for Vector<T, 3> {
    fn left() -> (r: Self)
        ensures
            r@.len() == 3,
            forall|i: int| 0 <= i < 3 ==> r@[i] == (if i == 0 { T::neg_one_spec() } else { T::zero_spec() }),
    {
        Vector { v: [T::neg_one(), T::zero(), T::zero()] }
    }
}

impl<T: Zero + One> Left for Vector<T, 4> {
    fn left() -> (r: Self)
        ensures
            r@.len() == 4,
            forall|i: int| 0 <= i < 4 ==> r@[i] == (if i == 0 { T::neg_one_spec() } else { T::zero_spec() }),
    {
        Vector { v: [T::neg_one(), T::zero(), T::zero(), T::zero()] }
    }
}

impl<T: Zero + One> Right for Vector<T, 1> {
    fn right() -> (r: Self)
        ensures
            r@.len() == 1,
            forall|i: int| 0 <= i < 1 ==> r@[i] == (if i == 0 { T::one_spec() } else { T::zero_spec() }),
    {
        Vector { v: [T::one()] }
    }
}

impl<T: Zero + One> Right for Vector<T, 2> {
    fn right() -> (r: Self)
        ensures
            r@.len() == 2,
            forall|i: int| 0 <= i < 2 ==> r@[i] == (if i == 0 { T::one_spec() } else { T::zero_spec() }),
    {
        Vector { v: [T::one(), T::zero()] }
    }
}

impl<T: Zero + One> Right for Vector<T, 3> {
    fn right() -> (r: Self)
        ensures
            r@.len() == 3,
            forall|i: int| 0 <= i < 3 ==> r@[i] == (if i == 0 { T::one_spec() } else { T::zero_spec() }),
    {
        Vector { v: [T::one(), T::zero(), T::zero()] }
    }
}

impl<T: Zero + One> Right for Vector<T, 4> {
    fn right() -> (r: Self)
        ensures
            r@.len() == 4,
            forall|i: int| 0 <= i < 4 ==> r@[i] == (if i == 0 { T::one_spec() } else { T::zero_spec() }),
    {
        Vector { v: [T::one(), T::zero(), T::zero(), T::zero()] }
    }
}

impl<T: Zero + One> Up for Vector<T, 2> {
    fn up() -> (r: Self)
        ensures
            r@.len() == 2,
            forall|i: int| 0 <= i < 2 ==> r@[i] == (if i == 1 { T::one_spec() } else { T::zero_spec() }),
    {
        Vector { v: [T::zero(), T::one()] }
    }
}

impl<T: Zero + One> Up for Vector<T, 3> {
    fn up() -> (r: Self)
        ensures
            r@.len() == 3,
            forall|i: int| 0 <= i < 3 ==> r@[i] == (if i == 1 { T::one_spec() } else { T::zero_spec() }),
    {
        Vector { v: [T::zero(), T::one(), T::zero()] }
    }
}

impl<T: Zero + One> Up for Vector<T, 4> {
    fn up() -> (r: Self)
        ensures
            r@.len() == 4,
            forall|i: int| 0 <= i < 4 ==> r@[i] == (if i == 1 { T::one_spec() } else { T::zero_spec() }),
    {
        Vector { v: [T::zero(), T::one(), T::zero(), T::zero()] }
    }
}

impl<T: Zero + One> Down for Vector<T, 2> {
    fn down() -> (r: Self)
        ensures
            r@.len() == 2,
            forall|i: int| 0 <= i < 2 ==> r@[i] == (if i == 1 { T::neg_one_spec() } else { T::zero_spec() }),
    {
        Vector { v: [T::zero(), T::neg_one()] }
    }
}

impl<T: Zero + One> Down for Vector<T, 3> {
    fn down() -> (r: Self)
        ensures
            r@.len() == 3,
            forall|i: int| 0 <= i < 3 ==> r@[i] == (if i == 1 { T::neg_one_spec() } else { T::zero_spec() }),
    {
        Vector { v: [T::zero(), T::neg_one(), T::zero()] }
    }
}

impl<T: Zero + One> Down for Vector<T, 4> {
    fn down() -> (r: Self)
        ensures
            r@.len() == 4,
            forall|i: int| 0 <= i < 4 ==> r@[i] == (if i == 1 { T::neg_one_spec() } else { T::zero_spec() }),
    {
        Vector { v: [T::zero(), T::neg_one(), T::zero(), T::zero()] }
    }
}

impl<T: Zero + One> Forward for Vector<T, 3> {
    fn fwd() -> (r: Self)
        ensures
            r@.len() == 3,
            forall|i: int| 0 <= i < 3 ==> r@[i] == (if i == 2 { T::one_spec() } else { T::zero_spec() }),
    {
        Vector { v: [T::zero(), T::zero(), T::one()] }
    }
}

impl<T: Zero + One> Forward for Vector<T, 4> {
    fn fwd() -> (r: Self)
        ensures
            r@.len() == 4,
            forall|i: int| 0 <= i < 4 ==> r@[i] == (if i == 2 { T::one_spec() } else { T::zero_spec() }),
    {
        Vector { v: [T::zero(), T::zero(), T::one(), T::zero()] }
    }
}

impl<T: Zero + One> Backward for Vector<T, 3> {
    fn back() -> (r: Self)
        ensures
            r@.len() == 3,
            forall|i: int| 0 <= i < 3 ==> r@[i] == (if i == 2 { T::neg_one_spec() } else { T::zero_spec() }),
    {
        Vector { v: [T::zero(), T::zero(), T::neg_one()] }
    }
}

impl<T: Zero + One> Backward for Vector<T, 4> {
    fn back() -> (r: Self)
        ensures
            r@.len() == 4,
            forall|i: int| 0 <= i < 4 ==> r@[i] == (if i == 2 { T::neg_one_spec() } else { T::zero_spec() }),
    {
        Vector { v: [T::zero(), T::zero(), T::neg_one(), T::zero()] }
    }
}

impl<T: Zero + One> FirstDimension for Vector<T, 1> {
}

impl<T: Zero + One> FirstDimension for Vector<T, 2> {
}

impl<T: Zero + One> FirstDimension for Vector<T, 3> {
}

impl<T: Zero + One> FirstDimension for Vector<T, 4> {
}

impl<T: Zero + One> SecondDimension for Vector<T, 2> {
}

impl<T: Zero + One> SecondDimension for Vector<T, 3> {
}

impl<T: Zero + One> SecondDimension for Vector<T, 4> {
}

impl<T: Zero + One> ThirdDimension for Vector<T, 3> {
}

impl<T: Zero + One> ThirdDimension for Vector<T, 4> {
}

/// Indexing a vector by a named-axis token.  Only vector dimensions
/// that have the axis implement the trait for its token, so indexing an
/// under-dimensioned vector is rejected before the program runs.
pub trait AxisIndex<A> {
    /// The component type handed back.
    type Output;

    /// The component the token selects.
    spec fn index_spec(&self) -> Self::Output;

    /// Returns the component at the token's axis.
    fn index(&self, axis: A) -> (r: Self::Output)
        ensures
            r == self.index_spec(),
    ;
}

impl<T: Copy> AxisIndex<X> for Vector<T, 1> {
    type Output = T;

    open spec fn index_spec(&self) -> T {
        self@[0]
    }

    fn index(&self, axis: X) -> T {
        self.v[0]
    }
}

impl<T: Copy> AxisIndex<X> for Vector<T, 2> {
    type Output = T;

    open spec fn index_spec(&self) -> T {
        self@[0]
    }

    fn index(&self, axis: X) -> T {
        self.v[0]
    }
}

impl<T: Copy> AxisIndex<X> for Vector<T, 3> {
    type Output = T;

    open spec fn index_spec(&self) -> T {
        self@[0]
    }

    fn index(&self, axis: X) -> T {
        self.v[0]
    }
}

impl<T: Copy> AxisIndex<X> for Vector<T, 4> {
    type Output = T;

    open spec fn index_spec(&self) -> T {
        self@[0]
    }

    fn index(&self, axis: X) -> T {
        self.v[0]
    }
}

impl<T: Copy> AxisIndex<Y> for Vector<T, 2> {
    type Output = T;

    open spec fn index_spec(&self) -> T {
        self@[1]
    }

    fn index(&self, axis: Y) -> T {
        self.v[1]
    }
}

impl<T: Copy> AxisIndex<Y> for Vector<T, 3> {
    type Output = T;

    open spec fn index_spec(&self) -> T {
        self@[1]
    }

    fn index(&self, axis: Y) -> T {
        self.v[1]
    }
}

impl<T: Copy> AxisIndex<Y> for Vector<T, 4> {
    type Output = T;

    open spec fn index_spec(&self) -> T {
        self@[1]
    }

    fn index(&self, axis: Y) -> T {
        self.v[1]
    }
}

impl<T: Copy> AxisIndex<Z> for Vector<T, 3> {
    type Output = T;

    open spec fn index_spec(&self) -> T {
        self@[2]
    }

    fn index(&self, axis: Z) -> T {
        self.v[2]
    }
}

impl<T: Copy> AxisIndex<Z> for Vector<T, 4> {
    type Output = T;

    open spec fn index_spec(&self) -> T {
        self@[2]
    }

    fn index(&self, axis: Z) -> T {
        self.v[2]
    }
}

impl<T: Copy> AxisIndex<W> for Vector<T, 4> {
    type Output = T;

    open spec fn index_spec(&self) -> T {
        self@[3]
    }

    fn index(&self, axis: W) -> T {
        self.v[3]
    }
}

impl<T: Zero> Vector<T, 1> {
    /// A vector with every component at the additive identity.
    pub fn new() -> (r: Self)
        ensures
            r@.len() == 1,
            forall|i: int| 0 <= i < 1 ==> r@[i] == T::zero_spec(),
    {
        Vector { v: [T::zero()] }
    }
}

impl<T: Zero> Vector<T, 2> {
    /// A vector with every component at the additive identity.
    pub fn new() -> (r: Self)
        ensures
            r@.len() == 2,
            forall|i: int| 0 <= i < 2 ==> r@[i] == T::zero_spec(),
    {
        Vector { v: [T::zero(), T::zero()] }
    }
}

impl<T: Zero> Vector<T, 3> {
    /// A vector with every component at the additive identity.
    pub fn new() -> (r: Self)
        ensures
            r@.len() == 3,
            forall|i: int| 0 <= i < 3 ==> r@[i] == T::zero_spec(),
    {
        Vector { v: [T::zero(), T::zero(), T::zero()] }
    }
}

impl<T: Zero> Vector<T, 4> {
    /// A vector with every component at the additive identity.
    pub fn new() -> (r: Self)
        ensures
            r@.len() == 4,
            forall|i: int| 0 <= i < 4 ==> r@[i] == T::zero_spec(),
    {
        Vector { v: [T::zero(), T::zero(), T::zero(), T::zero()] }
    }
}

impl<T: Zero> Default for Vector<T, 1> {
    /// Same value as `new`: every component at the additive identity.
    fn default() -> (r: Self)
        ensures
            r@.len() == 1,
            forall|i: int| 0 <= i < 1 ==> r@[i] == T::zero_spec(),
    {
        Vector { v: [T::zero()] }
    }
}

impl<T: Zero> Default for Vector<T, 2> {
    /// Same value as `new`: every component at the additive identity.
    fn default() -> (r: Self)
        ensures
            r@.len() == 2,
            forall|i: int| 0 <= i < 2 ==> r@[i] == T::zero_spec(),
    {
        Vector { v: [T::zero(), T::zero()] }
    }
}

impl<T: Zero> Default for Vector<T, 3> {
    /// Same value as `new`: every component at the additive identity.
    fn default() -> (r: Self)
        ensures
            r@.len() == 3,
            forall|i: int| 0 <= i < 3 ==> r@[i] == T::zero_spec(),
    {
        Vector { v: [T::zero(), T::zero(), T::zero()] }
    }
}

impl<T: Zero> Default for Vector<T, 4> {
    /// Same value as `new`: every component at the additive identity.
    fn default() -> (r: Self)
        ensures
            r@.len() == 4,
            forall|i: int| 0 <= i < 4 ==> r@[i] == T::zero_spec(),
    {
        Vector { v: [T::zero(), T::zero(), T::zero(), T::zero()] }
    }
}

impl<T: Numeric, const N: usize> Vector<T, N> {
    /// Componentwise sum of two vectors.
    pub fn add(self, rhs: Self) -> (r: Self)
        requires
            forall|i: int| 0 <= i < N ==> #[trigger] self@[i].add_ok(rhs@[i]),
        ensures
            r@.len() == N,
            forall|i: int| 0 <= i < N ==> #[trigger] r@[i] == self@[i].add_spec(rhs@[i]),
    {
        let mut out = self;
        for i in 0..N
            invariant
                out@.len() == N,
                rhs@.len() == N,
                self@.len() == N,
                forall|j: int| 0 <= j < N ==> #[trigger] self@[j].add_ok(rhs@[j]),
                forall|j: int| 0 <= j < i ==> out@[j] == #[trigger] self@[j].add_spec(rhs@[j]),
                forall|j: int| i <= j < N ==> out@[j] == self@[j],
        {
            out.v[i] = out.v[i].add(rhs.v[i]);
        }
        out
    }

    /// Componentwise difference of two vectors.
    pub fn sub(self, rhs: Self) -> (r: Self)
        requires
            forall|i: int| 0 <= i < N ==> #[trigger] self@[i].sub_ok(rhs@[i]),
        ensures
            r@.len() == N,
            forall|i: int| 0 <= i < N ==> #[trigger] r@[i] == self@[i].sub_spec(rhs@[i]),
    {
        let mut out = self;
        for i in 0..N
            invariant
                out@.len() == N,
                rhs@.len() == N,
                self@.len() == N,
                forall|j: int| 0 <= j < N ==> #[trigger] self@[j].sub_ok(rhs@[j]),
                forall|j: int| 0 <= j < i ==> out@[j] == #[trigger] self@[j].sub_spec(rhs@[j]),
                forall|j: int| i <= j < N ==> out@[j] == self@[j],
        {
            out.v[i] = out.v[i].sub(rhs.v[i]);
        }
        out
    }

    /// Every component scaled by the same scalar.
    pub fn mul(self, rhs: T) -> (r: Self)
        requires
            forall|i: int| 0 <= i < N ==> #[trigger] self@[i].mul_ok(rhs),
        ensures
            r@.len() == N,
            forall|i: int| 0 <= i < N ==> #[trigger] r@[i] == self@[i].mul_spec(rhs),
    {
        let mut out = self;
        for i in 0..N
            invariant
                out@.len() == N,
                self@.len() == N,
                forall|j: int| 0 <= j < N ==> #[trigger] self@[j].mul_ok(rhs),
                forall|j: int| 0 <= j < i ==> out@[j] == #[trigger] self@[j].mul_spec(rhs),
                forall|j: int| i <= j < N ==> out@[j] == self@[j],
        {
            out.v[i] = out.v[i].mul(rhs);
        }
        out
    }

    /// Every component divided by the same scalar.
    pub fn div(self, rhs: T) -> (r: Self)
        requires
            forall|i: int| 0 <= i < N ==> #[trigger] self@[i].div_ok(rhs),
        ensures
            r@.len() == N,
            forall|i: int| 0 <= i < N ==> #[trigger] r@[i] == self@[i].div_spec(rhs),
    {
        let mut out = self;
        for i in 0..N
            invariant
                out@.len() == N,
                self@.len() == N,
                forall|j: int| 0 <= j < N ==> #[trigger] self@[j].div_ok(rhs),
                forall|j: int| 0 <= j < i ==> out@[j] == #[trigger] self@[j].div_spec(rhs),
                forall|j: int| i <= j < N ==> out@[j] == self@[j],
        {
            out.v[i] = out.v[i].div(rhs);
        }
        out
    }
}

} // verus!
