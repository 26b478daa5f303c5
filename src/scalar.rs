use vstd::prelude::*;

verus! {

/// The scalar type of the simulation (for instance a wrapper around `f32` or
/// `f64`). Each operation is named by a spec function, so that contracts
/// can state exactly which computation produced a value.
pub trait Real: Copy + Sized {
    spec fn spec_from_ratio(num: i64, den: i64) -> Self;

    spec fn spec_plus(self, rhs: Self) -> Self;

    spec fn spec_minus(self, rhs: Self) -> Self;

    spec fn spec_times(self, rhs: Self) -> Self;

    spec fn spec_divide(self, rhs: Self) -> Self;

    spec fn spec_sqrt(self) -> Self;

    spec fn spec_atan2(self, x: Self) -> Self;

    spec fn spec_asin(self) -> Self;

    spec fn spec_powf(self, e: Self) -> Self;

    spec fn spec_sin(self) -> Self;

    spec fn spec_cos(self) -> Self;

    spec fn spec_to_radians(self) -> Self;

    spec fn spec_is_zero(self) -> bool;

    /// The value `num / den`.
    fn from_ratio(num: i64, den: i64) -> (r: Self)
        requires
            den != 0,
        ensures
            r == Self::spec_from_ratio(num, den),
    ;

    fn plus(self, rhs: Self) -> (r: Self)
        ensures
            r == self.spec_plus(rhs),
    ;

    fn minus(self, rhs: Self) -> (r: Self)
        ensures
            r == self.spec_minus(rhs),
    ;

    fn times(self, rhs: Self) -> (r: Self)
        ensures
            r == self.spec_times(rhs),
    ;

    fn divide(self, rhs: Self) -> (r: Self)
        ensures
            r == self.spec_divide(rhs),
    ;

    fn sqrt(self) -> (r: Self)
        ensures
            r == self.spec_sqrt(),
    ;

    /// Four-quadrant arctangent of `self / x`.
    fn atan2(self, x: Self) -> (r: Self)
        ensures
            r == self.spec_atan2(x),
    ;

    fn asin(self) -> (r: Self)
        ensures
            r == self.spec_asin(),
    ;

    fn powf(self, e: Self) -> (r: Self)
        ensures
            r == self.spec_powf(e),
    ;

    fn sin(self) -> (r: Self)
        ensures
            r == self.spec_sin(),
    ;

    fn cos(self) -> (r: Self)
        ensures
            r == self.spec_cos(),
    ;

    /// Converts an angle in degrees to radians.
    fn to_radians(self) -> (r: Self)
        ensures
            r == self.spec_to_radians(),
    ;

    fn is_zero(self) -> (b: bool)
        ensures
            b == self.spec_is_zero(),
    ;
}

/// The additive identity of a scalar type.
pub open spec fn zero<T: Real>() -> T {
    T::spec_from_ratio(0, 1)
}

/// Addition of the scalar type is commutative.
pub open spec fn plus_commutes<T: Real>() -> bool {
    forall|a: T, b: T| #[trigger] a.spec_plus(b) == b.spec_plus(a)
}

/// Addition of the scalar type is associative.
pub open spec fn plus_associates<T: Real>() -> bool {
    forall|a: T, b: T, c: T| #[trigger] a.spec_plus(b).spec_plus(c) == a.spec_plus(b.spec_plus(c))
}

/// A vector of three scalars (North-East-Down in the world frame, or
/// forward-right-down in the body frame).
#[derive(Clone, Copy, Debug, PartialEq)]
pub struct Vector3<T> {
    pub x: T,
    pub y: T,
    pub z: T,
}

/// A 3x3 matrix given by its rows.
#[derive(Clone, Copy, Debug)]
pub struct Matrix3<T> {
    pub r0: Vector3<T>,
    pub r1: Vector3<T>,
    pub r2: Vector3<T>,
}

/// An attitude quaternion with vector part `(i, j, k)` and scalar part `w`.
#[derive(Clone, Copy, Debug)]
pub struct Quaternion<T> {
    pub i: T,
    pub j: T,
    pub k: T,
    pub w: T,
}

/// The full kinematic state of a rigid body: world position, body-frame
/// velocity, attitude and body-frame angular rates.
#[derive(Clone, Copy, Debug)]
pub struct StateVector<T> {
    pub position: Vector3<T>,
    pub velocity: Vector3<T>,
    pub attitude: Quaternion<T>,
    pub rates: Vector3<T>,
}

impl<T: Real> Vector3<T> {
    pub fn new(x: T, y: T, z: T) -> (r: Self)
        ensures
            r == (Vector3 { x, y, z }),
    {
        Vector3 { x, y, z }
    }

    pub open spec fn spec_zeros() -> Self {
        Vector3 { x: zero::<T>(), y: zero::<T>(), z: zero::<T>() }
    }

    pub fn zeros() -> (r: Self)
        ensures
            r == Self::spec_zeros(),
    {
        Vector3 { x: T::from_ratio(0, 1), y: T::from_ratio(0, 1), z: T::from_ratio(0, 1) }
    }

    pub open spec fn spec_plus(self, o: Self) -> Self {
        Vector3 { x: self.x.spec_plus(o.x), y: self.y.spec_plus(o.y), z: self.z.spec_plus(o.z) }
    }

    pub fn plus(&self, o: &Self) -> (r: Self)
        ensures
            r == self.spec_plus(*o),
    {
        Vector3 { x: self.x.plus(o.x), y: self.y.plus(o.y), z: self.z.plus(o.z) }
    }

    pub open spec fn spec_minus(self, o: Self) -> Self {
        Vector3 { x: self.x.spec_minus(o.x), y: self.y.spec_minus(o.y), z: self.z.spec_minus(o.z) }
    }

    pub fn minus(&self, o: &Self) -> (r: Self)
        ensures
            r == self.spec_minus(*o),
    {
        Vector3 { x: self.x.minus(o.x), y: self.y.minus(o.y), z: self.z.minus(o.z) }
    }

    pub open spec fn spec_dot(self, o: Self) -> T {
        self.x.spec_times(o.x).spec_plus(self.y.spec_times(o.y)).spec_plus(self.z.spec_times(o.z))
    }

    pub fn dot(&self, o: &Self) -> (r: T)
        ensures
            r == self.spec_dot(*o),
    {
        self.x.times(o.x).plus(self.y.times(o.y)).plus(self.z.times(o.z))
    }
}

impl<T: Real> Matrix3<T> {
    pub open spec fn spec_apply(self, v: Vector3<T>) -> Vector3<T> {
        Vector3 { x: self.r0.spec_dot(v), y: self.r1.spec_dot(v), z: self.r2.spec_dot(v) }
    }

    /// The product of this matrix with the column vector `v`.
    pub fn apply(&self, v: &Vector3<T>) -> (r: Vector3<T>)
        ensures
            r == self.spec_apply(*v),
    {
        Vector3 { x: self.r0.dot(v), y: self.r1.dot(v), z: self.r2.dot(v) }
    }
}

/// The sum of a sequence of vectors, added from first to last; the sum of
/// no vectors is the zero vector, of one vector that vector itself.
pub open spec fn vec_sum<T: Real>(s: Seq<Vector3<T>>) -> Vector3<T>
    decreases s.len(),
{
    if s.len() == 0 {
        Vector3::<T>::spec_zeros()
    } else if s.len() == 1 {
        s[0]
    } else {
        vec_sum(s.drop_last()).spec_plus(s.last())
    }
}

/// Sums the vectors of `v` from first to last.
pub fn sum_vectors<T: Real>(v: &Vec<Vector3<T>>) -> (r: Vector3<T>)
    ensures
        r == vec_sum(v@),
{
    if v.len() == 0 {
        return Vector3::zeros();
    }
    let mut acc = v[0];
    let mut i: usize = 1;
    while i < v.len()
        invariant
            1 <= i <= v.len(),
            acc == vec_sum(v@.subrange(0, i as int)),
        decreases v.len() - i,
    {
        proof {
            let s = v@.subrange(0, i as int + 1);
            assert(s.drop_last() =~= v@.subrange(0, i as int));
        }
        acc = acc.plus(&v[i]);
        i = i + 1;
    }
    proof {
        assert(v@.subrange(0, v.len() as int) =~= v@);
    }
    acc
}

} // verus!
