//! Small fixed-size vectors and a row-major 4x4 matrix over a generic scalar.
//!
//! Every operation is written with std's operator traits, so the same code runs on
//! integers and on floating-point scalars. The contracts state each result as the
//! exact composition of the scalar operations that produce it (`add_spec`,
//! `mul_spec`, ...); for a scalar whose operations vstd specifies (the integer
//! types) that is the arithmetic value itself. For a floating-point scalar every
//! operation may be applied to any operands, and vstd gives its results no value:
//! there the contracts still say which inputs each entry is computed from and in
//! which order, but not what it comes to.
use vstd::prelude::*;
use vstd::std_specs::convert::FromSpec;
use vstd::std_specs::ops::{AddSpec, DivSpec, MulSpec, NegSpec, SubSpec};
use core::ops::{Add, Div, Mul, Neg, Sub};

verus! {

/// The operations a scalar of this library must have.
pub trait Scalar: Copy + Add<Output = Self> + Sub<Output = Self> + Mul<Output = Self> + Div<
    Output = Self,
> + Neg<Output = Self> + From<i8> {

}

impl<
    T: Copy + Add<Output = T> + Sub<Output = T> + Mul<Output = T> + Div<Output = T> + Neg<
        Output = T,
    > + From<i8>,
> Scalar for T {

}

/// The scalar's operations are those that vstd specifies, so the `*_spec` functions
/// below give their results.
pub open spec fn exact<T: Scalar>() -> bool {
    &&& <T as AddSpec>::obeys_add_spec()
    &&& <T as SubSpec>::obeys_sub_spec()
    &&& <T as MulSpec>::obeys_mul_spec()
    &&& <T as DivSpec>::obeys_div_spec()
    &&& <T as NegSpec>::obeys_neg_spec()
    &&& <T as FromSpec<i8>>::obeys_from_spec()
}

/// Every operation of the scalar may be applied to any operands (no overflow to
/// rule out).
pub open spec fn total<T: Scalar>() -> bool {
    &&& forall|a: T, b: T| #[trigger] a.add_req(b)
    &&& forall|a: T, b: T| #[trigger] a.sub_req(b)
    &&& forall|a: T, b: T| #[trigger] a.mul_req(b)
    &&& forall|a: T, b: T| #[trigger] a.div_req(b)
    &&& forall|a: T| #[trigger] a.neg_req()
}

/// The preconditions of the operations that a computation applies hold: for a
/// scalar whose operations are all total, always; for one whose operations vstd
/// specifies, when `p`, the condition stated over the specified values, holds.
pub open spec fn computable<T: Scalar>(p: bool) -> bool {
    total::<T>() || (exact::<T>() && p)
}

/// The scalar that stands for the small integer `k`.
pub open spec fn lit<T: Scalar>(k: i8) -> T {
    <T as FromSpec<i8>>::from_spec(k)
}

/// `a * b + c * d`, the product pairs added left to right, may be computed.
pub open spec fn sum2_req<T: Scalar>(a: T, b: T, c: T, d: T) -> bool {
    &&& a.mul_req(b)
    &&& c.mul_req(d)
    &&& a.mul_spec(b).add_req(c.mul_spec(d))
}

pub open spec fn sum2<T: Scalar>(a: T, b: T, c: T, d: T) -> T {
    a.mul_spec(b).add_spec(c.mul_spec(d))
}

#[derive(Clone, Copy)]
pub struct Vec2<T> {
    pub x: T,
    pub y: T,
}

#[derive(Clone, Copy)]
pub struct Vec3<T> {
    pub x: T,
    pub y: T,
    pub z: T,
}

#[derive(Clone, Copy)]
pub struct Vec4<T> {
    pub x: T,
    pub y: T,
    pub z: T,
    pub w: T,
}

impl<T: Scalar> Vec2<T> {
    pub fn new(x: T, y: T) -> (r: Vec2<T>)
        ensures
            r == (Vec2 { x, y }),
    {
        Vec2 { x, y }
    }

    pub open spec fn sub_req(self, rhs: Vec2<T>) -> bool {
        self.x.sub_req(rhs.x) && self.y.sub_req(rhs.y)
    }

    pub open spec fn sub_spec(self, rhs: Vec2<T>) -> Vec2<T> {
        Vec2 { x: self.x.sub_spec(rhs.x), y: self.y.sub_spec(rhs.y) }
    }

    /// Component-wise difference.
    pub fn sub(self, rhs: Vec2<T>) -> (r: Vec2<T>)
        requires
            computable::<T>(self.sub_req(rhs)),
        ensures
            exact::<T>() ==> r == self.sub_spec(rhs),
    {
        Vec2 { x: self.x.sub(rhs.x), y: self.y.sub(rhs.y) }
    }

    pub open spec fn dot_req(self, rhs: Vec2<T>) -> bool {
        sum2_req(self.x, rhs.x, self.y, rhs.y)
    }

    pub open spec fn dot_spec(self, rhs: Vec2<T>) -> T {
        sum2(self.x, rhs.x, self.y, rhs.y)
    }

    /// `x * rhs.x + y * rhs.y`.
    pub fn dot(self, rhs: Vec2<T>) -> (r: T)
        requires
            computable::<T>(self.dot_req(rhs)),
        ensures
            exact::<T>() ==> r == self.dot_spec(rhs),
    {
        self.x.mul(rhs.x).add(self.y.mul(rhs.y))
    }

    pub open spec fn perp_spec(self) -> Vec2<T> {
        Vec2 { x: self.y.neg_spec(), y: self.x }
    }

    /// The vector turned a quarter turn counter-clockwise: `(-y, x)`.
    pub fn perp(&self) -> (r: Vec2<T>)
        requires
            computable::<T>(self.y.neg_req()),
        ensures
            r.y == self.x,
            exact::<T>() ==> r == self.perp_spec(),
    {
        Vec2 { x: self.y.neg(), y: self.x }
    }
}

impl<T: Scalar> Vec3<T> {
    pub fn new(x: T, y: T, z: T) -> (r: Vec3<T>)
        ensures
            r == (Vec3 { x, y, z }),
    {
        Vec3 { x, y, z }
    }

    /// `a * b - c * d` may be computed.
    pub open spec fn minor_req(a: T, b: T, c: T, d: T) -> bool {
        &&& a.mul_req(b)
        &&& c.mul_req(d)
        &&& a.mul_spec(b).sub_req(c.mul_spec(d))
    }

    pub open spec fn minor(a: T, b: T, c: T, d: T) -> T {
        a.mul_spec(b).sub_spec(c.mul_spec(d))
    }

    pub open spec fn cross_req(self, rhs: Vec3<T>) -> bool {
        &&& Self::minor_req(self.y, rhs.z, self.z, rhs.y)
        &&& Self::minor_req(self.z, rhs.x, self.x, rhs.z)
        &&& Self::minor_req(self.x, rhs.y, self.y, rhs.x)
    }

    pub open spec fn cross_spec(self, rhs: Vec3<T>) -> Vec3<T> {
        Vec3 {
            x: Self::minor(self.y, rhs.z, self.z, rhs.y),
            y: Self::minor(self.z, rhs.x, self.x, rhs.z),
            z: Self::minor(self.x, rhs.y, self.y, rhs.x),
        }
    }

    /// The cross product `self x rhs`.
    pub fn cross(&self, rhs: Vec3<T>) -> (r: Vec3<T>)
        requires
            computable::<T>(self.cross_req(rhs)),
        ensures
            exact::<T>() ==> r == self.cross_spec(rhs),
    {
        Vec3 {
            x: self.y.mul(rhs.z).sub(self.z.mul(rhs.y)),
            y: self.z.mul(rhs.x).sub(self.x.mul(rhs.z)),
            z: self.x.mul(rhs.y).sub(self.y.mul(rhs.x)),
        }
    }
}

impl<T: Scalar> Vec4<T> {
    pub fn new(x: T, y: T, z: T, w: T) -> (r: Vec4<T>)
        ensures
            r == (Vec4 { x, y, z, w }),
    {
        Vec4 { x, y, z, w }
    }

    /// Component `i`: x, y, z, w for 0 to 3.
    pub open spec fn comp(self, i: int) -> T {
        if i == 0 {
            self.x
        } else if i == 1 {
            self.y
        } else if i == 2 {
            self.z
        } else {
            self.w
        }
    }

    /// Component `i`: x, y, z, w for 0 to 3.
    pub fn get(&self, i: usize) -> (r: T)
        requires
            i < 4,
        ensures
            r == self.comp(i as int),
    {
        if i == 0 {
            self.x
        } else if i == 1 {
            self.y
        } else if i == 2 {
            self.z
        } else {
            self.w
        }
    }

    /// The first two components.
    pub fn xy(&self) -> (r: Vec2<T>)
        ensures
            r == (Vec2 { x: self.x, y: self.y }),
    {
        Vec2 { x: self.x, y: self.y }
    }

    /// The first three components.
    pub fn xyz(&self) -> (r: Vec3<T>)
        ensures
            r == (Vec3 { x: self.x, y: self.y, z: self.z }),
    {
        Vec3 { x: self.x, y: self.y, z: self.z }
    }

    pub open spec fn add_req(self, rhs: Vec4<T>) -> bool {
        &&& self.x.add_req(rhs.x)
        &&& self.y.add_req(rhs.y)
        &&& self.z.add_req(rhs.z)
        &&& self.w.add_req(rhs.w)
    }

    pub open spec fn add_spec(self, rhs: Vec4<T>) -> Vec4<T> {
        Vec4 {
            x: self.x.add_spec(rhs.x),
            y: self.y.add_spec(rhs.y),
            z: self.z.add_spec(rhs.z),
            w: self.w.add_spec(rhs.w),
        }
    }

    /// Component-wise sum.
    pub fn add(self, rhs: Vec4<T>) -> (r: Vec4<T>)
        requires
            computable::<T>(self.add_req(rhs)),
        ensures
            exact::<T>() ==> r == self.add_spec(rhs),
    {
        Vec4 {
            x: self.x.add(rhs.x),
            y: self.y.add(rhs.y),
            z: self.z.add(rhs.z),
            w: self.w.add(rhs.w),
        }
    }

    pub open spec fn scale_req(self, f: T) -> bool {
        &&& self.x.mul_req(f)
        &&& self.y.mul_req(f)
        &&& self.z.mul_req(f)
        &&& self.w.mul_req(f)
    }

    pub open spec fn scale_spec(self, f: T) -> Vec4<T> {
        Vec4 {
            x: self.x.mul_spec(f),
            y: self.y.mul_spec(f),
            z: self.z.mul_spec(f),
            w: self.w.mul_spec(f),
        }
    }

    /// Every component multiplied by `f`.
    pub fn scale(self, f: T) -> (r: Vec4<T>)
        requires
            computable::<T>(self.scale_req(f)),
        ensures
            exact::<T>() ==> r == self.scale_spec(f),
    {
        Vec4 { x: self.x.mul(f), y: self.y.mul(f), z: self.z.mul(f), w: self.w.mul(f) }
    }

    pub open spec fn dot_req(self, rhs: Vec4<T>) -> bool {
        &&& sum2_req(self.x, rhs.x, self.y, rhs.y)
        &&& self.z.mul_req(rhs.z)
        &&& self.w.mul_req(rhs.w)
        &&& sum2(self.x, rhs.x, self.y, rhs.y).add_req(self.z.mul_spec(rhs.z))
        &&& sum2(self.x, rhs.x, self.y, rhs.y).add_spec(self.z.mul_spec(rhs.z)).add_req(
            self.w.mul_spec(rhs.w),
        )
    }

    /// `x * rhs.x + y * rhs.y + z * rhs.z + w * rhs.w`, added left to right.
    pub open spec fn dot_spec(self, rhs: Vec4<T>) -> T {
        sum2(self.x, rhs.x, self.y, rhs.y).add_spec(self.z.mul_spec(rhs.z)).add_spec(
            self.w.mul_spec(rhs.w),
        )
    }

    /// The dot product.
    pub fn dot(self, rhs: Vec4<T>) -> (r: T)
        requires
            computable::<T>(self.dot_req(rhs)),
        ensures
            exact::<T>() ==> r == self.dot_spec(rhs),
    {
        self.x.mul(rhs.x).add(self.y.mul(rhs.y)).add(self.z.mul(rhs.z)).add(self.w.mul(rhs.w))
    }
}


/// A 4x4 matrix, stored as its four rows.
#[derive(Clone, Copy)]
pub struct Mat4<T> {
    pub rows: [Vec4<T>; 4],
}

impl<T: Scalar> Mat4<T> {
    /// The entry in row `i`, column `j`.
    pub open spec fn entry(self, i: int, j: int) -> T {
        self.rows[i].comp(j)
    }

    pub open spec fn col_spec(self, j: int) -> Vec4<T> {
        Vec4 {
            x: self.rows[0].comp(j),
            y: self.rows[1].comp(j),
            z: self.rows[2].comp(j),
            w: self.rows[3].comp(j),
        }
    }

    /// The matrix whose rows are `x`, `y`, `z` and `w`.
    pub fn new(x: [T; 4], y: [T; 4], z: [T; 4], w: [T; 4]) -> (r: Mat4<T>)
        ensures
            forall|j: int|
                0 <= j < 4 ==> {
                    &&& #[trigger] r.entry(0, j) == x[j]
                    &&& r.entry(1, j) == y[j]
                    &&& r.entry(2, j) == z[j]
                    &&& r.entry(3, j) == w[j]
                },
    {
        Mat4 {
            rows: [
                Vec4 { x: x[0], y: x[1], z: x[2], w: x[3] },
                Vec4 { x: y[0], y: y[1], z: y[2], w: y[3] },
                Vec4 { x: z[0], y: z[1], z: z[2], w: z[3] },
                Vec4 { x: w[0], y: w[1], z: w[2], w: w[3] },
            ],
        }
    }

    /// The identity matrix: one on the diagonal, zero elsewhere.
    pub open spec fn is_identity(self) -> bool {
        forall|i: int, j: int|
            0 <= i < 4 && 0 <= j < 4 ==> #[trigger] self.entry(i, j) == if i == j {
                lit::<T>(1)
            } else {
                lit::<T>(0)
            }
    }

    pub fn identity() -> (r: Mat4<T>)
        ensures
            exact::<T>() ==> r.is_identity(),
    {
        let o = T::from(0i8);
        let l = T::from(1i8);
        Mat4 {
            rows: [
                Vec4 { x: l, y: o, z: o, w: o },
                Vec4 { x: o, y: l, z: o, w: o },
                Vec4 { x: o, y: o, z: l, w: o },
                Vec4 { x: o, y: o, z: o, w: l },
            ],
        }
    }

    /// Row `i`.
    pub fn row(&self, i: usize) -> (r: Vec4<T>)
        requires
            i < 4,
        ensures
            r == self.rows[i as int],
    {
        self.rows[i]
    }

    /// Column `j`.
    pub fn col(&self, j: usize) -> (r: Vec4<T>)
        requires
            j < 4,
        ensures
            r == self.col_spec(j as int),
    {
        Vec4 {
            x: self.rows[0].get(j),
            y: self.rows[1].get(j),
            z: self.rows[2].get(j),
            w: self.rows[3].get(j),
        }
    }

    /// Every entry of `self * rhs` may be computed.
    pub open spec fn mul_req(self, rhs: Mat4<T>) -> bool {
        forall|i: int, j: int|
            0 <= i < 4 && 0 <= j < 4 ==> #[trigger] self.rows[i].dot_req(rhs.col_spec(j))
    }

    /// `self * rhs`: entry (i, j) is the dot product of row i of `self` and column j
    /// of `rhs`.
    pub open spec fn is_product(self, a: Mat4<T>, b: Mat4<T>) -> bool {
        forall|i: int, j: int|
            0 <= i < 4 && 0 <= j < 4 ==> #[trigger] self.entry(i, j) == a.rows[i].dot_spec(
                b.col_spec(j),
            )
    }

    /// `row * rhs` for a row vector: its component j is `row . column j`.
    pub open spec fn row_product_spec(row: Vec4<T>, rhs: Mat4<T>) -> Vec4<T> {
        Vec4 {
            x: row.dot_spec(rhs.col_spec(0)),
            y: row.dot_spec(rhs.col_spec(1)),
            z: row.dot_spec(rhs.col_spec(2)),
            w: row.dot_spec(rhs.col_spec(3)),
        }
    }

    /// The matrix product `a * b`.
    pub open spec fn product_spec(a: Mat4<T>, b: Mat4<T>) -> Mat4<T> {
        Self::from_rows(
            Self::row_product_spec(a.rows[0], b),
            Self::row_product_spec(a.rows[1], b),
            Self::row_product_spec(a.rows[2], b),
            Self::row_product_spec(a.rows[3], b),
        )
    }

    /// `row * rhs` for a row vector: its component j is `row . column j`.
    fn row_product(row: Vec4<T>, rhs: &Mat4<T>) -> (r: Vec4<T>)
        requires
            forall|j: int| 0 <= j < 4 ==> computable::<T>(row.dot_req(#[trigger] rhs.col_spec(j))),
        ensures
            exact::<T>() ==> r == Self::row_product_spec(row, *rhs),
            exact::<T>() ==> forall|j: int|
                0 <= j < 4 ==> #[trigger] r.comp(j) == row.dot_spec(rhs.col_spec(j)),
    {
        let c0 = rhs.col(0);
        let c1 = rhs.col(1);
        let c2 = rhs.col(2);
        let c3 = rhs.col(3);
        assert(computable::<T>(row.dot_req(rhs.col_spec(0))));
        assert(computable::<T>(row.dot_req(rhs.col_spec(1))));
        assert(computable::<T>(row.dot_req(rhs.col_spec(2))));
        assert(computable::<T>(row.dot_req(rhs.col_spec(3))));
        Vec4 { x: row.dot(c0), y: row.dot(c1), z: row.dot(c2), w: row.dot(c3) }
    }

    /// The matrix product `self * rhs`.
    pub fn mul(&self, rhs: &Mat4<T>) -> (r: Mat4<T>)
        requires
            computable::<T>(self.mul_req(*rhs)),
        ensures
            exact::<T>() ==> r.is_product(*self, *rhs),
            exact::<T>() ==> r == Self::product_spec(*self, *rhs),
    {
        proof {
            assert forall|i: int, j: int| 0 <= i < 4 && 0 <= j < 4 implies computable::<T>(
                #[trigger] self.rows[i].dot_req(rhs.col_spec(j)),
            ) by {
                if !total::<T>() {
                    assert(self.rows[i].dot_req(rhs.col_spec(j)));
                }
            }
        }
        let r = Mat4 {
            rows: [
                Self::row_product(self.rows[0], rhs),
                Self::row_product(self.rows[1], rhs),
                Self::row_product(self.rows[2], rhs),
                Self::row_product(self.rows[3], rhs),
            ],
        };
        r
    }

    /// `self <- self * rhs`.
    pub fn mul_assign(&mut self, rhs: &Mat4<T>)
        requires
            computable::<T>(old(self).mul_req(*rhs)),
        ensures
            exact::<T>() ==> final(self).is_product(*old(self), *rhs),
            exact::<T>() ==> *final(self) == Self::product_spec(*old(self), *rhs),
    {
        *self = self.mul(rhs);
    }

    /// Every component of `self * v` may be computed.
    pub open spec fn transform_req(self, v: Vec4<T>) -> bool {
        forall|i: int| 0 <= i < 4 ==> #[trigger] self.rows[i].dot_req(v)
    }

    /// `self * v` for a column vector: its component i is `row i . v`.
    pub open spec fn transform_spec(self, v: Vec4<T>) -> Vec4<T> {
        Vec4 {
            x: self.rows[0].dot_spec(v),
            y: self.rows[1].dot_spec(v),
            z: self.rows[2].dot_spec(v),
            w: self.rows[3].dot_spec(v),
        }
    }

    /// The product `self * v` of the matrix with a column vector.
    pub fn transform(&self, v: Vec4<T>) -> (r: Vec4<T>)
        requires
            computable::<T>(self.transform_req(v)),
        ensures
            exact::<T>() ==> r == self.transform_spec(v),
    {
        proof {
            if !total::<T>() {
                assert(self.rows[0].dot_req(v));
                assert(self.rows[1].dot_req(v));
                assert(self.rows[2].dot_req(v));
                assert(self.rows[3].dot_req(v));
            }
        }
        Vec4 {
            x: self.rows[0].dot(v),
            y: self.rows[1].dot(v),
            z: self.rows[2].dot(v),
            w: self.rows[3].dot(v),
        }
    }

    /// The matrix whose rows are the four given vectors.
    pub open spec fn from_rows(a: Vec4<T>, b: Vec4<T>, c: Vec4<T>, d: Vec4<T>) -> Mat4<T> {
        Mat4 { rows: [a, b, c, d] }
    }

    pub open spec fn translation_spec(x: T, y: T, z: T) -> Mat4<T> {
        let (o, l) = (lit::<T>(0), lit::<T>(1));
        Self::from_rows(
            Vec4 { x: l, y: o, z: o, w: x },
            Vec4 { x: o, y: l, z: o, w: y },
            Vec4 { x: o, y: o, z: l, w: z },
            Vec4 { x: o, y: o, z: o, w: l },
        )
    }

    /// The translation by `(x, y, z)`.
    pub fn translation(x: T, y: T, z: T) -> (r: Mat4<T>)
        ensures
            r.entry(0, 3) == x && r.entry(1, 3) == y && r.entry(2, 3) == z,
            exact::<T>() ==> r == Self::translation_spec(x, y, z),
    {
        let o = T::from(0i8);
        let l = T::from(1i8);
        Mat4 {
            rows: [
                Vec4 { x: l, y: o, z: o, w: x },
                Vec4 { x: o, y: l, z: o, w: y },
                Vec4 { x: o, y: o, z: l, w: z },
                Vec4 { x: o, y: o, z: o, w: l },
            ],
        }
    }

    pub open spec fn scaling_spec(x: T, y: T, z: T) -> Mat4<T> {
        let (o, l) = (lit::<T>(0), lit::<T>(1));
        Self::from_rows(
            Vec4 { x: x, y: o, z: o, w: o },
            Vec4 { x: o, y: y, z: o, w: o },
            Vec4 { x: o, y: o, z: z, w: o },
            Vec4 { x: o, y: o, z: o, w: l },
        )
    }

    /// The scaling by `x`, `y` and `z` along the three axes.
    pub fn scaling(x: T, y: T, z: T) -> (r: Mat4<T>)
        ensures
            r.entry(0, 0) == x && r.entry(1, 1) == y && r.entry(2, 2) == z,
            exact::<T>() ==> r == Self::scaling_spec(x, y, z),
    {
        let o = T::from(0i8);
        let l = T::from(1i8);
        Mat4 {
            rows: [
                Vec4 { x: x, y: o, z: o, w: o },
                Vec4 { x: o, y: y, z: o, w: o },
                Vec4 { x: o, y: o, z: z, w: o },
                Vec4 { x: o, y: o, z: o, w: l },
            ],
        }
    }

    /// `a * b * (1 - c) + d`, the form of each Rodrigues entry.
    pub open spec fn rod(a: T, b: T, c: T, d: T) -> T {
        a.mul_spec(b).mul_spec(lit::<T>(1).sub_spec(c)).add_spec(d)
    }

    pub open spec fn rod_req(a: T, b: T, c: T, d: T) -> bool {
        &&& a.mul_req(b)
        &&& lit::<T>(1).sub_req(c)
        &&& a.mul_spec(b).mul_req(lit::<T>(1).sub_spec(c))
        &&& a.mul_spec(b).mul_spec(lit::<T>(1).sub_spec(c)).add_req(d)
    }

    /// `a * b * (1 - c) + d`.
    fn rod_entry(a: T, b: T, c: T, d: T) -> (r: T)
        requires
            computable::<T>(Self::rod_req(a, b, c, d)),
        ensures
            exact::<T>() ==> r == Self::rod(a, b, c, d),
    {
        let l = T::from(1i8);
        a.mul(b).mul(l.sub(c)).add(d)
    }

    pub open spec fn rotation_req(x: T, y: T, z: T, c: T, s: T) -> bool {
        &&& z.mul_req(s) && y.mul_req(s) && x.mul_req(s)
        &&& z.mul_spec(s).neg_req() && y.mul_spec(s).neg_req() && x.mul_spec(s).neg_req()
        &&& Self::rod_req(x, x, c, c) && Self::rod_req(y, y, c, c) && Self::rod_req(z, z, c, c)
        &&& Self::rod_req(x, y, c, z.mul_spec(s).neg_spec())
        &&& Self::rod_req(x, z, c, y.mul_spec(s))
        &&& Self::rod_req(y, x, c, z.mul_spec(s))
        &&& Self::rod_req(y, z, c, x.mul_spec(s).neg_spec())
        &&& Self::rod_req(z, x, c, y.mul_spec(s).neg_spec())
        &&& Self::rod_req(z, y, c, x.mul_spec(s))
    }

    /// The Rodrigues rotation about the unit axis `(x, y, z)` by the angle whose
    /// cosine is `c` and sine is `s`, with the identity's fourth row and column.
    pub open spec fn rotation_spec(x: T, y: T, z: T, c: T, s: T) -> Mat4<T> {
        let (o, l) = (lit::<T>(0), lit::<T>(1));
        let (zs, ys, xs) = (z.mul_spec(s), y.mul_spec(s), x.mul_spec(s));
        Self::from_rows(
            Vec4 {
                x: Self::rod(x, x, c, c),
                y: Self::rod(x, y, c, zs.neg_spec()),
                z: Self::rod(x, z, c, ys),
                w: o,
            },
            Vec4 {
                x: Self::rod(y, x, c, zs),
                y: Self::rod(y, y, c, c),
                z: Self::rod(y, z, c, xs.neg_spec()),
                w: o,
            },
            Vec4 {
                x: Self::rod(z, x, c, ys.neg_spec()),
                y: Self::rod(z, y, c, xs),
                z: Self::rod(z, z, c, c),
                w: o,
            },
            Vec4 { x: o, y: o, z: o, w: l },
        )
    }

    /// The rotation about the unit axis `(x, y, z)` by the angle whose cosine is `c`
    /// and sine is `s`.
    pub fn rotation(x: T, y: T, z: T, c: T, s: T) -> (r: Mat4<T>)
        requires
            computable::<T>(Self::rotation_req(x, y, z, c, s)),
        ensures
            exact::<T>() ==> r == Self::rotation_spec(x, y, z, c, s),
    {
        let o = T::from(0i8);
        let l = T::from(1i8);
        let zs = z.mul(s);
        let ys = y.mul(s);
        let xs = x.mul(s);
        Mat4 {
            rows: [
                Vec4 {
                    x: Self::rod_entry(x, x, c, c),
                    y: Self::rod_entry(x, y, c, zs.neg()),
                    z: Self::rod_entry(x, z, c, ys),
                    w: o,
                },
                Vec4 {
                    x: Self::rod_entry(y, x, c, zs),
                    y: Self::rod_entry(y, y, c, c),
                    z: Self::rod_entry(y, z, c, xs.neg()),
                    w: o,
                },
                Vec4 {
                    x: Self::rod_entry(z, x, c, ys.neg()),
                    y: Self::rod_entry(z, y, c, xs),
                    z: Self::rod_entry(z, z, c, c),
                    w: o,
                },
                Vec4 { x: o, y: o, z: o, w: l },
            ],
        }
    }

    /// The three sums and differences that ortho and frustum are built from:
    /// `(right + left, right - left)`, and the same for top/bottom and far/near.
    pub open spec fn sums_req(l: T, r: T, b: T, t: T, n: T, f: T) -> bool {
        &&& r.add_req(l) && r.sub_req(l)
        &&& t.add_req(b) && t.sub_req(b)
        &&& f.add_req(n) && f.sub_req(n)
    }

    pub open spec fn ortho_req(l: T, r: T, b: T, t: T, n: T, f: T) -> bool {
        let (rpl, rml) = (r.add_spec(l), r.sub_spec(l));
        let (tpb, tmb) = (t.add_spec(b), t.sub_spec(b));
        let (fpn, fmn) = (f.add_spec(n), f.sub_spec(n));
        &&& Self::sums_req(l, r, b, t, n, f)
        &&& lit::<T>(2).div_req(rml) && lit::<T>(2).div_req(tmb) && lit::<T>(-2i8).div_req(fmn)
        &&& rpl.neg_req() && tpb.neg_req() && fpn.neg_req()
        &&& rpl.neg_spec().div_req(rml) && tpb.neg_spec().div_req(tmb)
        &&& fpn.neg_spec().div_req(fmn)
    }

    /// The orthographic projection of the box `[l, r] x [b, t] x [-n, -f]`.
    pub open spec fn ortho_spec(l: T, r: T, b: T, t: T, n: T, f: T) -> Mat4<T> {
        let (o, one) = (lit::<T>(0), lit::<T>(1));
        let (rpl, rml) = (r.add_spec(l), r.sub_spec(l));
        let (tpb, tmb) = (t.add_spec(b), t.sub_spec(b));
        let (fpn, fmn) = (f.add_spec(n), f.sub_spec(n));
        Self::from_rows(
            Vec4 { x: lit::<T>(2).div_spec(rml), y: o, z: o, w: rpl.neg_spec().div_spec(rml) },
            Vec4 { x: o, y: lit::<T>(2).div_spec(tmb), z: o, w: tpb.neg_spec().div_spec(tmb) },
            Vec4 { x: o, y: o, z: lit::<T>(-2i8).div_spec(fmn), w: fpn.neg_spec().div_spec(fmn) },
            Vec4 { x: o, y: o, z: o, w: one },
        )
    }

    /// The orthographic projection of the box `[l, r] x [b, t] x [-n, -f]`.
    pub fn ortho(l: T, r: T, b: T, t: T, n: T, f: T) -> (m: Mat4<T>)
        requires
            computable::<T>(Self::ortho_req(l, r, b, t, n, f)),
        ensures
            exact::<T>() ==> m == Self::ortho_spec(l, r, b, t, n, f),
    {
        let o = T::from(0i8);
        let one = T::from(1i8);
        let two = T::from(2i8);
        let minus_two = T::from(-2i8);
        let rpl = r.add(l);
        let rml = r.sub(l);
        let tpb = t.add(b);
        let tmb = t.sub(b);
        let fpn = f.add(n);
        let fmn = f.sub(n);
        Mat4 {
            rows: [
                Vec4 { x: two.div(rml), y: o, z: o, w: rpl.neg().div(rml) },
                Vec4 { x: o, y: two.div(tmb), z: o, w: tpb.neg().div(tmb) },
                Vec4 { x: o, y: o, z: minus_two.div(fmn), w: fpn.neg().div(fmn) },
                Vec4 { x: o, y: o, z: o, w: one },
            ],
        }
    }

    pub open spec fn frustum_req(l: T, r: T, b: T, t: T, n: T, f: T) -> bool {
        let (rpl, rml) = (r.add_spec(l), r.sub_spec(l));
        let (tpb, tmb) = (t.add_spec(b), t.sub_spec(b));
        let (fpn, fmn) = (f.add_spec(n), f.sub_spec(n));
        let n2 = lit::<T>(2).mul_spec(n);
        &&& Self::sums_req(l, r, b, t, n, f)
        &&& lit::<T>(2).mul_req(n) && n2.div_req(rml) && n2.div_req(tmb)
        &&& rpl.div_req(rml) && tpb.div_req(tmb)
        &&& fpn.neg_req() && fpn.neg_spec().div_req(fmn)
        &&& lit::<T>(-2i8).mul_req(f) && lit::<T>(-2i8).mul_spec(f).mul_req(n)
        &&& lit::<T>(-2i8).mul_spec(f).mul_spec(n).div_req(fmn)
    }

    /// The perspective projection of the frustum with near clipping rectangle
    /// `[l, r] x [b, t]` at distance `n` and far plane at distance `f`.
    pub open spec fn frustum_spec(l: T, r: T, b: T, t: T, n: T, f: T) -> Mat4<T> {
        let o = lit::<T>(0);
        let (rpl, rml) = (r.add_spec(l), r.sub_spec(l));
        let (tpb, tmb) = (t.add_spec(b), t.sub_spec(b));
        let (fpn, fmn) = (f.add_spec(n), f.sub_spec(n));
        let n2 = lit::<T>(2).mul_spec(n);
        Self::from_rows(
            Vec4 { x: n2.div_spec(rml), y: o, z: rpl.div_spec(rml), w: o },
            Vec4 { x: o, y: n2.div_spec(tmb), z: tpb.div_spec(tmb), w: o },
            Vec4 {
                x: o,
                y: o,
                z: fpn.neg_spec().div_spec(fmn),
                w: lit::<T>(-2i8).mul_spec(f).mul_spec(n).div_spec(fmn),
            },
            Vec4 { x: o, y: o, z: lit::<T>(-1i8), w: o },
        )
    }

    /// The perspective projection of the frustum with near clipping rectangle
    /// `[l, r] x [b, t]` at distance `n` and far plane at distance `f`.
    pub fn frustum(l: T, r: T, b: T, t: T, n: T, f: T) -> (m: Mat4<T>)
        requires
            computable::<T>(Self::frustum_req(l, r, b, t, n, f)),
        ensures
            exact::<T>() ==> m == Self::frustum_spec(l, r, b, t, n, f),
    {
        let o = T::from(0i8);
        let two = T::from(2i8);
        let minus_two = T::from(-2i8);
        let minus_one = T::from(-1i8);
        let rpl = r.add(l);
        let rml = r.sub(l);
        let tpb = t.add(b);
        let tmb = t.sub(b);
        let fpn = f.add(n);
        let fmn = f.sub(n);
        let n2 = two.mul(n);
        Mat4 {
            rows: [
                Vec4 { x: n2.div(rml), y: o, z: rpl.div(rml), w: o },
                Vec4 { x: o, y: n2.div(tmb), z: tpb.div(tmb), w: o },
                Vec4 { x: o, y: o, z: fpn.neg().div(fmn), w: minus_two.mul(f).mul(n).div(fmn) },
                Vec4 { x: o, y: o, z: minus_one, w: o },
            ],
        }
    }
}

} // verus!
