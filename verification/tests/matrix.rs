use softrender::matrix::Matrix;
use softrender::scalar::Scalar;

/// Single-precision floating point as the matrices' number type.
#[derive(Clone, Copy, Debug, PartialEq)]
struct Real(f32);

impl Scalar for Real {
    fn from_int_spec(n: u32) -> Self {
        Real(n as f32)
    }

    fn add_spec(self, rhs: Self) -> Self {
        Real(self.0 + rhs.0)
    }

    fn sub_spec(self, rhs: Self) -> Self {
        Real(self.0 - rhs.0)
    }

    fn mul_spec(self, rhs: Self) -> Self {
        Real(self.0 * rhs.0)
    }

    fn div_spec(self, rhs: Self) -> Self {
        Real(self.0 / rhs.0)
    }

    fn neg_spec(self) -> Self {
        Real(-self.0)
    }

    fn abs_spec(self) -> Self {
        Real(self.0.abs())
    }

    fn sqrt_spec(self) -> Self {
        Real(self.0.sqrt())
    }

    fn round_spec(self) -> Self {
        Real(self.0.round())
    }

    fn less_spec(self, rhs: Self) -> bool {
        self.0 < rhs.0
    }

    fn at_least_spec(self, rhs: Self) -> bool {
        self.0 >= rhs.0
    }

    fn to_int_spec(self) -> u32 {
        self.0 as u32
    }

    fn from_int(n: u32) -> Self {
        Real(n as f32)
    }

    fn add(self, rhs: Self) -> Self {
        Real(self.0 + rhs.0)
    }

    fn sub(self, rhs: Self) -> Self {
        Real(self.0 - rhs.0)
    }

    fn mul(self, rhs: Self) -> Self {
        Real(self.0 * rhs.0)
    }

    fn div(self, rhs: Self) -> Self {
        Real(self.0 / rhs.0)
    }

    fn neg(self) -> Self {
        Real(-self.0)
    }

    fn abs(self) -> Self {
        Real(self.0.abs())
    }

    fn sqrt(self) -> Self {
        Real(self.0.sqrt())
    }

    fn round(self) -> Self {
        Real(self.0.round())
    }

    fn less(self, rhs: Self) -> bool {
        self.0 < rhs.0
    }

    fn at_least(self, rhs: Self) -> bool {
        self.0 >= rhs.0
    }

    fn to_int(self) -> u32 {
        self.0 as u32
    }
}

fn m<const H: usize, const W: usize>(rows: [[f32; W]; H]) -> Matrix<Real, H, W> {
    Matrix(rows.map(|row| row.map(Real)))
}

#[test]
fn test_dot() {
    let x = m([[1., 2.], [0., 1.], [2., 3.]]);
    let y = m([[2., 5., 1., 1.], [6., 7., 1., 1.]]);
    let z = m([[14.0, 19.0, 3.0, 3.0], [6.0, 7.0, 1.0, 1.0], [22.0, 31.0, 5.0, 5.0]]);

    assert_eq!(x.dot(y), z);

    assert_eq!(x.dot(y).transpose(), y.transpose().dot(x.transpose()));
}

#[test]
fn test_smoke_math() {
    let x = m([[1., 2.], [1., 1.], [2., 3.]]);
    let y = m([[3., 1.], [0., 2.], [5., 9.]]);
    let z = m([[0., 2.], [3., 1.], [5., 9.]]);
    let one = m([[1., 1.], [1., 1.], [1., 1.]]);
    let zero = m([[0., 0.], [0., 0.], [0., 0.]]);

    assert_eq!(x, x);
    assert_eq!(x.add(zero), x);
    assert_eq!(x.sub(x), zero);
    assert_eq!(x.div(x), one);
    assert_eq!(x.add(zero), x);
    assert_eq!(zero.add(x), x);
    assert_eq!(x.sub(x), zero);
    assert_eq!(x.mul(one), x);
    assert_eq!(one.mul(x), x);
    assert_eq!(x.add(y), y.add(x));
    assert_eq!(x.mul(y), y.mul(x));
    assert_eq!(x.add(y).add(one), x.add(y.add(one)));
    assert_eq!(x.mul(y).mul(z), x.mul(y.mul(z)));
    assert_eq!(x.add(x.neg()), zero);
    assert_eq!(x.neg().neg(), x);
    assert_eq!(x.transpose().transpose(), x);
    assert_eq!(x.mul(y.add(one)), x.mul(y).add(x.mul(one)));
    assert_eq!(y.add(one).mul(x), y.mul(x).add(one.mul(x)));
}

#[test]
fn test_identity() {
    let x = m([[1., 2.], [1., 1.]]);
    let identity: Matrix<Real, 2, 2> = Matrix::identity();
    assert_eq!(x.dot(identity), x);
}

#[test]
fn test_minor() {
    let x = m([[1., 2., 3.], [4., 5., 6.], [7., 8., 9.]]);

    assert_eq!(x.minor(0, 0), m([[5., 6.], [8., 9.]]));
    assert_eq!(x.minor(1, 1), m([[1., 3.], [7., 9.]]));
}

#[test]
fn test_determinant() {
    let x = m([[3., 8.], [4., 6.]]);
    assert_eq!(x.det(), Real(-14.));

    let y = m([[6., 1., 1.], [4., -2., 5.], [2., 8., 7.]]);
    assert_eq!(y.det(), Real(-306.));

    let z = m([[1., 3., 5., 9.], [1., 3., 1., 7.], [4., 3., 9., 7.], [5., 2., 0., 9.]]);
    assert_eq!(z.det(), Real(-376.));
}

#[test]
fn test_inverse() {
    let x = m([[3., 0., 2.], [2., 0., -2.], [0., 1., 1.]]);

    assert_eq!(x.inv(), m([[0.2, 0.2, 0.], [-0.2, 0.3, 1.], [0.2, -0.3, 0.]]));

    let y = m([[1., 0., 4., -6.], [2., 5., 0., 3.], [-1., 2., 3., 5.], [2., 1., -2., 3.]]);

    assert_eq!(y.inv().dot(y).round(6), Matrix::<Real, 4, 4>::identity());
}

#[test]
fn division_by_zero_gives_infinities_and_not_a_number() {
    let x = m([[1., -1., 0.]]);
    let q = x.div_scalar(Real(0.));
    assert_eq!(q.0[0][0], Real(f32::INFINITY));
    assert_eq!(q.0[0][1], Real(f32::NEG_INFINITY));
    assert!(q.0[0][2].0.is_nan());
    let q = x.div(m([[0., 0., 0.]]));
    assert_eq!(q.0[0][0], Real(f32::INFINITY));
    assert_eq!(q.0[0][1], Real(f32::NEG_INFINITY));
    assert!(q.0[0][2].0.is_nan());
    let q = Matrix::scalar_div(Real(2.), x);
    assert_eq!(q.0[0][0], Real(2.));
    assert_eq!(q.0[0][1], Real(-2.));
    assert_eq!(q.0[0][2], Real(f32::INFINITY));
}

#[test]
fn the_inverse_of_a_singular_matrix_is_not_finite() {
    let x = m([[1., 2.], [2., 4.]]);
    assert_eq!(x.det(), Real(0.));
    let inv = x.inv();
    assert_eq!(inv.0[0][0], Real(f32::INFINITY));
    assert_eq!(inv.0[0][1], Real(f32::NEG_INFINITY));
    assert_eq!(inv.0[1][0], Real(f32::NEG_INFINITY));
    assert_eq!(inv.0[1][1], Real(f32::INFINITY));

    let y = m([[1., 2., 3.], [4., 5., 6.], [7., 8., 9.]]);
    assert_eq!(y.det(), Real(0.));
    for row in y.inv().0.iter() {
        for v in row.iter() {
            assert!(!v.0.is_finite());
        }
    }

    let z = m([[1., 0., 0., 0.], [0., 1., 0., 0.], [0., 0., 0., 0.], [0., 0., 0., 1.]]);
    let inv = z.inv();
    assert_eq!(inv.0[2][2], Real(f32::INFINITY));
    assert!(inv.0[0][0].0.is_nan());
    assert!(m([[0.]]).inv().0[0][0].0.is_infinite());
}

#[test]
fn small_inverses_divide_the_adjugate_by_the_determinant() {
    assert_eq!(m([[4.]]).det(), Real(4.));
    assert_eq!(m([[4.]]).inv(), m([[0.25]]));
    let x = m([[4., 7.], [2., 6.]]);
    assert_eq!(x.det(), Real(10.));
    assert_eq!(x.inv(), m([[0.6, -0.7], [-0.2, 0.4]]));
    let y = m([[2., 0., 0., 0.], [0., 4., 0., 0.], [0., 0., 8., 0.], [0., 0., 0., 1.]]);
    assert_eq!(
        y.inv(),
        m([[0.5, 0., 0., 0.], [0., 0.25, 0., 0.], [0., 0., 0.125, 0.], [0., 0., 0., 1.]])
    );
}

#[test]
fn round_keeps_the_given_number_of_decimal_places() {
    let x = m([[1.234, 2.718], [-0.26, 100.04]]);
    assert_eq!(x.round(1), m([[1.2, 2.7], [-0.3, 100.]]));
    assert_eq!(x.round(0), m([[1., 3.], [-0., 100.]]));
    assert_eq!(m([[0.5, 1.5, -0.5]]).round(0), m([[1., 2., -1.]]));
    assert_eq!(m([[0.25]]).round(9), m([[0.25]]));
}

#[test]
fn a_matrix_and_a_number_combine_in_the_given_order() {
    let x = m([[1., 2.], [4., 8.]]);
    assert_eq!(x.add_scalar(Real(1.)), m([[2., 3.], [5., 9.]]));
    assert_eq!(x.sub_scalar(Real(1.)), m([[0., 1.], [3., 7.]]));
    assert_eq!(x.mul_scalar(Real(0.5)), m([[0.5, 1.], [2., 4.]]));
    assert_eq!(x.div_scalar(Real(2.)), m([[0.5, 1.], [2., 4.]]));
    assert_eq!(Matrix::scalar_add(Real(1.), x), m([[2., 3.], [5., 9.]]));
    assert_eq!(Matrix::scalar_sub(Real(1.), x), m([[0., -1.], [-3., -7.]]));
    assert_eq!(Matrix::scalar_mul(Real(0.5), x), m([[0.5, 1.], [2., 4.]]));
    assert_eq!(Matrix::scalar_div(Real(8.), x), m([[8., 4.], [2., 1.]]));
    assert_eq!(x.neg(), m([[-1., -2.], [-4., -8.]]));
}

#[test]
fn the_first_row_is_read_by_name() {
    let x = m([[1., 2., 3., 4.], [5., 6., 7., 8.]]);
    assert_eq!(x.x(), Real(1.));
    assert_eq!(x.y(), Real(2.));
    assert_eq!(x.z(), Real(3.));
    assert_eq!(x.w(), Real(4.));
    assert_eq!(x.get(1, 3), Real(8.));
    assert_eq!(Matrix::<Real, 2, 2>::default(), m([[0., 0.], [0., 0.]]));
    assert_eq!(Matrix::<Real, 3, 3>::identity(), m([[1., 0., 0.], [0., 1., 0.], [0., 0., 1.]]));
}

#[test]
fn sums_of_floating_point_numbers_depend_on_the_bracketing() {
    let a = m([[1e8]]);
    let b = m([[-1e8]]);
    let c = m([[1.]]);
    assert_eq!(a.add(b).add(c), m([[1.]]));
    assert_eq!(a.add(b.add(c)), m([[0.]]));
}

#[test]
fn the_identity_does_not_keep_an_infinite_entry() {
    let x = m([[f32::INFINITY, 1.], [2., 3.]]);
    let r = x.dot(Matrix::<Real, 2, 2>::identity());
    assert_eq!(r.0[0][0], Real(f32::INFINITY));
    assert!(r.0[0][1].0.is_nan());
    assert_eq!(r.0[1], [Real(2.), Real(3.)]);
}
