use crate::matrix::Matrix;
use crate::scalar::{one, zero, Scalar};
use vstd::prelude::*;

verus! {

/// The index in a matrix of the row (or column) that lands at `k` once row
/// (or column) `removed` is taken out.
pub open spec fn skip(k: int, removed: int) -> int {
    if k < removed {
        k
    } else {
        k + 1
    }
}

impl<T: Scalar> Matrix<T, 1, 1> {
    /// The determinant: the single entry.
    pub open spec fn determinant(self) -> T {
        self.at(0, 0)
    }

    /// The determinant.
    pub fn det(self) -> (d: T)
        ensures
            d == self.determinant(),
    {
        self.get(0, 0)
    }

    /// `self` is the inverse of `m` as `inv` forms it: one divided by the
    /// single entry.
    pub open spec fn is_inverse(self, m: Self) -> bool {
        self.at(0, 0) == one::<T>().div_spec(m.determinant())
    }

    /// The inverse: one divided by the single entry. A zero entry is not an
    /// error: the result is whatever the number type gives for the division.
    pub fn inv(self) -> (r: Self)
        ensures
            r.is_inverse(self),
    {
        Matrix([[T::from_int(1).div(self.det())]])
    }
}

impl<T: Scalar> Matrix<T, 2, 2> {
    /// The determinant: the product of the diagonal minus the product of the
    /// other two entries.
    pub open spec fn determinant(self) -> T {
        self.at(0, 0).mul_spec(self.at(1, 1)).sub_spec(self.at(0, 1).mul_spec(self.at(1, 0)))
    }

    /// The determinant.
    pub fn det(self) -> (d: T)
        ensures
            d == self.determinant(),
    {
        self.get(0, 0).mul(self.get(1, 1)).sub(self.get(0, 1).mul(self.get(1, 0)))
    }

    /// `self` is the inverse of `m` as `inv` forms it: the adjugate of `m`,
    /// every entry divided by the determinant.
    pub open spec fn is_inverse(self, m: Self) -> bool {
        &&& self.at(0, 0) == m.at(1, 1).div_spec(m.determinant())
        &&& self.at(0, 1) == m.at(0, 1).neg_spec().div_spec(m.determinant())
        &&& self.at(1, 0) == m.at(1, 0).neg_spec().div_spec(m.determinant())
        &&& self.at(1, 1) == m.at(0, 0).div_spec(m.determinant())
    }

    /// The inverse: the adjugate divided by the determinant. A zero
    /// determinant is not an error: each entry is whatever the number type
    /// gives for the division.
    pub fn inv(self) -> (r: Self)
        ensures
            r.is_inverse(self),
    {
        let d = self.det();
        Matrix(
            [
                [self.get(1, 1).div(d), self.get(0, 1).neg().div(d)],
                [self.get(1, 0).neg().div(d), self.get(0, 0).div(d)],
            ],
        )
    }
}

impl<T: Scalar> Matrix<T, 3, 3> {
    /// What is left when row `y` and column `x` are taken out.
    pub open spec fn without(self, y: int, x: int) -> Matrix<T, 2, 2> {
        Matrix(
            [
                [self.at(skip(0, y), skip(0, x)), self.at(skip(0, y), skip(1, x))],
                [self.at(skip(1, y), skip(0, x)), self.at(skip(1, y), skip(1, x))],
            ],
        )
    }

    /// The determinant, expanded along the first row: each entry of that
    /// row times the determinant of what is left without its row and column,
    /// with alternating signs.
    pub open spec fn determinant(self) -> T {
        self.without(0, 0).determinant().mul_spec(self.at(0, 0)).sub_spec(
            self.without(0, 1).determinant().mul_spec(self.at(0, 1)),
        ).add_spec(
            self.without(0, 2).determinant().mul_spec(self.at(0, 2)),
        )
    }

    /// The signed minor of the entry in row `y`, column `x`.
    pub open spec fn cofactor(self, y: int, x: int) -> T {
        if (y + x) % 2 == 0 {
            self.without(y, x).determinant()
        } else {
            self.without(y, x).determinant().neg_spec()
        }
    }

    /// The running sum that `inv` forms for its divisor, after the first
    /// `n` entries of the first row: it starts from zero, and adds or
    /// subtracts each entry times its minor.
    pub open spec fn expansion(self, n: nat) -> T
        decreases n,
    {
        if n == 0 {
            zero::<T>()
        } else {
            let term = self.at(0, n - 1).mul_spec(self.without(0, n - 1).determinant());
            if (n - 1) % 2 == 0 {
                self.expansion((n - 1) as nat).add_spec(term)
            } else {
                self.expansion((n - 1) as nat).sub_spec(term)
            }
        }
    }

    /// The matrix without row `target_y` and column `target_x`.
    pub fn minor(&self, target_y: usize, target_x: usize) -> (r: Matrix<T, 2, 2>)
        requires
            target_y < 3,
            target_x < 3,
        ensures
            r == self.without(target_y as int, target_x as int),
            forall|j: int, i: int|
                0 <= j < 2 && 0 <= i < 2 ==> #[trigger] r.at(j, i) == self.at(
                    skip(j, target_y as int),
                    skip(i, target_x as int),
                ),
    {
        let y0: usize = if target_y <= 0 { 1 } else { 0 };
        let y1: usize = if target_y <= 1 { 2 } else { 1 };
        let x0: usize = if target_x <= 0 { 1 } else { 0 };
        let x1: usize = if target_x <= 1 { 2 } else { 1 };
        Matrix(
            [
                [self.get(y0, x0), self.get(y0, x1)],
                [self.get(y1, x0), self.get(y1, x1)],
            ],
        )
    }

    /// The determinant.
    pub fn det(self) -> (d: T)
        ensures
            d == self.determinant(),
    {
        let a = self.minor(0, 0).det().mul(self.get(0, 0));
        let b = self.minor(0, 1).det().mul(self.get(0, 1));
        let c = self.minor(0, 2).det().mul(self.get(0, 2));
        a.sub(b).add(c)
    }

    /// `self` is the inverse of `m` as `inv` forms it: the transposed matrix
    /// of the cofactors of `m`, every entry divided by the first-row
    /// expansion of the determinant.
    pub open spec fn is_inverse(self, m: Self) -> bool {
        forall|j: int, i: int|
            0 <= j < 3 && 0 <= i < 3 ==> #[trigger] self.at(j, i) == m.cofactor(i, j).div_spec(
                m.expansion(3),
            )
    }

    /// The inverse: the transposed matrix of cofactors, every entry divided
    /// by the first-row expansion of the determinant. A zero determinant is
    /// not an error: each entry is whatever the number type gives for the
    /// division.
    pub fn inv(self) -> (r: Self)
        ensures
            r.is_inverse(self),
    {
        let mut determinant = T::from_int(0);
        let mut minor_dets: Matrix<T, 3, 3> = Matrix::filled(T::from_int(0));
        let mut y: usize = 0;
        while y < 3
            invariant
                y <= 3,
                determinant == (if y == 0 {
                    self.expansion(0)
                } else {
                    self.expansion(3)
                }),
                forall|j: int, i: int|
                    0 <= j < y && 0 <= i < 3 ==> #[trigger] minor_dets.at(j, i) == self.cofactor(
                        j,
                        i,
                    ),
            decreases 3 - y,
        {
            let mut x: usize = 0;
            while x < 3
                invariant
                    y < 3,
                    x <= 3,
                    determinant == (if y == 0 {
                        self.expansion(x as nat)
                    } else {
                        self.expansion(3)
                    }),
                    forall|j: int, i: int|
                        0 <= j < 3 && 0 <= i < 3 && (j < y || (j == y && i < x))
                            ==> #[trigger] minor_dets.at(j, i) == self.cofactor(j, i),
                decreases 3 - x,
            {
                let det = self.minor(y, x).det();
                if y == 0 {
                    if x % 2 == 0 {
                        determinant = determinant.add(self.get(y, x).mul(det));
                    } else {
                        determinant = determinant.sub(self.get(y, x).mul(det));
                    }
                }
                if (x + y) % 2 == 0 {
                    minor_dets.set(y, x, det);
                } else {
                    minor_dets.set(y, x, det.neg());
                }
                x += 1;
            }
            y += 1;
        }
        minor_dets.transpose().div_scalar(determinant)
    }
}

impl<T: Scalar> Matrix<T, 4, 4> {
    /// What is left when row `y` and column `x` are taken out.
    pub open spec fn without(self, y: int, x: int) -> Matrix<T, 3, 3> {
        Matrix(
            [
                [
                    self.at(skip(0, y), skip(0, x)),
                    self.at(skip(0, y), skip(1, x)),
                    self.at(skip(0, y), skip(2, x)),
                ],
                [
                    self.at(skip(1, y), skip(0, x)),
                    self.at(skip(1, y), skip(1, x)),
                    self.at(skip(1, y), skip(2, x)),
                ],
                [
                    self.at(skip(2, y), skip(0, x)),
                    self.at(skip(2, y), skip(1, x)),
                    self.at(skip(2, y), skip(2, x)),
                ],
            ],
        )
    }

    /// The determinant, expanded along the first row: each entry of that
    /// row times the determinant of what is left without its row and column,
    /// with alternating signs.
    pub open spec fn determinant(self) -> T {
        self.without(0, 0).determinant().mul_spec(self.at(0, 0)).sub_spec(
            self.without(0, 1).determinant().mul_spec(self.at(0, 1)),
        ).add_spec(
            self.without(0, 2).determinant().mul_spec(self.at(0, 2)),
        ).sub_spec(
            self.without(0, 3).determinant().mul_spec(self.at(0, 3)),
        )
    }

    /// The signed minor of the entry in row `y`, column `x`.
    pub open spec fn cofactor(self, y: int, x: int) -> T {
        if (y + x) % 2 == 0 {
            self.without(y, x).determinant()
        } else {
            self.without(y, x).determinant().neg_spec()
        }
    }

    /// The running sum that `inv` forms for its divisor, after the first
    /// `n` entries of the first row: it starts from zero, and adds or
    /// subtracts each entry times its minor.
    pub open spec fn expansion(self, n: nat) -> T
        decreases n,
    {
        if n == 0 {
            zero::<T>()
        } else {
            let term = self.at(0, n - 1).mul_spec(self.without(0, n - 1).determinant());
            if (n - 1) % 2 == 0 {
                self.expansion((n - 1) as nat).add_spec(term)
            } else {
                self.expansion((n - 1) as nat).sub_spec(term)
            }
        }
    }

    /// The matrix without row `target_y` and column `target_x`.
    pub fn minor(&self, target_y: usize, target_x: usize) -> (r: Matrix<T, 3, 3>)
        requires
            target_y < 4,
            target_x < 4,
        ensures
            r == self.without(target_y as int, target_x as int),
            forall|j: int, i: int|
                0 <= j < 3 && 0 <= i < 3 ==> #[trigger] r.at(j, i) == self.at(
                    skip(j, target_y as int),
                    skip(i, target_x as int),
                ),
    {
        let y0: usize = if target_y <= 0 { 1 } else { 0 };
        let y1: usize = if target_y <= 1 { 2 } else { 1 };
        let y2: usize = if target_y <= 2 { 3 } else { 2 };
        let x0: usize = if target_x <= 0 { 1 } else { 0 };
        let x1: usize = if target_x <= 1 { 2 } else { 1 };
        let x2: usize = if target_x <= 2 { 3 } else { 2 };
        Matrix(
            [
                [self.get(y0, x0), self.get(y0, x1), self.get(y0, x2)],
                [self.get(y1, x0), self.get(y1, x1), self.get(y1, x2)],
                [self.get(y2, x0), self.get(y2, x1), self.get(y2, x2)],
            ],
        )
    }

    /// The determinant.
    pub fn det(self) -> (d: T)
        ensures
            d == self.determinant(),
    {
        let a = self.minor(0, 0).det().mul(self.get(0, 0));
        let b = self.minor(0, 1).det().mul(self.get(0, 1));
        let c = self.minor(0, 2).det().mul(self.get(0, 2));
        let d = self.minor(0, 3).det().mul(self.get(0, 3));
        a.sub(b).add(c).sub(d)
    }

    /// `self` is the inverse of `m` as `inv` forms it: the transposed matrix
    /// of the cofactors of `m`, every entry divided by the first-row
    /// expansion of the determinant.
    pub open spec fn is_inverse(self, m: Self) -> bool {
        forall|j: int, i: int|
            0 <= j < 4 && 0 <= i < 4 ==> #[trigger] self.at(j, i) == m.cofactor(i, j).div_spec(
                m.expansion(4),
            )
    }

    /// The inverse: the transposed matrix of cofactors, every entry divided
    /// by the first-row expansion of the determinant. A zero determinant is
    /// not an error: each entry is whatever the number type gives for the
    /// division.
    pub fn inv(self) -> (r: Self)
        ensures
            r.is_inverse(self),
    {
        let mut determinant = T::from_int(0);
        let mut minor_dets: Matrix<T, 4, 4> = Matrix::filled(T::from_int(0));
        let mut y: usize = 0;
        while y < 4
            invariant
                y <= 4,
                determinant == (if y == 0 {
                    self.expansion(0)
                } else {
                    self.expansion(4)
                }),
                forall|j: int, i: int|
                    0 <= j < y && 0 <= i < 4 ==> #[trigger] minor_dets.at(j, i) == self.cofactor(
                        j,
                        i,
                    ),
            decreases 4 - y,
        {
            let mut x: usize = 0;
            while x < 4
                invariant
                    y < 4,
                    x <= 4,
                    determinant == (if y == 0 {
                        self.expansion(x as nat)
                    } else {
                        self.expansion(4)
                    }),
                    forall|j: int, i: int|
                        0 <= j < 4 && 0 <= i < 4 && (j < y || (j == y && i < x))
                            ==> #[trigger] minor_dets.at(j, i) == self.cofactor(j, i),
                decreases 4 - x,
            {
                let det = self.minor(y, x).det();
                if y == 0 {
                    if x % 2 == 0 {
                        determinant = determinant.add(self.get(y, x).mul(det));
                    } else {
                        determinant = determinant.sub(self.get(y, x).mul(det));
                    }
                }
                if (x + y) % 2 == 0 {
                    minor_dets.set(y, x, det);
                } else {
                    minor_dets.set(y, x, det.neg());
                }
                x += 1;
            }
            y += 1;
        }
        minor_dets.transpose().div_scalar(determinant)
    }
}

} // verus!
