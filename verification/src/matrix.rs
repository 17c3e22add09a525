use crate::scalar::{one, zero, Scalar};
use vstd::prelude::*;

verus! {

/// A matrix of `H` rows and `W` columns, stored row by row.
///
/// Two matrices of one shape are equal exactly when all their entries are.
#[derive(Clone, Copy, Debug, PartialEq)]
pub struct Matrix<T, const H: usize, const W: usize>(pub [[T; W]; H]);

impl<T: Scalar, const H: usize, const W: usize> Matrix<T, H, W> {
    /// The entry in row `y`, column `x`.
    pub open spec fn at(self, y: int, x: int) -> T {
        self.0[y][x]
    }

    /// The running sum that the product with `other` forms for the entry in
    /// row `y`, column `x`, after its first `n` terms.
    pub open spec fn dot_sum<const N: usize>(
        self,
        other: Matrix<T, W, N>,
        y: int,
        x: int,
        n: nat,
    ) -> T
        decreases n,
    {
        if n == 0 {
            zero::<T>()
        } else {
            self.dot_sum(other, y, x, (n - 1) as nat).add_spec(
                other.at(n - 1, x).mul_spec(self.at(y, n - 1)),
            )
        }
    }

    /// Every entry is `v`.
    pub open spec fn is_filled(self, v: T) -> bool {
        forall|j: int, i: int| 0 <= j < H && 0 <= i < W ==> #[trigger] self.at(j, i) == v
    }

    /// `self` is `a` plus `b`, entry by entry.
    pub open spec fn is_sum(self, a: Self, b: Self) -> bool {
        forall|j: int, i: int|
            0 <= j < H && 0 <= i < W ==> #[trigger] self.at(j, i) == a.at(j, i).add_spec(b.at(j, i))
    }

    /// `self` is `a` minus `b`, entry by entry.
    pub open spec fn is_difference(self, a: Self, b: Self) -> bool {
        forall|j: int, i: int|
            0 <= j < H && 0 <= i < W ==> #[trigger] self.at(j, i) == a.at(j, i).sub_spec(b.at(j, i))
    }

    /// `self` is `a` times `b`, entry by entry.
    pub open spec fn is_product(self, a: Self, b: Self) -> bool {
        forall|j: int, i: int|
            0 <= j < H && 0 <= i < W ==> #[trigger] self.at(j, i) == a.at(j, i).mul_spec(b.at(j, i))
    }

    /// `self` is `a` divided by `b`, entry by entry.
    pub open spec fn is_quotient(self, a: Self, b: Self) -> bool {
        forall|j: int, i: int|
            0 <= j < H && 0 <= i < W ==> #[trigger] self.at(j, i) == a.at(j, i).div_spec(b.at(j, i))
    }

    /// `self` is `a` with every entry negated.
    pub open spec fn is_negation(self, a: Self) -> bool {
        forall|j: int, i: int|
            0 <= j < H && 0 <= i < W ==> #[trigger] self.at(j, i) == a.at(j, i).neg_spec()
    }

    /// `self` is `a` with rows and columns exchanged.
    pub open spec fn is_transpose(self, a: Matrix<T, W, H>) -> bool {
        forall|j: int, i: int| 0 <= j < H && 0 <= i < W ==> #[trigger] self.at(j, i) == a.at(i, j)
    }

    /// `self` is the matrix product `a` times `b`.
    pub open spec fn is_dot<const K: usize>(self, a: Matrix<T, H, K>, b: Matrix<T, K, W>) -> bool {
        forall|j: int, i: int|
            0 <= j < H && 0 <= i < W ==> #[trigger] self.at(j, i) == a.dot_sum(b, j, i, K as nat)
    }

    /// Matrices of one shape with the same entries are the same matrix.
    pub proof fn lemma_equal_by_entries(self, other: Self)
        requires
            forall|j: int, i: int|
                0 <= j < H && 0 <= i < W ==> #[trigger] self.at(j, i) == other.at(j, i),
        ensures
            self == other,
    {
        assert forall|j: int| 0 <= j < H implies #[trigger] self.0[j] == other.0[j] by {
            assert forall|i: int| 0 <= i < W implies self.0[j][i] == other.0[j][i] by {
                assert(self.at(j, i) == other.at(j, i));
            }
            assert(self.0[j] =~= other.0[j]);
        }
        assert(self.0 =~= other.0);
    }

    /// The entry in row `y`, column `x`.
    pub fn get(&self, y: usize, x: usize) -> (v: T)
        requires
            y < H,
            x < W,
        ensures
            v == self.at(y as int, x as int),
    {
        self.0[y][x]
    }

    /// Replaces one entry and leaves the others as they are.
    pub fn set(&mut self, y: usize, x: usize, v: T)
        requires
            y < H,
            x < W,
        ensures
            forall|j: int, i: int|
                0 <= j < H && 0 <= i < W ==> #[trigger] final(self).at(j, i) == (if j == y && i
                    == x {
                    v
                } else {
                    old(self).at(j, i)
                }),
    {
        self.0[y][x] = v;
    }

    /// The matrix whose every entry is `v`.
    pub fn filled(v: T) -> (r: Self)
        ensures
            r.is_filled(v),
    {
        Matrix([[v; W]; H])
    }

    fn zip<F: Fn(T, T) -> T>(self, rhs: Self, f: F) -> (r: Self)
        requires
            forall|a: T, b: T| call_requires(f, (a, b)),
        ensures
            forall|j: int, i: int|
                0 <= j < H && 0 <= i < W ==> call_ensures(
                    f,
                    (self.at(j, i), rhs.at(j, i)),
                    #[trigger] r.at(j, i),
                ),
    {
        let mut out = self;
        let mut y: usize = 0;
        while y < H
            invariant
                y <= H,
                forall|a: T, b: T| call_requires(f, (a, b)),
                forall|j: int, i: int|
                    0 <= j < H && 0 <= i < W ==> if j < y {
                        call_ensures(f, (self.at(j, i), rhs.at(j, i)), #[trigger] out.at(j, i))
                    } else {
                        out.at(j, i) == self.at(j, i)
                    },
            decreases H - y,
        {
            let mut x: usize = 0;
            while x < W
                invariant
                    y < H,
                    x <= W,
                    forall|a: T, b: T| call_requires(f, (a, b)),
                    forall|j: int, i: int|
                        0 <= j < H && 0 <= i < W ==> if j < y || (j == y && i < x) {
                            call_ensures(f, (self.at(j, i), rhs.at(j, i)), #[trigger] out.at(j, i))
                        } else {
                            out.at(j, i) == self.at(j, i)
                        },
                decreases W - x,
            {
                let v = f(self.get(y, x), rhs.get(y, x));
                out.set(y, x, v);
                x += 1;
            }
            y += 1;
        }
        out
    }

    fn map<F: Fn(T) -> T>(self, f: F) -> (r: Self)
        requires
            forall|a: T| call_requires(f, (a,)),
        ensures
            forall|j: int, i: int|
                0 <= j < H && 0 <= i < W ==> call_ensures(
                    f,
                    (self.at(j, i),),
                    #[trigger] r.at(j, i),
                ),
    {
        let mut out = self;
        let mut y: usize = 0;
        while y < H
            invariant
                y <= H,
                forall|a: T| call_requires(f, (a,)),
                forall|j: int, i: int|
                    0 <= j < H && 0 <= i < W ==> if j < y {
                        call_ensures(f, (self.at(j, i),), #[trigger] out.at(j, i))
                    } else {
                        out.at(j, i) == self.at(j, i)
                    },
            decreases H - y,
        {
            let mut x: usize = 0;
            while x < W
                invariant
                    y < H,
                    x <= W,
                    forall|a: T| call_requires(f, (a,)),
                    forall|j: int, i: int|
                        0 <= j < H && 0 <= i < W ==> if j < y || (j == y && i < x) {
                            call_ensures(f, (self.at(j, i),), #[trigger] out.at(j, i))
                        } else {
                            out.at(j, i) == self.at(j, i)
                        },
                decreases W - x,
            {
                let v = f(self.get(y, x));
                out.set(y, x, v);
                x += 1;
            }
            y += 1;
        }
        out
    }

    /// The sum, entry by entry.
    pub fn add(self, rhs: Self) -> (r: Self)
        ensures
            r.is_sum(self, rhs),
    {
        self.zip(rhs, |a: T, b: T| -> (c: T) ensures c == a.add_spec(b) { a.add(b) })
    }

    /// The difference, entry by entry.
    pub fn sub(self, rhs: Self) -> (r: Self)
        ensures
            r.is_difference(self, rhs),
    {
        self.zip(rhs, |a: T, b: T| -> (c: T) ensures c == a.sub_spec(b) { a.sub(b) })
    }

    /// The product, entry by entry (not the matrix product: see `dot`).
    pub fn mul(self, rhs: Self) -> (r: Self)
        ensures
            r.is_product(self, rhs),
    {
        self.zip(rhs, |a: T, b: T| -> (c: T) ensures c == a.mul_spec(b) { a.mul(b) })
    }

    /// The quotient, entry by entry. A zero divisor is not an error: the entry is
    /// whatever the number type gives for it.
    pub fn div(self, rhs: Self) -> (r: Self)
        ensures
            r.is_quotient(self, rhs),
    {
        self.zip(rhs, |a: T, b: T| -> (c: T) ensures c == a.div_spec(b) { a.div(b) })
    }

    /// Every entry plus `rhs`.
    pub fn add_scalar(self, rhs: T) -> (r: Self)
        ensures
            forall|j: int, i: int|
                0 <= j < H && 0 <= i < W ==> #[trigger] r.at(j, i) == self.at(j, i).add_spec(rhs),
    {
        self.map(|a: T| -> (c: T) ensures c == a.add_spec(rhs) { a.add(rhs) })
    }

    /// Every entry minus `rhs`.
    pub fn sub_scalar(self, rhs: T) -> (r: Self)
        ensures
            forall|j: int, i: int|
                0 <= j < H && 0 <= i < W ==> #[trigger] r.at(j, i) == self.at(j, i).sub_spec(rhs),
    {
        self.map(|a: T| -> (c: T) ensures c == a.sub_spec(rhs) { a.sub(rhs) })
    }

    /// Every entry times `rhs`.
    pub fn mul_scalar(self, rhs: T) -> (r: Self)
        ensures
            forall|j: int, i: int|
                0 <= j < H && 0 <= i < W ==> #[trigger] r.at(j, i) == self.at(j, i).mul_spec(rhs),
    {
        self.map(|a: T| -> (c: T) ensures c == a.mul_spec(rhs) { a.mul(rhs) })
    }

    /// Every entry divided by `rhs`.
    pub fn div_scalar(self, rhs: T) -> (r: Self)
        ensures
            forall|j: int, i: int|
                0 <= j < H && 0 <= i < W ==> #[trigger] r.at(j, i) == self.at(j, i).div_spec(rhs),
    {
        self.map(|a: T| -> (c: T) ensures c == a.div_spec(rhs) { a.div(rhs) })
    }

    /// `lhs` plus every entry.
    pub fn scalar_add(lhs: T, rhs: Self) -> (r: Self)
        ensures
            forall|j: int, i: int|
                0 <= j < H && 0 <= i < W ==> #[trigger] r.at(j, i) == lhs.add_spec(rhs.at(j, i)),
    {
        rhs.map(|a: T| -> (c: T) ensures c == lhs.add_spec(a) { lhs.add(a) })
    }

    /// `lhs` minus every entry.
    pub fn scalar_sub(lhs: T, rhs: Self) -> (r: Self)
        ensures
            forall|j: int, i: int|
                0 <= j < H && 0 <= i < W ==> #[trigger] r.at(j, i) == lhs.sub_spec(rhs.at(j, i)),
    {
        rhs.map(|a: T| -> (c: T) ensures c == lhs.sub_spec(a) { lhs.sub(a) })
    }

    /// `lhs` times every entry.
    pub fn scalar_mul(lhs: T, rhs: Self) -> (r: Self)
        ensures
            forall|j: int, i: int|
                0 <= j < H && 0 <= i < W ==> #[trigger] r.at(j, i) == lhs.mul_spec(rhs.at(j, i)),
    {
        rhs.map(|a: T| -> (c: T) ensures c == lhs.mul_spec(a) { lhs.mul(a) })
    }

    /// `lhs` divided by every entry.
    pub fn scalar_div(lhs: T, rhs: Self) -> (r: Self)
        ensures
            forall|j: int, i: int|
                0 <= j < H && 0 <= i < W ==> #[trigger] r.at(j, i) == lhs.div_spec(rhs.at(j, i)),
    {
        rhs.map(|a: T| -> (c: T) ensures c == lhs.div_spec(a) { lhs.div(a) })
    }

    /// Every entry negated.
    pub fn neg(self) -> (r: Self)
        ensures
            r.is_negation(self),
    {
        self.map(|a: T| -> (c: T) ensures c == a.neg_spec() { a.neg() })
    }

    /// The matrix with rows and columns exchanged.
    pub fn transpose(self) -> (r: Matrix<T, W, H>)
        ensures
            r.is_transpose(self),
    {
        let mut out: Matrix<T, W, H> = Matrix::filled(T::from_int(0));
        let mut y: usize = 0;
        while y < H
            invariant
                y <= H,
                forall|j: int, i: int|
                    0 <= j < W && 0 <= i < y ==> #[trigger] out.at(j, i) == self.at(i, j),
            decreases H - y,
        {
            let mut x: usize = 0;
            while x < W
                invariant
                    y < H,
                    x <= W,
                    forall|j: int, i: int|
                        0 <= j < W && 0 <= i < H && (i < y || (i == y && j < x))
                            ==> #[trigger] out.at(j, i) == self.at(i, j),
                decreases W - x,
            {
                out.set(x, y, self.get(y, x));
                x += 1;
            }
            y += 1;
        }
        out
    }

    /// The matrix product `self` times `other`: the entry in row `y`, column
    /// `x` is the sum over `i` of `other[i][x] * self[y][i]`, added up from
    /// zero in the order of `i`.
    pub fn dot<const N: usize>(self, other: Matrix<T, W, N>) -> (r: Matrix<T, H, N>)
        ensures
            r.is_dot(self, other),
    {
        let mut out: Matrix<T, H, N> = Matrix::filled(T::from_int(0));
        let mut y: usize = 0;
        while y < H
            invariant
                y <= H,
                forall|j: int, i: int|
                    0 <= j < y && 0 <= i < N ==> #[trigger] out.at(j, i) == self.dot_sum(
                        other,
                        j,
                        i,
                        W as nat,
                    ),
            decreases H - y,
        {
            let mut x: usize = 0;
            while x < N
                invariant
                    y < H,
                    x <= N,
                    forall|j: int, i: int|
                        0 <= j < H && 0 <= i < N && (j < y || (j == y && i < x))
                            ==> #[trigger] out.at(j, i) == self.dot_sum(other, j, i, W as nat),
                decreases N - x,
            {
                let mut sum = T::from_int(0);
                let mut i: usize = 0;
                while i < W
                    invariant
                        y < H,
                        x < N,
                        i <= W,
                        sum == self.dot_sum(other, y as int, x as int, i as nat),
                    decreases W - i,
                {
                    sum = sum.add(other.get(i, x).mul(self.get(y, i)));
                    i += 1;
                }
                out.set(y, x, sum);
                x += 1;
            }
            y += 1;
        }
        out
    }

    /// Every entry rounded to `digits` decimal places: scaled by ten to the
    /// power `digits`, rounded to the nearest whole number, and scaled back.
    pub fn round(&self, digits: u32) -> (r: Self)
        requires
            digits <= 9,
        ensures
            forall|j: int, i: int|
                0 <= j < H && 0 <= i < W ==> #[trigger] r.at(j, i) == self.at(j, i).mul_spec(
                    T::from_int_spec(pow10(digits as nat) as u32),
                ).round_spec().div_spec(T::from_int_spec(pow10(digits as nat) as u32)),
    {
        let mult = T::from_int(ten_to(digits));
        let rounded = |a: T| -> (c: T)
            ensures
                c == a.mul_spec(mult).round_spec().div_spec(mult),
            { a.mul(mult).round().div(mult) };
        self.map(rounded)
    }

    /// The first entry of the first row.
    pub fn x(&self) -> (v: T)
        requires
            H >= 1,
            W >= 1,
        ensures
            v == self.at(0, 0),
    {
        self.0[0][0]
    }

    /// The second entry of the first row.
    pub fn y(&self) -> (v: T)
        requires
            H >= 1,
            W >= 2,
        ensures
            v == self.at(0, 1),
    {
        self.0[0][1]
    }

    /// The third entry of the first row.
    pub fn z(&self) -> (v: T)
        requires
            H >= 1,
            W >= 3,
        ensures
            v == self.at(0, 2),
    {
        self.0[0][2]
    }

    /// The fourth entry of the first row.
    pub fn w(&self) -> (v: T)
        requires
            H >= 1,
            W >= 4,
        ensures
            v == self.at(0, 3),
    {
        self.0[0][3]
    }
}

impl<T: Scalar, const H: usize, const W: usize> Default for Matrix<T, H, W> {
    /// The matrix of zeros.
    fn default() -> (r: Self)
        ensures
            r.is_filled(zero::<T>()),
    {
        Matrix::filled(T::from_int(0))
    }
}

impl<T: Scalar, const N: usize> Matrix<T, N, N> {
    /// Ones on the diagonal and zeros elsewhere.
    pub open spec fn is_identity(self) -> bool {
        forall|j: int, i: int|
            0 <= j < N && 0 <= i < N ==> #[trigger] self.at(j, i) == (if j == i {
                one::<T>()
            } else {
                zero::<T>()
            })
    }

    /// The square matrix with ones on the diagonal and zeros elsewhere.
    pub fn identity() -> (r: Self)
        ensures
            r.is_identity(),
    {
        let mut out: Self = Matrix::filled(T::from_int(0));
        let mut k: usize = 0;
        while k < N
            invariant
                k <= N,
                forall|j: int, i: int|
                    0 <= j < N && 0 <= i < N ==> #[trigger] out.at(j, i) == (if j == i && j < k {
                        one::<T>()
                    } else {
                        zero::<T>()
                    }),
            decreases N - k,
        {
            out.set(k, k, T::from_int(1));
            k += 1;
        }
        out
    }
}

/// Ten to the power `n`.
pub open spec fn pow10(n: nat) -> nat
    decreases n,
{
    if n == 0 {
        1
    } else {
        10 * pow10((n - 1) as nat)
    }
}

fn ten_to(digits: u32) -> (r: u32)
    requires
        digits <= 9,
    ensures
        r == pow10(digits as nat),
{
    let mut r: u32 = 1;
    let mut k: u32 = 0;
    proof {
        reveal_with_fuel(pow10, 10);
    }
    while k < digits
        invariant
            k <= digits <= 9,
            r == pow10(k as nat),
            r <= pow10(9),
            pow10(9) == 1_000_000_000,
        decreases digits - k,
    {
        proof {
            lemma_pow10_grows(k as nat + 1, 9);
        }
        r = r * 10;
        k += 1;
    }
    r
}

proof fn lemma_pow10_grows(a: nat, b: nat)
    requires
        a <= b,
    ensures
        pow10(a) <= pow10(b),
    decreases b,
{
    if a < b {
        lemma_pow10_grows(a, (b - 1) as nat);
    }
}

} // verus!
