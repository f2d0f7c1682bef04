//! Fixed-point numbers with a 12-bit fraction, and the 4x4 matrices of the
//! geometry engine.
use vstd::prelude::*;

verus! {

/// A number with a 12-bit fraction, held as its raw 32-bit value.
#[derive(Clone, Copy, PartialEq, Eq, Structural, Debug)]
pub struct FixedPoint(pub i32);

/// Whether a mathematical integer fits in an `i64`.
pub open spec fn fits_i64(x: int) -> bool {
    -0x8000_0000_0000_0000 <= x < 0x8000_0000_0000_0000
}

/// Whether a mathematical integer fits in an `i32`.
pub open spec fn fits_i32(x: int) -> bool {
    -0x8000_0000 <= x < 0x8000_0000
}

/// The fixed-point value of a product with a 24-bit fraction: the product
/// shifted right by 12 bits and cut to 32 bits.
pub open spec fn from_mul_spec(v: i64) -> FixedPoint {
    FixedPoint((v >> 12u64) as i32)
}

/// A command parameter read as a signed 32-bit number.
pub open spec fn param_value(v: u32) -> int {
    (v as i32) as int
}

impl FixedPoint {
    /// 1.0.
    pub fn one() -> (r: FixedPoint)
        ensures
            r.0 == 0x1000,
    {
        FixedPoint(0x1000)
    }

    /// 0.0.
    pub fn zero() -> (r: FixedPoint)
        ensures
            r.0 == 0,
    {
        FixedPoint(0)
    }

    /// Drops the 12 extra fraction bits of a product of two fixed-point
    /// numbers.
    pub fn from_mul(val: i64) -> (r: FixedPoint)
        ensures
            r == from_mul_spec(val),
    {
        FixedPoint((val >> 12u64) as i32)
    }

    /// The integer `val` as a fixed-point number (bits shifted out of the
    /// top are lost).
    pub fn from_num(val: i32) -> (r: FixedPoint)
        ensures
            r.0 == val << 12u32,
    {
        FixedPoint(val << 12u32)
    }

    /// A 10-bit signed number with a 9-bit fraction (1.0 is 0x200 of them)
    /// as a fixed-point number: its sign bit 9 is extended.
    pub fn from_frac9(val: u16) -> (r: FixedPoint)
        ensures
            r.0 == (((if (val >> 9u16) & 1 != 0 { 0xFC00u16 } else { 0u16 }) | val) as i16) as i32,
    {
        FixedPoint((if (val >> 9u16) & 0x1 != 0 { 0xFC00u16 } else { 0x0000u16 } | val) as i16 as i32)
    }

    /// A raw value with a 12-bit fraction.
    pub fn from_frac12(val: i32) -> (r: FixedPoint)
        ensures
            r.0 == val,
    {
        FixedPoint(val)
    }

    /// A number with a 6-bit fraction.
    pub fn from_frac6(val: u16) -> (r: FixedPoint)
        ensures
            r.0 == (val as i32) << 6u32,
    {
        FixedPoint((val as i32) << 6u32)
    }

    /// The integer part, as an index.
    pub fn num(&self) -> (r: usize)
        ensures
            r == (self.0 >> 12u32) as usize,
    {
        (self.0 >> 12u32) as usize
    }

    /// The raw value.
    pub fn raw(&self) -> (r: i32)
        ensures
            r == self.0,
    {
        self.0
    }

    /// The product of two fixed-point numbers, with a 24-bit fraction.
    pub fn times(self, rhs: FixedPoint) -> (r: i64)
        ensures
            r == self.0 as int * rhs.0 as int,
    {
        proof {
            lemma_i32_product_fits(self.0 as int, rhs.0 as int);
        }
        self.0 as i64 * rhs.0 as i64
    }

    /// A command parameter (read as a signed number) times `rhs`.
    pub fn param_times(lhs: u32, rhs: FixedPoint) -> (r: i64)
        ensures
            r == param_value(lhs) * rhs.0 as int,
    {
        proof {
            lemma_i32_product_fits(param_value(lhs), rhs.0 as int);
        }
        lhs as i32 as i64 * rhs.0 as i64
    }

    /// The sum of two fixed-point numbers.
    pub fn plus(self, rhs: FixedPoint) -> (r: FixedPoint)
        requires
            fits_i32(self.0 + rhs.0),
        ensures
            r.0 == self.0 + rhs.0,
    {
        FixedPoint(self.0 + rhs.0)
    }

    /// Adds `rhs` in place.
    pub fn add_assign(&mut self, rhs: FixedPoint)
        requires
            fits_i32(old(self).0 + rhs.0),
        ensures
            final(self).0 == old(self).0 + rhs.0,
    {
        self.0 = self.0 + rhs.0;
    }

    /// The negated number.
    pub fn negated(self) -> (r: FixedPoint)
        requires
            self.0 != i32::MIN,
        ensures
            r.0 == -self.0,
    {
        FixedPoint(-self.0)
    }
}

proof fn lemma_i32_product_fits(a: int, b: int)
    requires
        fits_i32(a),
        fits_i32(b),
    ensures
        -0x4000_0000_0000_0000 <= a * b <= 0x4000_0000_0000_0000,
{
    assert(-0x4000_0000_0000_0000 <= a * b <= 0x4000_0000_0000_0000) by (nonlinear_arith)
        requires
            -0x8000_0000 <= a < 0x8000_0000,
            -0x8000_0000 <= b < 0x8000_0000;
}

/// `sum_{k < n} a[k] * b[k]`.
pub open spec fn dot(a: Seq<int>, b: Seq<int>, n: nat) -> int
    decreases n,
{
    if n == 0 {
        0
    } else {
        dot(a, b, (n - 1) as nat) + a[n - 1] * b[n - 1]
    }
}

/// Whether every partial sum of `dot(a, b, n)`, added left to right, fits
/// in an `i64`.
pub open spec fn dot_fits(a: Seq<int>, b: Seq<int>, n: nat) -> bool {
    forall|m: nat| m <= n ==> fits_i64(#[trigger] dot(a, b, m))
}

/// Column `c` of a matrix as raw values.
pub open spec fn column(m: Seq<FixedPoint>, c: int) -> Seq<int> {
    seq![m[c].0 as int, m[4 + c].0 as int, m[8 + c].0 as int, m[12 + c].0 as int]
}

/// Row `r` of a command's parameter matrix with `cols` entries per row,
/// read as signed numbers.
pub open spec fn param_row(v: Seq<u32>, r: int, cols: int) -> Seq<int> {
    Seq::new(cols as nat, |k: int| param_value(v[r * cols + k]))
}

/// Entry `(r, c)` of `a * m` in fixed point, where `row` is row `r` of `a`
/// and the sum runs over its first `n` entries.
pub open spec fn product_entry(row: Seq<int>, m: Seq<FixedPoint>, c: int, n: nat) -> FixedPoint {
    from_mul_spec(dot(row, column(m, c), n) as i64)
}

/// Whether the first `rows` rows of the parameter matrix `v` (with `cols`
/// entries per row) times each column of `m` stay within `i64` while summed
/// over `n` terms.
pub open spec fn params_times_fit(v: Seq<u32>, cols: int, rows: int, m: Seq<FixedPoint>, n: nat) -> bool {
    forall|r: int, c: int|
        #![trigger param_row(v, r, cols), column(m, c)]
        0 <= r < rows && 0 <= c < 4 ==> dot_fits(param_row(v, r, cols), column(m, c), n)
}

/// A 4x4 matrix of fixed-point numbers, stored row by row.
#[derive(Clone, Copy, Debug)]
pub struct Matrix {
    pub elems: [FixedPoint; 16],
}

/// The identity matrix's entries.
pub open spec fn identity_entry(i: int) -> FixedPoint {
    if i == 0 || i == 5 || i == 10 || i == 15 {
        FixedPoint(0x1000)
    } else {
        FixedPoint(0)
    }
}

/// Row `r` of a 4x4 coefficient array.
pub open spec fn coef_row(a: Seq<i64>, r: int) -> Seq<int> {
    Seq::new(4, |k: int| a[4 * r + k] as int)
}

/// Row `r` of the coefficients times column `c` of `m`, summed over the
/// first `n` terms from left to right.
fn dot_exec(a: &[i64; 16], r: usize, m: &[FixedPoint; 16], c: usize, n: usize) -> (out: i64)
    requires
        r < 4,
        c < 4,
        n <= 4,
        forall|k: int| 0 <= k < 16 ==> fits_i32(#[trigger] a@[k] as int),
        dot_fits(coef_row(a@, r as int), column(m@, c as int), n as nat),
    ensures
        out == dot(coef_row(a@, r as int), column(m@, c as int), n as nat),
{
    let ghost sa = coef_row(a@, r as int);
    let ghost sb = column(m@, c as int);
    let mut sum: i64 = 0;
    let mut k: usize = 0;
    while k < n
        invariant
            k <= n <= 4,
            r < 4,
            c < 4,
            sa == coef_row(a@, r as int),
            sb == column(m@, c as int),
            forall|j: int| 0 <= j < 16 ==> fits_i32(#[trigger] a@[j] as int),
            dot_fits(sa, sb, n as nat),
            sum == dot(sa, sb, k as nat),
        decreases n - k,
    {
        let x = a[4 * r + k];
        let y = m[4 * k + c].0;
        proof {
            lemma_i32_product_fits(x as int, y as int);
            assert(sb[k as int] == y);
            assert(sa[k as int] == x);
            assert(fits_i64(dot(sa, sb, (k + 1) as nat)));
        }
        sum = sum + x * (y as i64);
        k = k + 1;
    }
    sum
}

/// Dot products agree when the rows agree on the terms summed.
proof fn lemma_dot_same_prefix(a: Seq<int>, a2: Seq<int>, b: Seq<int>, n: nat)
    requires
        a.len() >= n,
        a2.len() >= n,
        forall|k: int| 0 <= k < n ==> a[k] == a2[k],
    ensures
        dot(a, b, n) == dot(a2, b, n),
        dot_fits(a, b, n) == dot_fits(a2, b, n),
    decreases n,
{
    if n > 0 {
        lemma_dot_same_prefix(a, a2, b, (n - 1) as nat);
    }
    assert forall|m: nat| m <= n implies dot(a, b, m) == dot(a2, b, m) by {
        lemma_dot_prefix_eq(a, a2, b, m, n);
    }
}

proof fn lemma_dot_prefix_eq(a: Seq<int>, a2: Seq<int>, b: Seq<int>, m: nat, n: nat)
    requires
        m <= n,
        forall|k: int| 0 <= k < n ==> a[k] == a2[k],
    ensures
        dot(a, b, m) == dot(a2, b, m),
    decreases m,
{
    if m > 0 {
        lemma_dot_prefix_eq(a, a2, b, (m - 1) as nat, n);
    }
}

/// A last term with a zero coefficient adds nothing.
proof fn lemma_dot_zero_tail(a: Seq<int>, b: Seq<int>, n: nat)
    requires
        n > 0,
        a[n - 1] == 0,
    ensures
        dot(a, b, n) == dot(a, b, (n - 1) as nat),
        dot_fits(a, b, (n - 1) as nat) ==> dot_fits(a, b, n),
{
    assert(a[n - 1] * b[n - 1] == 0);
    if dot_fits(a, b, (n - 1) as nat) {
        assert forall|m: nat| m <= n implies fits_i64(#[trigger] dot(a, b, m)) by {
            if m == n {
                assert(fits_i64(dot(a, b, (n - 1) as nat)));
            }
        }
    }
}

impl Matrix {
    /// The identity matrix.
    pub fn identity() -> (r: Matrix)
        ensures
            forall|i: int| 0 <= i < 16 ==> #[trigger] r.elems@[i] == identity_entry(i),
    {
        let o = FixedPoint::one();
        let z = FixedPoint::zero();
        Matrix { elems: [o, z, z, z, z, o, z, z, z, z, o, z, z, z, z, o] }
    }

    /// Replaces the matrix by the identity; the parameters are ignored.
    pub fn set_identity(&mut self, _params: &Vec<u32>)
        ensures
            forall|i: int| 0 <= i < 16 ==> #[trigger] final(self).elems@[i] == identity_entry(i),
    {
        *self = Matrix::identity();
    }

    /// Loads 16 parameters, row by row.
    pub fn load4x4(&mut self, vec: &Vec<u32>)
        requires
            vec@.len() == 16,
        ensures
            forall|i: int| 0 <= i < 16 ==> #[trigger] final(self).elems@[i] == FixedPoint(
                vec@[i] as i32,
            ),
    {
        let mut i: usize = 0;
        while i < 16
            invariant
                i <= 16,
                vec@.len() == 16,
                forall|j: int| 0 <= j < i ==> #[trigger] self.elems@[j] == FixedPoint(vec@[j] as i32),
            decreases 16 - i,
        {
            self.elems[i] = FixedPoint(vec[i] as i32);
            i = i + 1;
        }
    }

    /// Loads 12 parameters as the first three columns of each row; the last
    /// column becomes (0, 0, 0, 1.0).
    pub fn load4x3(&mut self, vec: &Vec<u32>)
        requires
            vec@.len() == 12,
        ensures
            forall|r: int, c: int| 0 <= r < 4 && 0 <= c < 3 ==> #[trigger] final(self).elems@[r * 4
                + c] == FixedPoint(vec@[r * 3 + c] as i32),
            final(self).elems@[3] == FixedPoint(0),
            final(self).elems@[7] == FixedPoint(0),
            final(self).elems@[11] == FixedPoint(0),
            final(self).elems@[15] == FixedPoint(0x1000),
    {
        let mut row: usize = 0;
        while row < 4
            invariant
                row <= 4,
                vec@.len() == 12,
                forall|r: int, c: int| 0 <= r < row && 0 <= c < 3 ==> #[trigger] self.elems@[r * 4
                    + c] == FixedPoint(vec@[r * 3 + c] as i32),
                forall|r: int| 0 <= r < row ==> #[trigger] self.elems@[r * 4 + 3] == FixedPoint(0),
            decreases 4 - row,
        {
            let mut col: usize = 0;
            while col < 3
                invariant
                    row < 4,
                    col <= 3,
                    vec@.len() == 12,
                    forall|r: int, c: int| 0 <= r < row && 0 <= c < 3 ==> #[trigger] self.elems@[r
                        * 4 + c] == FixedPoint(vec@[r * 3 + c] as i32),
                    forall|r: int| 0 <= r < row ==> #[trigger] self.elems@[r * 4 + 3] == FixedPoint(
                        0,
                    ),
                    forall|c: int| 0 <= c < col ==> #[trigger] self.elems@[row * 4 + c] == FixedPoint(
                        vec@[row * 3 + c] as i32,
                    ),
                decreases 3 - col,
            {
                self.elems[row * 4 + col] = FixedPoint(vec[row * 3 + col] as i32);
                col = col + 1;
            }
            self.elems[row * 4 + 3] = FixedPoint::zero();
            row = row + 1;
        }
        self.elems[15] = FixedPoint::one();
        assert(self.elems@[3] == self.elems@[0int * 4 + 3]);
        assert(self.elems@[7] == self.elems@[1int * 4 + 3]);
        assert(self.elems@[11] == self.elems@[2int * 4 + 3]);
    }
}


impl Matrix {
    /// Replaces the first `rows` rows by those of `a * self` (each entry a
    /// sum of `n` products, in fixed point); the other rows are kept.
    fn mul_rows(&mut self, a: &[i64; 16], rows: usize, n: usize)
        requires
            rows <= 4,
            n <= 4,
            forall|k: int| 0 <= k < 16 ==> fits_i32(#[trigger] a@[k] as int),
            forall|r: int, c: int|
                #![trigger coef_row(a@, r), column(old(self).elems@, c)]
                0 <= r < rows && 0 <= c < 4 ==> dot_fits(coef_row(a@, r), column(old(self).elems@, c), n as nat),
        ensures
            forall|r: int, c: int|
                #![trigger final(self).elems@[4 * r + c]]
                0 <= r < rows && 0 <= c < 4 ==> final(self).elems@[4 * r + c] == product_entry(
                    coef_row(a@, r),
                    old(self).elems@,
                    c,
                    n as nat,
                ),
            forall|i: int| 4 * rows <= i < 16 ==> #[trigger] final(self).elems@[i] == old(self).elems@[i],
    {
        let old_elems = self.elems;
        let mut r: usize = 0;
        while r < rows
            invariant
                r <= rows <= 4,
                n <= 4,
                old_elems == old(self).elems,
                forall|k: int| 0 <= k < 16 ==> fits_i32(#[trigger] a@[k] as int),
                forall|rr: int, c: int|
                    #![trigger coef_row(a@, rr), column(old_elems@, c)]
                    0 <= rr < rows && 0 <= c < 4 ==> dot_fits(coef_row(a@, rr), column(old_elems@, c), n as nat),
                forall|rr: int, c: int|
                    #![trigger self.elems@[4 * rr + c]]
                    0 <= rr < r && 0 <= c < 4 ==> self.elems@[4 * rr + c] == product_entry(
                        coef_row(a@, rr),
                        old_elems@,
                        c,
                        n as nat,
                    ),
                forall|i: int| 4 * r <= i < 16 ==> #[trigger] self.elems@[i] == old_elems@[i],
            decreases rows - r,
        {
            let mut c: usize = 0;
            while c < 4
                invariant
                    r < rows <= 4,
                    c <= 4,
                    n <= 4,
                    old_elems == old(self).elems,
                    forall|k: int| 0 <= k < 16 ==> fits_i32(#[trigger] a@[k] as int),
                    forall|rr: int, cc: int|
                        #![trigger coef_row(a@, rr), column(old_elems@, cc)]
                        0 <= rr < rows && 0 <= cc < 4 ==> dot_fits(coef_row(a@, rr), column(old_elems@, cc), n as nat),
                    forall|rr: int, cc: int|
                        #![trigger self.elems@[4 * rr + cc]]
                        0 <= rr < r && 0 <= cc < 4 ==> self.elems@[4 * rr + cc] == product_entry(
                            coef_row(a@, rr),
                            old_elems@,
                            cc,
                            n as nat,
                        ),
                    forall|cc: int| 0 <= cc < c ==> #[trigger] self.elems@[4 * r + cc] == product_entry(
                        coef_row(a@, r as int),
                        old_elems@,
                        cc,
                        n as nat,
                    ),
                    forall|i: int| 4 * r + c <= i < 16 ==> #[trigger] self.elems@[i] == old_elems@[i],
                decreases 4 - c,
            {
                proof {
                    assert(dot_fits(coef_row(a@, r as int), column(old_elems@, c as int), n as nat));
                }
                let d = dot_exec(a, r, &old_elems, c, n);
                self.elems[4 * r + c] = FixedPoint::from_mul(d);
                c = c + 1;
            }
            r = r + 1;
        }
    }

    /// Multiplies by a 4x4 parameter matrix from the left: `self = vec * self`.
    pub fn mul4x4(&mut self, vec: &Vec<u32>)
        requires
            vec@.len() == 16,
            params_times_fit(vec@, 4, 4, old(self).elems@, 4),
        ensures
            forall|r: int, c: int|
                #![trigger final(self).elems@[4 * r + c]]
                0 <= r < 4 && 0 <= c < 4 ==> final(self).elems@[4 * r + c] == product_entry(
                    param_row(vec@, r, 4),
                    old(self).elems@,
                    c,
                    4,
                ),
            final(self).elems@ == mat_mul4x4(old(self).elems@, vec@),
    {
        let ghost m0 = self.elems@;
        let mut a = [0i64; 16];
        let mut i: usize = 0;
        while i < 16
            invariant
                i <= 16,
                vec@.len() == 16,
                forall|k: int| 0 <= k < i ==> #[trigger] a@[k] == param_value(vec@[k]),
                forall|k: int| 0 <= k < 16 ==> fits_i32(#[trigger] a@[k] as int),
            decreases 16 - i,
        {
            a[i] = vec[i] as i32 as i64;
            i = i + 1;
        }
        proof {
            assert forall|r: int| 0 <= r < 4 implies #[trigger] coef_row(a@, r) == param_row(vec@, r, 4) by {
                assert(coef_row(a@, r) =~= param_row(vec@, r, 4));
            }
        }
        self.mul_rows(&a, 4, 4);
        proof {
            assert forall|i: int| 0 <= i < 16 implies #[trigger] self.elems@[i] == mat_mul4x4(m0, vec@)[i] by {
                assert(i == 4 * (i / 4) + i % 4);
            }
            assert(self.elems@ =~= mat_mul4x4(m0, vec@));
        }
    }

    /// Multiplies by a 4x3 parameter matrix from the left, as a 4x4 matrix
    /// whose last column is (0, 0, 0, 1.0).
    pub fn mul4x3(&mut self, vec: &Vec<u32>)
        requires
            vec@.len() == 12,
            params_times_fit(vec@, 3, 4, old(self).elems@, 3),
            forall|c: int| 0 <= c < 4 ==> fits_i64(
                dot(param_row(vec@, 3, 3), #[trigger] column(old(self).elems@, c), 3) + 0x1000
                    * old(self).elems@[12 + c].0,
            ),
        ensures
            forall|r: int, c: int|
                #![trigger final(self).elems@[4 * r + c]]
                0 <= r < 3 && 0 <= c < 4 ==> final(self).elems@[4 * r + c] == product_entry(
                    param_row(vec@, r, 3),
                    old(self).elems@,
                    c,
                    3,
                ),
            forall|c: int|
                0 <= c < 4 ==> #[trigger] final(self).elems@[12 + c] == from_mul_spec(
                    (dot(param_row(vec@, 3, 3), column(old(self).elems@, c), 3) + 0x1000 * old(
                        self,
                    ).elems@[12 + c].0) as i64,
                ),
            final(self).elems@ == mat_mul4x3(old(self).elems@, vec@),
    {
        let ghost m0 = self.elems@;
        let mut a = [0i64; 16];
        let mut r: usize = 0;
        while r < 4
            invariant
                r <= 4,
                vec@.len() == 12,
                forall|rr: int, k: int| 0 <= rr < r && 0 <= k < 3 ==> #[trigger] a@[4 * rr + k]
                    == param_value(vec@[3 * rr + k]),
                forall|rr: int| 0 <= rr < r ==> #[trigger] a@[4 * rr + 3] == (if rr == 3 {
                    0x1000int
                } else {
                    0int
                }),
                forall|k: int| 0 <= k < 16 ==> fits_i32(#[trigger] a@[k] as int),
            decreases 4 - r,
        {
            let mut k: usize = 0;
            while k < 3
                invariant
                    r < 4,
                    k <= 3,
                    vec@.len() == 12,
                    forall|rr: int, kk: int| 0 <= rr < r && 0 <= kk < 3 ==> #[trigger] a@[4 * rr + kk]
                        == param_value(vec@[3 * rr + kk]),
                    forall|rr: int| 0 <= rr < r ==> #[trigger] a@[4 * rr + 3] == (if rr == 3 {
                        0x1000int
                    } else {
                        0int
                    }),
                    forall|kk: int| 0 <= kk < k ==> #[trigger] a@[4 * r + kk] == param_value(
                        vec@[3 * r + kk],
                    ),
                    forall|j: int| 0 <= j < 16 ==> fits_i32(#[trigger] a@[j] as int),
                decreases 3 - k,
            {
                a[4 * r + k] = vec[3 * r + k] as i32 as i64;
                k = k + 1;
            }
            a[4 * r + 3] = if r == 3 { 0x1000 } else { 0 };
            r = r + 1;
        }
        proof {
            let m = self.elems@;
            assert forall|rr: int, c: int|
                #![trigger coef_row(a@, rr), column(m, c)]
                0 <= rr < 4 && 0 <= c < 4 implies dot_fits(coef_row(a@, rr), column(m, c), 4) by {
                assert forall|k: int| 0 <= k < 3 implies coef_row(a@, rr)[k] == param_row(vec@, rr, 3)[k] by {
                    assert(a@[4 * rr + k] == param_value(vec@[3 * rr + k]));
                }
                lemma_dot_same_prefix(coef_row(a@, rr), param_row(vec@, rr, 3), column(m, c), 3);
                assert(dot_fits(param_row(vec@, rr, 3), column(m, c), 3));
                if rr < 3 {
                    assert(a@[4 * rr + 3] == 0);
                    lemma_dot_zero_tail(coef_row(a@, rr), column(m, c), 4);
                } else {
                    assert(dot(coef_row(a@, rr), column(m, c), 4) == dot(coef_row(a@, rr), column(m, c), 3)
                        + 0x1000 * m[12 + c].0);
                    assert forall|mm: nat| mm <= 4 implies fits_i64(#[trigger] dot(coef_row(a@, rr), column(m, c), mm)) by {
                        if mm < 4 {
                            assert(fits_i64(dot(coef_row(a@, rr), column(m, c), mm)));
                        }
                    }
                }
            }
        }
        let ghost m = self.elems@;
        self.mul_rows(&a, 4, 4);
        proof {
            assert forall|rr: int, c: int|
                #![trigger self.elems@[4 * rr + c]]
                0 <= rr < 3 && 0 <= c < 4 implies self.elems@[4 * rr + c] == product_entry(
                    param_row(vec@, rr, 3),
                    m,
                    c,
                    3,
                ) by {
                assert forall|k: int| 0 <= k < 3 implies coef_row(a@, rr)[k] == param_row(vec@, rr, 3)[k] by {
                    assert(a@[4 * rr + k] == param_value(vec@[3 * rr + k]));
                }
                lemma_dot_same_prefix(coef_row(a@, rr), param_row(vec@, rr, 3), column(m, c), 3);
                assert(a@[4 * rr + 3] == 0);
                lemma_dot_zero_tail(coef_row(a@, rr), column(m, c), 4);
            }
            assert forall|c: int| 0 <= c < 4 implies #[trigger] self.elems@[12 + c] == from_mul_spec(
                (dot(param_row(vec@, 3, 3), column(m, c), 3) + 0x1000 * m[12 + c].0) as i64,
            ) by {
                assert forall|k: int| 0 <= k < 3 implies coef_row(a@, 3)[k] == param_row(vec@, 3, 3)[k] by {
                    assert(a@[4 * 3 + k] == param_value(vec@[3 * 3 + k]));
                }
                lemma_dot_same_prefix(coef_row(a@, 3), param_row(vec@, 3, 3), column(m, c), 3);
                assert(self.elems@[4 * 3 + c] == product_entry(coef_row(a@, 3), m, c, 4));
            }
        }
        proof {
            assert forall|i: int| 0 <= i < 16 implies #[trigger] self.elems@[i] == mat_mul4x3(m0, vec@)[i] by {
                assert(i == 4 * (i / 4) + i % 4);
            }
            assert(self.elems@ =~= mat_mul4x3(m0, vec@));
        }
    }
}


/// Row `r` of a matrix as raw values.
pub open spec fn matrix_row(m: Seq<FixedPoint>, r: int) -> Seq<int> {
    Seq::new(4, |k: int| m[4 * r + k].0 as int)
}

/// A vector's raw values.
pub open spec fn vec4_raw(v: Vec4) -> Seq<int> {
    Seq::new(4, |k: int| v.elems@[k].0 as int)
}

/// A 4-component vector of fixed-point numbers.
#[derive(Clone, Copy, Debug)]
pub struct Vec4 {
    pub elems: [FixedPoint; 4],
}

impl Vec4 {
    pub fn new(x: FixedPoint, y: FixedPoint, z: FixedPoint, w: FixedPoint) -> (r: Vec4)
        ensures
            r.elems@ == seq![x, y, z, w],
    {
        let r = Vec4 { elems: [x, y, z, w] };
        assert(r.elems@ =~= seq![x, y, z, w]);
        r
    }
}

impl Matrix {
    /// Multiplies the upper 3x3 part by a 3x3 parameter matrix from the
    /// left; the last row is kept.
    pub fn mul3x3(&mut self, vec: &Vec<u32>)
        requires
            vec@.len() == 9,
            params_times_fit(vec@, 3, 3, old(self).elems@, 3),
        ensures
            forall|r: int, c: int|
                #![trigger final(self).elems@[4 * r + c]]
                0 <= r < 3 && 0 <= c < 4 ==> final(self).elems@[4 * r + c] == product_entry(
                    param_row(vec@, r, 3),
                    old(self).elems@,
                    c,
                    3,
                ),
            forall|i: int| 12 <= i < 16 ==> #[trigger] final(self).elems@[i] == old(self).elems@[i],
    {
        let mut a = [0i64; 16];
        let mut r: usize = 0;
        while r < 3
            invariant
                r <= 3,
                vec@.len() == 9,
                forall|rr: int, k: int| 0 <= rr < r && 0 <= k < 3 ==> #[trigger] a@[4 * rr + k]
                    == param_value(vec@[3 * rr + k]),
                forall|k: int| 0 <= k < 16 ==> fits_i32(#[trigger] a@[k] as int),
            decreases 3 - r,
        {
            let mut k: usize = 0;
            while k < 3
                invariant
                    r < 3,
                    k <= 3,
                    vec@.len() == 9,
                    forall|rr: int, kk: int| 0 <= rr < r && 0 <= kk < 3 ==> #[trigger] a@[4 * rr + kk]
                        == param_value(vec@[3 * rr + kk]),
                    forall|kk: int| 0 <= kk < k ==> #[trigger] a@[4 * r + kk] == param_value(
                        vec@[3 * r + kk],
                    ),
                    forall|j: int| 0 <= j < 16 ==> fits_i32(#[trigger] a@[j] as int),
                decreases 3 - k,
            {
                a[4 * r + k] = vec[3 * r + k] as i32 as i64;
                k = k + 1;
            }
            r = r + 1;
        }
        let ghost m = self.elems@;
        proof {
            assert forall|rr: int, c: int|
                #![trigger coef_row(a@, rr), column(m, c)]
                0 <= rr < 3 && 0 <= c < 4 implies dot_fits(coef_row(a@, rr), column(m, c), 3) by {
                assert forall|k: int| 0 <= k < 3 implies coef_row(a@, rr)[k] == param_row(vec@, rr, 3)[k] by {
                    assert(a@[4 * rr + k] == param_value(vec@[3 * rr + k]));
                }
                lemma_dot_same_prefix(coef_row(a@, rr), param_row(vec@, rr, 3), column(m, c), 3);
            }
        }
        self.mul_rows(&a, 3, 3);
        proof {
            assert forall|rr: int, c: int|
                #![trigger self.elems@[4 * rr + c]]
                0 <= rr < 3 && 0 <= c < 4 implies self.elems@[4 * rr + c] == product_entry(
                    param_row(vec@, rr, 3),
                    m,
                    c,
                    3,
                ) by {
                assert forall|k: int| 0 <= k < 3 implies coef_row(a@, rr)[k] == param_row(vec@, rr, 3)[k] by {
                    assert(a@[4 * rr + k] == param_value(vec@[3 * rr + k]));
                }
                lemma_dot_same_prefix(coef_row(a@, rr), param_row(vec@, rr, 3), column(m, c), 3);
            }
        }
    }

    /// Scales row `r` by parameter `r`, for the first three rows.
    pub fn scale(&mut self, vec: &Vec<u32>)
        requires
            vec@.len() >= 3,
        ensures
            forall|r: int, c: int|
                #![trigger final(self).elems@[4 * r + c]]
                0 <= r < 3 && 0 <= c < 4 ==> final(self).elems@[4 * r + c] == from_mul_spec(
                    (param_value(vec@[r]) * old(self).elems@[4 * r + c].0) as i64,
                ),
            forall|i: int| 12 <= i < 16 ==> #[trigger] final(self).elems@[i] == old(self).elems@[i],
    {
        let ghost m = self.elems@;
        let mut i: usize = 0;
        while i < 12
            invariant
                i <= 12,
                vec@.len() >= 3,
                forall|j: int| 0 <= j < i ==> #[trigger] self.elems@[j] == from_mul_spec(
                    (param_value(vec@[j / 4]) * m[j].0) as i64,
                ),
                forall|j: int| i <= j < 16 ==> #[trigger] self.elems@[j] == m[j],
            decreases 12 - i,
        {
            let p = FixedPoint::param_times(vec[i / 4], self.elems[i]);
            self.elems[i] = FixedPoint::from_mul(p);
            i = i + 1;
        }
        assert forall|r: int, c: int| 0 <= r < 3 && 0 <= c < 4 implies #[trigger] self.elems@[4 * r + c]
            == from_mul_spec((param_value(vec@[r]) * m[4 * r + c].0) as i64) by {
            assert((4 * r + c) / 4 == r);
        }
    }

    /// Translates by the parameter vector: adds `t * (upper 3x4 part)` to the
    /// last row.
    pub fn translate(&mut self, coords: &Vec<u32>)
        requires
            coords@.len() == 3,
            forall|c: int| 0 <= c < 4 ==> dot_fits(param_row(coords@, 0, 3), #[trigger] column(old(self).elems@, c), 3),
            forall|c: int| 0 <= c < 4 ==> fits_i32(old(self).elems@[12 + c].0 + #[trigger] product_entry(
                param_row(coords@, 0, 3),
                old(self).elems@,
                c,
                3,
            ).0),
        ensures
            forall|c: int| 0 <= c < 4 ==> #[trigger] final(self).elems@[12 + c].0 == old(self).elems@[12
                + c].0 + product_entry(param_row(coords@, 0, 3), old(self).elems@, c, 3).0,
            forall|i: int| 0 <= i < 12 ==> #[trigger] final(self).elems@[i] == old(self).elems@[i],
    {
        let ghost m = self.elems@;
        let mut a = [0i64; 16];
        a[0] = coords[0] as i32 as i64;
        a[1] = coords[1] as i32 as i64;
        a[2] = coords[2] as i32 as i64;
        proof {
            assert(forall|k: int| 0 <= k < 16 ==> fits_i32(#[trigger] a@[k] as int));
            assert(coef_row(a@, 0) =~= Seq::new(4, |k: int| if k < 3 { param_value(coords@[k]) } else { 0 }));
            assert forall|k: int| 0 <= k < 3 implies coef_row(a@, 0)[k] == param_row(coords@, 0, 3)[k] by {}
        }
        let mut c: usize = 0;
        while c < 4
            invariant
                c <= 4,
                coords@.len() == 3,
                m.len() == 16,
                forall|k: int| 0 <= k < 16 ==> fits_i32(#[trigger] a@[k] as int),
                forall|k: int| 0 <= k < 3 ==> coef_row(a@, 0)[k] == #[trigger] param_row(coords@, 0, 3)[k],
                forall|cc: int| 0 <= cc < 4 ==> dot_fits(param_row(coords@, 0, 3), #[trigger] column(m, cc), 3),
                forall|cc: int| 0 <= cc < 4 ==> fits_i32(m[12 + cc].0 + #[trigger] product_entry(
                    param_row(coords@, 0, 3),
                    m,
                    cc,
                    3,
                ).0),
                forall|i: int| 0 <= i < 12 ==> #[trigger] self.elems@[i] == m[i],
                forall|cc: int| 0 <= cc < c ==> #[trigger] self.elems@[12 + cc].0 == m[12 + cc].0
                    + product_entry(param_row(coords@, 0, 3), m, cc, 3).0,
                forall|cc: int| c <= cc < 4 ==> #[trigger] self.elems@[12 + cc] == m[12 + cc],
            decreases 4 - c,
        {
            proof {
                lemma_dot_column_prefix(param_row(coords@, 0, 3), self.elems@, m, c as int);
                lemma_dot_same_prefix(
                    coef_row(a@, 0),
                    param_row(coords@, 0, 3),
                    column(self.elems@, c as int),
                    3,
                );
            }
            let d = dot_exec(&a, 0, &self.elems, c, 3);
            let t = FixedPoint::from_mul(d);
            let cur = self.elems[12 + c];
            assert(t == product_entry(param_row(coords@, 0, 3), m, c as int, 3));
            assert(cur == m[12 + c as int]);
            self.elems[12 + c] = cur.plus(t);
            c = c + 1;
        }
    }

    /// `self * v`: each component is a column of the matrix dotted with the
    /// vector, in fixed point.
    pub fn mul_vec4(&self, v: Vec4) -> (r: Vec4)
        requires
            forall|c: int| 0 <= c < 4 ==> dot_fits(#[trigger] column(self.elems@, c), vec4_raw(v), 4),
        ensures
            forall|c: int| 0 <= c < 4 ==> #[trigger] r.elems@[c] == from_mul_spec(
                dot(column(self.elems@, c), vec4_raw(v), 4) as i64,
            ),
    {
        let mut out = [FixedPoint(0); 4];
        let mut c: usize = 0;
        while c < 4
            invariant
                c <= 4,
                forall|cc: int| 0 <= cc < 4 ==> dot_fits(#[trigger] column(self.elems@, cc), vec4_raw(v), 4),
                forall|cc: int| 0 <= cc < c ==> #[trigger] out@[cc] == from_mul_spec(
                    dot(column(self.elems@, cc), vec4_raw(v), 4) as i64,
                ),
            decreases 4 - c,
        {
            let ghost col = column(self.elems@, c as int);
            let ghost vr = vec4_raw(v);
            let mut sum: i64 = 0;
            let mut k: usize = 0;
            while k < 4
                invariant
                    c < 4,
                    k <= 4,
                    col == column(self.elems@, c as int),
                    vr == vec4_raw(v),
                    dot_fits(col, vr, 4),
                    sum == dot(col, vr, k as nat),
                decreases 4 - k,
            {
                let p = self.elems[4 * k + c].times(v.elems[k]);
                proof {
                    assert(col[k as int] == self.elems@[4 * k + c].0);
                    assert(vr[k as int] == v.elems@[k as int].0);
                    assert(fits_i64(dot(col, vr, (k + 1) as nat)));
                }
                sum = sum + p;
                k = k + 1;
            }
            out[c] = FixedPoint::from_mul(sum);
            c = c + 1;
        }
        Vec4 { elems: out }
    }

    /// `self * rhs` (the left factor's raw values are the parameters).
    pub fn times(self, rhs: Matrix) -> (r: Matrix)
        requires
            forall|rr: int, c: int|
                #![trigger matrix_row(self.elems@, rr), column(rhs.elems@, c)]
                0 <= rr < 4 && 0 <= c < 4 ==> dot_fits(matrix_row(self.elems@, rr), column(rhs.elems@, c), 4),
        ensures
            forall|rr: int, c: int|
                #![trigger r.elems@[4 * rr + c]]
                0 <= rr < 4 && 0 <= c < 4 ==> r.elems@[4 * rr + c] == product_entry(
                    matrix_row(self.elems@, rr),
                    rhs.elems@,
                    c,
                    4,
                ),
    {
        let mut a = [0i64; 16];
        let mut i: usize = 0;
        while i < 16
            invariant
                i <= 16,
                forall|k: int| 0 <= k < i ==> #[trigger] a@[k] == self.elems@[k].0,
                forall|k: int| 0 <= k < 16 ==> fits_i32(#[trigger] a@[k] as int),
            decreases 16 - i,
        {
            a[i] = self.elems[i].0 as i64;
            i = i + 1;
        }
        proof {
            assert forall|rr: int| 0 <= rr < 4 implies #[trigger] coef_row(a@, rr) == matrix_row(self.elems@, rr) by {
                assert(coef_row(a@, rr) =~= matrix_row(self.elems@, rr));
            }
        }
        let mut out = rhs;
        out.mul_rows(&a, 4, 4);
        out
    }

    /// Entry `index` of the matrix.
    pub fn index(&self, index: usize) -> (r: FixedPoint)
        requires
            index < 16,
        ensures
            r == self.elems@[index as int],
    {
        self.elems[index]
    }
}

proof fn lemma_dot_column_prefix(a: Seq<int>, m1: Seq<FixedPoint>, m2: Seq<FixedPoint>, c: int)
    requires
        0 <= c < 4,
        m1.len() == 16,
        m2.len() == 16,
        forall|i: int| 0 <= i < 12 ==> m1[i] == m2[i],
    ensures
        dot(a, column(m1, c), 3) == dot(a, column(m2, c), 3),
        dot_fits(a, column(m1, c), 3) == dot_fits(a, column(m2, c), 3),
{
    let b1 = column(m1, c);
    let b2 = column(m2, c);
    assert(dot(a, b1, 0) == dot(a, b2, 0));
    assert(dot(a, b1, 1) == dot(a, b2, 1));
    assert(dot(a, b1, 2) == dot(a, b2, 2));
    assert(dot(a, b1, 3) == dot(a, b2, 3));
    assert forall|m: nat| m <= 3 implies dot(a, b1, m) == dot(a, b2, m) by {
        if m == 0 {} else if m == 1 {} else if m == 2 {} else {}
    }
}


/// The identity matrix.
pub open spec fn mat_identity() -> Seq<FixedPoint> {
    Seq::new(16, |i: int| identity_entry(i))
}

/// The matrix loaded from 16 parameters.
pub open spec fn mat_load4x4(v: Seq<u32>) -> Seq<FixedPoint> {
    Seq::new(16, |i: int| FixedPoint(v[i] as i32))
}

/// The matrix loaded from 12 parameters (a 4x3 matrix with last column
/// (0, 0, 0, 1.0)).
pub open spec fn mat_load4x3(v: Seq<u32>) -> Seq<FixedPoint> {
    Seq::new(
        16,
        |i: int|
            if i % 4 < 3 {
                FixedPoint(v[(i / 4) * 3 + i % 4] as i32)
            } else if i == 15 {
                FixedPoint(0x1000)
            } else {
                FixedPoint(0)
            },
    )
}

/// `v * m` for a 4x4 parameter matrix `v`.
pub open spec fn mat_mul4x4(m: Seq<FixedPoint>, v: Seq<u32>) -> Seq<FixedPoint> {
    Seq::new(16, |i: int| product_entry(param_row(v, i / 4, 4), m, i % 4, 4))
}

/// `v * m` for a 4x3 parameter matrix `v` extended by the column
/// (0, 0, 0, 1.0).
pub open spec fn mat_mul4x3(m: Seq<FixedPoint>, v: Seq<u32>) -> Seq<FixedPoint> {
    Seq::new(
        16,
        |i: int|
            if i < 12 {
                product_entry(param_row(v, i / 4, 3), m, i % 4, 3)
            } else {
                from_mul_spec(
                    (dot(param_row(v, 3, 3), column(m, i % 4), 3) + 0x1000 * m[12 + i % 4].0) as i64,
                )
            },
    )
}

/// `v * m` on the upper 3x3 part for a 3x3 parameter matrix `v`.
pub open spec fn mat_mul3x3(m: Seq<FixedPoint>, v: Seq<u32>) -> Seq<FixedPoint> {
    Seq::new(
        16,
        |i: int|
            if i < 12 {
                product_entry(param_row(v, i / 4, 3), m, i % 4, 3)
            } else {
                m[i]
            },
    )
}

/// `m` with its first three rows scaled by the three parameters.
pub open spec fn mat_scale(m: Seq<FixedPoint>, v: Seq<u32>) -> Seq<FixedPoint> {
    Seq::new(
        16,
        |i: int|
            if i < 12 {
                from_mul_spec((param_value(v[i / 4]) * m[i].0) as i64)
            } else {
                m[i]
            },
    )
}

/// `m` translated by the three parameters.
pub open spec fn mat_translate(m: Seq<FixedPoint>, v: Seq<u32>) -> Seq<FixedPoint> {
    Seq::new(
        16,
        |i: int|
            if i < 12 {
                m[i]
            } else {
                FixedPoint((m[i].0 + product_entry(param_row(v, 0, 3), m, i - 12, 3).0) as i32)
            },
    )
}

/// `a * b` with the raw values of `a` as the left factor.
pub open spec fn mat_times(a: Seq<FixedPoint>, b: Seq<FixedPoint>) -> Seq<FixedPoint> {
    Seq::new(16, |i: int| product_entry(matrix_row(a, i / 4), b, i % 4, 4))
}

/// Whether `mat_times(a, b)` can be computed without overflow.
pub open spec fn times_ok(a: Seq<FixedPoint>, b: Seq<FixedPoint>) -> bool {
    forall|rr: int, c: int|
        #![trigger matrix_row(a, rr), column(b, c)]
        0 <= rr < 4 && 0 <= c < 4 ==> dot_fits(matrix_row(a, rr), column(b, c), 4)
}

/// The matrix operations of the geometry commands.
#[derive(Clone, Copy, PartialEq, Eq, Structural, Debug)]
pub enum MatrixOp {
    Identity,
    Load4x4,
    Load4x3,
    Mult4x4,
    Mult4x3,
    Mult3x3,
    Scale,
    Translate,
}

/// The matrix `op` makes of `m` with parameters `v`.
pub open spec fn op_result(op: MatrixOp, m: Seq<FixedPoint>, v: Seq<u32>) -> Seq<FixedPoint> {
    match op {
        MatrixOp::Identity => mat_identity(),
        MatrixOp::Load4x4 => mat_load4x4(v),
        MatrixOp::Load4x3 => mat_load4x3(v),
        MatrixOp::Mult4x4 => mat_mul4x4(m, v),
        MatrixOp::Mult4x3 => mat_mul4x3(m, v),
        MatrixOp::Mult3x3 => mat_mul3x3(m, v),
        MatrixOp::Scale => mat_scale(m, v),
        MatrixOp::Translate => mat_translate(m, v),
    }
}

/// Whether `op` can be applied to `m` with parameters `v`: the parameter
/// count is right and no sum overflows.
pub open spec fn op_ok(op: MatrixOp, m: Seq<FixedPoint>, v: Seq<u32>) -> bool {
    match op {
        MatrixOp::Identity => true,
        MatrixOp::Load4x4 => v.len() == 16,
        MatrixOp::Load4x3 => v.len() == 12,
        MatrixOp::Mult4x4 => v.len() == 16 && params_times_fit(v, 4, 4, m, 4),
        MatrixOp::Mult4x3 => v.len() == 12 && params_times_fit(v, 3, 4, m, 3) && forall|c: int|
            0 <= c < 4 ==> fits_i64(
                dot(param_row(v, 3, 3), #[trigger] column(m, c), 3) + 0x1000 * m[12 + c].0,
            ),
        MatrixOp::Mult3x3 => v.len() == 9 && params_times_fit(v, 3, 3, m, 3),
        MatrixOp::Scale => v.len() >= 3,
        MatrixOp::Translate => v.len() == 3 && (forall|c: int|
            0 <= c < 4 ==> dot_fits(param_row(v, 0, 3), #[trigger] column(m, c), 3)) && (forall|c: int|
            0 <= c < 4 ==> fits_i32(m[12 + c].0 + #[trigger] product_entry(param_row(v, 0, 3), m, c, 3).0)),
    }
}

impl Matrix {
    /// Applies a matrix operation with parameters `params`.
    pub fn apply(&mut self, op: MatrixOp, params: &Vec<u32>)
        requires
            op_ok(op, old(self).elems@, params@),
        ensures
            final(self).elems@ == op_result(op, old(self).elems@, params@),
    {
        let ghost m = self.elems@;
        match op {
            MatrixOp::Identity => {
                self.set_identity(params);
                assert(self.elems@ =~= mat_identity());
            },
            MatrixOp::Load4x4 => {
                self.load4x4(params);
                assert(self.elems@ =~= mat_load4x4(params@));
            },
            MatrixOp::Load4x3 => {
                self.load4x3(params);
                assert forall|i: int| 0 <= i < 16 implies #[trigger] self.elems@[i] == mat_load4x3(params@)[i] by {
                    let r = i / 4;
                    let c = i % 4;
                    assert(i == r * 4 + c);
                }
                assert(self.elems@ =~= mat_load4x3(params@));
            },
            MatrixOp::Mult4x4 => {
                self.mul4x4(params);
                assert forall|i: int| 0 <= i < 16 implies #[trigger] self.elems@[i] == mat_mul4x4(m, params@)[i] by {
                    let r = i / 4;
                    let c = i % 4;
                    assert(i == 4 * r + c);
                }
                assert(self.elems@ =~= mat_mul4x4(m, params@));
            },
            MatrixOp::Mult4x3 => {
                self.mul4x3(params);
                assert forall|i: int| 0 <= i < 16 implies #[trigger] self.elems@[i] == mat_mul4x3(m, params@)[i] by {
                    let r = i / 4;
                    let c = i % 4;
                    assert(i == 4 * r + c);
                    if i >= 12 {
                        assert(i == 12 + c);
                    }
                }
                assert(self.elems@ =~= mat_mul4x3(m, params@));
            },
            MatrixOp::Mult3x3 => {
                self.mul3x3(params);
                assert forall|i: int| 0 <= i < 16 implies #[trigger] self.elems@[i] == mat_mul3x3(m, params@)[i] by {
                    let r = i / 4;
                    let c = i % 4;
                    assert(i == 4 * r + c);
                }
                assert(self.elems@ =~= mat_mul3x3(m, params@));
            },
            MatrixOp::Scale => {
                self.scale(params);
                assert forall|i: int| 0 <= i < 16 implies #[trigger] self.elems@[i] == mat_scale(m, params@)[i] by {
                    let r = i / 4;
                    let c = i % 4;
                    assert(i == 4 * r + c);
                }
                assert(self.elems@ =~= mat_scale(m, params@));
            },
            MatrixOp::Translate => {
                self.translate(params);
                assert forall|i: int| 0 <= i < 16 implies #[trigger] self.elems@[i] == mat_translate(m, params@)[i] by {
                    if i >= 12 {
                        let c = i - 12;
                        assert(self.elems@[12 + c].0 == m[12 + c].0 + product_entry(param_row(params@, 0, 3), m, c, 3).0);
                    }
                }
                assert(self.elems@ =~= mat_translate(m, params@));
            },
        }
    }

    /// `self * rhs`, as a whole matrix.
    pub fn product(self, rhs: Matrix) -> (r: Matrix)
        requires
            times_ok(self.elems@, rhs.elems@),
        ensures
            r.elems@ == mat_times(self.elems@, rhs.elems@),
    {
        let r = self.times(rhs);
        assert forall|i: int| 0 <= i < 16 implies #[trigger] r.elems@[i] == mat_times(self.elems@, rhs.elems@)[i] by {
            let rr = i / 4;
            let c = i % 4;
            assert(i == 4 * rr + c);
        }
        assert(r.elems@ =~= mat_times(self.elems@, rhs.elems@));
        r
    }
}

/// One entry of the identity times `m`: row `rr` of the identity picks
/// entry `c` of row `rr` of `m`, scaled by one.
proof fn lemma_identity_dot(m: Seq<FixedPoint>, rr: int, c: int)
    requires
        m.len() == 16,
        0 <= rr < 4,
        0 <= c < 4,
    ensures
        dot(matrix_row(mat_identity(), rr), column(m, c), 4) == 0x1000 * m[4 * rr + c].0,
        dot_fits(matrix_row(mat_identity(), rr), column(m, c), 4),
{
    let a = matrix_row(mat_identity(), rr);
    let b = column(m, c);
    assert forall|k: int| 0 <= k < 4 implies fits_i32(#[trigger] b[k]) by {}
    assert(a[0] == if rr == 0 { 0x1000int } else { 0int });
    assert(a[1] == if rr == 1 { 0x1000int } else { 0int });
    assert(a[2] == if rr == 2 { 0x1000int } else { 0int });
    assert(a[3] == if rr == 3 { 0x1000int } else { 0int });
    let p0 = a[0] * b[0];
    let p1 = a[1] * b[1];
    let p2 = a[2] * b[2];
    let p3 = a[3] * b[3];
    assert(dot(a, b, 0) == 0);
    assert(dot(a, b, 1) == p0);
    assert(dot(a, b, 2) == p0 + p1);
    assert(dot(a, b, 3) == p0 + p1 + p2);
    assert(dot(a, b, 4) == p0 + p1 + p2 + p3);
    assert(-0x8000_0000_0000 <= p0 <= 0x8000_0000_0000 && -0x8000_0000_0000 <= p1 <= 0x8000_0000_0000
        && -0x8000_0000_0000 <= p2 <= 0x8000_0000_0000 && -0x8000_0000_0000 <= p3 <= 0x8000_0000_0000);
    assert forall|mm: nat| mm <= 4 implies fits_i64(#[trigger] dot(a, b, mm)) by {
        if mm == 0 {
        } else if mm == 1 {
        } else if mm == 2 {
        } else if mm == 3 {
        } else {
        }
    }
    assert(b[rr] == m[4 * rr + c].0);
}

/// Multiplying by the identity from the left leaves a matrix unchanged.
pub proof fn lemma_identity_times(m: Seq<FixedPoint>)
    requires
        m.len() == 16,
    ensures
        times_ok(mat_identity(), m),
        mat_times(mat_identity(), m) == m,
{
    let id = mat_identity();
    assert forall|rr: int, c: int| 0 <= rr < 4 && 0 <= c < 4 implies dot(matrix_row(id, rr), column(m, c), 4)
        == 0x1000 * m[4 * rr + c].0 && dot_fits(matrix_row(id, rr), column(m, c), 4) by {
        lemma_identity_dot(m, rr, c);
    }
    assert forall|i: int| 0 <= i < 16 implies #[trigger] mat_times(id, m)[i] == m[i] by {
        let rr = i / 4;
        let c = i % 4;
        assert(i == 4 * rr + c);
        lemma_from_mul_one(m[i].0);
    }
    assert(mat_times(id, m) =~= m);
}

/// A raw value scaled by 1.0 into the product format and back is itself.
proof fn lemma_from_mul_one(x: i32)
    ensures
        from_mul_spec((0x1000 * x) as i64) == FixedPoint(x),
{
    let d = (0x1000 * x) as i64;
    assert(((d >> 12u64) as i32) == x) by (bit_vector)
        requires
            d == (0x1000 * x) as i64;
}

/// One entry of `m` times the identity: column `c` of the identity picks
/// entry `c` of row `rr` of `m`, scaled by one.
proof fn lemma_dot_identity_column(m: Seq<FixedPoint>, rr: int, c: int)
    requires
        m.len() == 16,
        0 <= rr < 4,
        0 <= c < 4,
    ensures
        dot(matrix_row(m, rr), column(mat_identity(), c), 4) == 0x1000 * m[4 * rr + c].0,
        dot_fits(matrix_row(m, rr), column(mat_identity(), c), 4),
{
    let a = matrix_row(m, rr);
    let b = column(mat_identity(), c);
    assert forall|k: int| 0 <= k < 4 implies fits_i32(#[trigger] a[k]) by {}
    assert(b[0] == if c == 0 { 0x1000int } else { 0int });
    assert(b[1] == if c == 1 { 0x1000int } else { 0int });
    assert(b[2] == if c == 2 { 0x1000int } else { 0int });
    assert(b[3] == if c == 3 { 0x1000int } else { 0int });
    let p0 = a[0] * b[0];
    let p1 = a[1] * b[1];
    let p2 = a[2] * b[2];
    let p3 = a[3] * b[3];
    assert(dot(a, b, 0) == 0);
    assert(dot(a, b, 1) == p0);
    assert(dot(a, b, 2) == p0 + p1);
    assert(dot(a, b, 3) == p0 + p1 + p2);
    assert(dot(a, b, 4) == p0 + p1 + p2 + p3);
    assert(-0x8000_0000_0000 <= p0 <= 0x8000_0000_0000 && -0x8000_0000_0000 <= p1 <= 0x8000_0000_0000
        && -0x8000_0000_0000 <= p2 <= 0x8000_0000_0000 && -0x8000_0000_0000 <= p3 <= 0x8000_0000_0000);
    assert forall|mm: nat| mm <= 4 implies fits_i64(#[trigger] dot(a, b, mm)) by {
        if mm == 0 {
        } else if mm == 1 {
        } else if mm == 2 {
        } else if mm == 3 {
        } else {
        }
    }
    assert(a[c] == m[4 * rr + c].0);
}

/// Multiplying by the identity from the right leaves a matrix unchanged.
pub proof fn lemma_times_identity(m: Seq<FixedPoint>)
    requires
        m.len() == 16,
    ensures
        times_ok(m, mat_identity()),
        mat_times(m, mat_identity()) == m,
{
    let id = mat_identity();
    assert forall|rr: int, c: int| 0 <= rr < 4 && 0 <= c < 4 implies dot(matrix_row(m, rr), column(id, c), 4)
        == 0x1000 * m[4 * rr + c].0 && dot_fits(matrix_row(m, rr), column(id, c), 4) by {
        lemma_dot_identity_column(m, rr, c);
    }
    assert forall|i: int| 0 <= i < 16 implies #[trigger] mat_times(m, id)[i] == m[i] by {
        let rr = i / 4;
        let c = i % 4;
        assert(i == 4 * rr + c);
        lemma_from_mul_one(m[i].0);
    }
    assert(mat_times(m, id) =~= m);
}

/// The parameters of the identity matrix: 1.0 on the diagonal.
pub open spec fn identity_params() -> Seq<u32> {
    Seq::new(16, |i: int| if i % 5 == 0 { 0x1000u32 } else { 0u32 })
}

/// Entry `i` of the identity's parameters, read as a number, is the raw
/// identity entry.
proof fn lemma_identity_param(i: int)
    requires
        0 <= i < 16,
    ensures
        param_value(identity_params()[i]) == identity_entry(i).0 as int,
{
    if i == 0 || i == 5 || i == 10 || i == 15 {
        assert(identity_params()[i] == 0x1000u32);
    } else {
        assert(i % 5 != 0);
        assert(identity_params()[i] == 0u32);
    }
}

/// Row `r` of the identity's parameters is row `r` of the identity.
proof fn lemma_identity_param_row(r: int)
    requires
        0 <= r < 4,
    ensures
        param_row(identity_params(), r, 4) == matrix_row(mat_identity(), r),
{
    assert forall|k: int| 0 <= k < 4 implies param_row(identity_params(), r, 4)[k] == matrix_row(
        mat_identity(),
        r,
    )[k] by {
        assert(r * 4 + k == 4 * r + k);
        lemma_identity_param(4 * r + k);
    }
    assert(param_row(identity_params(), r, 4) =~= matrix_row(mat_identity(), r));
}

/// Multiplying a matrix by the identity's parameters (as `mul4x4` does)
/// leaves it unchanged, and cannot overflow.
pub proof fn lemma_mul4x4_identity(m: Seq<FixedPoint>)
    requires
        m.len() == 16,
    ensures
        params_times_fit(identity_params(), 4, 4, m, 4),
        mat_mul4x4(m, identity_params()) == m,
{
    let v = identity_params();
    assert forall|r: int, c: int| 0 <= r < 4 && 0 <= c < 4 implies dot_fits(
        #[trigger] param_row(v, r, 4),
        #[trigger] column(m, c),
        4,
    ) by {
        lemma_identity_param_row(r);
        lemma_identity_dot(m, r, c);
    }
    assert forall|i: int| 0 <= i < 16 implies #[trigger] mat_mul4x4(m, v)[i] == m[i] by {
        let r = i / 4;
        let c = i % 4;
        assert(i == 4 * r + c);
        lemma_identity_param_row(r);
        lemma_identity_dot(m, r, c);
        lemma_from_mul_one(m[i].0);
    }
    assert(mat_mul4x4(m, v) =~= m);
}

/// A 4x3 parameter matrix extended to 4x4 by the column (0, 0, 0, 1.0).
pub open spec fn extend4x3(v: Seq<u32>) -> Seq<u32> {
    Seq::new(
        16,
        |i: int|
            if i % 4 < 3 {
                v[(i / 4) * 3 + i % 4]
            } else if i == 15 {
                0x1000u32
            } else {
                0u32
            },
    )
}

/// Multiplying by a 4x3 parameter matrix is multiplying by the 4x4 matrix
/// it extends to with the column (0, 0, 0, 1.0).
pub proof fn lemma_mul4x3_is_mul4x4(m: Seq<FixedPoint>, v: Seq<u32>)
    requires
        m.len() == 16,
        v.len() == 12,
    ensures
        mat_mul4x3(m, v) == mat_mul4x4(m, extend4x3(v)),
{
    let w = extend4x3(v);
    assert forall|i: int| 0 <= i < 16 implies #[trigger] mat_mul4x3(m, v)[i] == mat_mul4x4(m, w)[i] by {
        let r = i / 4;
        let c = i % 4;
        let row4 = param_row(w, r, 4);
        let row3 = param_row(v, r, 3);
        let col = column(m, c);
        assert forall|k: int| 0 <= k < 3 implies row4[k] == row3[k] by {
            assert((r * 4 + k) % 4 == k && (r * 4 + k) / 4 == r);
        }
        lemma_dot_same_prefix(row4, row3, col, 3);
        assert(w[r * 4 + 3] == if r == 3 { 0x1000u32 } else { 0u32 });
        assert(row4[3] == if r == 3 { 0x1000int } else { 0int });
        assert(dot(row4, col, 4) == dot(row4, col, 3) + row4[3] * col[3]);
        assert(col[3] == m[12 + c].0);
    }
    assert(mat_mul4x3(m, v) =~= mat_mul4x4(m, w));
}

/// Three fixed-point numbers as raw values.
pub open spec fn vec3_raw(v: Seq<FixedPoint>) -> Seq<int> {
    seq![v[0].0 as int, v[1].0 as int, v[2].0 as int]
}

/// Whether `m * v` for a 3-vector (the upper 3x3 part of `m`) can be summed
/// without overflow.
pub open spec fn mul_vec3_ok(m: Seq<FixedPoint>, v: Seq<FixedPoint>) -> bool {
    forall|c: int| 0 <= c < 3 ==> dot_fits(#[trigger] column(m, c), vec3_raw(v), 3)
}

/// `m * v` for a 3-vector, using the upper 3x3 part of `m`.
pub open spec fn mat_vec3(m: Seq<FixedPoint>, v: Seq<FixedPoint>) -> Seq<FixedPoint> {
    Seq::new(3, |c: int| from_mul_spec(dot(column(m, c), vec3_raw(v), 3) as i64))
}

impl Matrix {
    /// `self * v` for a direction: each component is a column of the upper
    /// 3x3 part dotted with `v`, in fixed point.
    pub fn mul_vec3(&self, v: [FixedPoint; 3]) -> (r: [FixedPoint; 3])
        requires
            mul_vec3_ok(self.elems@, v@),
        ensures
            r@ == mat_vec3(self.elems@, v@),
    {
        let mut out = [FixedPoint(0); 3];
        let mut c: usize = 0;
        while c < 3
            invariant
                c <= 3,
                mul_vec3_ok(self.elems@, v@),
                forall|cc: int| 0 <= cc < c ==> #[trigger] out@[cc] == mat_vec3(self.elems@, v@)[cc],
            decreases 3 - c,
        {
            let ghost col = column(self.elems@, c as int);
            let ghost vr = vec3_raw(v@);
            assert(dot_fits(col, vr, 3));
            let mut sum: i64 = 0;
            let mut k: usize = 0;
            while k < 3
                invariant
                    c < 3,
                    k <= 3,
                    col == column(self.elems@, c as int),
                    vr == vec3_raw(v@),
                    dot_fits(col, vr, 3),
                    sum == dot(col, vr, k as nat),
                decreases 3 - k,
            {
                let p = self.elems[4 * k + c].times(v[k]);
                proof {
                    assert(col[k as int] == self.elems@[4 * k + c].0);
                    assert(vr[k as int] == v@[k as int].0);
                    assert(fits_i64(dot(col, vr, (k + 1) as nat)));
                }
                sum = sum + p;
                k = k + 1;
            }
            out[c] = FixedPoint::from_mul(sum);
            c = c + 1;
        }
        assert(out@ =~= mat_vec3(self.elems@, v@));
        out
    }
}

} // verus!
