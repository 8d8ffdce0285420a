use crate::{evaluable, Index, MatrixError, MatrixShape};
use vstd::prelude::*;

verus! {

/// A dense matrix: its dimensions and a row-major buffer of `rows * cols`
/// scalars.
#[derive(Debug, Clone)]
pub struct Matrix<T> {
    pub(crate) rows: Index,
    pub(crate) cols: Index,
    pub(crate) data: Vec<T>,
}

/// Relies on `num_traits::Zero::zero`, for the scalar type's additive
/// identity.
#[verifier::external_body]
fn zero_scalar<T: num_traits::Zero>() -> T {
    T::zero()
}

/// Relies on `rand::random`, which draws a value from the thread-local
/// generator; nothing is known of the value drawn.
pub assume_specification<T>[ rand::random::<T> ]() -> T
    where
        rand::distributions::Standard: rand::distributions::Distribution<T>,
;

/// Whether `rows * cols` is an element count that a dense buffer can hold.
pub open spec fn valid_dims(rows: Index, cols: Index) -> bool {
    0 <= rows * cols <= isize::MAX
}

/// `rows * cols`, computed without overflow.
fn element_count(rows: Index, cols: Index) -> (n: i128)
    ensures
        n == rows * cols,
{
    proof {
        let (r, c) = (rows as int, cols as int);
        assert(-0x8000_0000_0000_0000 <= r <= 0x7fff_ffff_ffff_ffff);
        assert(-0x8000_0000_0000_0000 <= c <= 0x7fff_ffff_ffff_ffff);
        assert(-0x4000_0000_0000_0000_0000_0000_0000_0000 <= r * c
            <= 0x4000_0000_0000_0000_0000_0000_0000_0000) by (nonlinear_arith)
            requires
                -0x8000_0000_0000_0000 <= r <= 0x7fff_ffff_ffff_ffff,
                -0x8000_0000_0000_0000 <= c <= 0x7fff_ffff_ffff_ffff,
        ;
    }
    rows as i128 * cols as i128
}

impl<T> Matrix<T> {
    pub closed spec fn num_rows(&self) -> Index {
        self.rows
    }

    pub closed spec fn num_cols(&self) -> Index {
        self.cols
    }

    /// The buffer, row-major.
    pub closed spec fn values(&self) -> Seq<T> {
        self.data@
    }
}

impl<T: Copy> Matrix<T> {
    /// A `rows` by `cols` matrix filled with the scalar type's zero; fails
    /// with `InvalidDimensions` where `rows * cols` is negative or too large
    /// for a buffer.
    pub fn new(rows: Index, cols: Index) -> (r: Result<Self, MatrixError>)
        where
            T: num_traits::Zero,
        ensures
            match r {
                Ok(m) => {
                    &&& valid_dims(rows, cols)
                    &&& m.num_rows() == rows
                    &&& m.num_cols() == cols
                    &&& m.wf()
                    &&& m.values().len() == rows * cols
                    &&& forall|i: int|
                        0 <= i < m.values().len() ==> #[trigger] m.values()[i] == m.values()[0]
                },
                Err(e) => !valid_dims(rows, cols) && e == MatrixError::InvalidDimensions,
            },
    {
        let n = element_count(rows, cols);
        if n < 0 || n > isize::MAX as i128 {
            return Err(MatrixError::InvalidDimensions);
        }
        let n = n as usize;
        let z: T = zero_scalar();
        let mut data: Vec<T> = Vec::with_capacity(n);
        let mut i: usize = 0;
        while i < n
            invariant
                i <= n,
                data@.len() == i,
                forall|j: int| 0 <= j < i ==> #[trigger] data@[j] == z,
            decreases n - i,
        {
            data.push(z);
            i = i + 1;
        }
        Ok(Matrix { rows, cols, data })
    }

    /// A `rows` by `cols` matrix of values drawn from the thread-local random
    /// generator; fails as `new` does.
    pub fn random(rows: Index, cols: Index) -> (r: Result<Self, MatrixError>)
        where
            rand::distributions::Standard: rand::distributions::Distribution<T>,
        ensures
            match r {
                Ok(m) => {
                    &&& valid_dims(rows, cols)
                    &&& m.num_rows() == rows
                    &&& m.num_cols() == cols
                    &&& m.wf()
                    &&& m.values().len() == rows * cols
                },
                Err(e) => !valid_dims(rows, cols) && e == MatrixError::InvalidDimensions,
            },
    {
        let n = element_count(rows, cols);
        if n < 0 || n > isize::MAX as i128 {
            return Err(MatrixError::InvalidDimensions);
        }
        let n = n as usize;
        let mut data: Vec<T> = Vec::with_capacity(n);
        let mut i: usize = 0;
        while i < n
            invariant
                i <= n,
                data@.len() == i,
            decreases n - i,
        {
            data.push(rand::random::<T>());
            i = i + 1;
        }
        Ok(Matrix { rows, cols, data })
    }

    /// Copies `slice` into a new `rows` by `cols` matrix; fails with
    /// `InvalidDimensions` unless `slice` holds exactly `rows * cols` values.
    pub fn from_slice(rows: Index, cols: Index, slice: &[T]) -> (r: Result<Self, MatrixError>)
        ensures
            match r {
                Ok(m) => {
                    &&& rows * cols == slice@.len()
                    &&& m.num_rows() == rows
                    &&& m.num_cols() == cols
                    &&& m.wf()
                    &&& m.values() == slice@
                },
                Err(e) => rows * cols != slice@.len() && e == MatrixError::InvalidDimensions,
            },
    {
        let n = element_count(rows, cols);
        if n != slice.len() as i128 {
            return Err(MatrixError::InvalidDimensions);
        }
        let mut data: Vec<T> = Vec::with_capacity(slice.len());
        let mut i: usize = 0;
        while i < slice.len()
            invariant
                i <= slice@.len(),
                data@ == slice@.subrange(0, i as int),
            decreases slice@.len() - i,
        {
            data.push(slice[i]);
            i = i + 1;
        }
        proof {
            assert(slice@.subrange(0, slice@.len() as int) == slice@);
        }
        Ok(Matrix { rows, cols, data })
    }
}

impl<T> Matrix<T> {
    /// Consumes the matrix and hands out its buffer, row-major.
    pub fn into_vec(self) -> (r: Vec<T>)
        ensures
            r@ == self.values(),
    {
        self.data
    }
}

impl<T: Copy> MatrixShape for Matrix<T> {
    type Scalar = T;

    open spec fn wf(&self) -> bool {
        &&& self.values().len() == self.num_rows() * self.num_cols()
        &&& self.values().len() <= usize::MAX
    }

    open spec fn spec_rows(&self) -> Option<Index> {
        Some(self.num_rows())
    }

    open spec fn spec_cols(&self) -> Option<Index> {
        Some(self.num_cols())
    }

    open spec fn spec_elements(&self) -> Seq<T> {
        self.values()
    }

    open spec fn defined_at(&self, i: int) -> bool {
        true
    }

    proof fn lemma_elements_len(&self) {
    }

    fn rows(&self) -> (r: Result<Index, MatrixError>) {
        Ok(self.rows)
    }

    fn cols(&self) -> (r: Result<Index, MatrixError>) {
        Ok(self.cols)
    }

    fn element(&self, i: usize) -> (r: T) {
        self.data[i]
    }
}

/// What materializing `s` gives: the dense matrix of its dimensions and
/// elements, or `DimensionMismatch` exactly where its dimensions are not
/// consistent.
pub open spec fn materializes_to<S: MatrixShape>(
    s: &S,
    r: Result<Matrix<S::Scalar>, MatrixError>,
) -> bool {
    match r {
        Ok(m) => {
            &&& s.spec_rows() is Some
            &&& s.spec_cols() is Some
            &&& m.num_rows() == s.spec_rows().unwrap()
            &&& m.num_cols() == s.spec_cols().unwrap()
            &&& m.values() == s.spec_elements()
            &&& m.wf()
        },
        Err(e) => {
            &&& (s.spec_rows() is None || s.spec_cols() is None)
            &&& e == MatrixError::DimensionMismatch
        },
    }
}

/// Evaluates a shape into a new dense matrix in one pass: the dimensions are
/// queried once, which reports any mismatch in the tree before anything is
/// computed, then every element is pulled in row-major order.
pub fn materialize<S: MatrixShape>(s: S) -> (r: Result<Matrix<S::Scalar>, MatrixError>)
    requires
        s.wf(),
        evaluable(&s),
    ensures
        materializes_to(&s, r),
{
    let rows = match s.rows() {
        Ok(n) => n,
        Err(e) => return Err(e),
    };
    let cols = match s.cols() {
        Ok(n) => n,
        Err(e) => return Err(e),
    };
    proof {
        s.lemma_elements_len();
    }
    let n = element_count(rows, cols) as usize;
    let mut data: Vec<S::Scalar> = Vec::with_capacity(n);
    let mut i: usize = 0;
    while i < n
        invariant
            s.wf(),
            evaluable(&s),
            n == s.spec_elements().len(),
            i <= n,
            data@ == s.spec_elements().subrange(0, i as int),
        decreases n - i,
    {
        data.push(s.element(i));
        i = i + 1;
    }
    proof {
        assert(s.spec_elements().subrange(0, n as int) == s.spec_elements());
    }
    Ok(Matrix { rows, cols, data })
}

/// Shapes that can be turned into a dense matrix.
pub trait IntoMatrix<T: Copy>: MatrixShape<Scalar = T> {
    fn into_matrix(self) -> (r: Result<Matrix<T>, MatrixError>)
        requires
            self.wf(),
            evaluable(&self),
        ensures
            materializes_to(&self, r),
    ;
}

impl<T: Copy> IntoMatrix<T> for Matrix<T> {
    /// A dense matrix is already materialized: it is handed back as it is.
    fn into_matrix(self) -> (r: Result<Matrix<T>, MatrixError>) {
        Ok(self)
    }
}

} // verus!
