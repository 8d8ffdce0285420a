//! Lazy elementwise arithmetic over matrix-shaped values.
//!
//! Composing `+`, `-`, elementwise `*` and unary `-` over matrices builds an
//! owned expression tree; nothing is computed until the tree is materialized
//! into a dense [`Matrix`] by a single fused pass.
use vstd::prelude::*;

pub mod algebra;
pub mod composition;
pub mod cwise_ops;
mod matrix;

pub use crate::matrix::{materialize, materializes_to, valid_dims, IntoMatrix, Matrix};

verus! {

/// Signed type of row and column counts.
pub type Index = i64;

/// The two ways an operation of this library can fail.
#[derive(Debug, Clone, Copy, PartialEq, Eq, Structural)]
pub enum MatrixError {
    /// A dense matrix was requested with a negative element count, one too
    /// large to allocate, or a value list of the wrong length.
    InvalidDimensions,
    /// The two operands of a binary expression disagree in rows or columns.
    DimensionMismatch,
}

/// A matrix-like value: it reports its dimensions and hands out its
/// elements in row-major order.
///
/// The model of a shape is given by its spec functions: `spec_rows` and
/// `spec_cols` are its dimensions (`None` where a binary node somewhere in
/// the tree has operands that disagree), and `spec_elements` is the sequence
/// that one evaluation pass yields.
pub trait MatrixShape: Sized {
    type Scalar: Copy;

    /// Structural well-formedness: every dense leaf holds exactly
    /// `rows * cols` elements.
    spec fn wf(&self) -> bool;

    spec fn spec_rows(&self) -> Option<Index>;

    spec fn spec_cols(&self) -> Option<Index>;

    spec fn spec_elements(&self) -> Seq<Self::Scalar>;

    /// Every scalar operation that the element at `i` needs is defined
    /// (for machine integers: does not overflow).
    spec fn defined_at(&self, i: int) -> bool;

    /// A well-formed shape whose dimensions are consistent yields exactly
    /// `rows * cols` elements, and never more than fit in memory.
    proof fn lemma_elements_len(&self)
        requires
            self.wf(),
        ensures
            self.spec_elements().len() <= usize::MAX,
            self.spec_rows() is Some && self.spec_cols() is Some ==> self.spec_elements().len()
                == self.spec_rows().unwrap() * self.spec_cols().unwrap(),
    ;

    /// Number of rows; fails with `DimensionMismatch` where the operands of
    /// a binary node in the tree disagree.
    fn rows(&self) -> (r: Result<Index, MatrixError>)
        requires
            self.wf(),
        ensures
            match self.spec_rows() {
                Some(n) => r == Ok::<Index, MatrixError>(n),
                None => r == Err::<Index, MatrixError>(MatrixError::DimensionMismatch),
            },
    ;

    /// Number of columns; fails as `rows` does.
    fn cols(&self) -> (r: Result<Index, MatrixError>)
        requires
            self.wf(),
        ensures
            match self.spec_cols() {
                Some(n) => r == Ok::<Index, MatrixError>(n),
                None => r == Err::<Index, MatrixError>(MatrixError::DimensionMismatch),
            },
    ;

    /// Evaluates the element at position `i` of the row-major pass, pulling
    /// exactly that position from every leaf.
    fn element(&self, i: usize) -> (r: Self::Scalar)
        requires
            self.wf(),
            i < self.spec_elements().len(),
            self.defined_at(i as int),
        ensures
            r == self.spec_elements()[i as int],
    ;
}

/// Every element of one pass over `s` can be computed.
pub open spec fn evaluable<S: MatrixShape>(s: &S) -> bool {
    forall|i: int| 0 <= i < s.spec_elements().len() ==> #[trigger] s.defined_at(i)
}

} // verus!
