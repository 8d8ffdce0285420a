//! Elementwise operations and the lazy expression nodes built from them.
use crate::matrix::{materialize, Matrix};
use crate::{Index, IntoMatrix, MatrixError, MatrixShape};
use core::marker::PhantomData;
use vstd::prelude::*;

verus! {

use vstd::std_specs::ops::{AddSpec, MulSpec, NegSpec, SubSpec};

/// A stateless scalar transform of one argument.
pub trait UnaryOp<T> {
    spec fn spec_call(a: T) -> T;

    /// The arguments on which `call` is defined.
    spec fn call_req(a: T) -> bool;

    fn call(a: T) -> (r: T)
        requires
            Self::call_req(a),
        ensures
            r == Self::spec_call(a),
    ;
}

/// A stateless scalar transform of two arguments.
pub trait BinaryOp<Scalar> {
    spec fn spec_call(a: Scalar, b: Scalar) -> Scalar;

    /// The arguments on which `call` is defined.
    spec fn call_req(a: Scalar, b: Scalar) -> bool;

    fn call(a: Scalar, b: Scalar) -> (r: Scalar)
        requires
            Self::call_req(a, b),
        ensures
            r == Self::spec_call(a, b),
    ;
}

/// Negation tag.
pub struct Neg<Scalar>(PhantomData<Scalar>);

impl<Scalar: core::ops::Neg<Output = Scalar>> UnaryOp<Scalar> for Neg<Scalar> {
    open spec fn spec_call(a: Scalar) -> Scalar {
        a.neg_spec()
    }

    open spec fn call_req(a: Scalar) -> bool {
        Scalar::obeys_neg_spec() && a.neg_req()
    }

    #[inline]
    fn call(a: Scalar) -> (r: Scalar) {
        <Scalar as core::ops::Neg>::neg(a)
    }
}

/// Addition tag.
pub struct Add<Scalar>(PhantomData<Scalar>);

impl<Scalar: core::ops::Add<Output = Scalar>> BinaryOp<Scalar> for Add<Scalar> {
    open spec fn spec_call(a: Scalar, b: Scalar) -> Scalar {
        a.add_spec(b)
    }

    open spec fn call_req(a: Scalar, b: Scalar) -> bool {
        Scalar::obeys_add_spec() && a.add_req(b)
    }

    #[inline]
    fn call(a: Scalar, b: Scalar) -> (r: Scalar) {
        a + b
    }
}

/// Subtraction tag.
pub struct Sub<Scalar>(PhantomData<Scalar>);

impl<Scalar: core::ops::Sub<Output = Scalar>> BinaryOp<Scalar> for Sub<Scalar> {
    open spec fn spec_call(a: Scalar, b: Scalar) -> Scalar {
        a.sub_spec(b)
    }

    open spec fn call_req(a: Scalar, b: Scalar) -> bool {
        Scalar::obeys_sub_spec() && a.sub_req(b)
    }

    #[inline]
    fn call(a: Scalar, b: Scalar) -> (r: Scalar) {
        a - b
    }
}

/// Elementwise multiplication tag.
pub struct Mul<Scalar>(PhantomData<Scalar>);

impl<Scalar: core::ops::Mul<Output = Scalar>> BinaryOp<Scalar> for Mul<Scalar> {
    open spec fn spec_call(a: Scalar, b: Scalar) -> Scalar {
        a.mul_spec(b)
    }

    open spec fn call_req(a: Scalar, b: Scalar) -> bool {
        Scalar::obeys_mul_spec() && a.mul_req(b)
    }

    #[inline]
    fn call(a: Scalar, b: Scalar) -> (r: Scalar) {
        a * b
    }
}

/// A unary operation `F` applied lazily to every element of `A`.
pub struct CwiseUnaryOp<F, A> where F: UnaryOp<<A as MatrixShape>::Scalar>, A: MatrixShape {
    pub a: A,
    pub op: PhantomData<F>,
}

impl<F, A> CwiseUnaryOp<F, A> where F: UnaryOp<<A as MatrixShape>::Scalar>, A: MatrixShape {
    /// Wraps `a`; nothing is evaluated.
    pub fn new(a: A) -> (r: Self)
        ensures
            r.a == a,
    {
        CwiseUnaryOp { a, op: PhantomData }
    }
}

impl<F, A> MatrixShape for CwiseUnaryOp<F, A> where
    F: UnaryOp<<A as MatrixShape>::Scalar>,
    A: MatrixShape,
 {
    type Scalar = <A as MatrixShape>::Scalar;

    open spec fn wf(&self) -> bool {
        self.a.wf()
    }

    open spec fn spec_rows(&self) -> Option<Index> {
        self.a.spec_rows()
    }

    open spec fn spec_cols(&self) -> Option<Index> {
        self.a.spec_cols()
    }

    open spec fn spec_elements(&self) -> Seq<Self::Scalar> {
        self.a.spec_elements().map_values(|x| F::spec_call(x))
    }

    open spec fn defined_at(&self, i: int) -> bool {
        &&& self.a.defined_at(i)
        &&& F::call_req(self.a.spec_elements()[i])
    }

    proof fn lemma_elements_len(&self) {
        self.a.lemma_elements_len();
    }

    #[inline]
    fn rows(&self) -> (r: Result<Index, MatrixError>) {
        self.a.rows()
    }

    #[inline]
    fn cols(&self) -> (r: Result<Index, MatrixError>) {
        self.a.cols()
    }

    fn element(&self, i: usize) -> (r: Self::Scalar) {
        F::call(self.a.element(i))
    }
}

impl<F, A> IntoMatrix<<A as MatrixShape>::Scalar> for CwiseUnaryOp<F, A> where
    F: UnaryOp<<A as MatrixShape>::Scalar>,
    A: MatrixShape,
 {
    fn into_matrix(self) -> (r: Result<Matrix<<A as MatrixShape>::Scalar>, MatrixError>) {
        materialize(self)
    }
}

/// A binary operation `F` applied lazily to the elements of `A` and `B`,
/// position by position.
pub struct CwiseBinaryOp<F, A, B> where
    F: BinaryOp<<A as MatrixShape>::Scalar>,
    A: MatrixShape,
    B: MatrixShape<Scalar = <A as MatrixShape>::Scalar>,
 {
    pub a: A,
    pub b: B,
    pub op: PhantomData<F>,
}

/// The common value of two dimension queries, or `None` where either failed
/// or they differ.
pub open spec fn agreed(x: Option<Index>, y: Option<Index>) -> Option<Index> {
    match (x, y) {
        (Some(m), Some(n)) => if m == n {
            Some(m)
        } else {
            None
        },
        _ => None,
    }
}

impl<F, A, B> CwiseBinaryOp<F, A, B> where
    F: BinaryOp<<A as MatrixShape>::Scalar>,
    A: MatrixShape,
    B: MatrixShape<Scalar = <A as MatrixShape>::Scalar>,
 {
    /// Pairs `a` and `b`; their shapes are not compared until queried.
    pub fn new(a: A, b: B) -> (r: Self)
        ensures
            r.a == a,
            r.b == b,
    {
        CwiseBinaryOp { a, b, op: PhantomData }
    }
}

impl<F, A, B> MatrixShape for CwiseBinaryOp<F, A, B> where
    F: BinaryOp<<A as MatrixShape>::Scalar>,
    A: MatrixShape,
    B: MatrixShape<Scalar = <A as MatrixShape>::Scalar>,
 {
    type Scalar = <A as MatrixShape>::Scalar;

    open spec fn wf(&self) -> bool {
        self.a.wf() && self.b.wf()
    }

    open spec fn spec_rows(&self) -> Option<Index> {
        agreed(self.a.spec_rows(), self.b.spec_rows())
    }

    open spec fn spec_cols(&self) -> Option<Index> {
        agreed(self.a.spec_cols(), self.b.spec_cols())
    }

    /// The pairwise combination of both passes, as long as the shorter one.
    open spec fn spec_elements(&self) -> Seq<Self::Scalar> {
        let (x, y) = (self.a.spec_elements(), self.b.spec_elements());
        Seq::new(
            if x.len() <= y.len() {
                x.len()
            } else {
                y.len()
            },
            |i: int| F::spec_call(x[i], y[i]),
        )
    }

    open spec fn defined_at(&self, i: int) -> bool {
        &&& self.a.defined_at(i)
        &&& self.b.defined_at(i)
        &&& F::call_req(self.a.spec_elements()[i], self.b.spec_elements()[i])
    }

    proof fn lemma_elements_len(&self) {
        self.a.lemma_elements_len();
        self.b.lemma_elements_len();
    }

    fn rows(&self) -> (r: Result<Index, MatrixError>) {
        let ra = self.a.rows()?;
        let rb = self.b.rows()?;
        if ra != rb {
            return Err(MatrixError::DimensionMismatch);
        }
        Ok(ra)
    }

    fn cols(&self) -> (r: Result<Index, MatrixError>) {
        let ca = self.a.cols()?;
        let cb = self.b.cols()?;
        if ca != cb {
            return Err(MatrixError::DimensionMismatch);
        }
        Ok(ca)
    }

    fn element(&self, i: usize) -> (r: Self::Scalar) {
        F::call(self.a.element(i), self.b.element(i))
    }
}

impl<F, A, B> IntoMatrix<<A as MatrixShape>::Scalar> for CwiseBinaryOp<F, A, B> where
    F: BinaryOp<<A as MatrixShape>::Scalar>,
    A: MatrixShape,
    B: MatrixShape<Scalar = <A as MatrixShape>::Scalar>,
 {
    fn into_matrix(self) -> (r: Result<Matrix<<A as MatrixShape>::Scalar>, MatrixError>) {
        materialize(self)
    }
}

} // verus!
