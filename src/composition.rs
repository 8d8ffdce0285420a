//! The operator surface: on every shape, `+`, `-` and `*` build a binary
//! expression node and unary `-` a negation node. Composition never fails and
//! evaluates nothing.
use crate::cwise_ops::{self, BinaryOp, CwiseBinaryOp, CwiseUnaryOp, UnaryOp};
use crate::{Matrix, MatrixShape};
use core::marker::PhantomData;
use vstd::prelude::*;

verus! {

use vstd::std_specs::ops::{AddSpecImpl, MulSpecImpl, NegSpecImpl, SubSpecImpl};

impl<T, O> std::ops::Add<O> for Matrix<T> where
    T: Copy,
    T: std::ops::Add<Output = T>,
    O: MatrixShape<Scalar = T>,
 {
    type Output = CwiseBinaryOp<cwise_ops::Add<T>, Self, O>;

    fn add(self, other: O) -> (r: Self::Output) {
        CwiseBinaryOp::new(self, other)
    }
}

impl<T, O> AddSpecImpl<O> for Matrix<T> where
    T: Copy,
    T: std::ops::Add<Output = T>,
    O: MatrixShape<Scalar = T>,
 {
    open spec fn obeys_add_spec() -> bool {
        true
    }

    open spec fn add_req(self, other: O) -> bool {
        true
    }

    open spec fn add_spec(self, other: O) -> Self::Output {
        CwiseBinaryOp { a: self, b: other, op: PhantomData }
    }
}

impl<T, O> std::ops::Sub<O> for Matrix<T> where
    T: Copy,
    T: std::ops::Sub<Output = T>,
    O: MatrixShape<Scalar = T>,
 {
    type Output = CwiseBinaryOp<cwise_ops::Sub<T>, Self, O>;

    fn sub(self, other: O) -> (r: Self::Output) {
        CwiseBinaryOp::new(self, other)
    }
}

impl<T, O> SubSpecImpl<O> for Matrix<T> where
    T: Copy,
    T: std::ops::Sub<Output = T>,
    O: MatrixShape<Scalar = T>,
 {
    open spec fn obeys_sub_spec() -> bool {
        true
    }

    open spec fn sub_req(self, other: O) -> bool {
        true
    }

    open spec fn sub_spec(self, other: O) -> Self::Output {
        CwiseBinaryOp { a: self, b: other, op: PhantomData }
    }
}

impl<T, O> std::ops::Mul<O> for Matrix<T> where
    T: Copy,
    T: std::ops::Mul<Output = T>,
    O: MatrixShape<Scalar = T>,
 {
    type Output = CwiseBinaryOp<cwise_ops::Mul<T>, Self, O>;

    fn mul(self, other: O) -> (r: Self::Output) {
        CwiseBinaryOp::new(self, other)
    }
}

impl<T, O> MulSpecImpl<O> for Matrix<T> where
    T: Copy,
    T: std::ops::Mul<Output = T>,
    O: MatrixShape<Scalar = T>,
 {
    open spec fn obeys_mul_spec() -> bool {
        true
    }

    open spec fn mul_req(self, other: O) -> bool {
        true
    }

    open spec fn mul_spec(self, other: O) -> Self::Output {
        CwiseBinaryOp { a: self, b: other, op: PhantomData }
    }
}

impl<T> std::ops::Neg for Matrix<T> where
    T: Copy,
    T: std::ops::Neg<Output = T>,
 {
    type Output = CwiseUnaryOp<cwise_ops::Neg<T>, Self>;

    fn neg(self) -> (r: Self::Output) {
        CwiseUnaryOp::new(self)
    }
}

impl<T> NegSpecImpl for Matrix<T> where
    T: Copy,
    T: std::ops::Neg<Output = T>,
 {
    open spec fn obeys_neg_spec() -> bool {
        true
    }

    open spec fn neg_req(self) -> bool {
        true
    }

    open spec fn neg_spec(self) -> Self::Output {
        CwiseUnaryOp { a: self, op: PhantomData }
    }
}

impl<F, A, O> std::ops::Add<O> for CwiseUnaryOp<F, A> where
    F: UnaryOp<<A as MatrixShape>::Scalar>,
    A: MatrixShape,
    <A as MatrixShape>::Scalar: std::ops::Add<Output = <A as MatrixShape>::Scalar>,
    O: MatrixShape<Scalar = <A as MatrixShape>::Scalar>,
 {
    type Output = CwiseBinaryOp<cwise_ops::Add<<A as MatrixShape>::Scalar>, Self, O>;

    fn add(self, other: O) -> (r: Self::Output) {
        CwiseBinaryOp::new(self, other)
    }
}

impl<F, A, O> AddSpecImpl<O> for CwiseUnaryOp<F, A> where
    F: UnaryOp<<A as MatrixShape>::Scalar>,
    A: MatrixShape,
    <A as MatrixShape>::Scalar: std::ops::Add<Output = <A as MatrixShape>::Scalar>,
    O: MatrixShape<Scalar = <A as MatrixShape>::Scalar>,
 {
    open spec fn obeys_add_spec() -> bool {
        true
    }

    open spec fn add_req(self, other: O) -> bool {
        true
    }

    open spec fn add_spec(self, other: O) -> Self::Output {
        CwiseBinaryOp { a: self, b: other, op: PhantomData }
    }
}

impl<F, A, O> std::ops::Sub<O> for CwiseUnaryOp<F, A> where
    F: UnaryOp<<A as MatrixShape>::Scalar>,
    A: MatrixShape,
    <A as MatrixShape>::Scalar: std::ops::Sub<Output = <A as MatrixShape>::Scalar>,
    O: MatrixShape<Scalar = <A as MatrixShape>::Scalar>,
 {
    type Output = CwiseBinaryOp<cwise_ops::Sub<<A as MatrixShape>::Scalar>, Self, O>;

    fn sub(self, other: O) -> (r: Self::Output) {
        CwiseBinaryOp::new(self, other)
    }
}

impl<F, A, O> SubSpecImpl<O> for CwiseUnaryOp<F, A> where
    F: UnaryOp<<A as MatrixShape>::Scalar>,
    A: MatrixShape,
    <A as MatrixShape>::Scalar: std::ops::Sub<Output = <A as MatrixShape>::Scalar>,
    O: MatrixShape<Scalar = <A as MatrixShape>::Scalar>,
 {
    open spec fn obeys_sub_spec() -> bool {
        true
    }

    open spec fn sub_req(self, other: O) -> bool {
        true
    }

    open spec fn sub_spec(self, other: O) -> Self::Output {
        CwiseBinaryOp { a: self, b: other, op: PhantomData }
    }
}

impl<F, A, O> std::ops::Mul<O> for CwiseUnaryOp<F, A> where
    F: UnaryOp<<A as MatrixShape>::Scalar>,
    A: MatrixShape,
    <A as MatrixShape>::Scalar: std::ops::Mul<Output = <A as MatrixShape>::Scalar>,
    O: MatrixShape<Scalar = <A as MatrixShape>::Scalar>,
 {
    type Output = CwiseBinaryOp<cwise_ops::Mul<<A as MatrixShape>::Scalar>, Self, O>;

    fn mul(self, other: O) -> (r: Self::Output) {
        CwiseBinaryOp::new(self, other)
    }
}

impl<F, A, O> MulSpecImpl<O> for CwiseUnaryOp<F, A> where
    F: UnaryOp<<A as MatrixShape>::Scalar>,
    A: MatrixShape,
    <A as MatrixShape>::Scalar: std::ops::Mul<Output = <A as MatrixShape>::Scalar>,
    O: MatrixShape<Scalar = <A as MatrixShape>::Scalar>,
 {
    open spec fn obeys_mul_spec() -> bool {
        true
    }

    open spec fn mul_req(self, other: O) -> bool {
        true
    }

    open spec fn mul_spec(self, other: O) -> Self::Output {
        CwiseBinaryOp { a: self, b: other, op: PhantomData }
    }
}

impl<F, A> std::ops::Neg for CwiseUnaryOp<F, A> where
    F: UnaryOp<<A as MatrixShape>::Scalar>,
    A: MatrixShape,
    <A as MatrixShape>::Scalar: std::ops::Neg<Output = <A as MatrixShape>::Scalar>,
 {
    type Output = CwiseUnaryOp<cwise_ops::Neg<<A as MatrixShape>::Scalar>, Self>;

    fn neg(self) -> (r: Self::Output) {
        CwiseUnaryOp::new(self)
    }
}

impl<F, A> NegSpecImpl for CwiseUnaryOp<F, A> where
    F: UnaryOp<<A as MatrixShape>::Scalar>,
    A: MatrixShape,
    <A as MatrixShape>::Scalar: std::ops::Neg<Output = <A as MatrixShape>::Scalar>,
 {
    open spec fn obeys_neg_spec() -> bool {
        true
    }

    open spec fn neg_req(self) -> bool {
        true
    }

    open spec fn neg_spec(self) -> Self::Output {
        CwiseUnaryOp { a: self, op: PhantomData }
    }
}

impl<F, A, B, O> std::ops::Add<O> for CwiseBinaryOp<F, A, B> where
    F: BinaryOp<<A as MatrixShape>::Scalar>,
    A: MatrixShape,
    B: MatrixShape<Scalar = <A as MatrixShape>::Scalar>,
    <A as MatrixShape>::Scalar: std::ops::Add<Output = <A as MatrixShape>::Scalar>,
    O: MatrixShape<Scalar = <A as MatrixShape>::Scalar>,
 {
    type Output = CwiseBinaryOp<cwise_ops::Add<<A as MatrixShape>::Scalar>, Self, O>;

    fn add(self, other: O) -> (r: Self::Output) {
        CwiseBinaryOp::new(self, other)
    }
}

impl<F, A, B, O> AddSpecImpl<O> for CwiseBinaryOp<F, A, B> where
    F: BinaryOp<<A as MatrixShape>::Scalar>,
    A: MatrixShape,
    B: MatrixShape<Scalar = <A as MatrixShape>::Scalar>,
    <A as MatrixShape>::Scalar: std::ops::Add<Output = <A as MatrixShape>::Scalar>,
    O: MatrixShape<Scalar = <A as MatrixShape>::Scalar>,
 {
    open spec fn obeys_add_spec() -> bool {
        true
    }

    open spec fn add_req(self, other: O) -> bool {
        true
    }

    open spec fn add_spec(self, other: O) -> Self::Output {
        CwiseBinaryOp { a: self, b: other, op: PhantomData }
    }
}

impl<F, A, B, O> std::ops::Sub<O> for CwiseBinaryOp<F, A, B> where
    F: BinaryOp<<A as MatrixShape>::Scalar>,
    A: MatrixShape,
    B: MatrixShape<Scalar = <A as MatrixShape>::Scalar>,
    <A as MatrixShape>::Scalar: std::ops::Sub<Output = <A as MatrixShape>::Scalar>,
    O: MatrixShape<Scalar = <A as MatrixShape>::Scalar>,
 {
    type Output = CwiseBinaryOp<cwise_ops::Sub<<A as MatrixShape>::Scalar>, Self, O>;

    fn sub(self, other: O) -> (r: Self::Output) {
        CwiseBinaryOp::new(self, other)
    }
}

impl<F, A, B, O> SubSpecImpl<O> for CwiseBinaryOp<F, A, B> where
    F: BinaryOp<<A as MatrixShape>::Scalar>,
    A: MatrixShape,
    B: MatrixShape<Scalar = <A as MatrixShape>::Scalar>,
    <A as MatrixShape>::Scalar: std::ops::Sub<Output = <A as MatrixShape>::Scalar>,
    O: MatrixShape<Scalar = <A as MatrixShape>::Scalar>,
 {
    open spec fn obeys_sub_spec() -> bool {
        true
    }

    open spec fn sub_req(self, other: O) -> bool {
        true
    }

    open spec fn sub_spec(self, other: O) -> Self::Output {
        CwiseBinaryOp { a: self, b: other, op: PhantomData }
    }
}

impl<F, A, B, O> std::ops::Mul<O> for CwiseBinaryOp<F, A, B> where
    F: BinaryOp<<A as MatrixShape>::Scalar>,
    A: MatrixShape,
    B: MatrixShape<Scalar = <A as MatrixShape>::Scalar>,
    <A as MatrixShape>::Scalar: std::ops::Mul<Output = <A as MatrixShape>::Scalar>,
    O: MatrixShape<Scalar = <A as MatrixShape>::Scalar>,
 {
    type Output = CwiseBinaryOp<cwise_ops::Mul<<A as MatrixShape>::Scalar>, Self, O>;

    fn mul(self, other: O) -> (r: Self::Output) {
        CwiseBinaryOp::new(self, other)
    }
}

impl<F, A, B, O> MulSpecImpl<O> for CwiseBinaryOp<F, A, B> where
    F: BinaryOp<<A as MatrixShape>::Scalar>,
    A: MatrixShape,
    B: MatrixShape<Scalar = <A as MatrixShape>::Scalar>,
    <A as MatrixShape>::Scalar: std::ops::Mul<Output = <A as MatrixShape>::Scalar>,
    O: MatrixShape<Scalar = <A as MatrixShape>::Scalar>,
 {
    open spec fn obeys_mul_spec() -> bool {
        true
    }

    open spec fn mul_req(self, other: O) -> bool {
        true
    }

    open spec fn mul_spec(self, other: O) -> Self::Output {
        CwiseBinaryOp { a: self, b: other, op: PhantomData }
    }
}

impl<F, A, B> std::ops::Neg for CwiseBinaryOp<F, A, B> where
    F: BinaryOp<<A as MatrixShape>::Scalar>,
    A: MatrixShape,
    B: MatrixShape<Scalar = <A as MatrixShape>::Scalar>,
    <A as MatrixShape>::Scalar: std::ops::Neg<Output = <A as MatrixShape>::Scalar>,
 {
    type Output = CwiseUnaryOp<cwise_ops::Neg<<A as MatrixShape>::Scalar>, Self>;

    fn neg(self) -> (r: Self::Output) {
        CwiseUnaryOp::new(self)
    }
}

impl<F, A, B> NegSpecImpl for CwiseBinaryOp<F, A, B> where
    F: BinaryOp<<A as MatrixShape>::Scalar>,
    A: MatrixShape,
    B: MatrixShape<Scalar = <A as MatrixShape>::Scalar>,
    <A as MatrixShape>::Scalar: std::ops::Neg<Output = <A as MatrixShape>::Scalar>,
 {
    open spec fn obeys_neg_spec() -> bool {
        true
    }

    open spec fn neg_req(self) -> bool {
        true
    }

    open spec fn neg_spec(self) -> Self::Output {
        CwiseUnaryOp { a: self, op: PhantomData }
    }
}

} // verus!
