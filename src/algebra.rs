//! Laws that relate the materialized results of composed expressions.
use crate::cwise_ops::{self, CwiseBinaryOp, CwiseUnaryOp};
use crate::{Matrix, MatrixError, MatrixShape, materializes_to};
use core::marker::PhantomData;
use vstd::prelude::*;

verus! {

use vstd::std_specs::ops::{AddSpec, NegSpec};

/// Two materialized results are the same dense matrix.
pub open spec fn same_matrix<T>(x: Matrix<T>, y: Matrix<T>) -> bool {
    &&& x.num_rows() == y.num_rows()
    &&& x.num_cols() == y.num_cols()
    &&& x.values() == y.values()
}

/// Where `a` and `b` have the same consistent dimensions, materializing
/// `a + b` succeeds, and each of its elements is the sum of the elements at
/// the same position in the materializations of `a` and of `b`.
pub proof fn lemma_sum_is_elementwise<T, A, B>(
    a: A,
    b: B,
    ra: Result<Matrix<T>, MatrixError>,
    rb: Result<Matrix<T>, MatrixError>,
    rs: Result<Matrix<T>, MatrixError>,
)
    where
        T: Copy + core::ops::Add<Output = T>,
        A: MatrixShape<Scalar = T>,
        B: MatrixShape<Scalar = T>,
    requires
        a.wf(),
        b.wf(),
        a.spec_rows() is Some,
        a.spec_cols() is Some,
        a.spec_rows() == b.spec_rows(),
        a.spec_cols() == b.spec_cols(),
        materializes_to(&a, ra),
        materializes_to(&b, rb),
        materializes_to(&CwiseBinaryOp::<cwise_ops::Add<T>, A, B> { a, b, op: PhantomData }, rs),
    ensures
        ra is Ok,
        rb is Ok,
        rs is Ok,
        rs.unwrap().num_rows() == ra.unwrap().num_rows(),
        rs.unwrap().num_cols() == ra.unwrap().num_cols(),
        rs.unwrap().values().len() == ra.unwrap().values().len(),
        rs.unwrap().values().len() == rb.unwrap().values().len(),
        forall|i: int|
            0 <= i < rs.unwrap().values().len() ==> #[trigger] rs.unwrap().values()[i]
                == ra.unwrap().values()[i].add_spec(rb.unwrap().values()[i]),
{
    a.lemma_elements_len();
    b.lemma_elements_len();
}

/// Where the scalar negation is an involution, materializing `-(-a)` gives
/// what materializing `a` gives: the same matrix, or the same error.
pub proof fn lemma_double_negation<T, A>(
    a: A,
    ra: Result<Matrix<T>, MatrixError>,
    rn: Result<Matrix<T>, MatrixError>,
)
    where
        T: Copy + core::ops::Neg<Output = T>,
        A: MatrixShape<Scalar = T>,
    requires
        forall|x: T| #[trigger] x.neg_spec().neg_spec() == x,
        a.wf(),
        materializes_to(&a, ra),
        materializes_to(
            &CwiseUnaryOp::<cwise_ops::Neg<T>, CwiseUnaryOp<cwise_ops::Neg<T>, A>> {
                a: CwiseUnaryOp::<cwise_ops::Neg<T>, A> { a, op: PhantomData },
                op: PhantomData,
            },
            rn,
        ),
    ensures
        ra is Ok <==> rn is Ok,
        ra is Ok ==> same_matrix(ra.unwrap(), rn.unwrap()),
        ra is Err ==> ra == rn,
{
    let n = CwiseUnaryOp::<cwise_ops::Neg<T>, CwiseUnaryOp<cwise_ops::Neg<T>, A>> {
        a: CwiseUnaryOp::<cwise_ops::Neg<T>, A> { a, op: PhantomData },
        op: PhantomData,
    };
    let x = a.spec_elements();
    assert forall|i: int| 0 <= i < x.len() implies n.spec_elements()[i] == x[i] by {
        assert(x[i].neg_spec().neg_spec() == x[i]);
    }
    assert(n.spec_elements() =~= x);
}

/// Where the scalar addition is associative, materializing `(a + b) + c`
/// gives what materializing `a + (b + c)` gives: the same matrix, or the
/// same error.
pub proof fn lemma_sum_associative<T, A, B, C>(
    a: A,
    b: B,
    c: C,
    rl: Result<Matrix<T>, MatrixError>,
    rr: Result<Matrix<T>, MatrixError>,
)
    where
        T: Copy + core::ops::Add<Output = T>,
        A: MatrixShape<Scalar = T>,
        B: MatrixShape<Scalar = T>,
        C: MatrixShape<Scalar = T>,
    requires
        forall|x: T, y: T, z: T| #[trigger] x.add_spec(y).add_spec(z) == x.add_spec(y.add_spec(z)),
        a.wf(),
        b.wf(),
        c.wf(),
        materializes_to(
            &CwiseBinaryOp::<cwise_ops::Add<T>, CwiseBinaryOp<cwise_ops::Add<T>, A, B>, C> {
                a: CwiseBinaryOp::<cwise_ops::Add<T>, A, B> { a, b, op: PhantomData },
                b: c,
                op: PhantomData,
            },
            rl,
        ),
        materializes_to(
            &CwiseBinaryOp::<cwise_ops::Add<T>, A, CwiseBinaryOp<cwise_ops::Add<T>, B, C>> {
                a,
                b: CwiseBinaryOp::<cwise_ops::Add<T>, B, C> { a: b, b: c, op: PhantomData },
                op: PhantomData,
            },
            rr,
        ),
    ensures
        rl is Ok <==> rr is Ok,
        rl is Ok ==> same_matrix(rl.unwrap(), rr.unwrap()),
        rl is Err ==> rl == rr,
{
    let (x, y, z) = (a.spec_elements(), b.spec_elements(), c.spec_elements());
    let l = CwiseBinaryOp::<cwise_ops::Add<T>, CwiseBinaryOp<cwise_ops::Add<T>, A, B>, C> {
        a: CwiseBinaryOp::<cwise_ops::Add<T>, A, B> { a, b, op: PhantomData },
        b: c,
        op: PhantomData,
    };
    let r = CwiseBinaryOp::<cwise_ops::Add<T>, A, CwiseBinaryOp<cwise_ops::Add<T>, B, C>> {
        a,
        b: CwiseBinaryOp::<cwise_ops::Add<T>, B, C> { a: b, b: c, op: PhantomData },
        op: PhantomData,
    };
    assert forall|i: int| 0 <= i < l.spec_elements().len() implies l.spec_elements()[i]
        == r.spec_elements()[i] by {
        assert(x[i].add_spec(y[i]).add_spec(z[i]) == x[i].add_spec(y[i].add_spec(z[i])));
    }
    assert(l.spec_elements() =~= r.spec_elements());
}

} // verus!
