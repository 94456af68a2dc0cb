use vstd::prelude::*;

verus! {

/// Rows and columns of a matrix.
#[derive(Clone, Copy, Debug, PartialEq, Eq, Structural)]
pub struct Shape2 {
    pub rows: usize,
    pub cols: usize,
}

/// Why two operands cannot meet at an operation boundary.
#[derive(Clone, Debug, PartialEq, Eq)]
pub enum ShapeError {
    /// Operands of an elementwise operation, or a tensor and its gradient,
    /// differ in shape.
    Mismatch { left: Vec<usize>, right: Vec<usize> },
    /// The columns of the left factor of a matrix product differ from the
    /// rows of the right factor.
    InnerDim { left_cols: usize, right_rows: usize },
    /// A bias or scale vector differs in length from what it is applied to.
    Length { expected: usize, found: usize },
    /// A score matrix and its target matrix differ in shape.
    Target { scores: Shape2, target: Shape2 },
}

/// `r` reports that shapes `a` and `b` differ.
pub open spec fn is_mismatch(r: ShapeError, a: Seq<usize>, b: Seq<usize>) -> bool {
    r matches ShapeError::Mismatch { left, right } && left@ == a && right@ == b
}

/// Checks that two tensors have one shape (elementwise operations and
/// parameter/gradient pairs).
pub fn same_shape(a: &Vec<usize>, b: &Vec<usize>) -> (r: Result<(), ShapeError>)
    ensures
        r is Ok <==> a@ == b@,
        r is Err ==> is_mismatch(r->Err_0, a@, b@),
{
    let mut equal = a.len() == b.len();
    if equal {
        let mut i: usize = 0;
        while i < a.len()
            invariant
                a@.len() == b@.len(),
                i <= a@.len(),
                equal == (forall|j: int| 0 <= j < i ==> a@[j] == b@[j]),
            decreases a@.len() - i,
        {
            if a[i] != b[i] {
                equal = false;
            }
            i = i + 1;
        }
        if equal {
            assert(a@ =~= b@);
        }
    }
    if equal {
        Ok(())
    } else {
        Err(ShapeError::Mismatch { left: a.clone(), right: b.clone() })
    }
}

/// Shape of the matrix product `a · b`, or why it has none.
pub open spec fn dot_result(a: Shape2, b: Shape2) -> Result<Shape2, ShapeError> {
    if a.cols != b.rows {
        Err(ShapeError::InnerDim { left_cols: a.cols, right_rows: b.rows })
    } else {
        Ok(Shape2 { rows: a.rows, cols: b.cols })
    }
}

/// Shape of `x · w + b` with `b` added to every row, or why it has none.
pub open spec fn affine_result(x: Shape2, w: Shape2, bias_len: usize) -> Result<
    Shape2,
    ShapeError,
> {
    match dot_result(x, w) {
        Err(e) => Err(e),
        Ok(s) => if bias_len != s.cols {
            Err(ShapeError::Length { expected: s.cols, found: bias_len })
        } else {
            Ok(s)
        },
    }
}

/// Shape of the matrix product `a · b`.
pub fn dot_shape(a: Shape2, b: Shape2) -> (r: Result<Shape2, ShapeError>)
    ensures
        r == dot_result(a, b),
{
    if a.cols != b.rows {
        Err(ShapeError::InnerDim { left_cols: a.cols, right_rows: b.rows })
    } else {
        Ok(Shape2 { rows: a.rows, cols: b.cols })
    }
}

/// Shape of the affine map `x · w + b`.
pub fn affine_shape(x: Shape2, w: Shape2, bias_len: usize) -> (r: Result<Shape2, ShapeError>)
    ensures
        r == affine_result(x, w, bias_len),
{
    match dot_shape(x, w) {
        Err(e) => Err(e),
        Ok(s) => if bias_len != s.cols {
            Err(ShapeError::Length { expected: s.cols, found: bias_len })
        } else {
            Ok(s)
        },
    }
}

/// Shapes of the parameters of a two-layer network: the first affine map
/// (`w1`, `b1`), the batch-normalization scale and shift (`aff`, two
/// entries), and the second affine map (`w2`, `b2`).
#[derive(Clone, Copy, Debug, PartialEq, Eq, Structural)]
pub struct NetShape {
    pub w1: Shape2,
    pub b1: usize,
    pub aff: usize,
    pub w2: Shape2,
    pub b2: usize,
}

/// Length of the batch-normalization parameter vector: scale, then shift.
pub const NORM_PARAMS: usize = 2;

/// Shape that the chain affine, batch normalization, ReLU, affine gives
/// for input shape `x`, or the first boundary where it stops.
pub open spec fn predict_result(n: NetShape, x: Shape2) -> Result<Shape2, ShapeError> {
    match affine_result(x, n.w1, n.b1) {
        Err(e) => Err(e),
        Ok(h) => if n.aff != NORM_PARAMS {
            Err(ShapeError::Length { expected: NORM_PARAMS, found: n.aff })
        } else {
            affine_result(h, n.w2, n.b2)
        },
    }
}

/// Number of rows when scores of shape `predict_result(n, x)` meet a
/// one-hot target matrix of shape `t`, or why they cannot.
pub open spec fn loss_result(n: NetShape, x: Shape2, t: Shape2) -> Result<usize, ShapeError> {
    match predict_result(n, x) {
        Err(e) => Err(e),
        Ok(y) => if y != t {
            Err(ShapeError::Target { scores: y, target: t })
        } else {
            Ok(y.rows)
        },
    }
}

impl NetShape {
    /// The network with `input`, `hidden` and `output` units.
    pub fn new(input: usize, hidden: usize, output: usize) -> (r: NetShape)
        ensures
            r.w1 == (Shape2 { rows: input, cols: hidden }),
            r.b1 == hidden,
            r.aff == NORM_PARAMS,
            r.w2 == (Shape2 { rows: hidden, cols: output }),
            r.b2 == output,
    {
        NetShape {
            w1: Shape2 { rows: input, cols: hidden },
            b1: hidden,
            aff: NORM_PARAMS,
            w2: Shape2 { rows: hidden, cols: output },
            b2: output,
        }
    }

    /// Output shape of the forward chain for an input of shape `x`.
    pub fn predict_shape(&self, x: Shape2) -> (r: Result<Shape2, ShapeError>)
        ensures
            r == predict_result(*self, x),
    {
        match affine_shape(x, self.w1, self.b1) {
            Err(e) => Err(e),
            Ok(h) => if self.aff != NORM_PARAMS {
                Err(ShapeError::Length { expected: NORM_PARAMS, found: self.aff })
            } else {
                affine_shape(h, self.w2, self.b2)
            },
        }
    }

    /// Batch size of a loss, accuracy or gradient computation on input of
    /// shape `x` against targets of shape `t`.
    pub fn loss_shape(&self, x: Shape2, t: Shape2) -> (r: Result<usize, ShapeError>)
        ensures
            r == loss_result(*self, x, t),
    {
        match self.predict_shape(x) {
            Err(e) => Err(e),
            Ok(y) => if y.rows != t.rows || y.cols != t.cols {
                Err(ShapeError::Target { scores: y, target: t })
            } else {
                Ok(y.rows)
            },
        }
    }
}

} // verus!
