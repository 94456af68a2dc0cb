use vstd::prelude::*;
use crate::shape::{is_mismatch, same_shape, ShapeError};

verus! {

/// The shape that an optimizer's auxiliary tensor (a velocity or a sum of
/// squared gradients) takes on at its first update. Once bound, the
/// optimizer serves parameters of that shape only.
pub struct AccumulatorShape {
    shape: Option<Vec<usize>>,
}

impl View for AccumulatorShape {
    type V = Option<Seq<usize>>;

    closed spec fn view(&self) -> Option<Seq<usize>> {
        match self.shape {
            None => None,
            Some(v) => Some(v@),
        }
    }
}

impl AccumulatorShape {
    /// Not bound yet: the next update shapes the accumulator.
    pub fn new() -> (r: AccumulatorShape)
        ensures
            r@ is None,
    {
        AccumulatorShape { shape: None }
    }

    /// The bound shape, if any.
    pub fn shape(&self) -> (r: Option<Vec<usize>>)
        ensures
            r is None <==> self@ is None,
            r is Some ==> r->0@ == self@->0,
    {
        match &self.shape {
            None => None,
            Some(v) => Some(v.clone()),
        }
    }

    /// Admits an update of a parameter of shape `param` with a gradient of
    /// shape `grad`. `Ok(true)`: this is the first update, the accumulator is
    /// now bound to `param` and starts as zeros of that shape. `Ok(false)`:
    /// the accumulator already has that shape. An error leaves the binding
    /// as it was.
    pub fn bind(&mut self, param: &Vec<usize>, grad: &Vec<usize>) -> (r: Result<bool, ShapeError>)
        ensures
            param@ != grad@ ==> r is Err && is_mismatch(r->Err_0, param@, grad@),
            param@ == grad@ && old(self)@ is None ==> r == Ok::<bool, ShapeError>(true),
            param@ == grad@ && old(self)@ == Some(param@) ==> r == Ok::<bool, ShapeError>(false),
            param@ == grad@ && old(self)@ is Some && old(self)@->0 != param@ ==> r is Err
                && is_mismatch(r->Err_0, old(self)@->0, param@),
            r is Ok ==> final(self)@ == Some(param@),
            r is Err ==> final(self)@ == old(self)@,
    {
        match same_shape(param, grad) {
            Err(e) => Err(e),
            Ok(()) => match &self.shape {
                None => {
                    self.shape = Some(param.clone());
                    Ok(true)
                },
                Some(bound) => match same_shape(bound, param) {
                    Err(e) => Err(e),
                    Ok(()) => Ok(false),
                },
            },
        }
    }
}

} // verus!
