use vstd::prelude::*;

verus! {

/// One node of a computation graph. `forward` maps an input to an output
/// and records what `backward` needs, replacing what the previous call
/// recorded; `backward` maps the gradient of the loss with respect to that
/// output to the gradient with respect to the input, and is meaningful only
/// right after a `forward` on the same instance. Chaining `forward` calls
/// and then calling `backward` on the same layers in reverse order is
/// backpropagation.
pub trait Layer<In, Out, Grad> {
    fn forward(&mut self, x: In) -> Out;

    fn backward(&mut self, dout: Out) -> Grad;
}

} // verus!
