//! Integer and index logic of a small feed-forward network toolkit: the layer
//! abstraction, order keys of floats and the positive mask, arg-max with its
//! tie-break rule, accuracy counting, shape
//! checks at operation boundaries, the shape binding of optimizer state,
//! minibatch index sampling and one-hot label encoding.
pub mod layer;
pub mod order;
pub mod argmax;
pub mod accuracy;
pub mod shape;
pub mod optimize;
pub mod batch;
pub mod labels;
