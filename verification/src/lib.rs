//! Face detection around a pretrained cascaded network: the named-tensor
//! protocol of the graph, the binding of an image to its input tensors, the
//! decoding of the raw outputs into bounding boxes, and the outlining and
//! cropping of the detections on the image.
//!
//! Running the graph itself is left to the caller, who reports how it went.
//! The pixels of an image are kept by the `image` crate and outlines are
//! traced by the `imageproc` crate; what is relied on of either is stated
//! where it is called, in the `canvas` module. Every step has a contract
//! that says exactly what it returns.

pub mod annotate;
pub mod binder;
pub mod canvas;
pub mod context;
pub mod decoder;
pub mod geometry;
pub mod protocol;
