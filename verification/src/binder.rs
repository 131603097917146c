//! Binding an image and the hyperparameters to the inputs of the graph.
//!
//! The image is flattened into one run of samples: row by row, pixel by
//! pixel, and for each pixel its blue, its green and its red sample, in that
//! order. The graph was trained on this order; alpha is left out. The tensor
//! is declared with the shape height, width, three.

use crate::canvas::buffer_pixel;
use crate::canvas::Canvas;
use crate::canvas::Colour;
use crate::canvas::Raster;
use crate::protocol::Hyperparameters;
use crate::protocol::Operation;
use vstd::arithmetic::div_mod::lemma_fundamental_div_mod_converse;
use vstd::prelude::*;

verus! {

/// The number of samples that the graph takes of each pixel.
pub const CHANNELS: u64 = 3;

/// Why an image could not be bound.
#[derive(Clone, Copy, Debug, PartialEq, Eq, Structural)]
pub enum BindError {
    /// The image has no pixels.
    EmptyImage,
    /// The samples of the image are more than one buffer can hold.
    TooLarge,
}

/// A tensor: its shape, and its values in row-major order.
#[derive(Clone, Debug, PartialEq, Eq)]
pub struct Tensor<V> {
    pub shape: Vec<u64>,
    pub values: Vec<V>,
}

/// The number of values that a tensor of a given shape holds: the product
/// of its dimensions, which is one for a scalar.
pub open spec fn volume(shape: Seq<u64>) -> nat
    decreases shape.len(),
{
    if shape.len() == 0 {
        1
    } else {
        volume(shape.drop_last()) * (shape.last() as nat)
    }
}

impl<V> Tensor<V> {
    /// The tensor holds as many values as its shape says.
    pub open spec fn well_formed(self) -> bool {
        self.values@.len() == volume(self.shape@)
    }

    /// A tensor of no dimensions that holds one value.
    pub fn scalar(value: V) -> (tensor: Tensor<V>)
        ensures
            tensor.shape@ == Seq::<u64>::empty(),
            tensor.values@ == seq![value],
            tensor.well_formed(),
    {
        let mut values: Vec<V> = Vec::new();
        values.push(value);
        assert(values@ =~= seq![value]);
        Tensor { shape: Vec::new(), values }
    }

    /// A tensor of one dimension that holds the given values.
    pub fn vector(values: Vec<V>) -> (tensor: Tensor<V>)
        ensures
            tensor.shape@ == seq![values.len() as u64],
            tensor.values@ == values@,
            tensor.well_formed(),
    {
        let mut shape: Vec<u64> = Vec::new();
        shape.push(values.len() as u64);
        proof {
            let dims = seq![values.len() as u64];
            assert(shape@ =~= dims);
            assert(dims.drop_last() =~= Seq::<u64>::empty());
            assert(volume(dims.drop_last()) == 1);
            assert(volume(dims) == volume(dims.drop_last()) * (dims.last() as nat));
        }
        Tensor { shape, values }
    }
}

/// The shape that is declared for an image: height, width, three.
pub open spec fn image_shape_spec(width: u32, height: u32) -> Seq<u64> {
    seq![height as u64, width as u64, CHANNELS]
}

/// The width and the height that a declared image shape stands for. A shape
/// of other than three dimensions, with a last dimension other than three,
/// or with a width or height that no image can have, stands for none.
pub open spec fn dimensions_spec(shape: Seq<u64>) -> Option<(u32, u32)> {
    if shape.len() == 3 && shape[2] == CHANNELS && shape[0] <= u32::MAX && shape[1] <= u32::MAX {
        Some((shape[1] as u32, shape[0] as u32))
    } else {
        None
    }
}

/// The shape that is declared for an image of the given size.
pub fn image_shape(width: u32, height: u32) -> (shape: Vec<u64>)
    ensures
        shape@ == image_shape_spec(width, height),
{
    let mut shape: Vec<u64> = Vec::new();
    shape.push(height as u64);
    shape.push(width as u64);
    shape.push(CHANNELS);
    assert(shape@ =~= image_shape_spec(width, height));
    shape
}

/// The width and the height of the image that a declared shape stands for.
pub fn dimensions(shape: &Vec<u64>) -> (size: Option<(u32, u32)>)
    ensures
        size == dimensions_spec(shape@),
{
    if shape.len() == 3 && shape[2] == CHANNELS && shape[0] <= 0xFFFF_FFFF && shape[1]
        <= 0xFFFF_FFFF {
        Some((shape[1] as u32, shape[0] as u32))
    } else {
        None
    }
}

/// The declared shape of an image gives back its width and height exactly.
pub proof fn lemma_shape_round_trip(width: u32, height: u32)
    ensures
        dimensions_spec(image_shape_spec(width, height)) == Some((width, height)),
{
}

/// An image shape holds three values for each pixel.
pub proof fn lemma_image_volume(width: u32, height: u32)
    ensures
        volume(image_shape_spec(width, height)) == 3 * width * height,
{
    let shape = image_shape_spec(width, height);
    let two = seq![height as u64, width as u64];
    let one = seq![height as u64];
    assert(shape.drop_last() =~= two);
    assert(two.drop_last() =~= one);
    assert(one.drop_last() =~= Seq::<u64>::empty());
    assert(volume(one) == volume(one.drop_last()) * (one.last() as nat));
    assert(volume(two) == volume(two.drop_last()) * (two.last() as nat));
    assert(volume(shape) == volume(shape.drop_last()) * (shape.last() as nat));
    assert(volume(shape) == (1 * height) * width * 3);
    assert((1 * height) * width * 3 == 3 * width * height) by (nonlinear_arith);
}

/// Sample `k` of a pixel in the order of the graph: blue, green, red.
pub open spec fn channel(colour: Colour, k: int) -> u8 {
    if k == 0 {
        colour.blue
    } else if k == 1 {
        colour.green
    } else {
        colour.red
    }
}

/// The flattened image: sample `i` is channel `i % 3` of pixel `i / 3`,
/// counting the pixels row by row.
pub open spec fn bgr_samples(raster: Raster) -> Seq<u8> {
    Seq::new(
        3 * raster.width * raster.height(),
        |i: int|
            channel(
                raster.rows[(i / 3) / (raster.width as int)][(i / 3) % (raster.width as int)],
                i % 3,
            ),
    )
}

/// Why an image of the given size cannot be bound, if it cannot.
pub open spec fn bind_refusal(width: nat, height: nat) -> Option<BindError> {
    if width == 0 || height == 0 {
        Some(BindError::EmptyImage)
    } else if 3 * width * height > usize::MAX {
        Some(BindError::TooLarge)
    } else {
        None
    }
}

/// Where the samples of a pixel stand in the flattened image.
pub proof fn lemma_sample_index(width: int, height: int, x: int, y: int, k: int)
    requires
        0 <= x < width,
        0 <= y < height,
        0 <= k < 3,
    ensures
        0 <= 3 * (y * width + x) + k < 3 * width * height,
        ((3 * (y * width + x) + k) / 3) / width == y,
        ((3 * (y * width + x) + k) / 3) % width == x,
        (3 * (y * width + x) + k) % 3 == k,
{
    let p = y * width + x;
    assert(0 <= y * width) by (nonlinear_arith)
        requires
            0 <= y,
            0 < width,
    ;
    assert(y * width + width <= height * width) by (nonlinear_arith)
        requires
            y + 1 <= height,
            0 < width,
    ;
    assert(3 * (height * width) == 3 * width * height) by (nonlinear_arith);
    assert((3 * p + k) / 3 == p);
    lemma_fundamental_div_mod_converse(p, width, y, x);
}

/// The flattened image is row-major and blue, green, red: the samples of the
/// pixel in column `x` of row `y` stand at `3 (y width + x)` and the two
/// places after it.
pub proof fn lemma_sample_position(raster: Raster, x: int, y: int, k: int)
    requires
        0 <= x < raster.width,
        0 <= y < raster.height(),
        0 <= k < 3,
    ensures
        bgr_samples(raster).len() == 3 * raster.width * raster.height(),
        0 <= 3 * (y * raster.width + x) + k < bgr_samples(raster).len(),
        bgr_samples(raster)[3 * (y * raster.width + x) + k] == channel(raster.rows[y][x], k),
{
    lemma_sample_index(raster.width as int, raster.height() as int, x, y, k);
}

/// Flattens the canvas into the samples that the graph takes: row by row,
/// and blue, green, red for each pixel.
pub fn flatten(canvas: &Canvas) -> (outcome: Result<Vec<u8>, BindError>)
    ensures
        outcome is Ok <==> bind_refusal(canvas@.width, canvas@.height()) is None,
        outcome matches Ok(samples) ==> samples@ == bgr_samples(canvas@),
        outcome matches Err(error) ==> bind_refusal(canvas@.width, canvas@.height()) == Some(
            error,
        ),
{
    let width: u32 = canvas.width();
    let height: u32 = canvas.height();
    if width == 0 || height == 0 {
        return Err(BindError::EmptyImage);
    }
    assert(3 * (width as u128) * (height as u128) <= 3 * 0xFFFF_FFFF * 0xFFFF_FFFF)
        by (nonlinear_arith)
        requires
            width <= 0xFFFF_FFFF,
            height <= 0xFFFF_FFFF,
    ;
    let total: u128 = 3 * (width as u128) * (height as u128);
    if total > usize::MAX as u128 {
        return Err(BindError::TooLarge);
    }
    let ghost raster = canvas@;
    let ghost w = width as int;
    let ghost h = height as int;
    let mut samples: Vec<u8> = Vec::new();
    let mut y: u32 = 0;
    while y < height
        invariant
            y <= height,
            0 < width,
            raster == canvas@,
            w == width,
            h == height,
            w == raster.width,
            h == raster.height(),
            samples@.len() == 3 * (y * w),
            forall|i: int| 0 <= i < samples@.len() ==> samples@[i] == bgr_samples(raster)[i],
        decreases height - y,
    {
        let mut x: u32 = 0;
        assert(3 * (y * w + 0) == 3 * (y * w));
        while x < width
            invariant
                x <= width,
                y < height,
                raster == canvas@,
                w == width,
                h == height,
                w == raster.width,
                h == raster.height(),
                samples@.len() == 3 * (y * w + x),
                forall|i: int| 0 <= i < samples@.len() ==> samples@[i] == bgr_samples(raster)[i],
            decreases width - x,
        {
            let colour = buffer_pixel(canvas, x, y);
            proof {
                lemma_sample_index(w, h, x as int, y as int, 0);
                lemma_sample_index(w, h, x as int, y as int, 1);
                lemma_sample_index(w, h, x as int, y as int, 2);
            }
            samples.push(colour.blue);
            samples.push(colour.green);
            samples.push(colour.red);
            x += 1;
        }
        assert(3 * (y * w + w) == 3 * ((y + 1) * w)) by (nonlinear_arith);
        y += 1;
    }
    assert(3 * (h * w) == 3 * w * h) by (nonlinear_arith);
    assert(samples@ =~= bgr_samples(raster));
    Ok(samples)
}

/// Everything that one run of the graph is given and asked for.
#[derive(Clone, Debug, PartialEq, Eq)]
pub struct BoundInputs {
    /// Fed to `Operation::MinSize`: a scalar, in thousandths.
    pub min_size: Tensor<u32>,
    /// Fed to `Operation::Thresholds`: a vector of three, in thousandths.
    pub thresholds: Tensor<u32>,
    /// Fed to `Operation::Factor`: a scalar, in thousandths.
    pub factor: Tensor<u32>,
    /// Fed to `Operation::Input`: the flattened image.
    pub input: Tensor<u8>,
    /// The outputs to fetch after the run, in this order.
    pub fetches: Vec<Operation>,
}

impl BoundInputs {
    /// The inputs bind the given image and hyperparameters, and ask for the
    /// boxes and the probabilities.
    pub open spec fn binds(self, raster: Raster, parameters: Hyperparameters) -> bool {
        &&& self.min_size.shape@ == Seq::<u64>::empty()
        &&& self.min_size.values@ == seq![parameters.min_size]
        &&& self.thresholds.shape@ == seq![3u64]
        &&& self.thresholds.values@ == parameters.thresholds@
        &&& self.factor.shape@ == Seq::<u64>::empty()
        &&& self.factor.values@ == seq![parameters.factor]
        &&& self.input.shape@ == seq![raster.height() as u64, raster.width as u64, CHANNELS]
        &&& self.input.values@ == bgr_samples(raster)
        &&& self.fetches@ == seq![Operation::Boxes, Operation::Probabilities]
    }

    /// Every tensor holds as many values as its shape says.
    pub open spec fn well_formed(self) -> bool {
        &&& self.min_size.well_formed()
        &&& self.thresholds.well_formed()
        &&& self.factor.well_formed()
        &&& self.input.well_formed()
    }
}

/// Binding has no hidden state: two bindings of the same image and the same
/// hyperparameters feed the same values in the same shapes and fetch the same
/// outputs.
pub proof fn lemma_binding_is_repeatable(
    first: BoundInputs,
    second: BoundInputs,
    raster: Raster,
    parameters: Hyperparameters,
)
    requires
        first.binds(raster, parameters),
        second.binds(raster, parameters),
    ensures
        first.min_size.shape@ == second.min_size.shape@,
        first.min_size.values@ == second.min_size.values@,
        first.thresholds.shape@ == second.thresholds.shape@,
        first.thresholds.values@ == second.thresholds.values@,
        first.factor.shape@ == second.factor.shape@,
        first.factor.values@ == second.factor.values@,
        first.input.shape@ == second.input.shape@,
        first.input.values@ == second.input.values@,
        first.fetches@ == second.fetches@,
{
}

/// Binds the canvas and the hyperparameters to the inputs of the graph, and
/// names the two outputs to fetch. Only an image without pixels, or one with
/// more samples than a buffer can hold, is refused.
pub fn bind(canvas: &Canvas, parameters: &Hyperparameters) -> (outcome: Result<
    BoundInputs,
    BindError,
>)
    ensures
        outcome is Ok <==> bind_refusal(canvas@.width, canvas@.height()) is None,
        outcome matches Ok(bound) ==> bound.binds(canvas@, *parameters) && bound.well_formed()
            && dimensions_spec(bound.input.shape@) == Some(
            (canvas@.width as u32, canvas@.height() as u32),
        ),
        outcome matches Err(error) ==> bind_refusal(canvas@.width, canvas@.height()) == Some(
            error,
        ),
{
    let samples = match flatten(canvas) {
        Ok(samples) => samples,
        Err(error) => {
            return Err(error);
        },
    };
    let width: u32 = canvas.width();
    let height: u32 = canvas.height();
    let input = Tensor { shape: image_shape(width, height), values: samples };
    let mut thresholds: Vec<u32> = Vec::new();
    thresholds.push(parameters.thresholds[0]);
    thresholds.push(parameters.thresholds[1]);
    thresholds.push(parameters.thresholds[2]);
    let mut fetches: Vec<Operation> = Vec::new();
    fetches.push(Operation::Boxes);
    fetches.push(Operation::Probabilities);
    proof {
        lemma_image_volume(width, height);
        lemma_shape_round_trip(width, height);
        assert(thresholds@ =~= parameters.thresholds@);
        assert(fetches@ =~= seq![Operation::Boxes, Operation::Probabilities]);
    }
    Ok(
        BoundInputs {
            min_size: Tensor::scalar(parameters.min_size),
            thresholds: Tensor::vector(thresholds),
            factor: Tensor::scalar(parameters.factor),
            input,
            fetches,
        },
    )
}

} // verus!
