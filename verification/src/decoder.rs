//! Decoding the raw outputs of a run into bounding boxes.
//!
//! The graph answers with two flat tensors: four coordinates for each
//! detection, and one confidence for each. The coordinates of a detection
//! come as top, left, bottom, right. Nothing here computes with the numbers,
//! so the decoder works on any kind of number.

use vstd::prelude::*;

verus! {

/// A detected face: the left, top, right and bottom edge of its rectangle in
/// pixels of the image, and the confidence of the detection.
#[derive(Copy, Clone, Debug, PartialEq)]
pub struct BBox<T> {
    pub x1: T,
    pub y1: T,
    pub x2: T,
    pub y2: T,
    pub prob: T,
}

/// Why a run gave no detections.
#[derive(Clone, Copy, Debug, PartialEq, Eq, Structural)]
pub enum InferenceError {
    /// The graph could not be run, or an output could not be fetched.
    RunFailed,
    /// The box tensor does not hold four coordinates for each confidence.
    ShapeMismatch,
}

/// How a run of the graph ended.
#[derive(Debug)]
pub enum RunOutcome<T> {
    /// The run failed, or one of the outputs could not be fetched.
    Failed,
    /// The run completed and both outputs were fetched.
    Completed { boxes: Vec<T>, probs: Vec<T> },
}

/// The two tensors belong together: four coordinates for each confidence.
pub open spec fn consistent(boxes_len: nat, probs_len: nat) -> bool {
    boxes_len == 4 * probs_len
}

/// Detection `i` of a pair of tensors. The tensor order is top, left, bottom,
/// right.
pub open spec fn detection<T>(boxes: Seq<T>, probs: Seq<T>, i: int) -> BBox<T> {
    BBox {
        x1: boxes[4 * i + 1],
        y1: boxes[4 * i],
        x2: boxes[4 * i + 3],
        y2: boxes[4 * i + 2],
        prob: probs[i],
    }
}

/// The detections that a pair of tensors holds, in tensor order.
pub open spec fn decoded<T>(boxes: Seq<T>, probs: Seq<T>) -> Seq<BBox<T>> {
    Seq::new(probs.len(), |i: int| detection(boxes, probs, i))
}

/// What decoding a pair of tensors gives: the detections, or the refusal of
/// tensors that do not belong together.
pub open spec fn decode_spec<T>(boxes: Seq<T>, probs: Seq<T>) -> Result<
    Seq<BBox<T>>,
    InferenceError,
> {
    if consistent(boxes.len(), probs.len()) {
        Ok(decoded(boxes, probs))
    } else {
        Err(InferenceError::ShapeMismatch)
    }
}

/// What a run gives in the end.
pub open spec fn conclude_spec<T>(outcome: RunOutcome<T>) -> Result<Seq<BBox<T>>, InferenceError> {
    match outcome {
        RunOutcome::Failed => Err(InferenceError::RunFailed),
        RunOutcome::Completed { boxes, probs } => decode_spec(boxes@, probs@),
    }
}

/// The outcome of a decoding with the detections taken by their view, so
/// that it can be held against `decode_spec`.
pub open spec fn seen<T>(outcome: Result<Vec<BBox<T>>, InferenceError>) -> Result<
    Seq<BBox<T>>,
    InferenceError,
> {
    match outcome {
        Ok(detections) => Ok(detections@),
        Err(error) => Err(error),
    }
}

/// Decodes a box tensor and a probability tensor into detections, one for
/// each probability, in order. Tensors that do not belong together are
/// refused: nothing is cut off and nothing is filled in.
pub fn decode<T: Copy>(boxes: &[T], probs: &[T]) -> (outcome: Result<
    Vec<BBox<T>>,
    InferenceError,
>)
    ensures
        seen(outcome) == decode_spec(boxes@, probs@),
{
    let count: usize = probs.len();
    if boxes.len() % 4 != 0 || boxes.len() / 4 != count {
        return Err(InferenceError::ShapeMismatch);
    }
    let mut detections: Vec<BBox<T>> = Vec::new();
    let mut i: usize = 0;
    while i < count
        invariant
            i <= count,
            count == probs.len(),
            boxes.len() == 4 * count,
            detections@ =~= decoded(boxes@, probs@).take(i as int),
        decreases count - i,
    {
        let detection = BBox {
            x1: boxes[4 * i + 1],
            y1: boxes[4 * i],
            x2: boxes[4 * i + 3],
            y2: boxes[4 * i + 2],
            prob: probs[i],
        };
        detections.push(detection);
        i += 1;
    }
    assert(decoded(boxes@, probs@).take(count as int) =~= decoded(boxes@, probs@));
    Ok(detections)
}

/// Turns the outcome of a run into detections: a failed run is an error, and
/// the outputs of a completed run are decoded.
pub fn conclude<T: Copy>(outcome: RunOutcome<T>) -> (detections: Result<
    Vec<BBox<T>>,
    InferenceError,
>)
    ensures
        seen(detections) == conclude_spec(outcome),
{
    match outcome {
        RunOutcome::Failed => Err(InferenceError::RunFailed),
        RunOutcome::Completed { boxes, probs } => decode(boxes.as_slice(), probs.as_slice()),
    }
}

/// There are as many detections as probabilities, and four coordinates in
/// the box tensor for each of them.
pub proof fn lemma_decoded_count<T>(boxes: Seq<T>, probs: Seq<T>)
    ensures
        decode_spec(boxes, probs) matches Ok(detections) ==> detections.len() == probs.len()
            && boxes.len() == 4 * detections.len(),
        decode_spec(boxes, probs) is Ok <==> boxes.len() == 4 * probs.len(),
{
}

/// Empty tensors decode to no detections, and that is no error.
pub proof fn lemma_nothing_detected<T>()
    ensures
        decode_spec(Seq::<T>::empty(), Seq::<T>::empty()) == Ok::<Seq<BBox<T>>, InferenceError>(
            Seq::<BBox<T>>::empty(),
        ),
{
    assert(decoded(Seq::<T>::empty(), Seq::<T>::empty()) =~= Seq::<BBox<T>>::empty());
}

/// Every coordinate and every confidence ends up in the detection it belongs
/// to: of detection `i`, the top edge is value `4 i` of the box tensor, the
/// left edge value `4 i + 1`, the bottom edge value `4 i + 2` and the right
/// edge value `4 i + 3`.
pub proof fn lemma_decoded_fields<T>(boxes: Seq<T>, probs: Seq<T>, i: int)
    requires
        consistent(boxes.len(), probs.len()),
        0 <= i < probs.len(),
    ensures
        decoded(boxes, probs)[i].y1 == boxes[4 * i],
        decoded(boxes, probs)[i].x1 == boxes[4 * i + 1],
        decoded(boxes, probs)[i].y2 == boxes[4 * i + 2],
        decoded(boxes, probs)[i].x2 == boxes[4 * i + 3],
        decoded(boxes, probs)[i].prob == probs[i],
{
}

/// Decoding has no hidden state: any two decodings of the same tensors give
/// the same detections in the same order.
pub proof fn lemma_decoding_is_repeatable<T>(
    boxes: Seq<T>,
    probs: Seq<T>,
    first: Result<Vec<BBox<T>>, InferenceError>,
    second: Result<Vec<BBox<T>>, InferenceError>,
)
    requires
        seen(first) == decode_spec(boxes, probs),
        seen(second) == decode_spec(boxes, probs),
    ensures
        seen(first) == seen(second),
{
}

} // verus!
