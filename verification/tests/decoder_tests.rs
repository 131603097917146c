use moji::decoder::conclude;
use moji::decoder::decode;
use moji::decoder::BBox;
use moji::decoder::InferenceError;
use moji::decoder::RunOutcome;

#[test]
fn decode_single_detection_swaps_axes() {
    let boxes: Vec<f32> = vec![10.0, 10.0, 50.0, 50.0];
    let probs: Vec<f32> = vec![0.99];
    let detections = decode(&boxes, &probs).unwrap();
    assert_eq!(detections.len(), 1);
    assert_eq!(detections[0], BBox { x1: 10.0, y1: 10.0, x2: 50.0, y2: 50.0, prob: 0.99 });
}

#[test]
fn decode_reads_top_left_bottom_right() {
    let boxes: Vec<f32> = vec![1.0, 2.0, 3.0, 4.0];
    let probs: Vec<f32> = vec![0.5];
    let detections = decode(&boxes, &probs).unwrap();
    assert_eq!(detections[0].y1, 1.0);
    assert_eq!(detections[0].x1, 2.0);
    assert_eq!(detections[0].y2, 3.0);
    assert_eq!(detections[0].x2, 4.0);
    assert_eq!(detections[0].prob, 0.5);
}

#[test]
fn decode_pairs_group_with_probability_in_order() {
    let boxes: Vec<i32> = vec![1, 2, 3, 4, 5, 6, 7, 8, 9, 10, 11, 12];
    let probs: Vec<i32> = vec![100, 200, 300];
    let detections = decode(&boxes, &probs).unwrap();
    assert_eq!(
        detections,
        vec![
            BBox { x1: 2, y1: 1, x2: 4, y2: 3, prob: 100 },
            BBox { x1: 6, y1: 5, x2: 8, y2: 7, prob: 200 },
            BBox { x1: 10, y1: 9, x2: 12, y2: 11, prob: 300 },
        ]
    );
}

#[test]
fn decode_count_equals_probability_count() {
    let mut boxes: Vec<u16> = Vec::new();
    let mut probs: Vec<u16> = Vec::new();
    for n in 0..25u16 {
        let detections = decode(&boxes, &probs).unwrap();
        assert_eq!(detections.len(), probs.len());
        assert_eq!(boxes.len(), 4 * detections.len());
        boxes.push(n);
        boxes.push(n + 1);
        boxes.push(n + 2);
        boxes.push(n + 3);
        probs.push(n);
    }
}

#[test]
fn decode_empty_tensors_is_no_error() {
    let boxes: Vec<f32> = Vec::new();
    let probs: Vec<f32> = Vec::new();
    let detections = decode(&boxes, &probs);
    assert_eq!(detections, Ok(Vec::new()));
}

#[test]
fn decode_refuses_short_box_tensor() {
    let boxes: Vec<f32> = vec![1.0, 2.0, 3.0];
    let probs: Vec<f32> = vec![0.9];
    assert_eq!(decode(&boxes, &probs), Err(InferenceError::ShapeMismatch));
}

#[test]
fn decode_refuses_long_box_tensor() {
    let boxes: Vec<f32> = vec![1.0, 2.0, 3.0, 4.0, 5.0];
    let probs: Vec<f32> = vec![0.9];
    assert_eq!(decode(&boxes, &probs), Err(InferenceError::ShapeMismatch));
}

#[test]
fn decode_refuses_missing_probability() {
    let boxes: Vec<f32> = vec![1.0, 2.0, 3.0, 4.0, 5.0, 6.0, 7.0, 8.0];
    let probs: Vec<f32> = vec![0.9];
    assert_eq!(decode(&boxes, &probs), Err(InferenceError::ShapeMismatch));
}

#[test]
fn decode_refuses_extra_probability() {
    let boxes: Vec<f32> = vec![1.0, 2.0, 3.0, 4.0];
    let probs: Vec<f32> = vec![0.9, 0.8];
    assert_eq!(decode(&boxes, &probs), Err(InferenceError::ShapeMismatch));
}

#[test]
fn decode_refuses_boxes_without_probabilities() {
    let boxes: Vec<f32> = vec![1.0, 2.0, 3.0, 4.0];
    let probs: Vec<f32> = Vec::new();
    assert_eq!(decode(&boxes, &probs), Err(InferenceError::ShapeMismatch));
}

#[test]
fn decode_refuses_probabilities_without_boxes() {
    let boxes: Vec<f32> = Vec::new();
    let probs: Vec<f32> = vec![0.5];
    assert_eq!(decode(&boxes, &probs), Err(InferenceError::ShapeMismatch));
}

#[test]
fn decode_twice_gives_the_same_detections() {
    let boxes: Vec<f32> = vec![12.5, 3.25, 80.0, 41.75, 0.0, 0.0, 7.0, 9.0];
    let probs: Vec<f32> = vec![0.75, 0.625];
    let first = decode(&boxes, &probs);
    let second = decode(&boxes, &probs);
    assert_eq!(first, second);
    assert_eq!(first.unwrap().len(), 2);
}

#[test]
fn decode_keeps_values_it_does_not_understand() {
    let boxes: Vec<f32> = vec![-4.0, 9.0, -8.0, 2.0];
    let probs: Vec<f32> = vec![1.5];
    let detections = decode(&boxes, &probs).unwrap();
    assert_eq!(detections[0], BBox { x1: 9.0, y1: -4.0, x2: 2.0, y2: -8.0, prob: 1.5 });
}

#[test]
fn conclude_failed_run_is_an_error() {
    let outcome: RunOutcome<f32> = RunOutcome::Failed;
    assert_eq!(conclude(outcome), Err(InferenceError::RunFailed));
}

#[test]
fn conclude_completed_run_is_decoded() {
    let outcome = RunOutcome::Completed {
        boxes: vec![10.0f32, 20.0, 30.0, 40.0],
        probs: vec![0.9f32],
    };
    assert_eq!(
        conclude(outcome),
        Ok(vec![BBox { x1: 20.0, y1: 10.0, x2: 40.0, y2: 30.0, prob: 0.9 }])
    );
}

#[test]
fn conclude_completed_run_with_mismatch_is_an_error() {
    let outcome = RunOutcome::Completed { boxes: vec![10.0f32, 20.0], probs: vec![0.9f32] };
    assert_eq!(conclude(outcome), Err(InferenceError::ShapeMismatch));
}

#[test]
fn conclude_completed_run_without_detections() {
    let outcome: RunOutcome<f32> = RunOutcome::Completed { boxes: Vec::new(), probs: Vec::new() };
    assert_eq!(conclude(outcome), Ok(Vec::new()));
}
