use image::GenericImageView;
use moji::binder::bind;
use moji::binder::dimensions;
use moji::binder::flatten;
use moji::binder::image_shape;
use moji::binder::BindError;
use moji::binder::Tensor;
use moji::binder::CHANNELS;
use moji::canvas::Canvas;
use moji::protocol::Hyperparameters;
use moji::protocol::Operation;

fn numbered(width: u32, height: u32) -> Vec<u8> {
    let mut samples = Vec::new();
    let mut next: u8 = 0;
    for _ in 0..(4 * width * height) {
        samples.push(next);
        next = next.wrapping_add(1);
    }
    samples
}

#[test]
fn flatten_is_blue_green_red() {
    let canvas = Canvas::new(1, 1, vec![11, 22, 33, 44]).unwrap();
    assert_eq!(flatten(&canvas), Ok(vec![33, 22, 11]));
}

#[test]
fn flatten_is_row_major() {
    // two columns, three rows
    let canvas = Canvas::new(2, 3, numbered(2, 3)).unwrap();
    assert_eq!(
        flatten(&canvas),
        Ok(vec![2, 1, 0, 6, 5, 4, 10, 9, 8, 14, 13, 12, 18, 17, 16, 22, 21, 20])
    );
}

#[test]
fn flatten_places_each_pixel() {
    let width = 7u32;
    let height = 5u32;
    let canvas = Canvas::new(width, height, numbered(width, height)).unwrap();
    let samples = flatten(&canvas).unwrap();
    assert_eq!(samples.len() as u32, 3 * width * height);
    for y in 0..height {
        for x in 0..width {
            let colour = canvas.get(x, y).unwrap();
            let at = (3 * (y * width + x)) as usize;
            assert_eq!(samples[at], colour.blue);
            assert_eq!(samples[at + 1], colour.green);
            assert_eq!(samples[at + 2], colour.red);
        }
    }
}

#[test]
fn flatten_agrees_with_pixel_iteration() {
    let samples = numbered(6, 4);
    let picture =
        image::DynamicImage::ImageRgba8(image::RgbaImage::from_raw(6, 4, samples.clone()).unwrap());
    let mut expected: Vec<u8> = Vec::new();
    for (_x, _y, rgb) in picture.pixels() {
        expected.push(rgb[2]);
        expected.push(rgb[1]);
        expected.push(rgb[0]);
    }
    let canvas = Canvas::new(6, 4, samples).unwrap();
    assert_eq!(flatten(&canvas), Ok(expected));
}

#[test]
fn flatten_refuses_empty_image() {
    assert_eq!(flatten(&Canvas::new(0, 0, Vec::new()).unwrap()), Err(BindError::EmptyImage));
    assert_eq!(flatten(&Canvas::new(0, 4, Vec::new()).unwrap()), Err(BindError::EmptyImage));
    assert_eq!(flatten(&Canvas::new(4, 0, Vec::new()).unwrap()), Err(BindError::EmptyImage));
}

#[test]
fn flatten_twice_gives_the_same_samples() {
    let canvas = Canvas::new(3, 3, numbered(3, 3)).unwrap();
    assert_eq!(flatten(&canvas), flatten(&canvas));
}

#[test]
fn image_shape_is_height_width_three() {
    assert_eq!(image_shape(640, 480), vec![480, 640, 3]);
    assert_eq!(CHANNELS, 3);
}

#[test]
fn shape_round_trip_reproduces_dimensions() {
    let sizes = [(1u32, 1u32), (640, 480), (480, 640), (0, 0), (1, u32::MAX), (u32::MAX, 7)];
    for (width, height) in sizes {
        assert_eq!(dimensions(&image_shape(width, height)), Some((width, height)));
    }
}

#[test]
fn dimensions_of_other_shapes_are_none() {
    assert_eq!(dimensions(&Vec::new()), None);
    assert_eq!(dimensions(&vec![480, 640]), None);
    assert_eq!(dimensions(&vec![480, 640, 4]), None);
    assert_eq!(dimensions(&vec![480, 640, 3, 1]), None);
    assert_eq!(dimensions(&vec![4_294_967_296, 640, 3]), None);
    assert_eq!(dimensions(&vec![480, 4_294_967_296, 3]), None);
    assert_eq!(dimensions(&vec![4_294_967_295, 4_294_967_295, 3]), Some((u32::MAX, u32::MAX)));
}

#[test]
fn tensor_scalar_has_no_dimensions() {
    let tensor = Tensor::scalar(709u32);
    assert_eq!(tensor.shape, Vec::<u64>::new());
    assert_eq!(tensor.values, vec![709]);
}

#[test]
fn tensor_vector_has_one_dimension() {
    let tensor = Tensor::vector(vec![600u32, 700, 700]);
    assert_eq!(tensor.shape, vec![3]);
    assert_eq!(tensor.values, vec![600, 700, 700]);
    let empty: Tensor<u32> = Tensor::vector(Vec::new());
    assert_eq!(empty.shape, vec![0]);
    assert_eq!(empty.values, Vec::<u32>::new());
}

#[test]
fn bind_packs_image_and_hyperparameters() {
    let canvas = Canvas::new(2, 3, numbered(2, 3)).unwrap();
    let bound = bind(&canvas, &Hyperparameters::standard()).unwrap();
    assert_eq!(bound.min_size, Tensor { shape: Vec::new(), values: vec![40_000] });
    assert_eq!(bound.thresholds, Tensor { shape: vec![3], values: vec![600, 700, 700] });
    assert_eq!(bound.factor, Tensor { shape: Vec::new(), values: vec![709] });
    assert_eq!(bound.input.shape, vec![3, 2, 3]);
    assert_eq!(bound.input.values, flatten(&canvas).unwrap());
    assert_eq!(bound.input.values.len(), 18);
    assert_eq!(bound.fetches, vec![Operation::Boxes, Operation::Probabilities]);
}

#[test]
fn bind_takes_other_hyperparameters() {
    let canvas = Canvas::new(1, 1, vec![1, 2, 3, 4]).unwrap();
    let parameters = Hyperparameters { min_size: 20_000, thresholds: [500, 600, 800], factor: 500 };
    let bound = bind(&canvas, &parameters).unwrap();
    assert_eq!(bound.min_size.values, vec![20_000]);
    assert_eq!(bound.thresholds.values, vec![500, 600, 800]);
    assert_eq!(bound.factor.values, vec![500]);
    assert_eq!(bound.input.values, vec![3, 2, 1]);
}

#[test]
fn bind_shape_gives_back_the_dimensions() {
    let canvas = Canvas::new(5, 2, numbered(5, 2)).unwrap();
    let bound = bind(&canvas, &Hyperparameters::standard()).unwrap();
    assert_eq!(dimensions(&bound.input.shape), Some((canvas.width(), canvas.height())));
}

#[test]
fn bind_refuses_empty_image() {
    let canvas = Canvas::new(0, 9, Vec::new()).unwrap();
    assert_eq!(bind(&canvas, &Hyperparameters::standard()).unwrap_err(), BindError::EmptyImage);
}

#[test]
fn bind_tensors_hold_as_many_values_as_their_shapes_say() {
    let canvas = Canvas::new(4, 3, numbered(4, 3)).unwrap();
    let bound = bind(&canvas, &Hyperparameters::standard()).unwrap();
    let volume = |shape: &Vec<u64>| shape.iter().product::<u64>() as usize;
    assert_eq!(bound.min_size.values.len(), volume(&bound.min_size.shape));
    assert_eq!(bound.thresholds.values.len(), volume(&bound.thresholds.shape));
    assert_eq!(bound.factor.values.len(), volume(&bound.factor.shape));
    assert_eq!(bound.input.values.len(), volume(&bound.input.shape));
}
