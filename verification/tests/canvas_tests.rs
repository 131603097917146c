use moji::canvas::Canvas;
use moji::canvas::Colour;

fn gradient(width: u32, height: u32) -> Vec<u8> {
    let mut samples = Vec::new();
    for y in 0..height {
        for x in 0..width {
            samples.push((10 * x + 1) as u8);
            samples.push((10 * y + 2) as u8);
            samples.push((x + y + 3) as u8);
            samples.push(255);
        }
    }
    samples
}

#[test]
fn canvas_reads_samples_row_by_row() {
    let samples = vec![1, 2, 3, 4, 5, 6, 7, 8, 9, 10, 11, 12, 13, 14, 15, 16, 17, 18, 19, 20, 21, 22, 23, 24];
    let canvas = Canvas::new(3, 2, samples).unwrap();
    assert_eq!(canvas.width(), 3);
    assert_eq!(canvas.height(), 2);
    assert_eq!(canvas.get(0, 0), Some(Colour { red: 1, green: 2, blue: 3, alpha: 4 }));
    assert_eq!(canvas.get(1, 0), Some(Colour { red: 5, green: 6, blue: 7, alpha: 8 }));
    assert_eq!(canvas.get(2, 0), Some(Colour { red: 9, green: 10, blue: 11, alpha: 12 }));
    assert_eq!(canvas.get(0, 1), Some(Colour { red: 13, green: 14, blue: 15, alpha: 16 }));
    assert_eq!(canvas.get(2, 1), Some(Colour { red: 21, green: 22, blue: 23, alpha: 24 }));
}

#[test]
fn canvas_has_no_pixel_past_its_edges() {
    let canvas = Canvas::new(3, 2, gradient(3, 2)).unwrap();
    assert_eq!(canvas.get(3, 0), None);
    assert_eq!(canvas.get(0, 2), None);
    assert_eq!(canvas.get(u32::MAX, u32::MAX), None);
}

#[test]
fn canvas_refuses_short_buffer() {
    assert!(Canvas::new(3, 2, vec![0; 23]).is_none());
    assert!(Canvas::new(1, 1, Vec::new()).is_none());
    assert!(Canvas::new(u32::MAX, u32::MAX, vec![0; 16]).is_none());
}

#[test]
fn canvas_accepts_exact_and_longer_buffer() {
    assert!(Canvas::new(3, 2, vec![0; 24]).is_some());
    let canvas = Canvas::new(1, 1, vec![9, 8, 7, 6, 5, 4]).unwrap();
    assert_eq!(canvas.get(0, 0), Some(Colour { red: 9, green: 8, blue: 7, alpha: 6 }));
    assert_eq!(canvas.get(1, 0), None);
}

#[test]
fn canvas_without_pixels() {
    let canvas = Canvas::new(0, 0, Vec::new()).unwrap();
    assert_eq!(canvas.width(), 0);
    assert_eq!(canvas.height(), 0);
    assert_eq!(canvas.get(0, 0), None);
    let flat = Canvas::new(5, 0, Vec::new()).unwrap();
    assert_eq!(flat.width(), 5);
    assert_eq!(flat.height(), 0);
}

#[test]
fn canvas_gives_its_samples_back() {
    let samples = gradient(4, 3);
    let canvas = Canvas::new(4, 3, samples.clone()).unwrap();
    assert_eq!(canvas.into_samples(), samples);
}

#[test]
fn canvas_rebuilt_from_its_samples_shows_the_same_pixels() {
    let canvas = Canvas::new(4, 3, gradient(4, 3)).unwrap();
    let mut seen = Vec::new();
    for y in 0..3 {
        for x in 0..4 {
            seen.push(canvas.get(x, y));
        }
    }
    let rebuilt = Canvas::new(4, 3, canvas.into_samples()).unwrap();
    let mut again = Vec::new();
    for y in 0..3 {
        for x in 0..4 {
            again.push(rebuilt.get(x, y));
        }
    }
    assert_eq!(seen, again);
}

#[test]
fn canvas_agrees_with_image_buffer() {
    let samples = gradient(5, 4);
    let buffer = image::RgbaImage::from_raw(5, 4, samples.clone()).unwrap();
    let canvas = Canvas::new(5, 4, samples).unwrap();
    assert_eq!(canvas.width(), buffer.width());
    assert_eq!(canvas.height(), buffer.height());
    for y in 0..4 {
        for x in 0..5 {
            let pixel = buffer.get_pixel(x, y).0;
            assert_eq!(
                canvas.get(x, y),
                Some(Colour { red: pixel[0], green: pixel[1], blue: pixel[2], alpha: pixel[3] })
            );
        }
    }
}
