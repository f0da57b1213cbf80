use lines::{BresenhamSteps, Line, Lines, PixelCollector};

fn draw(x0: u32, y0: u32, x1: u32, y1: u32) -> Vec<(u32, u32)> {
    let mut sink = PixelCollector::new();
    sink.bresenham_line(&Line { x0, y0, x1, y1 });
    sink.pixels
}

#[test]
fn new_collector_is_empty() {
    assert!(PixelCollector::new().pixels.is_empty());
}

#[test]
fn known_segment_regression() {
    assert_eq!(draw(0, 0, 5, 2), vec![(0, 0), (1, 0), (2, 1), (3, 1), (4, 2)]);
}

#[test]
fn vertical_segment() {
    assert_eq!(draw(3, 0, 3, 4), vec![(3, 0), (3, 1), (3, 2), (3, 3)]);
}

#[test]
fn horizontal_segment() {
    assert_eq!(draw(1, 7, 5, 7), vec![(1, 7), (2, 7), (3, 7), (4, 7)]);
}

#[test]
fn degenerate_segment_plots_nothing() {
    assert_eq!(draw(2, 2, 2, 2), vec![]);
}

#[test]
fn diagonal_segment() {
    assert_eq!(draw(0, 0, 3, 3), vec![(0, 0), (1, 1), (2, 2)]);
    assert_eq!(draw(3, 0, 0, 3), vec![(3, 0), (2, 1), (1, 2)]);
}

#[test]
fn shallow_descending_segment() {
    assert_eq!(draw(0, 5, 4, 3), vec![(0, 5), (1, 5), (2, 4), (3, 4)]);
}

#[test]
fn steep_leftward_segment() {
    assert_eq!(draw(2, 0, 0, 5), vec![(2, 0), (2, 1), (1, 2), (1, 3), (0, 4)]);
}

#[test]
fn reversed_segment_plots_same_pixels() {
    assert_eq!(draw(5, 2, 0, 0), draw(0, 0, 5, 2));
    assert_eq!(draw(0, 5, 2, 0), draw(2, 0, 0, 5));
    assert_eq!(draw(3, 4, 3, 0), draw(3, 0, 3, 4));
    assert_eq!(draw(9, 1, 2, 6), draw(2, 6, 9, 1));
}

#[test]
fn shallow_segment_plots_one_pixel_per_column() {
    assert_eq!(draw(10, 3, 27, 11).len(), 17);
    assert_eq!(draw(27, 11, 10, 3).len(), 17);
    assert_eq!(draw(0, 9, 6, 4).len(), 6);
}

#[test]
fn steep_segment_plots_one_pixel_per_row() {
    assert_eq!(draw(4, 0, 1, 9).len(), 9);
}

#[test]
fn no_pixel_repeated() {
    let pixels = draw(3, 17, 40, 2);
    for i in 0..pixels.len() {
        for j in (i + 1)..pixels.len() {
            assert_ne!(pixels[i], pixels[j]);
        }
    }
}

#[test]
fn coordinates_near_the_top_of_the_range() {
    let m = u32::MAX;
    assert_eq!(draw(m - 3, 0, m, 1), vec![(m - 3, 0), (m - 2, 0), (m - 1, 1)]);
    assert_eq!(draw(0, m, 1, m - 3), vec![(1, m - 3), (1, m - 2), (0, m - 1)]);
}

#[test]
fn collector_keeps_earlier_pixels() {
    let mut sink = PixelCollector::new();
    sink.bresenham_line(&Line { x0: 0, y0: 0, x1: 2, y1: 0 });
    sink.bresenham_line(&Line { x0: 5, y0: 5, x1: 5, y1: 7 });
    assert_eq!(sink.pixels, vec![(0, 0), (1, 0), (5, 5), (5, 6)]);
}

#[test]
fn steps_give_the_pixels_that_are_drawn() {
    let segments = [(0, 0, 5, 2), (3, 0, 3, 4), (2, 2, 2, 2), (2, 0, 0, 5), (9, 1, 2, 6), (0, 5, 4, 3)];
    for (x0, y0, x1, y1) in segments {
        let mut steps = BresenhamSteps::new(&Line { x0, y0, x1, y1 });
        let mut stepped = Vec::new();
        while let Some(pixel) = steps.next() {
            stepped.push(pixel);
        }
        assert_eq!(stepped, draw(x0, y0, x1, y1));
    }
}

#[test]
fn steps_hand_out_pixels_then_stop() {
    let mut steps = BresenhamSteps::new(&Line { x0: 3, y0: 4, x1: 3, y1: 1 });
    assert_eq!(steps.next(), Some((3, 1)));
    assert_eq!(steps.next(), Some((3, 2)));
    assert_eq!(steps.next(), Some((3, 3)));
    assert_eq!(steps.next(), None);
    assert_eq!(steps.next(), None);
}
