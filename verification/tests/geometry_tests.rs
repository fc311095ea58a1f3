use tribmp::frame::Colour;
use tribmp::frame::Frame;
use tribmp::geometry::dot_product;
use tribmp::geometry::right_of_line;
use tribmp::geometry::rotate_90;
use tribmp::geometry::square;
use tribmp::triangle::Triangle;

#[test]
fn rotate_90_turns_clockwise() {
    assert_eq!(rotate_90([3, 4]), [4, -3]);
    assert_eq!(rotate_90([1, 0]), [0, -1]);
    assert_eq!(rotate_90([0, 0]), [0, 0]);
}

#[test]
fn dot_product_small_vectors() {
    assert_eq!(dot_product([1, 2], [3, 4]), 11);
    assert_eq!(dot_product([1, 0], [0, 1]), 0);
    assert_eq!(dot_product([-2, 5], [3, -1]), -11);
}

#[test]
fn square_small_numbers() {
    assert_eq!(square(5), 25);
    assert_eq!(square(-7), 49);
    assert_eq!(square(0), 0);
}

#[test]
fn right_of_line_sides() {
    // In image coordinates (y down), a point below a left-to-right edge is
    // on its right side; on the line counts as inside.
    assert!(right_of_line([0, 0], [4, 0], [2, 1]));
    assert!(right_of_line([0, 0], [4, 0], [2, 0]));
    assert!(!right_of_line([0, 0], [4, 0], [2, -1]));
}

#[test]
fn right_of_line_extreme_coordinates() {
    // The test is exact even where 32-bit intermediate products would
    // overflow.
    assert!(right_of_line(
        [i32::MIN, i32::MIN],
        [i32::MAX, i32::MIN],
        [0, i32::MAX]
    ));
    assert!(!right_of_line(
        [i32::MIN, 0],
        [i32::MAX, 0],
        [0, i32::MIN]
    ));
}

#[test]
fn colour_new_keeps_channels() {
    let c = Colour::new(1, 2, 3);
    assert_eq!(c.red, 1);
    assert_eq!(c.green, 2);
    assert_eq!(c.blue, 3);
}

#[test]
fn frame_new_is_black() {
    let f = Frame::new(4, 3);
    assert_eq!(f.width, 4);
    assert_eq!(f.height, 3);
    assert_eq!(f.pixel_arr.len(), 12);
    for c in &f.pixel_arr {
        assert_eq!(*c, Colour::new(0, 0, 0));
    }
}

#[test]
fn write_pixel_updates_one_pixel() {
    let mut f = Frame::new(4, 3);
    f.write_pixel(2, 1, Colour::new(9, 8, 7));
    for y in 0..3 {
        for x in 0..4 {
            let expected = if (x, y) == (2, 1) {
                Colour::new(9, 8, 7)
            } else {
                Colour::new(0, 0, 0)
            };
            assert_eq!(f.pixel_arr[y * 4 + x], expected);
        }
    }
}

#[test]
fn is_inside_matches_edge_rule() {
    let t = Triangle::new([2, 2], [8, 2], [5, 8], Colour::new(255, 0, 0));
    assert!(t.is_inside([5, 5]));
    assert!(t.is_inside([2, 2]));
    assert!(t.is_inside([5, 2]));
    assert!(!t.is_inside([0, 0]));
    assert!(!t.is_inside([0, 5]));
    assert!(!t.is_inside([9, 9]));
}
