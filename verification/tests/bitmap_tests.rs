use tribmp::frame::Colour;
use tribmp::frame::Frame;
use tribmp::encoder::return_header;
use tribmp::triangle::Triangle;

/// The "right-of-or-on-all-three-edges" rule, written out by hand for the
/// triangle (2,2), (6,2), (4,6): the pixels it must paint, row by row.
const HAND_COMPUTED: [(usize, usize); 13] = [
    (2, 2),
    (3, 2),
    (4, 2),
    (5, 2),
    (6, 2),
    (3, 3),
    (4, 3),
    (5, 3),
    (3, 4),
    (4, 4),
    (5, 4),
    (4, 5),
    (4, 6),
];

#[test]
fn clockwise_triangle_paints_exact_pixel_set() {
    let fill = Colour::new(10, 20, 30);
    let mut frame = Frame::new(8, 8);
    let triangle = Triangle::new([2, 2], [6, 2], [4, 6], fill);
    triangle.draw(&mut frame);
    for y in 0..8 {
        for x in 0..8 {
            let expected = if HAND_COMPUTED.contains(&(x, y)) {
                fill
            } else {
                Colour::new(0, 0, 0)
            };
            assert_eq!(frame.pixel_arr[y * 8 + x], expected, "pixel ({}, {})", x, y);
        }
    }
}

#[test]
fn counter_clockwise_triangle_paints_nothing() {
    let fill = Colour::new(10, 20, 30);
    let mut frame = Frame::new(8, 8);
    // Same triangle as above with the winding reversed.
    let triangle = Triangle::new([2, 2], [4, 6], [6, 2], fill);
    triangle.draw(&mut frame);
    for c in &frame.pixel_arr {
        assert_eq!(*c, Colour::new(0, 0, 0));
    }
}

#[test]
fn header_fields_for_dimensions() {
    let header = return_header(7, 5);
    assert_eq!(header.len(), 54);
    assert_eq!(&header[0..2], b"BM");
    // File size field: 54 + 7 * 5 * 3 = 159, row padding not counted.
    assert_eq!(&header[2..6], &[159, 0, 0, 0]);
    assert_eq!(&header[6..10], &[0, 0, 0, 0]);
    // Pixel data offset.
    assert_eq!(&header[10..14], &[54, 0, 0, 0]);
    // Info header size.
    assert_eq!(&header[14..18], &[40, 0, 0, 0]);
    assert_eq!(&header[18..22], &[7, 0, 0, 0]);
    assert_eq!(&header[22..26], &[5, 0, 0, 0]);
    // One colour plane, 24 bits per pixel.
    assert_eq!(&header[26..28], &[1, 0]);
    assert_eq!(&header[28..30], &[24, 0]);
    // No compression, no raw size.
    assert_eq!(&header[30..38], &[0, 0, 0, 0, 0, 0, 0, 0]);
    // Resolution placeholder 11811 pixels per meter, twice.
    assert_eq!(&header[38..42], &[35, 46, 0, 0]);
    assert_eq!(&header[42..46], &[35, 46, 0, 0]);
    assert_eq!(&header[46..54], &[0, 0, 0, 0, 0, 0, 0, 0]);
}

#[test]
fn encoded_stream_has_signature_fields_and_length() {
    let frame = Frame::new(7, 5);
    let bytes = frame.encode();
    assert_eq!(&bytes[0..2], b"BM");
    assert_eq!(&bytes[10..14], &[54, 0, 0, 0]);
    assert_eq!(&bytes[18..22], &[7, 0, 0, 0]);
    assert_eq!(&bytes[22..26], &[5, 0, 0, 0]);
    // Padding rule as implemented: width % 4 = 3 zero bytes per row.
    assert_eq!(bytes.len(), 54 + 5 * (7 * 3 + 3));
}

#[test]
fn encode_twice_is_byte_identical() {
    let mut frame = Frame::new(10, 10);
    let triangle = Triangle::new([2, 2], [8, 2], [5, 8], Colour::new(255, 0, 0));
    triangle.draw(&mut frame);
    let first = frame.encode();
    let second = frame.encode();
    assert_eq!(first, second);
}

#[test]
fn zero_width_encodes_header_only() {
    let frame = Frame::new(0, 5);
    let bytes = frame.encode();
    assert_eq!(bytes.len(), 54);
    assert_eq!(&bytes[0..2], b"BM");
    assert_eq!(&bytes[2..6], &[54, 0, 0, 0]);
    assert_eq!(&bytes[18..22], &[0, 0, 0, 0]);
    assert_eq!(&bytes[22..26], &[5, 0, 0, 0]);
}

#[test]
fn zero_height_encodes_header_only() {
    let frame = Frame::new(5, 0);
    let bytes = frame.encode();
    assert_eq!(bytes.len(), 54);
    assert_eq!(&bytes[0..2], b"BM");
    assert_eq!(&bytes[18..22], &[5, 0, 0, 0]);
    assert_eq!(&bytes[22..26], &[0, 0, 0, 0]);
}

#[test]
fn red_triangle_end_to_end() {
    let red = Colour::new(255, 0, 0);
    let mut frame = Frame::new(10, 10);
    let triangle = Triangle::new([2, 2], [8, 2], [5, 8], red);
    triangle.draw(&mut frame);
    assert_eq!(frame.pixel_arr[5 * 10 + 5], red);
    assert_eq!(frame.pixel_arr[0], Colour::new(0, 0, 0));

    let bytes = frame.encode();
    // Rows are 10 * 3 pixel bytes plus 10 % 4 = 2 padding bytes.
    assert_eq!(bytes.len(), 54 + 10 * (10 * 3 + 2));
    // File size field counts 54 + 10 * 10 * 3 = 354 bytes, padding omitted.
    assert_eq!(&bytes[2..6], &[98, 1, 0, 0]);
    // Pixel (5, 5) in the stream: blue, green, red channel order.
    let offset: usize = 54 + 5 * (10 * 3 + 2) + 5 * 3;
    assert_eq!(&bytes[offset..offset + 3], &[0, 0, 255]);
    // Pixel (0, 0) stayed black.
    assert_eq!(&bytes[54..57], &[0, 0, 0]);
}
