use epd_waveshare::color::TriColor;
use epd_waveshare::epd4in2b::Display4in2b;
use epd_waveshare::graphics::{bytes_per_row, ConfigurationError, DisplayRotation, FrameBuffer};
use embedded_graphics_core::geometry::Point;

const ROTATIONS: [DisplayRotation; 4] = [
    DisplayRotation::Rotate0,
    DisplayRotation::Rotate90,
    DisplayRotation::Rotate180,
    DisplayRotation::Rotate270,
];

#[test]
fn row_stride_and_buffer_lengths() {
    assert_eq!(bytes_per_row(400), 50);
    assert_eq!(bytes_per_row(1), 1);
    assert_eq!(bytes_per_row(9), 2);
    assert_eq!(bytes_per_row(0), 0);
    let mono = FrameBuffer::new(400, 300, 1, TriColor::White).unwrap();
    assert_eq!(mono.buffer().len(), 15000);
    let tri = FrameBuffer::new(400, 300, 2, TriColor::White).unwrap();
    assert_eq!(tri.buffer().len(), 30000);
    assert_eq!(tri.chromatic_offset(), 15000);
    assert_eq!(Display4in2b::default().buffer().len(), 30000);
}

#[test]
fn invalid_shapes_are_refused() {
    assert_eq!(FrameBuffer::new(0, 10, 1, TriColor::White).err(), Some(ConfigurationError::EmptyDimension));
    assert_eq!(FrameBuffer::new(10, 0, 2, TriColor::White).err(), Some(ConfigurationError::EmptyDimension));
    assert_eq!(FrameBuffer::new(10, 10, 3, TriColor::White).err(), Some(ConfigurationError::UnsupportedPlanes));
    assert_eq!(FrameBuffer::new(10, 10, 0, TriColor::White).err(), Some(ConfigurationError::UnsupportedPlanes));
}

#[test]
fn mono_clear_white_then_black_origin() {
    let mut fb = FrameBuffer::new(400, 300, 1, TriColor::Black).unwrap();
    fb.clear(TriColor::White);
    assert!(fb.achromatic_buffer().iter().all(|b| *b == 0xFF));
    fb.write_pixel(0, 0, TriColor::Black);
    let plane = fb.achromatic_buffer();
    assert_eq!(plane[0], 0x7F);
    assert_eq!(plane[1], 0xFF);
    assert_eq!(plane.len(), 15000);
    assert_eq!(fb.chromatic_buffer().len(), 15000);
}

#[test]
fn write_then_read_under_every_rotation() {
    for rotation in ROTATIONS {
        for color in [TriColor::Black, TriColor::Chromatic, TriColor::White] {
            let mut fb = FrameBuffer::new(40, 24, 2, TriColor::White).unwrap();
            fb.set_rotation(rotation);
            fb.write_pixel(3, 17, color);
            assert_eq!(fb.pixel(3, 17), Some(color));
            assert_eq!(fb.pixel(4, 17), Some(TriColor::White));
        }
    }
}

#[test]
fn mono_stores_chromatic_as_black() {
    let mut fb = FrameBuffer::new(16, 16, 1, TriColor::White).unwrap();
    fb.write_pixel(9, 2, TriColor::Chromatic);
    assert_eq!(fb.pixel(9, 2), Some(TriColor::Black));
    assert_eq!(fb.buffer()[2 * 2 + 1], 0xBF);
}

#[test]
fn dimensions_swap_under_quarter_turns() {
    let mut d = Display4in2b::default();
    let s = d.size();
    assert_eq!((s.width, s.height), (400, 300));
    d.set_rotation(DisplayRotation::Rotate90);
    let s = d.size();
    assert_eq!((s.width, s.height), (300, 400));
    d.set_rotation(DisplayRotation::Rotate180);
    assert_eq!(d.size().width, 400);
    d.set_rotation(DisplayRotation::Rotate270);
    assert_eq!(d.size().height, 400);
    assert_eq!(d.rotation(), DisplayRotation::Rotate270);
}

#[test]
fn rotated_pixels_land_in_physical_positions() {
    let mut fb = FrameBuffer::new(16, 8, 1, TriColor::White).unwrap();
    fb.set_rotation(DisplayRotation::Rotate90);
    fb.write_pixel(0, 0, TriColor::Black);
    // logical (0, 0) under a quarter turn is physical column 15 of row 0
    assert_eq!(fb.buffer()[1], 0xFE);
    fb.set_rotation(DisplayRotation::Rotate180);
    fb.write_pixel(0, 0, TriColor::Black);
    // physical column 15 of row 7
    assert_eq!(fb.buffer()[15], 0xFE);
    fb.set_rotation(DisplayRotation::Rotate270);
    fb.write_pixel(0, 0, TriColor::Black);
    // physical column 0 of row 7
    assert_eq!(fb.buffer()[14], 0x7F);
}

#[test]
fn out_of_bounds_pixels_are_dropped() {
    let mut d = Display4in2b::default();
    let before = d.buffer().to_vec();
    d.draw_pixel(Point::new(400, 0), TriColor::Black);
    d.draw_pixel(Point::new(-1, 5), TriColor::Black);
    d.set_rotation(DisplayRotation::Rotate90);
    d.draw_pixel(Point::new(300, 0), TriColor::Black);
    assert_eq!(d.buffer(), &before[..]);
    assert_eq!(d.pixel(300, 0), None);
    d.draw_pixel(Point::new(299, 399), TriColor::Black);
    assert_eq!(d.pixel(299, 399), Some(TriColor::Black));
}

#[test]
fn chromatic_wins_over_achromatic() {
    let mut d = Display4in2b::default();
    d.draw_pixel(Point::new(10, 10), TriColor::Black);
    d.draw_pixel(Point::new(10, 10), TriColor::Chromatic);
    assert_eq!(d.pixel(10, 10), Some(TriColor::Chromatic));
    let i = 50 * 10 + 1;
    assert_eq!(d.chromatic_buffer()[i], 0xDF);
    assert_eq!(d.bw_buffer()[i], 0xFF);
}

#[test]
fn display_planes_are_split_at_offset() {
    let mut d = Display4in2b::default();
    d.draw_pixel(Point::new(0, 0), TriColor::Black);
    assert_eq!(d.chromatic_offset(), 15000);
    assert_eq!(d.bw_buffer().len(), 15000);
    assert_eq!(d.chromatic_buffer().len(), 15000);
    assert_eq!(d.bw_buffer()[0], 0x7F);
    assert_eq!(d.chromatic_buffer()[0], 0xFF);
    d.get_mut_buffer()[15000] = 0x00;
    assert_eq!(d.chromatic_buffer()[0], 0x00);
    d.clear(TriColor::Black);
    assert!(d.buffer().iter().all(|b| *b == 0));
}

#[test]
fn color_values() {
    assert_eq!(TriColor::White.get_byte_value(), 0xFF);
    assert_eq!(TriColor::Black.get_byte_value(), 0x00);
    assert_eq!(TriColor::Chromatic.get_bit_value(), 0);
    assert_eq!(TriColor::White.get_bit_value(), 1);
}
