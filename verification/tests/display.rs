use chip8::display::{Display, DummyDisplay, PixelColor, Resolution, CHIP8_TEST_CARD};
use chip8::error::Chip8Error;

// Resolution tests
#[test]
fn test_pixel_count() {
    let r = Resolution(64, 32, 1);
    assert_eq!(r.pixel_count(), 2048)
}

#[test]
fn test_byte_count() {
    let r = Resolution(64, 32, 1);
    assert_eq!(r.byte_count(), 256)
}

#[test]
fn test_x_bounds() {
    let r = Resolution(64, 32, 1);
    assert_eq!(r.x_bounds().map(|b| b as f64), [0.0, 63.0]);
}

#[test]
fn test_y_bounds() {
    let r = Resolution(64, 32, 1);
    assert_eq!(r.y_bounds().map(|b| b as f64), [-31.0, 0.0]);
}

#[test]
fn test_px_iterator() {
    let r = Resolution(64, 32, 1);
    let px = r.points_from_data(&[0; 256]);
    for (_x, _y, colour) in px {
        assert_eq!(colour, PixelColor::Black);
    }
}

#[test]
fn points_come_last_pixel_first() {
    let r = Resolution(8, 2, 1);
    // top row: leftmost pixel set; bottom row: two rightmost pixels set
    let px = r.points_from_data(&[0x80, 0x03]);
    assert_eq!(px.len(), 16);
    assert_eq!(px[0], (7, -1, PixelColor::White));
    assert_eq!(px[1], (6, -1, PixelColor::White));
    assert_eq!(px[2], (5, -1, PixelColor::Black));
    assert_eq!(px[14], (1, 0, PixelColor::Black));
    assert_eq!(px[15], (0, 0, PixelColor::White));
}

#[test]
fn bitplanes_split_the_pixels() {
    let r = Resolution(8, 2, 1);
    let data = [0x80, 0x03];
    let set = r.bitplane_from_data(&data, 1);
    assert_eq!(set, vec![(7, -1), (6, -1), (0, 0)]);
    let clear = r.bitplane_from_data(&data, 0);
    assert_eq!(clear.len(), 13);
    assert_eq!(clear[0], (5, -1));
    assert_eq!(clear[12], (1, 0));
    // a bit is 0 or 1, so no pixel lies in another plane
    assert!(r.bitplane_from_data(&data, 2).is_empty());
}

#[test]
fn test_card_has_a_frame() {
    let r = Resolution(64, 32, 1);
    assert_eq!(CHIP8_TEST_CARD.len(), r.byte_count());
    let set = r.bitplane_from_data(&CHIP8_TEST_CARD, 1);
    let clear = r.bitplane_from_data(&CHIP8_TEST_CARD, 0);
    assert_eq!(set.len() + clear.len(), r.pixel_count());
    // the corners of the frame are set
    assert!(set.contains(&(0, 0)));
    assert!(set.contains(&(63, 0)));
    assert!(set.contains(&(0, -31)));
    assert!(set.contains(&(63, -31)));
    assert!(clear.contains(&(1, -1)));
}

#[test]
fn empty_resolution_has_no_points() {
    let r = Resolution(0, 32, 1);
    assert_eq!(r.pixel_count(), 0);
    assert_eq!(r.byte_count(), 0);
    assert!(r.points_from_data(&[]).is_empty());
    assert!(r.bitplane_from_data(&[], 0).is_empty());
}

#[test]
fn byte_count_counts_bitplanes() {
    assert_eq!(Resolution(64, 32, 2).byte_count(), 512);
    assert_eq!(Resolution(3, 3, 1).byte_count(), 1);
    assert_eq!(Resolution(1, 1, 1).x_bounds(), [0, 0]);
    assert_eq!(Resolution(1, 1, 1).y_bounds(), [0, 0]);
}

#[test]
fn dummy_display_takes_frames_of_its_size() {
    let mut d = DummyDisplay::new().unwrap();
    assert_eq!(d.get_display_size_bytes(), 0x100);
    assert_eq!(d.draw(&[0; 256]), Ok(()));
    assert_eq!(d.draw(&CHIP8_TEST_CARD), Ok(()));
    assert_eq!(d.draw(&[0; 257]), Err(Chip8Error::Display));
    assert_eq!(d.draw(&[0; 255]), Err(Chip8Error::Display));
    assert_eq!(d.draw(&[]), Err(Chip8Error::Display));
}
