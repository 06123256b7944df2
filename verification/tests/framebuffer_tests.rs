use texview::framebuffer::FrameBuffer;

#[test]
fn new_buffer_is_zeroed() {
    let fb = FrameBuffer::new(4, 3);
    assert_eq!(fb.width(), 4);
    assert_eq!(fb.height(), 3);
    assert_eq!(fb.pixels().len(), 12);
    assert!(fb.pixels().iter().all(|&p| p == 0));
}

#[test]
fn set_pixel_writes_row_major() {
    let mut fb = FrameBuffer::new(4, 3);
    fb.set_pixel(1, 2, 0x00FF_00FF);
    fb.set_pixel(3, 0, 7);
    assert_eq!(fb.pixels()[1 + 2 * 4], 0x00FF_00FF);
    assert_eq!(fb.pixels()[3], 7);
    // Every other pixel is untouched.
    let touched = [1 + 2 * 4, 3];
    for (i, &p) in fb.pixels().iter().enumerate() {
        if !touched.contains(&i) {
            assert_eq!(p, 0);
        }
    }
}

#[test]
fn unit_intensity_round_trip_is_exact() {
    let mut fb = FrameBuffer::new(2, 2);
    // Intensities 0.0, 0.25, 0.5 and 1.0 as numerators over u32::MAX.
    let quarter = (u32::MAX as f64 * 0.25) as u32;
    let half = (u32::MAX as f64 * 0.5) as u32;
    for value in [0u32, quarter, half, u32::MAX] {
        fb.set_pixel_f32(1, 1, value);
        assert_eq!(fb.get_pixel_f32(1, 1), value);
    }
    // The numerators sit within one quantization step of the intended
    // fractions.
    let step = 1.0 / u32::MAX as f64;
    assert!((quarter as f64 / u32::MAX as f64 - 0.25).abs() <= step);
    assert!((half as f64 / u32::MAX as f64 - 0.5).abs() <= step);
    assert!((u32::MAX as f64 / u32::MAX as f64 - 1.0).abs() <= step);
}

#[test]
fn clear_overwrites_every_pixel() {
    let mut fb = FrameBuffer::new(3, 3);
    fb.set_pixel(0, 0, 11);
    fb.set_pixel(2, 2, 22);
    fb.clear(0xABCD);
    assert!(fb.pixels().iter().all(|&p| p == 0xABCD));
    assert_eq!(fb.pixels().len(), 9);
}

#[test]
fn resize_replaces_wholesale_with_zeros() {
    let mut fb = FrameBuffer::new(2, 2);
    fb.clear(99);
    fb.resize(5, 2);
    assert_eq!(fb.width(), 5);
    assert_eq!(fb.height(), 2);
    assert_eq!(fb.pixels().len(), 10);
    // Nothing of the old contents survives.
    assert!(fb.pixels().iter().all(|&p| p == 0));
}

#[test]
fn empty_buffer_is_allowed() {
    let fb = FrameBuffer::new(0, 7);
    assert_eq!(fb.pixels().len(), 0);
}
