use handmade_window::{
    blit_buffer_to_window, get_window_dimension, render_weird_gradient, ClientRect,
    GameOffScreenBuffer, Pixel, Rect, RowOrder, WindowDimension,
};

fn surface(width: i32, height: i32, order: RowOrder) -> GameOffScreenBuffer {
    GameOffScreenBuffer::new(width, height, order).expect("valid size")
}

#[test]
fn new_surface_has_packed_rows_and_exact_buffer() {
    let s = surface(1280, 720, RowOrder::TopDown);
    assert_eq!(s.width(), 1280);
    assert_eq!(s.height(), 720);
    assert_eq!(s.pitch(), 1280 * 4);
    assert_eq!(s.row_order(), RowOrder::TopDown);
    assert_eq!(s.memory().len(), 1280 * 4 * 720);
    assert!(s.memory().iter().all(|b| *b == 0));
}

#[test]
fn buffer_length_is_pitch_times_height_for_many_sizes() {
    for (w, h) in [(1, 1), (1, 7), (3, 2), (17, 5), (640, 480)] {
        for order in [RowOrder::TopDown, RowOrder::BottomUp] {
            let s = surface(w, h, order);
            assert_eq!(s.memory().len(), s.pitch() * (h as usize));
            assert!(s.pitch() >= (w as usize) * 4);
        }
    }
}

#[test]
fn new_rejects_sizes_that_are_not_positive() {
    assert!(GameOffScreenBuffer::new(0, 10, RowOrder::TopDown).is_none());
    assert!(GameOffScreenBuffer::new(10, 0, RowOrder::TopDown).is_none());
    assert!(GameOffScreenBuffer::new(-1, 10, RowOrder::TopDown).is_none());
    assert!(GameOffScreenBuffer::new(10, -1, RowOrder::BottomUp).is_none());
    assert!(GameOffScreenBuffer::new(i32::MIN, i32::MIN, RowOrder::BottomUp).is_none());
}

#[test]
fn new_rejects_a_buffer_too_large_for_memory() {
    assert!(GameOffScreenBuffer::new(i32::MAX, i32::MAX, RowOrder::TopDown).is_none());
}

#[test]
fn with_pitch_accepts_padded_rows() {
    let s = GameOffScreenBuffer::with_pitch(3, 2, 16, RowOrder::TopDown).expect("valid layout");
    assert_eq!(s.pitch(), 16);
    assert_eq!(s.memory().len(), 32);
}

#[test]
fn with_pitch_rejects_bad_layouts() {
    // a row too short for its pixels
    assert!(GameOffScreenBuffer::with_pitch(3, 2, 8, RowOrder::TopDown).is_none());
    // rows that do not start on a pixel boundary
    assert!(GameOffScreenBuffer::with_pitch(3, 2, 14, RowOrder::TopDown).is_none());
    // a stored row wider than the host's width field can say
    assert!(GameOffScreenBuffer::with_pitch(1, 1, usize::MAX - 3, RowOrder::TopDown).is_none());
    assert!(GameOffScreenBuffer::with_pitch(0, 2, 16, RowOrder::TopDown).is_none());
    assert!(GameOffScreenBuffer::with_pitch(3, 0, 16, RowOrder::TopDown).is_none());
}

#[test]
fn resize_replaces_the_buffer_and_forgets_the_contents() {
    let mut s = surface(4, 4, RowOrder::BottomUp);
    render_weird_gradient(&mut s, 9, 9);
    assert!(s.memory().iter().any(|b| *b != 0));
    assert!(s.resize(640, 480));
    assert_eq!(s.width(), 640);
    assert_eq!(s.height(), 480);
    assert_eq!(s.pitch(), 640 * 4);
    assert_eq!(s.row_order(), RowOrder::BottomUp);
    assert_eq!(s.memory().len(), 640 * 4 * 480);
    assert!(s.memory().iter().all(|b| *b == 0));
}

#[test]
fn resize_to_the_same_size_still_clears() {
    let mut s = surface(4, 4, RowOrder::TopDown);
    render_weird_gradient(&mut s, 1, 1);
    assert!(s.resize(4, 4));
    assert!(s.memory().iter().all(|b| *b == 0));
}

#[test]
fn failed_resize_leaves_the_surface_alone() {
    let mut s = surface(4, 3, RowOrder::TopDown);
    render_weird_gradient(&mut s, 5, 6);
    let before: Vec<u8> = s.memory().to_vec();
    assert!(!s.resize(0, 480));
    assert!(!s.resize(640, -2));
    assert!(!s.resize(i32::MAX, i32::MAX));
    assert_eq!(s.width(), 4);
    assert_eq!(s.height(), 3);
    assert_eq!(s.memory(), &before[..]);
}

#[test]
fn pixel_access_is_bounds_checked() {
    let mut s = surface(2, 2, RowOrder::TopDown);
    let p = Pixel { blue: 1, green: 2, red: 3, padding: 4 };
    assert!(s.set_pixel(1, 1, p));
    assert_eq!(s.pixel_at(1, 1), Some(p));
    assert_eq!(s.pixel_at(0, 0), Some(Pixel { blue: 0, green: 0, red: 0, padding: 0 }));
    for (x, y) in [(-1, 0), (0, -1), (2, 0), (0, 2), (i32::MAX, i32::MAX), (i32::MIN, 0)] {
        assert!(!s.set_pixel(x, y, p));
        assert_eq!(s.pixel_at(x, y), None);
    }
    // the refused writes changed nothing
    assert_eq!(s.memory(), &[0, 0, 0, 0, 0, 0, 0, 0, 0, 0, 0, 0, 1, 2, 3, 4][..]);
}

#[test]
fn pixel_offset_respects_row_order_and_pitch() {
    let p = Pixel { blue: 10, green: 20, red: 30, padding: 40 };
    // top-down: pixel (1, 0) starts at byte 0 * 12 + 1 * 4
    let mut top = GameOffScreenBuffer::with_pitch(2, 3, 12, RowOrder::TopDown).unwrap();
    assert!(top.set_pixel(1, 0, p));
    assert_eq!(&top.memory()[4..8], &[10, 20, 30, 40][..]);
    assert_eq!(top.memory().iter().filter(|b| **b != 0).count(), 4);
    // bottom-up: line 0 is stored row 2, so the pixel starts at 2 * 12 + 1 * 4
    let mut bottom = GameOffScreenBuffer::with_pitch(2, 3, 12, RowOrder::BottomUp).unwrap();
    assert!(bottom.set_pixel(1, 0, p));
    assert_eq!(&bottom.memory()[28..32], &[10, 20, 30, 40][..]);
    assert_eq!(bottom.memory().iter().filter(|b| **b != 0).count(), 4);
}

#[test]
fn gradient_follows_the_formula_at_every_pixel() {
    for order in [RowOrder::TopDown, RowOrder::BottomUp] {
        let mut s = surface(300, 5, order);
        render_weird_gradient(&mut s, 7, 250);
        for y in 0..5 {
            for x in 0..300 {
                let p = s.pixel_at(x, y).unwrap();
                assert_eq!(p.blue as i32, (x + 7) % 256);
                assert_eq!(p.green as i32, (y + 250) % 256);
                assert_eq!(p.red, 0);
                assert_eq!(p.padding, 0);
            }
        }
    }
}

#[test]
fn gradient_exact_bytes_top_down() {
    let mut s = surface(2, 2, RowOrder::TopDown);
    render_weird_gradient(&mut s, 255, 3);
    assert_eq!(
        s.memory(),
        &[255, 3, 0, 0, 0, 3, 0, 0, 255, 4, 0, 0, 0, 4, 0, 0][..]
    );
}

#[test]
fn gradient_exact_bytes_bottom_up() {
    let mut s = surface(2, 2, RowOrder::BottomUp);
    render_weird_gradient(&mut s, 255, 3);
    // line 1 is stored first
    assert_eq!(
        s.memory(),
        &[255, 4, 0, 0, 0, 4, 0, 0, 255, 3, 0, 0, 0, 3, 0, 0][..]
    );
}

#[test]
fn gradient_is_modulo_256_not_255() {
    let mut s = surface(1, 1, RowOrder::TopDown);
    render_weird_gradient(&mut s, 255, 256);
    let p = s.pixel_at(0, 0).unwrap();
    assert_eq!(p.blue, 255);
    assert_eq!(p.green, 0);
}

#[test]
fn gradient_handles_negative_and_extreme_offsets() {
    let mut s = surface(3, 3, RowOrder::TopDown);
    render_weird_gradient(&mut s, -1, -257);
    assert_eq!(s.pixel_at(0, 0).unwrap().blue, 255);
    assert_eq!(s.pixel_at(1, 0).unwrap().blue, 0);
    assert_eq!(s.pixel_at(0, 0).unwrap().green, 255);
    assert_eq!(s.pixel_at(0, 2).unwrap().green, 1);
    render_weird_gradient(&mut s, i32::MAX, i32::MIN);
    // i32::MAX is 255 modulo 256 and i32::MIN is 0
    assert_eq!(s.pixel_at(0, 0).unwrap().blue, 255);
    assert_eq!(s.pixel_at(2, 0).unwrap().blue, 1);
    assert_eq!(s.pixel_at(0, 0).unwrap().green, 0);
    assert_eq!(s.pixel_at(0, 2).unwrap().green, 2);
}

#[test]
fn gradient_clears_red_and_padding() {
    let mut s = surface(2, 1, RowOrder::TopDown);
    let p = Pixel { blue: 9, green: 9, red: 9, padding: 9 };
    s.set_pixel(0, 0, p);
    s.set_pixel(1, 0, p);
    render_weird_gradient(&mut s, 0, 0);
    assert_eq!(s.memory(), &[0, 0, 0, 0, 1, 0, 0, 0][..]);
}

#[test]
fn gradient_leaves_row_tails_alone() {
    let mut s = GameOffScreenBuffer::with_pitch(1, 2, 8, RowOrder::TopDown).unwrap();
    render_weird_gradient(&mut s, 5, 6);
    assert_eq!(s.memory(), &[5, 6, 0, 0, 0, 0, 0, 0, 5, 7, 0, 0, 0, 0, 0, 0][..]);
}

#[test]
fn gradient_same_picture_in_either_row_order() {
    let mut top = surface(5, 4, RowOrder::TopDown);
    let mut bottom = surface(5, 4, RowOrder::BottomUp);
    render_weird_gradient(&mut top, 3, 4);
    render_weird_gradient(&mut bottom, 3, 4);
    for y in 0..4 {
        for x in 0..5 {
            assert_eq!(top.pixel_at(x, y), bottom.pixel_at(x, y));
        }
    }
    assert_ne!(top.memory(), bottom.memory());
}

#[test]
fn gradient_on_full_size_surface_matches_known_pixels() {
    let mut s = surface(1280, 720, RowOrder::TopDown);
    render_weird_gradient(&mut s, 0, 0);
    let origin = s.pixel_at(0, 0).unwrap();
    assert_eq!((origin.blue, origin.green), (0, 0));
    let p = s.pixel_at(300, 150).unwrap();
    assert_eq!((p.blue, p.green), (44, 150));
}

#[test]
fn blit_with_empty_target_is_skipped() {
    let s = surface(4, 4, RowOrder::TopDown);
    assert_eq!(blit_buffer_to_window(&s, 0, 100), None);
    assert_eq!(blit_buffer_to_window(&s, 100, 0), None);
    assert_eq!(blit_buffer_to_window(&s, 0, 0), None);
    assert_eq!(blit_buffer_to_window(&s, -5, 100), None);
    assert_eq!(blit_buffer_to_window(&s, 100, -5), None);
}

#[test]
fn blit_stretches_whole_image_over_whole_target() {
    let s = surface(1280, 720, RowOrder::TopDown);
    let r = blit_buffer_to_window(&s, 640, 480).unwrap();
    assert_eq!(r.source, Rect { x: 0, y: 0, width: 1280, height: 720 });
    assert_eq!(r.destination, Rect { x: 0, y: 0, width: 640, height: 480 });
    assert_eq!(r.bitmap_info.size, 40);
    assert_eq!(r.bitmap_info.width, 1280);
    assert_eq!(r.bitmap_info.height, -720);
    assert_eq!(r.bitmap_info.planes, 1);
    assert_eq!(r.bitmap_info.bit_count, 32);
    assert_eq!(r.bitmap_info.compression, 0);
}

#[test]
fn bitmap_info_height_sign_follows_row_order() {
    let top = surface(8, 6, RowOrder::TopDown);
    let bottom = surface(8, 6, RowOrder::BottomUp);
    assert_eq!(top.bitmap_info().height, -6);
    assert_eq!(bottom.bitmap_info().height, 6);
    assert_eq!(top.bitmap_info(), blit_buffer_to_window(&top, 1, 1).unwrap().bitmap_info);
}

#[test]
fn bitmap_info_width_counts_the_stored_row() {
    let s = GameOffScreenBuffer::with_pitch(3, 2, 16, RowOrder::TopDown).unwrap();
    assert_eq!(s.bitmap_info().width, 4);
    let r = blit_buffer_to_window(&s, 30, 20).unwrap();
    assert_eq!(r.source.width, 3);
}

#[test]
fn window_dimension_is_the_extent_of_the_rect() {
    let rect = ClientRect { left: 0, top: 0, right: 1280, bottom: 720 };
    assert_eq!(get_window_dimension(rect), WindowDimension { width: 1280, height: 720 });
    let shifted = ClientRect { left: 10, top: 20, right: 650, bottom: 500 };
    assert_eq!(get_window_dimension(shifted), WindowDimension { width: 640, height: 480 });
    let empty = ClientRect { left: 0, top: 0, right: 0, bottom: 0 };
    assert_eq!(get_window_dimension(empty), WindowDimension { width: 0, height: 0 });
}

#[test]
fn window_dimension_clamps_what_does_not_fit() {
    let wide = ClientRect { left: i32::MIN, top: i32::MAX, right: i32::MAX, bottom: i32::MIN };
    assert_eq!(
        get_window_dimension(wide),
        WindowDimension { width: i32::MAX, height: i32::MIN }
    );
    let inverted = ClientRect { left: 5, top: 5, right: 2, bottom: 1 };
    assert_eq!(get_window_dimension(inverted), WindowDimension { width: -3, height: -4 });
}
