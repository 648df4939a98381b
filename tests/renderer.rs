use stremio_shell::renderer::{
    composite, create_renderer, drop_renderer, GlObjects, Renderer, RendererSlot, Upload,
};

fn objects() -> GlObjects {
    GlObjects {
        program: 1,
        front_texture: 2,
        front_uniform: 3,
        back_texture: 4,
        back_uniform: 5,
        vao: 6,
        vbo: 7,
        fbo: 8,
        pbos: (9, 10),
    }
}

fn solid(width: usize, height: usize, px: [u8; 4]) -> Vec<u8> {
    let mut v = Vec::with_capacity(width * height * 4);
    for _ in 0..width * height {
        v.extend_from_slice(&px);
    }
    v
}

#[test]
fn new_renderer_is_sized_and_clear() {
    let r = Renderer::new(objects(), (4, 3), 60);
    assert_eq!(r.width(), 4);
    assert_eq!(r.height(), 3);
    assert_eq!(r.refresh_rate(), 60);
    assert_eq!(r.capacity(), 48);
    assert_eq!(r.pixel(3, 2), Some([0, 0, 0, 0]));
    assert_eq!(r.pixel(4, 0), None);
    assert_eq!(r.pixel(-1, 0), None);
}

#[test]
fn resize_capacity_never_shrinks() {
    let mut r = Renderer::new(objects(), (100, 100), 60);
    assert!(!r.resize(50, 50));
    assert_eq!(r.capacity(), 40_000);
    assert_eq!((r.width(), r.height()), (50, 50));
    assert!(r.resize(200, 100));
    assert_eq!(r.capacity(), 80_000);
    assert!(!r.resize(100, 200));
    assert_eq!(r.capacity(), 80_000);
    assert!(!r.resize(0, 0));
    assert_eq!(r.capacity(), 80_000);
    let mut last = r.capacity();
    for (w, h) in [(10, 10), (300, 300), (20, 5), (301, 300), (1, 1)] {
        r.resize(w, h);
        assert!(r.capacity() >= last);
        assert!(r.capacity() >= (w * h * 4) as usize);
        last = r.capacity();
    }
}

#[test]
fn paint_right_after_resize_succeeds() {
    let mut r = Renderer::new(objects(), (10, 10), 60);
    r.resize(40, 30);
    let cap = r.capacity();
    let frame = solid(40, 30, [1, 2, 3, 255]);
    assert!(r.paint(0, 0, 40, 30, &frame, 40).is_some());
    assert_eq!(r.capacity(), cap);
    assert_eq!(r.pixel(39, 29), Some([1, 2, 3, 255]));
}

#[test]
fn partial_paint_leaves_outside_pixels() {
    let mut r = Renderer::new(objects(), (100, 100), 60);
    let prior = solid(100, 100, [7, 8, 9, 255]);
    r.paint(0, 0, 100, 100, &prior, 100).unwrap();
    let red = solid(100, 100, [0, 0, 255, 255]);
    r.paint(0, 0, 10, 10, &red, 100).unwrap();
    let _ = r.draw();
    let mut unchanged = 0;
    for y in 0..100 {
        for x in 0..100 {
            let px = r.pixel(x, y).unwrap();
            if x < 10 && y < 10 {
                assert_eq!(px, [0, 0, 255, 255]);
            } else {
                assert_eq!(px, [7, 8, 9, 255]);
                unchanged += 1;
            }
        }
    }
    assert_eq!(unchanged, 9900);
}

#[test]
fn paint_reads_rows_at_source_stride() {
    let mut r = Renderer::new(objects(), (4, 4), 60);
    // 4x4 source whose pixel (x, y) holds [x, y, 0, 255].
    let mut src = Vec::new();
    for y in 0..4u8 {
        for x in 0..4u8 {
            src.extend_from_slice(&[x, y, 0, 255]);
        }
    }
    let up = r.paint(1, 2, 2, 2, &src, 4).unwrap();
    assert_eq!(
        up,
        Upload { x: 1, y: 2, width: 2, height: 2, buffer: 0, pbo: 9, texture: 2 }
    );
    assert_eq!(r.pixel(1, 2), Some([1, 2, 0, 255]));
    assert_eq!(r.pixel(2, 3), Some([2, 3, 0, 255]));
    assert_eq!(r.pixel(0, 2), Some([0, 0, 0, 0]));
    assert_eq!(r.pixel(3, 3), Some([0, 0, 0, 0]));
    assert_eq!(r.pixel(1, 1), Some([0, 0, 0, 0]));
}

#[test]
fn transfer_buffers_rotate() {
    let mut r = Renderer::new(objects(), (8, 8), 60);
    let frame = solid(8, 8, [0, 0, 0, 255]);
    let a = r.paint(0, 0, 8, 8, &frame, 8).unwrap();
    let b = r.paint(0, 0, 4, 4, &frame, 8).unwrap();
    let c = r.paint(2, 2, 1, 1, &frame, 8).unwrap();
    assert_eq!((a.buffer, a.pbo), (0, 9));
    assert_eq!((b.buffer, b.pbo), (1, 10));
    assert_eq!((c.buffer, c.pbo), (0, 9));
}

#[test]
fn empty_paint_is_a_no_op() {
    let mut r = Renderer::new(objects(), (16, 16), 60);
    let frame = solid(16, 16, [5, 5, 5, 255]);
    r.paint(0, 0, 16, 16, &frame, 16).unwrap();
    let other = solid(16, 16, [9, 9, 9, 9]);
    assert_eq!(r.paint(3, 3, 0, 5, &other, 16), None);
    assert_eq!(r.paint(3, 3, 5, 0, &other, 16), None);
    assert_eq!(r.paint(0, 0, 0, 0, &[], 0), None);
    assert_eq!(r.capacity(), 16 * 16 * 4);
    for y in 0..16 {
        for x in 0..16 {
            assert_eq!(r.pixel(x, y), Some([5, 5, 5, 255]));
        }
    }
    // The next real paint still uses the first transfer buffer after the one above.
    assert_eq!(r.paint(0, 0, 1, 1, &other, 16).unwrap().buffer, 1);
}

#[test]
fn paint_outside_the_frame_or_buffer_is_refused() {
    let mut r = Renderer::new(objects(), (10, 10), 60);
    let frame = solid(10, 10, [1, 1, 1, 1]);
    assert_eq!(r.paint(5, 5, 6, 1, &frame, 10), None);
    assert_eq!(r.paint(-1, 0, 2, 2, &frame, 10), None);
    assert_eq!(r.paint(0, 9, 1, 2, &frame, 10), None);
    assert_eq!(r.paint(0, 0, 10, 10, &frame[..396], 10), None);
    assert_eq!(r.paint(0, 0, 10, 1, &frame, 5), None);
    assert_eq!(r.pixel(0, 0), Some([0, 0, 0, 0]));
}

#[test]
fn resized_720p_black_frame_draws_black() {
    let mut r = Renderer::new(objects(), (1700, 1050), 60);
    r.resize(1280, 720);
    assert!(r.capacity() >= 1280 * 720 * 4);
    let black = solid(1280, 720, [0, 0, 0, 255]);
    assert!(r.paint(0, 0, 1280, 720, &black, 1280).is_some());
    let pass = r.draw();
    assert_eq!((pass.width, pass.height), (1280, 720));
    let ui = r.pixel(0, 0).unwrap();
    for video in [[0, 0, 0, 255], [255, 255, 255, 255], [12, 200, 99, 255]] {
        assert_eq!(composite(ui, video), [0, 0, 0, 255]);
    }
}

#[test]
fn draw_binds_video_then_ui() {
    let r = Renderer::new(objects(), (3, 2), 30);
    let pass = r.draw();
    assert_eq!(pass.program, 1);
    assert_eq!(pass.vao, 6);
    assert_eq!((pass.video_texture, pass.video_uniform), (4, 5));
    assert_eq!((pass.ui_texture, pass.ui_uniform), (2, 3));
    assert_eq!((pass.width, pass.height), (3, 2));
}

#[test]
fn composite_is_premultiplied_over() {
    assert_eq!(composite([0, 0, 0, 0], [10, 20, 30, 255]), [10, 20, 30, 255]);
    assert_eq!(composite([64, 64, 64, 128], [200, 100, 0, 255]), [163, 113, 64, 255]);
    assert_eq!(composite([250, 0, 0, 10], [255, 0, 0, 255]), [255, 0, 0, 255]);
}

#[test]
fn renderer_slot_is_created_once_and_dropped() {
    let mut slot = RendererSlot::new();
    assert!(!slot.created());
    assert!(slot.renderer().is_none());
    assert!(create_renderer(&mut slot, objects(), (20, 10), 50));
    assert!(slot.created());
    assert!(!create_renderer(&mut slot, objects(), (40, 40), 60));
    let r = slot.renderer().unwrap();
    assert_eq!((r.width(), r.height(), r.refresh_rate()), (20, 10, 50));
    assert_eq!(r.capacity(), 800);
    assert_eq!(r.pixel(19, 9), Some([0, 0, 0, 0]));
    assert!(slot.renderer_mut().unwrap().resize(30, 10));
    assert_eq!(slot.renderer().unwrap().width(), 30);
    assert_eq!(drop_renderer(&mut slot), Some(objects()));
    assert!(slot.renderer().is_none());
    assert_eq!(drop_renderer(&mut slot), None);
}

#[test]
fn renderer_is_not_created_again_after_drop() {
    let mut slot = RendererSlot::new();
    assert!(create_renderer(&mut slot, objects(), (8, 8), 60));
    drop_renderer(&mut slot);
    assert!(!create_renderer(&mut slot, objects(), (8, 8), 60));
    assert!(slot.renderer().is_none());
    assert!(slot.created());
}
