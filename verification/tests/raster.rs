//! Rasterizer and framebuffer behaviour: color packing, pixel writes,
//! clearing, triangle and rectangle fills in both coordinate modes, and the
//! visibility pre-check.

use tepi::camera::Camera2D;
use tepi::color::{from_u8_rgb, from_u8_rgba};
use tepi::error::EngineError;
use tepi::framebuffer::Framebuffer;
use tepi::linear::Pos2D;
use tepi::shapes::{Rect, Triangle};

#[test]
fn color_packing() {
    assert_eq!(from_u8_rgb(255, 0, 0), 0xFF0000);
    assert_eq!(from_u8_rgba(255, 0, 0, 128), 0xFF000080);
    assert_eq!(from_u8_rgb(1, 2, 3), 0x010203);
    assert_eq!(from_u8_rgb(0, 0, 0), 0);
    assert_eq!(from_u8_rgba(0x12, 0x34, 0x56, 0x78), 0x12345678);
}

#[test]
fn framebuffer_pixels() {
    let mut fb = Framebuffer::new(4, 3);
    assert_eq!(fb.width(), 4);
    assert_eq!(fb.height(), 3);
    for y in 0..3usize {
        for x in 0..4usize {
            assert_eq!(fb.get_pixel(x, y), Ok(0));
        }
    }
    assert_eq!(fb.set_pixel(2, 1, 0xABCD), Ok(()));
    assert_eq!(fb.get_pixel(2, 1), Ok(0xABCD));
    assert_eq!(fb.get_pixel(1, 2), Ok(0));

    // out-of-range writes and reads are refused, never a crash
    assert_eq!(fb.set_pixel(4, 0, 1), Err(EngineError::PixelOutOfBounds));
    assert_eq!(fb.set_pixel(0, 3, 1), Err(EngineError::PixelOutOfBounds));
    assert_eq!(fb.get_pixel(4, 0), Err(EngineError::PixelOutOfBounds));
    // and the refused write changed nothing
    assert_eq!(fb.get_pixel(2, 1), Ok(0xABCD));
}

#[test]
fn clear_is_idempotent() {
    let mut once = Framebuffer::new(5, 4);
    once.set_pixel(1, 1, 99).unwrap();
    once.clear(7);
    let mut twice = Framebuffer::new(5, 4);
    twice.set_pixel(3, 2, 123).unwrap();
    twice.clear(7);
    twice.clear(7);
    for y in 0..4usize {
        for x in 0..5usize {
            assert_eq!(once.get_pixel(x, y), Ok(7));
            assert_eq!(twice.get_pixel(x, y), Ok(7));
        }
    }
}

#[test]
fn triangle_draw_fills_inside_pixels() {
    let t = Triangle::new(Pos2D::new(1, 1), Pos2D::new(7, 1), Pos2D::new(1, 7));
    let mut fb = Framebuffer::new(8, 8);
    let color = from_u8_rgb(10, 20, 30);
    t.draw(&mut fb, color);
    // the bounding box is [1, 7) x [1, 7); inside it, exactly the strictly
    // interior points are painted
    let mut painted: u32 = 0;
    for y in 0..8usize {
        for x in 0..8usize {
            let in_box = (1..7).contains(&x) && (1..7).contains(&y);
            let inside = t.inside_eh(&Pos2D::new(x as i32, y as i32));
            let expected = if in_box && inside { color } else { 0 };
            assert_eq!(fb.get_pixel(x, y), Ok(expected));
            if expected != 0 {
                painted += 1;
            }
        }
    }
    assert!(painted > 0);
}

#[test]
fn triangle_draw_abs_matches_draw_for_centered_camera() {
    // a camera whose viewport's bottom-left corner is the origin makes the
    // camera-relative draw agree with the buffer-relative one
    let t = Triangle::new(Pos2D::new(2, 2), Pos2D::new(14, 2), Pos2D::new(2, 14));
    let cam = Camera2D::new(Pos2D::new(8, 8));
    let color: u32 = 0x123456;
    let mut fb_abs = Framebuffer::new(16, 16);
    let mut fb_rel = Framebuffer::new(16, 16);
    t.draw_abs(&mut fb_abs, color, &cam);
    t.draw(&mut fb_rel, color);
    for y in 0..16usize {
        for x in 0..16usize {
            assert_eq!(fb_abs.get_pixel(x, y), fb_rel.get_pixel(x, y));
        }
    }
}

#[test]
fn render_guard_culls_far_shapes() {
    let cam = Camera2D::new(Pos2D::new(0, 0));
    let near = Triangle::new(Pos2D::new(0, 0), Pos2D::new(10, 0), Pos2D::new(0, 10));
    let far = Triangle::new(
        Pos2D::new(10000, 10000),
        Pos2D::new(10010, 10000),
        Pos2D::new(10000, 10010),
    );
    assert!(near.render_guard(&cam, 512, 512));
    assert!(!far.render_guard(&cam, 512, 512));

    // a culled shape draws nothing
    let mut fb = Framebuffer::new(512, 512);
    far.draw_abs(&mut fb, 0xFFFFFF, &cam);
    assert_eq!(fb.get_pixel(0, 0), Ok(0));
    assert_eq!(fb.get_pixel(256, 256), Ok(0));
}

#[test]
fn rect_inside_and_guard() {
    let r = Rect::new(Pos2D::new(100, 100), 100, 200);
    // inclusive containment between d and b
    assert!(r.inside_eh(&Pos2D::new(100, 100)));
    assert!(r.inside_eh(&Pos2D::new(200, -100)));
    assert!(r.inside_eh(&Pos2D::new(150, 0)));
    assert!(!r.inside_eh(&Pos2D::new(99, 0)));
    assert!(!r.inside_eh(&Pos2D::new(201, 0)));
    assert!(!r.inside_eh(&Pos2D::new(150, 101)));
    assert!(!r.inside_eh(&Pos2D::new(150, -101)));

    let cam = Camera2D::new(Pos2D::new(0, 0));
    assert!(r.render_guard(&cam, 512, 512));
    let far = Rect::new(Pos2D::new(5000, 5000), 10, 10);
    assert!(!far.render_guard(&cam, 512, 512));
}

#[test]
fn rect_draw_fills_box() {
    let r = Rect::new(Pos2D::new(2, 5), 3, 2);
    assert_eq!(r.d(), Pos2D::new(2, 3));
    assert_eq!(r.b(), Pos2D::new(5, 5));
    let mut fb = Framebuffer::new(8, 8);
    let color: u32 = 0xAA55AA;
    r.draw(&mut fb, color);
    for y in 0..8usize {
        for x in 0..8usize {
            let expected = if (2..5).contains(&x) && (3..5).contains(&y) { color } else { 0 };
            assert_eq!(fb.get_pixel(x, y), Ok(expected));
        }
    }
}

#[test]
fn rect_draw_abs_centered_camera() {
    let r = Rect::new(Pos2D::new(1, 6), 4, 3);
    let cam = Camera2D::new(Pos2D::new(4, 4));
    // viewport of an 8x8 buffer at (4, 4) has its bottom-left at (0, 0)
    let mut fb = Framebuffer::new(8, 8);
    let color: u32 = 0x00FF00;
    r.draw_abs(&mut fb, color, &cam);
    for y in 0..8usize {
        for x in 0..8usize {
            let expected = if (1..5).contains(&x) && (3..6).contains(&y) { color } else { 0 };
            assert_eq!(fb.get_pixel(x, y), Ok(expected));
        }
    }
}

#[test]
fn draw_abs_offsets_by_viewport_corner() {
    // camera at (100, 100) over a 16x16 buffer: the viewport's bottom-left
    // corner is (92, 92), so world point (wx, wy) lands on pixel
    // (wx - 92, wy - 92)
    let cam = Camera2D::new(Pos2D::new(100, 100));

    let r = Rect::new(Pos2D::new(94, 106), 4, 3);
    let mut fb = Framebuffer::new(16, 16);
    let color: u32 = 0x0000FF;
    r.draw_abs(&mut fb, color, &cam);
    for y in 0..16usize {
        for x in 0..16usize {
            let expected = if (2..6).contains(&x) && (11..14).contains(&y) { color } else { 0 };
            assert_eq!(fb.get_pixel(x, y), Ok(expected));
        }
    }

    let t = Triangle::new(Pos2D::new(94, 94), Pos2D::new(100, 94), Pos2D::new(94, 100));
    let mut fb = Framebuffer::new(16, 16);
    t.draw_abs(&mut fb, color, &cam);
    for y in 0..16usize {
        for x in 0..16usize {
            let wx = x as i32 + 92;
            let wy = y as i32 + 92;
            let in_box = (94..100).contains(&wx) && (94..100).contains(&wy);
            let inside = t.inside_eh(&Pos2D::new(wx, wy));
            let expected = if in_box && inside { color } else { 0 };
            assert_eq!(fb.get_pixel(x, y), Ok(expected));
        }
    }
}

#[test]
fn error_descriptions() {
    assert_eq!(EngineError::DegenerateInput.describe(), "degenerate input");
    assert_eq!(EngineError::PixelOutOfBounds.describe(), "pixel out of bounds");
    assert_eq!(EngineError::InvalidPointCount.describe(), "invalid point count");
}

#[test]
fn triangle_transform_checks_point_count() {
    let mut t = Triangle::new(Pos2D::new(0, 0), Pos2D::new(1, 0), Pos2D::new(0, 1));
    let before = t;
    let r = t.transform(vec![Pos2D::new(9, 9), Pos2D::new(8, 8)]);
    assert_eq!(r, Err(EngineError::InvalidPointCount));
    assert_eq!(t, before);

    let r = t.transform(vec![Pos2D::new(9, 9), Pos2D::new(8, 8), Pos2D::new(7, 7)]);
    assert_eq!(r, Ok(()));
    assert_eq!(t, Triangle::new(Pos2D::new(9, 9), Pos2D::new(8, 8), Pos2D::new(7, 7)));
}

#[test]
fn triangle_translations() {
    let mut t = Triangle::new(Pos2D::new(0, 0), Pos2D::new(4, 0), Pos2D::new(0, 4));
    t.translate(10, 20);
    assert_eq!(t, Triangle::new(Pos2D::new(10, 20), Pos2D::new(14, 20), Pos2D::new(10, 24)));
    t.translate_a(-1, 0);
    t.translate_b(0, -1);
    t.translate_c(1, 1);
    assert_eq!(t, Triangle::new(Pos2D::new(9, 20), Pos2D::new(14, 19), Pos2D::new(11, 25)));
    // the round trip restores the original triangle
    let mut u = t;
    u.translate(7, -3);
    u.translate(-7, 3);
    assert_eq!(u, t);
}

#[test]
fn edge_function_signs() {
    let t = Triangle::new(Pos2D::new(-100, -140), Pos2D::new(-180, -140), Pos2D::new(-100, -180));
    let inside = Pos2D::new(-120, -141);
    let outside = Pos2D::new(0, 0);
    let a = Pos2D::new(-100, -140);
    let b = Pos2D::new(-180, -140);
    let c = Pos2D::new(-100, -180);
    assert!(t.edge_function(&b, &c, &inside) > 0);
    assert!(t.edge_function(&c, &a, &inside) > 0);
    assert!(t.edge_function(&a, &b, &inside) > 0);
    assert!(
        t.edge_function(&b, &c, &outside) <= 0
            || t.edge_function(&c, &a, &outside) <= 0
            || t.edge_function(&a, &b, &outside) <= 0
    );
}
