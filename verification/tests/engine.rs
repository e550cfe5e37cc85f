//! Core engine behaviour: the linear-algebra value types, the triangle
//! rasterizer pre-checks and the rectangle corners.

use tepi::camera::Camera2D;
use tepi::linear::{Pos2D, Pos3D, Vec2D, Vec3D};
use tepi::shapes::{Rect, Triangle};

#[test]
fn test_pos2d() {
    let mut pos1 = Pos2D::new(2, 4);
    let mut pos2 = Pos2D::new(5, 2);

    // translation
    pos1.translate_x(3);
    pos2.translate_y(-1);
    assert_eq!(pos1, Pos2D::new(5, 4));
    assert_eq!(pos2, Pos2D::new(5, 1));

    // translation with vector additions
    let v = Vec2D::new(1, 3);
    pos1 = pos1.add(v);
    pos2.add_assign(v);
    assert_eq!(pos1, Pos2D::new(6, 7));
    assert_eq!(pos2, Pos2D::new(6, 4));

    // lerp tests: t = 1/2 half way between the two points
    let pos3 = Pos2D::zero();
    let pos4 = Pos2D::new(100, 100);
    assert_eq!(Pos2D::lerp(pos3, pos4, 1, 2), Pos2D::new(50, 50));

    let lerp_vec = Pos2D::lerp_steps(pos3, pos4, 20);
    assert_eq!(lerp_vec.len(), 21);
    assert_eq!(lerp_vec[0], pos3);
    assert_eq!(lerp_vec[20], pos4);

    // min/max tests
    assert_eq!(pos3.min(pos4), pos3);
    assert_eq!(pos3.max(pos4), pos4);

    // set tests
    pos1.set_x(0);
    pos1.set_y(0);
    pos2.set(0, 0);
    assert_eq!(pos1, Pos2D::zero());
    assert_eq!(pos2, Pos2D::zero());
}

#[test]
fn test_pos3d() {
    let mut pos1 = Pos3D::new(2, 4, 2);
    let mut pos2 = Pos3D::new(5, 2, 4);

    // translation
    pos1.translate_x(3);
    pos2.translate_y(-1);
    pos2.translate_z(10);
    assert_eq!(pos1, Pos3D::new(5, 4, 2));
    assert_eq!(pos2, Pos3D::new(5, 1, 14));

    // translation with vector additions
    let v = Vec3D::new(1, 3, -3);
    pos1 = pos1.add(v);
    pos2.add_assign(v);
    assert_eq!(pos1, Pos3D::new(6, 7, -1));
    assert_eq!(pos2, Pos3D::new(6, 4, 11));

    // lerp tests: t = 1/2 half way between the two points
    let pos3 = Pos3D::zero();
    let pos4 = Pos3D::new(100, 100, 100);
    assert_eq!(Pos3D::lerp(pos3, pos4, 1, 2), Pos3D::new(50, 50, 50));

    let lerp_vec = Pos3D::lerp_steps(pos3, pos4, 20);
    assert_eq!(lerp_vec.len(), 21);
    assert_eq!(lerp_vec[0], pos3);
    assert_eq!(lerp_vec[20], pos4);

    // min/max tests
    assert_eq!(pos3.min(pos4), pos3);
    assert_eq!(pos3.max(pos4), pos4);

    // set tests
    pos1.set_x(0);
    pos1.set_y(0);
    pos1.set_z(0);
    pos2.set(0, 0, 0);
    assert_eq!(pos1, Pos3D::zero());
    assert_eq!(pos2, Pos3D::zero());
}

#[test]
fn test_vec2d() {
    let mut v1 = Vec2D::new(1, 2);
    let mut v2 = Vec2D::new(3, -1);

    // vector addition
    assert_eq!(v1.add(v2), Vec2D::new(4, 1));

    // scalar multiplication
    let v3 = Vec2D::new(2, 4);
    assert_eq!(v1.mul(2), v3);

    // setters
    v1.set_dx(3);
    v2.set_dy(2);
    assert_eq!(v1, v2);
    v1.set(2, 4);
    assert_eq!(v1, v3);
}

#[test]
fn test_triangle() {
    let tp1 = Pos2D::new(-100, -140);
    let tp2 = Pos2D::new(-180, -140);
    let tp3 = Pos2D::new(-100, -180);

    // the unit-space triangle (0.5, 0.7), (0.9, 0.7), (0.5, 0.9) scaled by
    // 200, which leaves every edge-function sign unchanged
    let tp4 = Pos2D::new(100, 140);
    let tp5 = Pos2D::new(180, 140);
    let tp6 = Pos2D::new(100, 180);

    let t1 = Triangle::new(tp1, tp2, tp3);
    let t2 = Triangle::new(tp4, tp5, tp6);
    let t3 = Triangle::new(tp4, tp5, tp6);
    let p1 = Pos2D::zero();
    let p2 = Pos2D::new(120, 150);
    let p3 = Pos2D::new(-120, -141);
    assert_eq!(t1.inside_eh(&p1), false);
    assert_eq!(t1.inside_eh(&p3), true);
    assert_eq!(t2.inside_eh(&p1), false);
    assert_eq!(t2.inside_eh(&p2), true);

    // test integrity of draw_abs
    let cam = Camera2D::new(Pos2D::new(0, 0));

    let width: usize = 512;
    let height: usize = 512;

    // check if we are allowed to draw
    assert_eq!(t3.render_guard(&cam, width, height), true);

    // check our view bounds
    let mut bl = cam.pos().new_from_self();
    bl.translate(-((width / 2) as i32), -((height / 2) as i32));
    assert_eq!(Pos2D::new(-256, -256), bl);
    let mut tr = cam.pos().new_from_self();
    tr.translate((width / 2) as i32, (height / 2) as i32);
    assert_eq!(Pos2D::new(256, 256), tr);
    let (vbl, vtr) = cam.viewport(width, height);
    assert_eq!(vbl, bl);
    assert_eq!(vtr, tr);

    // the offset shifts the viewport's bottom-left corner onto pixel (0, 0)
    let offset = Pos2D::new(-bl.x(), -bl.y());
    assert_eq!(bl.x() + offset.x(), 0);
    assert_eq!(bl.y() + offset.y(), 0);

    // the bounding box clamped to the viewport
    let mut bounds = t3.bounds();
    bounds.0 = bounds.0.max(bl);
    bounds.1 = bounds.1.min(tr);
    assert_eq!(bounds.0, Pos2D::new(100, 140));
    assert_eq!(bounds.1, Pos2D::new(180, 180));
}

#[test]
fn test_rect() {
    let r1 = Rect::new(Pos2D::new(100, 100), 100, 200);
    assert_eq!(r1.a(), Pos2D::new(100, 100));
    assert_eq!(r1.b(), Pos2D::new(200, 100));
    assert_eq!(r1.c(), Pos2D::new(200, -100));
    assert_eq!(r1.d(), Pos2D::new(100, -100));
}

#[test]
fn test_logger() {
}
