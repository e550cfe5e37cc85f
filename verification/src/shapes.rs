//! Shapes and the software rasterizer. A triangle is three ordered points
//! with clockwise winding and a signed-edge-function containment test; a
//! rectangle is an origin corner with cached derived corners. Each shape can
//! report its bounding box, test a point, and fill its pixels into a
//! framebuffer, either relative to the buffer or relative to a camera.

use vstd::prelude::*;
use crate::camera::Camera2D;
use crate::error::EngineError;
use crate::framebuffer::Framebuffer;
use crate::linear::{max_int, min_int, Pos2D};

verus! {

/// The signed edge function: positive when `b` lies to one side of the
/// directed segment from `a` to `c`, negative on the other side, zero on the
/// line through them. Twice the signed area of the triangle `(a, c, b)`.
pub open spec fn edge_int(ax: int, ay: int, cx: int, cy: int, bx: int, by: int) -> int {
    (cx - ax) * (by - ay) - (cy - ay) * (bx - ax)
}

/// Distinct pixels of one grid occupy distinct slots of the flat row-major
/// array.
proof fn lemma_pixel_index_injective(w: int, x1: int, y1: int, x2: int, y2: int)
    requires
        0 <= x1 < w,
        0 <= x2 < w,
        x1 + y1 * w == x2 + y2 * w,
    ensures
        x1 == x2,
        y1 == y2,
{
    if y1 > y2 {
        assert((y1 - y2) * w >= w) by (nonlinear_arith)
            requires
                y1 - y2 >= 1,
                w > 0,
        ;
        assert(x2 - x1 == (y1 - y2) * w) by (nonlinear_arith)
            requires
                x1 + y1 * w == x2 + y2 * w,
        ;
    } else if y1 < y2 {
        assert((y2 - y1) * w >= w) by (nonlinear_arith)
            requires
                y2 - y1 >= 1,
                w > 0,
        ;
        assert(x1 - x2 == (y2 - y1) * w) by (nonlinear_arith)
            requires
                x1 + y1 * w == x2 + y2 * w,
        ;
    }
}

/// Three ordered 2D points interpreted as a clockwise-wound triangle.
#[derive(Debug, Clone, Copy, PartialEq, Eq, Structural)]
pub struct Triangle {
    pub a: Pos2D,
    pub b: Pos2D,
    pub c: Pos2D,
}

impl Triangle {
    /// Builds a triangle from its three vertices, in clockwise order.
    pub fn new(a: Pos2D, b: Pos2D, c: Pos2D) -> (t: Triangle)
        ensures
            t == (Triangle { a, b, c }),
    {
        Triangle { a, b, c }
    }

    /// The smaller corner of the axis-aligned bounding box of the vertices.
    pub open spec fn spec_min(self) -> Pos2D {
        self.a.min_spec(self.b.min_spec(self.c))
    }

    /// The larger corner of the axis-aligned bounding box of the vertices.
    pub open spec fn spec_max(self) -> Pos2D {
        self.a.max_spec(self.b.max_spec(self.c))
    }

    /// Containment: a point is inside exactly when all three edge functions
    /// of the clockwise winding are strictly positive, so points exactly on
    /// an edge are outside.
    pub open spec fn spec_inside(self, px: int, py: int) -> bool {
        &&& edge_int(self.b.x as int, self.b.y as int, self.c.x as int, self.c.y as int, px, py)
            > 0
        &&& edge_int(self.c.x as int, self.c.y as int, self.a.x as int, self.a.y as int, px, py)
            > 0
        &&& edge_int(self.a.x as int, self.a.y as int, self.b.x as int, self.b.y as int, px, py)
            > 0
    }

    /// The signed edge function for the directed segment `a -> c` and the
    /// query point `b`; positive means inside for a clockwise winding.
    pub fn edge_function(&self, a: &Pos2D, c: &Pos2D, b: &Pos2D) -> (r: i128)
        ensures
            r == edge_int(a.x as int, a.y as int, c.x as int, c.y as int, b.x as int, b.y as int),
    {
        let acx: i64 = (c.x as i64) - (a.x as i64);
        let aby: i64 = (b.y as i64) - (a.y as i64);
        let acy: i64 = (c.y as i64) - (a.y as i64);
        let abx: i64 = (b.x as i64) - (a.x as i64);
        proof {
            assert(-0x10000000000000000 <= (acx as int) * (aby as int) <= 0x10000000000000000)
                by (nonlinear_arith)
                requires
                    -0x100000000 <= acx as int <= 0x100000000,
                    -0x100000000 <= aby as int <= 0x100000000,
            ;
            assert(-0x10000000000000000 <= (acy as int) * (abx as int) <= 0x10000000000000000)
                by (nonlinear_arith)
                requires
                    -0x100000000 <= acy as int <= 0x100000000,
                    -0x100000000 <= abx as int <= 0x100000000,
            ;
        }
        (acx as i128) * (aby as i128) - (acy as i128) * (abx as i128)
    }

    /// Tests whether a point lies strictly inside the triangle.
    pub fn inside_eh(&self, p: &Pos2D) -> (r: bool)
        ensures
            r == self.spec_inside(p.x as int, p.y as int),
    {
        let a0: i128 = self.edge_function(&self.b, &self.c, p);
        let a1: i128 = self.edge_function(&self.c, &self.a, p);
        let a2: i128 = self.edge_function(&self.a, &self.b, p);
        let mut overlaps: bool = true;
        overlaps = overlaps && a0 > 0;
        overlaps = overlaps && a1 > 0;
        overlaps = overlaps && a2 > 0;
        overlaps
    }

    /// The axis-aligned bounding box of the vertices, smaller corner first,
    /// ignoring any viewport.
    pub fn bounds(&self) -> (r: (Pos2D, Pos2D))
        ensures
            r.0 == self.spec_min(),
            r.1 == self.spec_max(),
    {
        let p_min: Pos2D = self.a.min(self.b.min(self.c));
        let p_max: Pos2D = self.a.max(self.b.max(self.c));
        (p_min, p_max)
    }

    /// The visibility pre-check: whether the triangle's bounding box
    /// overlaps the camera window of the given pixel dimensions — the
    /// standard axis-aligned overlap test on both axes.
    pub open spec fn spec_render_guard(self, cam: Camera2D, width: usize, height: usize) -> bool {
        let lo = self.spec_min();
        let hi = self.spec_max();
        &&& lo.x <= cam.spec_pos().x + width / 2
        &&& hi.x >= cam.spec_pos().x - width / 2
        &&& lo.y <= cam.spec_pos().y + height / 2
        &&& hi.y >= cam.spec_pos().y - height / 2
    }

    /// Conservative visibility test against the camera window: true exactly
    /// when the triangle's bounding box overlaps it, so a false result means
    /// the triangle cannot touch any visible pixel.
    pub fn render_guard(&self, cam: &Camera2D, width: usize, height: usize) -> (r: bool)
        requires
            width <= i32::MAX,
            height <= i32::MAX,
        ensures
            r == self.spec_render_guard(*cam, width, height),
    {
        let (p_min, p_max) = self.bounds();
        let w: i64 = (width / 2) as i64;
        let h: i64 = (height / 2) as i64;
        let cx: i64 = cam.pos().x() as i64;
        let cy: i64 = cam.pos().y() as i64;
        (p_min.x() as i64) <= cx + w && (p_max.x() as i64) >= cx - w && (p_min.y() as i64) <= cy
            + h && (p_max.y() as i64) >= cy - h
    }

    /// Moves vertex `a` by the given distances.
    pub fn translate_a(&mut self, tx: i32, ty: i32)
        requires
            i32::MIN <= old(self).a.x + tx <= i32::MAX,
            i32::MIN <= old(self).a.y + ty <= i32::MAX,
        ensures
            *final(self) == (Triangle {
                a: (Pos2D { x: (old(self).a.x + tx) as i32, y: (old(self).a.y + ty) as i32 }),
                ..*old(self)
            }),
    {
        self.a.translate(tx, ty)
    }

    /// Moves vertex `b` by the given distances.
    pub fn translate_b(&mut self, tx: i32, ty: i32)
        requires
            i32::MIN <= old(self).b.x + tx <= i32::MAX,
            i32::MIN <= old(self).b.y + ty <= i32::MAX,
        ensures
            *final(self) == (Triangle {
                b: (Pos2D { x: (old(self).b.x + tx) as i32, y: (old(self).b.y + ty) as i32 }),
                ..*old(self)
            }),
    {
        self.b.translate(tx, ty)
    }

    /// Moves vertex `c` by the given distances.
    pub fn translate_c(&mut self, tx: i32, ty: i32)
        requires
            i32::MIN <= old(self).c.x + tx <= i32::MAX,
            i32::MIN <= old(self).c.y + ty <= i32::MAX,
        ensures
            *final(self) == (Triangle {
                c: (Pos2D { x: (old(self).c.x + tx) as i32, y: (old(self).c.y + ty) as i32 }),
                ..*old(self)
            }),
    {
        self.c.translate(tx, ty)
    }

    /// Moves the whole triangle by the given distances.
    pub fn translate(&mut self, tx: i32, ty: i32)
        requires
            i32::MIN <= old(self).a.x + tx <= i32::MAX,
            i32::MIN <= old(self).a.y + ty <= i32::MAX,
            i32::MIN <= old(self).b.x + tx <= i32::MAX,
            i32::MIN <= old(self).b.y + ty <= i32::MAX,
            i32::MIN <= old(self).c.x + tx <= i32::MAX,
            i32::MIN <= old(self).c.y + ty <= i32::MAX,
        ensures
            *final(self) == (Triangle {
                a: (Pos2D { x: (old(self).a.x + tx) as i32, y: (old(self).a.y + ty) as i32 }),
                b: (Pos2D { x: (old(self).b.x + tx) as i32, y: (old(self).b.y + ty) as i32 }),
                c: (Pos2D { x: (old(self).c.x + tx) as i32, y: (old(self).c.y + ty) as i32 }),
            }),
    {
        self.a.translate(tx, ty);
        self.b.translate(tx, ty);
        self.c.translate(tx, ty);
    }

    /// Re-points the triangle to the first three of the given points. With
    /// fewer than three points the triangle is unchanged and the call fails
    /// with `InvalidPointCount` instead of panicking.
    pub fn transform(&mut self, points: Vec<Pos2D>) -> (r: Result<(), EngineError>)
        ensures
            points@.len() >= 3 ==> {
                &&& r == Ok::<(), EngineError>(())
                &&& *final(self) == (Triangle { a: points@[0], b: points@[1], c: points@[2] })
            },
            points@.len() < 3 ==> {
                &&& r == Err::<(), EngineError>(EngineError::InvalidPointCount)
                &&& *final(self) == *old(self)
            },
    {
        if points.len() < 3 {
            return Err(EngineError::InvalidPointCount);
        }
        self.a = points[0].new_from_self();
        self.b = points[1].new_from_self();
        self.c = points[2].new_from_self();
        Ok(())
    }

    /// The pixels that `draw` paints: those of the bounding box clamped to
    /// the buffer whose coordinates lie strictly inside the triangle. The
    /// clamped box is half-open, so its upper edges are excluded.
    pub open spec fn spec_draw_covers(self, w: int, h: int, x: int, y: int) -> bool {
        let lo = self.spec_min();
        let hi = self.spec_max();
        &&& max_int(lo.x as int, 0) <= x < min_int(hi.x as int, w)
        &&& max_int(lo.y as int, 0) <= y < min_int(hi.y as int, h)
        &&& self.spec_inside(x, y)
    }

    /// Rasterizes the triangle into the framebuffer, treating vertex
    /// coordinates as pixel coordinates: every pixel of the clamped
    /// bounding box that lies inside the triangle is overwritten with
    /// `color`, and no other pixel changes.
    pub fn draw(&self, fb: &mut Framebuffer, color: u32)
        requires
            old(fb).wf(),
        ensures
            final(fb).wf(),
            final(fb).spec_width() == old(fb).spec_width(),
            final(fb).spec_height() == old(fb).spec_height(),
            final(fb)@.len() == old(fb)@.len(),
            forall|x: int, y: int|
                old(fb).contains_pixel(x, y) ==> final(fb)@[#[trigger] old(fb).pixel_index(x, y)]
                    == (if self.spec_draw_covers(
                    old(fb).spec_width() as int,
                    old(fb).spec_height() as int,
                    x,
                    y,
                ) {
                    color
                } else {
                    old(fb)@[old(fb).pixel_index(x, y)]
                }),
    {
        let width: usize = fb.width();
        let height: usize = fb.height();
        let (lo, hi) = self.bounds();
        let px0: usize = if lo.x() < 0 {
            0
        } else {
            lo.x() as usize
        };
        let py0: usize = if lo.y() < 0 {
            0
        } else {
            lo.y() as usize
        };
        let px1: usize = if hi.x() < 0 {
            0
        } else if (hi.x() as usize) < width {
            hi.x() as usize
        } else {
            width
        };
        let py1: usize = if hi.y() < 0 {
            0
        } else if (hi.y() as usize) < height {
            hi.y() as usize
        } else {
            height
        };
        let px0: usize = if px0 > px1 {
            px1
        } else {
            px0
        };
        let py0: usize = if py0 > py1 {
            py1
        } else {
            py0
        };
        self.fill_box(fb, color, px0, px1, py0, py1, 0, 0);
    }

    /// The pixels that `draw_abs` paints for a given camera: none when the
    /// render guard fails; otherwise those whose world point — the pixel
    /// offset by the viewport's bottom-left corner — lies in the bounding
    /// box clamped to the viewport and strictly inside the triangle.
    pub open spec fn spec_draw_abs_covers(
        self,
        cam: Camera2D,
        w: int,
        h: int,
        x: int,
        y: int,
    ) -> bool {
        let lo = self.spec_min();
        let hi = self.spec_max();
        let blx = cam.spec_pos().x - w / 2;
        let bly = cam.spec_pos().y - h / 2;
        let trx = cam.spec_pos().x + w / 2;
        let try_y = cam.spec_pos().y + h / 2;
        &&& self.spec_render_guard(cam, w as usize, h as usize)
        &&& max_int(lo.x as int, blx) <= x + blx < min_int(hi.x as int, trx)
        &&& max_int(lo.y as int, bly) <= y + bly < min_int(hi.y as int, try_y)
        &&& self.spec_inside(x + blx, y + bly)
    }

    /// Rasterizes the triangle in camera-relative mode: nothing is drawn
    /// when the render guard rejects the triangle; otherwise the bounding
    /// box is intersected with the viewport window and each covered world
    /// point is written at its viewport-relative pixel.
    pub fn draw_abs(&self, fb: &mut Framebuffer, color: u32, camera: &Camera2D)
        requires
            old(fb).wf(),
            old(fb).spec_width() <= i32::MAX,
            old(fb).spec_height() <= i32::MAX,
            i32::MIN <= camera.spec_pos().x - old(fb).spec_width() / 2,
            camera.spec_pos().x + old(fb).spec_width() / 2 <= i32::MAX,
            i32::MIN <= camera.spec_pos().y - old(fb).spec_height() / 2,
            camera.spec_pos().y + old(fb).spec_height() / 2 <= i32::MAX,
        ensures
            final(fb).wf(),
            final(fb).spec_width() == old(fb).spec_width(),
            final(fb).spec_height() == old(fb).spec_height(),
            final(fb)@.len() == old(fb)@.len(),
            forall|x: int, y: int|
                old(fb).contains_pixel(x, y) ==> final(fb)@[#[trigger] old(fb).pixel_index(x, y)]
                    == (if self.spec_draw_abs_covers(
                    *camera,
                    old(fb).spec_width() as int,
                    old(fb).spec_height() as int,
                    x,
                    y,
                ) {
                    color
                } else {
                    old(fb)@[old(fb).pixel_index(x, y)]
                }),
    {
        let width: usize = fb.width();
        let height: usize = fb.height();
        if !self.render_guard(camera, width, height) {
            return ;
        }
        let (bl, tr) = camera.viewport(width, height);
        let (lo, hi) = self.bounds();
        let cl = lo.max(bl);
        let ch = hi.min(tr);
        // clamped world box [cl, ch), shifted by the offset -bl into pixels
        let px0: usize = if cl.x() < bl.x() {
            0
        } else {
            (((cl.x() as i64) - (bl.x() as i64)) as u64) as usize
        };
        let py0: usize = if cl.y() < bl.y() {
            0
        } else {
            (((cl.y() as i64) - (bl.y() as i64)) as u64) as usize
        };
        let px1: usize = if ch.x() < bl.x() {
            0
        } else {
            (((ch.x() as i64) - (bl.x() as i64)) as u64) as usize
        };
        let py1: usize = if ch.y() < bl.y() {
            0
        } else {
            (((ch.y() as i64) - (bl.y() as i64)) as u64) as usize
        };
        let px0: usize = if px0 > px1 {
            px1
        } else {
            px0
        };
        let py0: usize = if py0 > py1 {
            py1
        } else {
            py0
        };
        let px1: usize = if px1 > width {
            width
        } else {
            px1
        };
        let py1: usize = if py1 > height {
            height
        } else {
            py1
        };
        let px0: usize = if px0 > px1 {
            px1
        } else {
            px0
        };
        let py0: usize = if py0 > py1 {
            py1
        } else {
            py0
        };
        self.fill_box(fb, color, px0, px1, py0, py1, bl.x(), bl.y());
    }

    /// Paints `color` over every pixel of the half-open box
    /// `[px0, px1) x [py0, py1)` whose world point — the pixel offset by
    /// `(ox, oy)` — lies strictly inside the triangle.
    #[verifier::loop_isolation(false)]
    fn fill_box(
        &self,
        fb: &mut Framebuffer,
        color: u32,
        px0: usize,
        px1: usize,
        py0: usize,
        py1: usize,
        ox: i32,
        oy: i32,
    )
        requires
            old(fb).wf(),
            px0 <= px1,
            py0 <= py1,
            px1 <= old(fb).spec_width(),
            py1 <= old(fb).spec_height(),
            i32::MIN <= px0 + ox,
            px1 + ox <= i32::MAX + 1,
            i32::MIN <= py0 + oy,
            py1 + oy <= i32::MAX + 1,
            px1 <= i32::MAX + 1,
            py1 <= i32::MAX + 1,
        ensures
            final(fb).wf(),
            final(fb).spec_width() == old(fb).spec_width(),
            final(fb).spec_height() == old(fb).spec_height(),
            final(fb)@.len() == old(fb)@.len(),
            forall|x: int, y: int|
                old(fb).contains_pixel(x, y) ==> final(fb)@[#[trigger] old(fb).pixel_index(x, y)]
                    == (if px0 <= x < px1 && py0 <= y < py1 && self.spec_inside(x + ox, y + oy) {
                    color
                } else {
                    old(fb)@[old(fb).pixel_index(x, y)]
                }),
    {
        proof {
            old(fb).lemma_grid();
        }
        let mut x: usize = px0;
        while x < px1
            invariant
                fb.wf(),
                fb.spec_width() == old(fb).spec_width(),
                fb.spec_height() == old(fb).spec_height(),
                fb@.len() == old(fb)@.len(),
                px0 <= x <= px1,
                px1 <= old(fb).spec_width(),
                py1 <= old(fb).spec_height(),
                py0 <= py1,
                i32::MIN <= px0 + ox,
                px1 + ox <= i32::MAX + 1,
                i32::MIN <= py0 + oy,
                py1 + oy <= i32::MAX + 1,
                forall|i: int, j: int|
                    old(fb).contains_pixel(i, j) ==> fb@[#[trigger] old(fb).pixel_index(i, j)] == (
                    if px0 <= i < x && py0 <= j < py1 && self.spec_inside(i + ox, j + oy) {
                        color
                    } else {
                        old(fb)@[old(fb).pixel_index(i, j)]
                    }),
            decreases px1 - x,
        {
            let mut y: usize = py0;
            while y < py1
                invariant
                    fb.wf(),
                    fb.spec_width() == old(fb).spec_width(),
                    fb.spec_height() == old(fb).spec_height(),
                    fb@.len() == old(fb)@.len(),
                    px0 <= x < px1,
                    py0 <= y <= py1,
                    px1 <= old(fb).spec_width(),
                    py1 <= old(fb).spec_height(),
                    i32::MIN <= px0 + ox,
                    px1 + ox <= i32::MAX + 1,
                    i32::MIN <= py0 + oy,
                    py1 + oy <= i32::MAX + 1,
                    forall|i: int, j: int|
                        old(fb).contains_pixel(i, j) ==> fb@[#[trigger] old(fb).pixel_index(i, j)]
                            == (if (px0 <= i < x && py0 <= j < py1 && self.spec_inside(
                            i + ox,
                            j + oy,
                        )) || (i == x && py0 <= j < y && self.spec_inside(i + ox, j + oy)) {
                            color
                        } else {
                            old(fb)@[old(fb).pixel_index(i, j)]
                        }),
                decreases py1 - y,
            {
                let wx: i32 = ((x as i64) + (ox as i64)) as i32;
                let wy: i32 = ((y as i64) + (oy as i64)) as i32;
                let p: Pos2D = Pos2D::new(wx, wy);
                if self.inside_eh(&p) {
                    let ghost prev = fb@;
                    let res: Result<(), EngineError> = fb.set_pixel(x, y, color);
                    proof {
                        let w = old(fb).spec_width() as int;
                        let h = old(fb).spec_height() as int;
                        assert(old(fb).contains_pixel(x as int, y as int));
                        assert(prev.len() == old(fb)@.len());
                        assert(fb@ == prev.update(
                            old(fb).pixel_index(x as int, y as int),
                            color,
                        ));
                        assert forall|i: int, j: int| old(fb).contains_pixel(i, j) implies fb@[#[trigger] old(
                            fb,
                        ).pixel_index(i, j)] == (if (px0 <= i < x && py0 <= j < py1
                            && self.spec_inside(i + ox, j + oy)) || (i == x && py0 <= j < y + 1
                            && self.spec_inside(i + ox, j + oy)) {
                            color
                        } else {
                            old(fb)@[old(fb).pixel_index(i, j)]
                        }) by {
                            assert(0 <= i + j * w < w * h) by (nonlinear_arith)
                                requires
                                    0 <= i < w,
                                    0 <= j < h,
                            ;
                            assert(0 <= old(fb).pixel_index(i, j) < old(fb)@.len());
                            if i == x as int && j == y as int {
                                assert(fb@[old(fb).pixel_index(i, j)] == color);
                            } else {
                                if old(fb).pixel_index(i, j) == old(fb).pixel_index(
                                    x as int,
                                    y as int,
                                ) {
                                    lemma_pixel_index_injective(w, i, j, x as int, y as int);
                                }
                                assert(fb@[old(fb).pixel_index(i, j)] == prev[old(fb).pixel_index(
                                    i,
                                    j,
                                )]);
                            }
                        }
                    }
                } else {
                    proof {
                        assert(!self.spec_inside(x as int + ox, y as int + oy));
                    }
                }
                y = y + 1;
            }
            x = x + 1;
        }
    }
}

/// An axis-aligned rectangle built from its top-left corner plus a length
/// and a height, with all four corners derived at construction and cached:
/// `a` top-left, `b` top-right, `c` bottom-right, `d` bottom-left.
#[derive(Debug, Clone, Copy, PartialEq, Eq, Structural)]
pub struct Rect {
    pub a: Pos2D,
    pub b: Pos2D,
    pub c: Pos2D,
    pub d: Pos2D,
    pub length: i32,
    pub height: i32,
}

impl Rect {
    /// Well-formedness: the cached corners agree with the top-left corner,
    /// the length and the height. `new` establishes it.
    pub open spec fn wf(self) -> bool {
        &&& 0 <= self.length
        &&& 0 <= self.height
        &&& self.a.x + self.length <= i32::MAX
        &&& i32::MIN <= self.a.y - self.height
        &&& self.b == (Pos2D { x: (self.a.x + self.length) as i32, y: self.a.y })
        &&& self.c == (Pos2D {
            x: (self.a.x + self.length) as i32,
            y: (self.a.y - self.height) as i32,
        })
        &&& self.d == (Pos2D { x: self.a.x, y: (self.a.y - self.height) as i32 })
    }

    /// Builds a rectangle from its top-left corner, length and height,
    /// without rotation, deriving the other three corners.
    pub fn new(point: Pos2D, length: i32, height: i32) -> (r: Rect)
        requires
            0 <= length,
            0 <= height,
            point.x + length <= i32::MAX,
            i32::MIN <= point.y - height,
        ensures
            r.a == point,
            r.b == (Pos2D { x: (point.x + length) as i32, y: point.y }),
            r.c == (Pos2D { x: (point.x + length) as i32, y: (point.y - height) as i32 }),
            r.d == (Pos2D { x: point.x, y: (point.y - height) as i32 }),
            r.length == length,
            r.height == height,
            r.wf(),
    {
        Rect {
            a: point,
            b: Pos2D::new(point.x + length, point.y),
            c: Pos2D::new(point.x + length, point.y - height),
            d: Pos2D::new(point.x, point.y - height),
            length,
            height,
        }
    }

    /// Getter for the top-left corner.
    pub fn a(&self) -> (r: Pos2D)
        ensures
            r == self.a,
    {
        self.a
    }

    /// Getter for the top-right corner.
    pub fn b(&self) -> (r: Pos2D)
        ensures
            r == self.b,
    {
        self.b
    }

    /// Getter for the bottom-right corner.
    pub fn c(&self) -> (r: Pos2D)
        ensures
            r == self.c,
    {
        self.c
    }

    /// Getter for the bottom-left corner.
    pub fn d(&self) -> (r: Pos2D)
        ensures
            r == self.d,
    {
        self.d
    }

    /// Containment, inclusive of the edges: between the bottom-left corner
    /// `d` and the top-right corner `b` on both axes.
    pub open spec fn spec_inside(self, px: int, py: int) -> bool {
        &&& self.d.x <= px <= self.b.x
        &&& self.d.y <= py <= self.a.y
    }

    /// Tests whether a point lies inside the rectangle, edges included.
    pub fn inside_eh(&self, p: &Pos2D) -> (r: bool)
        ensures
            r == self.spec_inside(p.x as int, p.y as int),
    {
        self.d.x <= p.x && p.x <= self.b.x && self.d.y <= p.y && p.y <= self.a.y
    }

    /// The visibility pre-check: whether the rectangle — whose bounding box
    /// runs from `d` to `b` — overlaps the camera window, as the standard
    /// axis-aligned overlap test on both axes.
    pub open spec fn spec_render_guard(self, cam: Camera2D, width: usize, height: usize) -> bool {
        &&& self.d.x <= cam.spec_pos().x + width / 2
        &&& self.b.x >= cam.spec_pos().x - width / 2
        &&& self.d.y <= cam.spec_pos().y + height / 2
        &&& self.b.y >= cam.spec_pos().y - height / 2
    }

    /// Conservative visibility test against the camera window: true exactly
    /// when the rectangle's bounding box overlaps it.
    pub fn render_guard(&self, cam: &Camera2D, width: usize, height: usize) -> (r: bool)
        requires
            width <= i32::MAX,
            height <= i32::MAX,
        ensures
            r == self.spec_render_guard(*cam, width, height),
    {
        let w: i64 = (width / 2) as i64;
        let h: i64 = (height / 2) as i64;
        let cx: i64 = cam.pos().x() as i64;
        let cy: i64 = cam.pos().y() as i64;
        (self.d.x as i64) <= cx + w && (self.b.x as i64) >= cx - w && (self.d.y as i64) <= cy + h
            && (self.b.y as i64) >= cy - h
    }

    /// The pixels that `draw` paints: those of the half-open box from `d`
    /// to `b` clamped to the buffer. Every such pixel lies inside the
    /// rectangle, edges included.
    pub open spec fn spec_draw_covers(self, w: int, h: int, x: int, y: int) -> bool {
        &&& max_int(self.d.x as int, 0) <= x < min_int(self.b.x as int, w)
        &&& max_int(self.d.y as int, 0) <= y < min_int(self.b.y as int, h)
    }

    /// Rasterizes the rectangle into the framebuffer, treating corner
    /// coordinates as pixel coordinates: every pixel of the clamped box is
    /// overwritten with `color`, and no other pixel changes.
    pub fn draw(&self, fb: &mut Framebuffer, color: u32)
        requires
            old(fb).wf(),
        ensures
            final(fb).wf(),
            final(fb).spec_width() == old(fb).spec_width(),
            final(fb).spec_height() == old(fb).spec_height(),
            final(fb)@.len() == old(fb)@.len(),
            forall|x: int, y: int|
                old(fb).contains_pixel(x, y) ==> final(fb)@[#[trigger] old(fb).pixel_index(x, y)]
                    == (if self.spec_draw_covers(
                    old(fb).spec_width() as int,
                    old(fb).spec_height() as int,
                    x,
                    y,
                ) {
                    color
                } else {
                    old(fb)@[old(fb).pixel_index(x, y)]
                }),
    {
        let width: usize = fb.width();
        let height: usize = fb.height();
        let px0: usize = if self.d.x < 0 {
            0
        } else {
            self.d.x as usize
        };
        let py0: usize = if self.d.y < 0 {
            0
        } else {
            self.d.y as usize
        };
        let px1: usize = if self.b.x < 0 {
            0
        } else if (self.b.x as usize) < width {
            self.b.x as usize
        } else {
            width
        };
        let py1: usize = if self.b.y < 0 {
            0
        } else if (self.b.y as usize) < height {
            self.b.y as usize
        } else {
            height
        };
        let px0: usize = if px0 > px1 {
            px1
        } else {
            px0
        };
        let py0: usize = if py0 > py1 {
            py1
        } else {
            py0
        };
        fill_box_solid(fb, color, px0, px1, py0, py1);
    }

    /// The pixels that `draw_abs` paints for a given camera: none when the
    /// render guard fails; otherwise those whose world point — the pixel
    /// offset by the viewport's bottom-left corner — lies in the half-open
    /// box from `d` to `b` clamped to the viewport.
    pub open spec fn spec_draw_abs_covers(
        self,
        cam: Camera2D,
        w: int,
        h: int,
        x: int,
        y: int,
    ) -> bool {
        let blx = cam.spec_pos().x - w / 2;
        let bly = cam.spec_pos().y - h / 2;
        let trx = cam.spec_pos().x + w / 2;
        let try_y = cam.spec_pos().y + h / 2;
        &&& self.spec_render_guard(cam, w as usize, h as usize)
        &&& max_int(self.d.x as int, blx) <= x + blx < min_int(self.b.x as int, trx)
        &&& max_int(self.d.y as int, bly) <= y + bly < min_int(self.b.y as int, try_y)
    }

    /// Rasterizes the rectangle in camera-relative mode: nothing is drawn
    /// when the render guard rejects it; otherwise its box is intersected
    /// with the viewport window and each covered world point is written at
    /// its viewport-relative pixel.
    pub fn draw_abs(&self, fb: &mut Framebuffer, color: u32, cam: &Camera2D)
        requires
            old(fb).wf(),
            old(fb).spec_width() <= i32::MAX,
            old(fb).spec_height() <= i32::MAX,
            i32::MIN <= cam.spec_pos().x - old(fb).spec_width() / 2,
            cam.spec_pos().x + old(fb).spec_width() / 2 <= i32::MAX,
            i32::MIN <= cam.spec_pos().y - old(fb).spec_height() / 2,
            cam.spec_pos().y + old(fb).spec_height() / 2 <= i32::MAX,
        ensures
            final(fb).wf(),
            final(fb).spec_width() == old(fb).spec_width(),
            final(fb).spec_height() == old(fb).spec_height(),
            final(fb)@.len() == old(fb)@.len(),
            forall|x: int, y: int|
                old(fb).contains_pixel(x, y) ==> final(fb)@[#[trigger] old(fb).pixel_index(x, y)]
                    == (if self.spec_draw_abs_covers(
                    *cam,
                    old(fb).spec_width() as int,
                    old(fb).spec_height() as int,
                    x,
                    y,
                ) {
                    color
                } else {
                    old(fb)@[old(fb).pixel_index(x, y)]
                }),
    {
        let width: usize = fb.width();
        let height: usize = fb.height();
        if !self.render_guard(cam, width, height) {
            return ;
        }
        let (bl0, tr) = cam.viewport(width, height);
        // in a rect, d is the minimum corner and b the maximum, so the box
        // is clamped to the window from both sides
        let bl = bl0.max(self.d);
        let tr = tr.min(self.b);
        let px0: usize = if bl.x() < bl0.x() {
            0
        } else {
            (((bl.x() as i64) - (bl0.x() as i64)) as u64) as usize
        };
        let py0: usize = if bl.y() < bl0.y() {
            0
        } else {
            (((bl.y() as i64) - (bl0.y() as i64)) as u64) as usize
        };
        let px1: usize = if tr.x() < bl0.x() {
            0
        } else {
            (((tr.x() as i64) - (bl0.x() as i64)) as u64) as usize
        };
        let py1: usize = if tr.y() < bl0.y() {
            0
        } else {
            (((tr.y() as i64) - (bl0.y() as i64)) as u64) as usize
        };
        let px1: usize = if px1 > width {
            width
        } else {
            px1
        };
        let py1: usize = if py1 > height {
            height
        } else {
            py1
        };
        let px0: usize = if px0 > px1 {
            px1
        } else {
            px0
        };
        let py0: usize = if py0 > py1 {
            py1
        } else {
            py0
        };
        fill_box_solid(fb, color, px0, px1, py0, py1);
    }
}

/// Paints `color` over every pixel of the half-open box
/// `[px0, px1) x [py0, py1)` of the framebuffer.
#[verifier::loop_isolation(false)]
fn fill_box_solid(fb: &mut Framebuffer, color: u32, px0: usize, px1: usize, py0: usize, py1: usize)
    requires
        old(fb).wf(),
        px0 <= px1,
        py0 <= py1,
        px1 <= old(fb).spec_width(),
        py1 <= old(fb).spec_height(),
    ensures
        final(fb).wf(),
        final(fb).spec_width() == old(fb).spec_width(),
        final(fb).spec_height() == old(fb).spec_height(),
        final(fb)@.len() == old(fb)@.len(),
        forall|x: int, y: int|
            old(fb).contains_pixel(x, y) ==> final(fb)@[#[trigger] old(fb).pixel_index(x, y)] == (
            if px0 <= x < px1 && py0 <= y < py1 {
                color
            } else {
                old(fb)@[old(fb).pixel_index(x, y)]
            }),
{
    proof {
        old(fb).lemma_grid();
    }
    let mut x: usize = px0;
    while x < px1
        invariant
            fb.wf(),
            fb.spec_width() == old(fb).spec_width(),
            fb.spec_height() == old(fb).spec_height(),
            fb@.len() == old(fb)@.len(),
            px0 <= x <= px1,
            forall|i: int, j: int|
                old(fb).contains_pixel(i, j) ==> fb@[#[trigger] old(fb).pixel_index(i, j)] == (
                if px0 <= i < x && py0 <= j < py1 {
                    color
                } else {
                    old(fb)@[old(fb).pixel_index(i, j)]
                }),
        decreases px1 - x,
    {
        let mut y: usize = py0;
        while y < py1
            invariant
                fb.wf(),
                fb.spec_width() == old(fb).spec_width(),
                fb.spec_height() == old(fb).spec_height(),
                fb@.len() == old(fb)@.len(),
                px0 <= x < px1,
                py0 <= y <= py1,
                forall|i: int, j: int|
                    old(fb).contains_pixel(i, j) ==> fb@[#[trigger] old(fb).pixel_index(i, j)]
                        == (if (px0 <= i < x && py0 <= j < py1) || (i == x && py0 <= j < y) {
                        color
                    } else {
                        old(fb)@[old(fb).pixel_index(i, j)]
                    }),
            decreases py1 - y,
        {
            let ghost prev = fb@;
            let res: Result<(), EngineError> = fb.set_pixel(x, y, color);
            proof {
                let w = old(fb).spec_width() as int;
                let h = old(fb).spec_height() as int;
                assert(old(fb).contains_pixel(x as int, y as int));
                assert(fb@ == prev.update(old(fb).pixel_index(x as int, y as int), color));
                assert forall|i: int, j: int| old(fb).contains_pixel(i, j) implies fb@[#[trigger] old(
                    fb,
                ).pixel_index(i, j)] == (if (px0 <= i < x && py0 <= j < py1) || (i == x && py0 <= j
                    < y + 1) {
                    color
                } else {
                    old(fb)@[old(fb).pixel_index(i, j)]
                }) by {
                    assert(0 <= i + j * w < w * h) by (nonlinear_arith)
                        requires
                            0 <= i < w,
                            0 <= j < h,
                    ;
                    assert(0 <= old(fb).pixel_index(i, j) < old(fb)@.len());
                    if i == x as int && j == y as int {
                        assert(fb@[old(fb).pixel_index(i, j)] == color);
                    } else {
                        if old(fb).pixel_index(i, j) == old(fb).pixel_index(x as int, y as int) {
                            lemma_pixel_index_injective(w, i, j, x as int, y as int);
                        }
                        assert(fb@[old(fb).pixel_index(i, j)] == prev[old(fb).pixel_index(i, j)]);
                    }
                }
            }
            y = y + 1;
        }
        x = x + 1;
    }
}

} // verus!
