//! Cameras: each one holds a position and acts as a pure coordinate
//! authority. The 2D camera derives the viewport window — the axis-aligned
//! rectangle of world space that maps onto the framebuffer — from the
//! framebuffer dimensions; it owns no pixels and clips no geometry itself.

use vstd::prelude::*;
use crate::linear::{Pos2D, Pos3D};

verus! {

/// Camera for 2D scenes: a position from which the viewport is derived.
#[derive(Debug, Clone, Copy, PartialEq, Eq, Structural)]
pub struct Camera2D {
    pos: Pos2D,
}

/// Camera for 3D scenes: a position in space.
#[derive(Debug, Clone, Copy, PartialEq, Eq, Structural)]
pub struct Camera3D {
    pos: Pos3D,
}

impl Camera2D {
    /// The camera position as a spec value.
    pub closed spec fn spec_pos(&self) -> Pos2D {
        self.pos
    }

    /// Places a camera at the given position.
    pub fn new(pos: Pos2D) -> (cam: Camera2D)
        ensures
            cam.spec_pos() == pos,
    {
        Camera2D { pos }
    }

    /// Getter for the camera position.
    #[verifier::when_used_as_spec(spec_pos)]
    pub fn pos(&self) -> (p: Pos2D)
        ensures
            p == self.spec_pos(),
    {
        self.pos
    }

    /// Moves the camera along the x axis.
    pub fn translate_x(&mut self, tx: i32)
        requires
            i32::MIN <= old(self).spec_pos().x + tx <= i32::MAX,
        ensures
            final(self).spec_pos() == (Pos2D {
                x: (old(self).spec_pos().x + tx) as i32,
                y: old(self).spec_pos().y,
            }),
    {
        self.pos.translate_x(tx);
    }

    /// Moves the camera along the y axis.
    pub fn translate_y(&mut self, ty: i32)
        requires
            i32::MIN <= old(self).spec_pos().y + ty <= i32::MAX,
        ensures
            final(self).spec_pos() == (Pos2D {
                x: old(self).spec_pos().x,
                y: (old(self).spec_pos().y + ty) as i32,
            }),
    {
        self.pos.translate_y(ty);
    }

    /// Moves the camera along both axes.
    pub fn translate(&mut self, x: i32, y: i32)
        requires
            i32::MIN <= old(self).spec_pos().x + x <= i32::MAX,
            i32::MIN <= old(self).spec_pos().y + y <= i32::MAX,
        ensures
            final(self).spec_pos() == (Pos2D {
                x: (old(self).spec_pos().x + x) as i32,
                y: (old(self).spec_pos().y + y) as i32,
            }),
    {
        self.pos.translate(x, y);
    }

    /// Moves the camera and ripples the movement to whatever it leads. The
    /// scene arena owns all parent/child relations, so from a lone camera
    /// this moves exactly the camera itself; rippling through a tree of
    /// nodes is the scene's `ripple_translate`.
    pub fn ripple_translate(&mut self, x: i32, y: i32)
        requires
            i32::MIN <= old(self).spec_pos().x + x <= i32::MAX,
            i32::MIN <= old(self).spec_pos().y + y <= i32::MAX,
        ensures
            final(self).spec_pos() == (Pos2D {
                x: (old(self).spec_pos().x + x) as i32,
                y: (old(self).spec_pos().y + y) as i32,
            }),
    {
        self.translate(x, y);
    }

    /// The x coordinate of the viewport's left edge for a buffer `width`
    /// pixels wide.
    pub open spec fn viewport_left(&self, width: usize) -> int {
        self.spec_pos().x - width / 2
    }

    /// The y coordinate of the viewport's bottom edge for a buffer `height`
    /// pixels tall.
    pub open spec fn viewport_bottom(&self, height: usize) -> int {
        self.spec_pos().y - height / 2
    }

    /// The window of world space visible through this camera on a buffer of
    /// the given pixel dimensions: an axis-aligned rectangle centred on the
    /// camera, half the buffer size in each direction, returned as its
    /// bottom-left and top-right corners.
    pub fn viewport(&self, width: usize, height: usize) -> (r: (Pos2D, Pos2D))
        requires
            width <= i32::MAX,
            height <= i32::MAX,
            i32::MIN <= self.spec_pos().x - width / 2,
            self.spec_pos().x + width / 2 <= i32::MAX,
            i32::MIN <= self.spec_pos().y - height / 2,
            self.spec_pos().y + height / 2 <= i32::MAX,
        ensures
            r.0 == (Pos2D {
                x: (self.spec_pos().x - width / 2) as i32,
                y: (self.spec_pos().y - height / 2) as i32,
            }),
            r.1 == (Pos2D {
                x: (self.spec_pos().x + width / 2) as i32,
                y: (self.spec_pos().y + height / 2) as i32,
            }),
    {
        let half_w: i32 = (width / 2) as i32;
        let half_h: i32 = (height / 2) as i32;
        let mut bl: Pos2D = self.pos.new_from_self();
        let mut tr: Pos2D = self.pos.new_from_self();
        bl.translate(-half_w, -half_h);
        tr.translate(half_w, half_h);
        (bl, tr)
    }
}

impl Camera3D {
    /// The camera position as a spec value.
    pub closed spec fn spec_pos(&self) -> Pos3D {
        self.pos
    }

    /// Places a camera at the given position.
    pub fn new(pos: Pos3D) -> (cam: Camera3D)
        ensures
            cam.spec_pos() == pos,
    {
        Camera3D { pos }
    }

    /// Getter for the camera position.
    #[verifier::when_used_as_spec(spec_pos)]
    pub fn pos(&self) -> (p: Pos3D)
        ensures
            p == self.spec_pos(),
    {
        self.pos
    }

    /// Moves the camera along the x axis.
    pub fn translate_x(&mut self, tx: i32)
        requires
            i32::MIN <= old(self).spec_pos().x + tx <= i32::MAX,
        ensures
            final(self).spec_pos() == (Pos3D { x: (old(self).spec_pos().x + tx) as i32, ..old(
                self,
            ).spec_pos() }),
    {
        self.pos.translate_x(tx);
    }

    /// Moves the camera along the y axis.
    pub fn translate_y(&mut self, ty: i32)
        requires
            i32::MIN <= old(self).spec_pos().y + ty <= i32::MAX,
        ensures
            final(self).spec_pos() == (Pos3D { y: (old(self).spec_pos().y + ty) as i32, ..old(
                self,
            ).spec_pos() }),
    {
        self.pos.translate_y(ty);
    }

    /// Moves the camera along the z axis.
    pub fn translate_z(&mut self, tz: i32)
        requires
            i32::MIN <= old(self).spec_pos().z + tz <= i32::MAX,
        ensures
            final(self).spec_pos() == (Pos3D { z: (old(self).spec_pos().z + tz) as i32, ..old(
                self,
            ).spec_pos() }),
    {
        self.pos.translate_z(tz);
    }

    /// Moves the camera along all three axes.
    pub fn translate(&mut self, x: i32, y: i32, z: i32)
        requires
            i32::MIN <= old(self).spec_pos().x + x <= i32::MAX,
            i32::MIN <= old(self).spec_pos().y + y <= i32::MAX,
            i32::MIN <= old(self).spec_pos().z + z <= i32::MAX,
        ensures
            final(self).spec_pos() == (Pos3D {
                x: (old(self).spec_pos().x + x) as i32,
                y: (old(self).spec_pos().y + y) as i32,
                z: (old(self).spec_pos().z + z) as i32,
            }),
    {
        self.pos.translate(x, y, z);
    }
}

} // verus!
