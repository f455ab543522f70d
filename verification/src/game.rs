//! The small verified pieces of the game layer: the keyboard input model
//! (already converted to sub-pixel magnitudes) and the entity id allocator.
//! The entity store itself — position, shape, colour and velocity tables
//! and the spatial index — is an external collaborator of the collision
//! core and lives with the caller.

use vstd::prelude::*;

verus! {

use crate::pixel_num::{SUB_PIXELS_PER_PIXEL, SubPixelI64, spec_clamp_zero_one_pixel};

pub type EntityId = u32;

/// Directional input magnitudes, one per arrow, each clamped to at most
/// one pixel of movement per step.
#[derive(Clone, Copy, Debug, PartialEq, Eq, Structural)]
pub struct InputModel {
    pub left: SubPixelI64,
    pub right: SubPixelI64,
    pub up: SubPixelI64,
    pub down: SubPixelI64,
}

/// Every stored magnitude lies between zero and one pixel: the setters
/// clamp, so the model never holds anything else.
pub open spec fn input_model_wf(m: InputModel) -> bool {
    &&& 0 <= m.left.0 <= SUB_PIXELS_PER_PIXEL
    &&& 0 <= m.right.0 <= SUB_PIXELS_PER_PIXEL
    &&& 0 <= m.up.0 <= SUB_PIXELS_PER_PIXEL
    &&& 0 <= m.down.0 <= SUB_PIXELS_PER_PIXEL
}

impl Default for InputModel {
    fn default() -> (r: Self)
        ensures
            r.left.0 == 0,
            r.right.0 == 0,
            r.up.0 == 0,
            r.down.0 == 0,
            input_model_wf(r),
    {
        InputModel {
            left: SubPixelI64(0),
            right: SubPixelI64(0),
            up: SubPixelI64(0),
            down: SubPixelI64(0),
        }
    }
}

impl InputModel {
    pub fn set_left(&mut self, value: SubPixelI64)
        ensures
            final(self).left.0 == spec_clamp_zero_one_pixel(value.0 as int),
            final(self).right == old(self).right,
            final(self).up == old(self).up,
            final(self).down == old(self).down,
            0 <= final(self).left.0 <= SUB_PIXELS_PER_PIXEL,
    {
        self.left = value.clamp_zero_one_pixel();
    }

    pub fn set_right(&mut self, value: SubPixelI64)
        ensures
            final(self).right.0 == spec_clamp_zero_one_pixel(value.0 as int),
            final(self).left == old(self).left,
            final(self).up == old(self).up,
            final(self).down == old(self).down,
            0 <= final(self).right.0 <= SUB_PIXELS_PER_PIXEL,
    {
        self.right = value.clamp_zero_one_pixel();
    }

    pub fn set_up(&mut self, value: SubPixelI64)
        ensures
            final(self).up.0 == spec_clamp_zero_one_pixel(value.0 as int),
            final(self).left == old(self).left,
            final(self).right == old(self).right,
            final(self).down == old(self).down,
            0 <= final(self).up.0 <= SUB_PIXELS_PER_PIXEL,
    {
        self.up = value.clamp_zero_one_pixel();
    }

    pub fn set_down(&mut self, value: SubPixelI64)
        ensures
            final(self).down.0 == spec_clamp_zero_one_pixel(value.0 as int),
            final(self).left == old(self).left,
            final(self).right == old(self).right,
            final(self).up == old(self).up,
            0 <= final(self).down.0 <= SUB_PIXELS_PER_PIXEL,
    {
        self.down = value.clamp_zero_one_pixel();
    }

    /// Net horizontal input: rightward minus leftward magnitude.
    pub fn horizontal(&self) -> (r: SubPixelI64)
        requires
            input_model_wf(*self),
        ensures
            r.0 == self.right.0 - self.left.0,
    {
        SubPixelI64(self.right.0 - self.left.0)
    }

    /// Net vertical input: downward minus upward magnitude.
    pub fn vertical(&self) -> (r: SubPixelI64)
        requires
            input_model_wf(*self),
        ensures
            r.0 == self.down.0 - self.up.0,
    {
        SubPixelI64(self.down.0 - self.up.0)
    }
}

/// Hands out entity ids in order, starting from zero.
#[derive(Clone, Copy, Debug, PartialEq, Eq, Structural)]
pub struct EntityIdAllocator {
    pub next: u32,
}

impl Default for EntityIdAllocator {
    fn default() -> (r: Self)
        ensures
            r.next == 0,
    {
        EntityIdAllocator { next: 0 }
    }
}

impl EntityIdAllocator {
    pub fn allocate(&mut self) -> (r: EntityId)
        requires
            old(self).next < u32::MAX,
        ensures
            r == old(self).next,
            final(self).next == old(self).next + 1,
    {
        let id = self.next;
        self.next = self.next + 1;
        id
    }

    pub fn reset(&mut self)
        ensures
            final(self).next == 0,
    {
        self.next = 0;
    }
}

} // verus!
