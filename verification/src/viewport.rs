//! Viewport rectangle bookkeeping: plain state with a single device call.

use crate::device::{Bindings, Device};
use vstd::prelude::*;

verus! {

/// A viewport rectangle kept caller-side until it is handed to the device.
pub struct Viewport {
    pub x: i32,
    pub y: i32,
    pub w: i32,
    pub h: i32,
}

impl Viewport {
    /// A viewport for a window surface at the given origin and size.
    pub fn for_window(x: i32, y: i32, w: i32, h: i32) -> (v: Viewport)
        ensures
            v.x == x,
            v.y == y,
            v.w == w,
            v.h == h,
    {
        Viewport { x, y, w, h }
    }

    /// Record a new size, keeping the origin.
    pub fn update_size(&mut self, w: i32, h: i32)
        ensures
            final(self).x == old(self).x,
            final(self).y == old(self).y,
            final(self).w == w,
            final(self).h == h,
    {
        self.w = w;
        self.h = h;
    }

    /// Record a new origin, keeping the size.
    pub fn update_position(&mut self, x: i32, y: i32)
        ensures
            final(self).x == x,
            final(self).y == y,
            final(self).w == old(self).w,
            final(self).h == old(self).h,
    {
        self.x = x;
        self.y = y;
    }

    /// Hand the rectangle to the device. The device receives the size at
    /// origin zero: the recorded position is not forwarded.
    pub fn set_used(&self, dev: &mut Device)
        requires
            old(dev).wf(),
        ensures
            final(dev).wf(),
            final(dev).spec_bindings() == (Bindings {
                viewport_rect: (0, 0, self.w, self.h),
                ..old(dev).spec_bindings()
            }),
            final(dev).non_binding_state_eq(*old(dev)),
    {
        dev.set_viewport(0, 0, self.w, self.h);
    }
}

} // verus!
