use vstd::prelude::*;
use crate::window::Window;

verus! {

/// The configuration of a window still to be built: where it goes, its title,
/// size and position.
pub struct WindowBuilder {
    pub parent: u32,
    pub visual: u32,
    pub title: String,
    pub width: u16,
    pub height: u16,
    pub x: u32,
    pub y: u32,
}

impl WindowBuilder {
    /// Title "Unnamed", 100 by 100 pixels, at the origin.
    pub open spec fn is_default(&self) -> bool {
        &&& self.title@ == "Unnamed"@
        &&& self.width == 100
        &&& self.height == 100
        &&& self.x == 0
        &&& self.y == 0
    }

    /// A builder for a child of `parent` with visual `visual`, with defaults.
    pub fn new(parent: u32, visual: u32) -> (r: WindowBuilder)
        ensures
            r.parent == parent,
            r.visual == visual,
            r.is_default(),
    {
        WindowBuilder {
            parent,
            visual,
            title: "Unnamed".to_owned(),
            width: 100,
            height: 100,
            x: 0,
            y: 0,
        }
    }

    pub fn set_title(&mut self, title: &str)
        ensures
            final(self).title@ == title@,
            final(self).parent == old(self).parent,
            final(self).visual == old(self).visual,
            final(self).width == old(self).width,
            final(self).height == old(self).height,
            final(self).x == old(self).x,
            final(self).y == old(self).y,
    {
        self.title = title.to_owned();
    }

    pub fn set_width(&mut self, width: u16)
        ensures
            *final(self) == (WindowBuilder { width, ..*old(self) }),
    {
        self.width = width;
    }

    pub fn set_height(&mut self, height: u16)
        ensures
            *final(self) == (WindowBuilder { height, ..*old(self) }),
    {
        self.height = height;
    }

    pub fn set_x(&mut self, x: u32)
        ensures
            *final(self) == (WindowBuilder { x, ..*old(self) }),
    {
        self.x = x;
    }

    pub fn set_y(&mut self, y: u32)
        ensures
            *final(self) == (WindowBuilder { y, ..*old(self) }),
    {
        self.y = y;
    }

    /// The window this configuration describes, for the server-side id
    /// `window`: its size and position are exactly the builder's.
    pub fn build(&self, window: u32) -> (r: Window)
        ensures
            r.window == window,
            r.size == (self.width, self.height),
            r.pos == (self.x, self.y),
    {
        Window::new(window, (self.width, self.height), (self.x, self.y))
    }
}

} // verus!
