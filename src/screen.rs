use vstd::prelude::*;
use crate::builder::WindowBuilder;

verus! {

/// One screen as the connection setup describes it: its root window, the
/// root window's visual, and the visual ids allowed at each depth.
pub struct Screen {
    pub root: u32,
    pub root_visual: u32,
    pub allowed_visuals: Vec<Vec<u32>>,
}

/// The connection's choice of screen.
pub struct Context {
    pub preferred_screen_number: i32,
}

impl Context {
    /// A context that prefers screen `preferred_screen_number`.
    pub fn new(preferred_screen_number: i32) -> (r: Context)
        ensures
            r.preferred_screen_number == preferred_screen_number,
    {
        Context { preferred_screen_number }
    }

    /// The preferred screen among those the server lists, or `None` when the
    /// list has no such entry.
    pub fn get_preferred_screen<'a>(&self, screens: &'a [Screen]) -> (r: Option<&'a Screen>)
        ensures
            r is Some <==> 0 <= self.preferred_screen_number < screens@.len(),
            r matches Some(s) ==> s == screens@[self.preferred_screen_number as int],
    {
        if self.preferred_screen_number < 0 {
            return None;
        }
        let i = self.preferred_screen_number as usize;
        if i < screens.len() {
            Some(&screens[i])
        } else {
            None
        }
    }
}

impl Screen {
    /// A screen with root window `root` of visual `root_visual`.
    pub fn new(root: u32, root_visual: u32, allowed_visuals: Vec<Vec<u32>>) -> (r: Screen)
        ensures
            r.root == root,
            r.root_visual == root_visual,
            r.allowed_visuals@ == allowed_visuals@,
    {
        Screen { root, root_visual, allowed_visuals }
    }

    /// The root visual is listed at depth `d`, place `v`.
    pub open spec fn lists_root_visual_at(&self, d: int, v: int) -> bool {
        &&& 0 <= d < self.allowed_visuals@.len()
        &&& 0 <= v < self.allowed_visuals@[d]@.len()
        &&& self.allowed_visuals@[d]@[v] == self.root_visual
    }

    /// Where the root visual is listed, scanning depth by depth; `None` when
    /// the setup does not list it at all.
    pub fn root_visual_position(&self) -> (r: Option<(usize, usize)>)
        ensures
            r is None <==> !exists|d: int, v: int| self.lists_root_visual_at(d, v),
            r matches Some(p) ==> self.lists_root_visual_at(p.0 as int, p.1 as int),
    {
        let mut d: usize = 0;
        while d < self.allowed_visuals.len()
            invariant
                0 <= d <= self.allowed_visuals@.len(),
                forall|dd: int, v: int| 0 <= dd < d ==> !self.lists_root_visual_at(dd, v),
            decreases self.allowed_visuals@.len() - d,
        {
            let visuals = &self.allowed_visuals[d];
            let mut v: usize = 0;
            while v < visuals.len()
                invariant
                    0 <= d < self.allowed_visuals@.len(),
                    visuals == self.allowed_visuals@[d as int],
                    0 <= v <= visuals@.len(),
                    forall|vv: int| 0 <= vv < v ==> !self.lists_root_visual_at(d as int, vv),
                decreases visuals@.len() - v,
            {
                if visuals[v] == self.root_visual {
                    assert(self.lists_root_visual_at(d as int, v as int));
                    return Some((d, v));
                }
                v = v + 1;
            }
            d = d + 1;
        }
        None
    }

    /// A builder for a window on this screen, with the builder's defaults.
    pub fn get_window_builder(&self) -> (r: WindowBuilder)
        ensures
            r.parent == self.root,
            r.visual == self.root_visual,
            r.is_default(),
    {
        WindowBuilder::new(self.root, self.root_visual)
    }
}

} // verus!
