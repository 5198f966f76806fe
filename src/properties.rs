use vstd::prelude::*;

verus! {

/// Width a window gets when nothing else is asked for.
pub const DEFAULT_WIDTH: u32 = 800;

/// Height a window gets when nothing else is asked for.
pub const DEFAULT_HEIGHT: u32 = 600;

/// Simple struct that holds some properties (size, title) for windows.
#[derive(Clone, Copy, Debug)]
pub struct WindowProperties {
    /// Initial width
    pub width: u32,
    /// Initial height
    pub height: u32,
    /// Title
    pub title: &'static str,
}

impl WindowProperties {
    /// The initial size as `(width, height)`.
    pub open spec fn spec_size(&self) -> (u32, u32) {
        (self.width, self.height)
    }

    /// Properties for a window of the given size and title.
    pub fn new(width: u32, height: u32, title: &'static str) -> (r: WindowProperties)
        ensures
            r.width == width,
            r.height == height,
            r.title@ == title@,
    {
        WindowProperties { width, height, title }
    }

    /// The initial size as `(width, height)`.
    pub fn size(&self) -> (r: (u32, u32))
        ensures
            r == self.spec_size(),
    {
        (self.width, self.height)
    }

    /// The window title.
    pub fn title(&self) -> (r: &'static str)
        ensures
            r@ == self.title@,
    {
        self.title
    }
}

impl Default for WindowProperties {
    /// Creates an 800x600 window named "Softbuffer Window".
    fn default() -> (r: WindowProperties)
        ensures
            r.width == DEFAULT_WIDTH,
            r.height == DEFAULT_HEIGHT,
            r.title@ == "Softbuffer Window"@,
    {
        WindowProperties { width: DEFAULT_WIDTH, height: DEFAULT_HEIGHT, title: "Softbuffer Window" }
    }
}

} // verus!
