//! Window settings chosen before the window is created.
use vstd::prelude::*;

verus! {

/// Allows you to configure settings for a window prior to creating it
pub struct WindowBuilder {
    pub width: u32,
    pub height: u32,
    pub title: &'static str,
}

impl WindowBuilder {
    /// Creates a new [WindowBuilder] with the default configuration: 1280 by
    /// 720, titled "Magma App".
    pub fn new() -> (b: WindowBuilder)
        ensures
            b.width == 1280,
            b.height == 720,
            b.title@ == "Magma App"@,
    {
        WindowBuilder { width: 1280, height: 720, title: "Magma App" }
    }

    /// Sets the width
    pub fn width(self, width: u32) -> (b: WindowBuilder)
        ensures
            b.width == width,
            b.height == self.height,
            b.title == self.title,
    {
        let mut s = self;
        s.width = width;
        s
    }

    /// Sets the height
    pub fn height(self, height: u32) -> (b: WindowBuilder)
        ensures
            b.width == self.width,
            b.height == height,
            b.title == self.title,
    {
        let mut s = self;
        s.height = height;
        s
    }

    /// Sets the title
    pub fn title(self, title: &'static str) -> (b: WindowBuilder)
        ensures
            b.width == self.width,
            b.height == self.height,
            b.title == title,
    {
        let mut s = self;
        s.title = title;
        s
    }
}

} // verus!
