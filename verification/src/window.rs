//! What the engine keeps of its window.

use vstd::prelude::*;

verus! {

/// Focus, minimized state and size of the window, as the platform last
/// reported them.
#[derive(Clone, Copy, Debug, PartialEq, Eq, Structural)]
pub struct Window {
    is_focused: bool,
    is_minimized: Option<bool>,
    width: u32,
    height: u32,
}

/// A window as plain values.
pub struct WindowView {
    pub focused: bool,
    pub minimized: Option<bool>,
    pub width: u32,
    pub height: u32,
}

impl View for Window {
    type V = WindowView;

    closed spec fn view(&self) -> WindowView {
        WindowView {
            focused: self.is_focused,
            minimized: self.is_minimized,
            width: self.width,
            height: self.height,
        }
    }
}

impl Window {
    /// A window of the given size that has not been focused yet.
    /// `is_minimized` is `None` where the platform cannot tell.
    pub fn new(width: u32, height: u32, is_minimized: Option<bool>) -> (window: Window)
        ensures
            window@ == (WindowView { focused: false, minimized: is_minimized, width, height }),
    {
        Window { is_focused: false, is_minimized, width, height }
    }

    /// Records that the window gained or lost the focus.
    pub fn set_focused(&mut self, focused: bool)
        ensures
            final(self)@ == (WindowView { focused, ..old(self)@ }),
    {
        self.is_focused = focused;
    }

    /// Whether the window has the focus.
    pub fn is_focused(self) -> (r: bool)
        ensures
            r == self@.focused,
    {
        self.is_focused
    }

    /// Whether the window is minimized; a window of unknown state counts as
    /// shown.
    pub fn is_minimized(&self) -> (r: bool)
        ensures
            r == (self@.minimized == Some(true)),
    {
        match self.is_minimized {
            Some(minimized) => minimized,
            None => false,
        }
    }

    /// Records a new size.
    pub fn set_size(&mut self, width: u32, height: u32)
        ensures
            final(self)@ == (WindowView { width, height, ..old(self)@ }),
    {
        self.width = width;
        self.height = height;
    }

    /// Width in pixels.
    pub fn get_width(&self) -> (r: u32)
        ensures
            r == self@.width,
    {
        self.width
    }

    /// Height in pixels.
    pub fn get_height(&self) -> (r: u32)
        ensures
            r == self@.height,
    {
        self.height
    }

    /// Width and height in pixels.
    pub fn get_size(&self) -> (r: (u32, u32))
        ensures
            r == (self@.width, self@.height),
    {
        (self.width, self.height)
    }
}

} // verus!
