use vstd::prelude::*;

verus! {

/// Visibility of the window on startup.
#[derive(Debug, Clone, Copy, PartialEq, Eq, Structural)]
pub enum Visibility {
    /// Start with the window visible.
    Visible,
    /// Start with the window hidden.
    Hidden,
    /// Show the window once the renderer is ready, to avoid a white flash on startup.
    Wait,
}

impl Default for Visibility {
    fn default() -> (r: Visibility)
        ensures
            r == Visibility::Visible,
    {
        Visibility::Visible
    }
}

impl Visibility {
    /// Whether the window is shown when it is created.
    pub fn visible_at_creation(&self) -> (r: bool)
        ensures
            r == (*self == Visibility::Visible),
    {
        match self {
            Visibility::Visible => true,
            Visibility::Hidden => false,
            Visibility::Wait => false,
        }
    }

    /// Whether the window is to be shown once the renderer is ready.
    pub fn show_when_renderer_ready(&self) -> (r: bool)
        ensures
            r == (*self == Visibility::Wait),
    {
        match self {
            Visibility::Wait => true,
            _ => false,
        }
    }
}

/// How the window is made: title, inner size and startup visibility.
#[derive(Debug, Clone, Copy)]
pub struct CanvasDescriptor {
    pub title: &'static str,
    pub width: u32,
    pub height: u32,
    pub visibility: Visibility,
}

impl Default for CanvasDescriptor {
    fn default() -> (r: CanvasDescriptor)
        ensures
            r.title == "Foxy Window",
            r.width == 800,
            r.height == 500,
            r.visibility == Visibility::Visible,
    {
        CanvasDescriptor {
            title: "Foxy Window",
            width: 800,
            height: 500,
            visibility: Visibility::Visible,
        }
    }
}

} // verus!
