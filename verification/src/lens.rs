//! The `lens` module provides the [`Lens`] struct: the per-window state the
//! session keeps for each open window.

use crate::app::Frame;
use vstd::prelude::*;

verus! {

/// The application's fixed default window title.
pub open spec fn default_title() -> Seq<char> {
    "Tardy"@
}

/// The attributes a window is requested with: a title, a transparency flag
/// and an optional placement.  A window created without attributes gets the
/// defaults: the fixed title, transparent, placement left to the OS.
#[derive(Debug, Clone)]
pub struct WindowAttrs {
    /// The window title.
    pub title: String,
    /// Whether the window is transparent.  Transparent is the default while
    /// nothing is rendered yet, to prevent garbage capture.
    pub transparent: bool,
    /// The monitor-bounded position and size the window was planned with,
    /// or `None` to leave placement to the OS.
    pub frame: Option<Frame>,
}

impl WindowAttrs {
    /// The default attributes: fixed title, transparent, no placement.
    pub open spec fn is_default(self) -> bool {
        &&& self.title@ == default_title()
        &&& self.transparent
        &&& self.frame is None
    }

    /// Builds the default attributes.
    pub fn default_attrs() -> (r: WindowAttrs)
        ensures
            r.is_default(),
    {
        WindowAttrs { title: "Tardy".to_owned(), transparent: true, frame: None }
    }

    /// Builds attributes for a planned frame: the defaults, with placement.
    pub fn for_frame(frame: Frame) -> (r: WindowAttrs)
        ensures
            r.title@ == default_title(),
            r.transparent,
            r.frame == Some(frame),
    {
        WindowAttrs { title: "Tardy".to_owned(), transparent: true, frame: Some(frame) }
    }
}

/// The state of one open window: a redraw-pending flag and the attributes
/// the window was created with.  The owned OS window handle itself lives
/// with the caller, keyed by the same window identity as this view.
#[derive(Debug, Clone)]
pub struct Lens {
    /// True when the window still has to be redrawn.
    pub refresh: bool,
    /// The attributes the window was requested with.
    pub attrs: WindowAttrs,
}

impl Lens {
    /// A fresh view of a window just created with `attrs`: no redraw is
    /// pending yet.
    pub fn new(attrs: WindowAttrs) -> (r: Lens)
        ensures
            r.refresh == false,
            r.attrs == attrs,
    {
        Lens { refresh: false, attrs }
    }

    /// Sets the redraw-pending flag.
    pub fn with_refresh(&mut self, refresh: bool)
        ensures
            final(self).refresh == refresh,
            final(self).attrs == old(self).attrs,
    {
        self.refresh = refresh;
    }

    /// An owned copy, equal to this view.
    pub fn duplicate(&self) -> (r: Lens)
        ensures
            r == *self,
    {
        Lens {
            refresh: self.refresh,
            attrs: WindowAttrs {
                title: self.attrs.title.clone(),
                transparent: self.attrs.transparent,
                frame: self.attrs.frame,
            },
        }
    }
}

} // verus!
