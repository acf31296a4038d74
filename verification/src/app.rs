//! The sub-app capability contract: what every screen of the dashboard
//! exposes to the shell, and the model of a key press.
//!
//! Every screen offers the same four operations: draw itself (left to the
//! terminal front end), apply one message to its own state, describe itself
//! for the menu, and translate a key press into zero or one message.  The
//! set of screens is closed, so the shell dispatches by an exhaustive match
//! on the screen kind rather than through a dynamic registry.

use vstd::prelude::*;

verus! {

/// A key press, as the state machines see it.
///
/// The terminal front end reads raw input events and maps each *press*
/// event to one of these; release and repeat events produce nothing.  Keys
/// the dashboard never binds arrive as `Other`.
#[derive(Clone, Copy, PartialEq, Eq, Structural, Debug)]
pub enum Key {
    Char(char),
    Enter,
    Backspace,
    Tab,
    Left,
    Right,
    Other,
}

/// Menu label of a screen.
pub struct AppInfo {
    pub title: String,
    pub version: String,
}

/// Abstract value of an [`AppInfo`].
pub ghost struct AppInfoView {
    pub title: Seq<char>,
    pub version: Seq<char>,
}

impl View for AppInfo {
    type V = AppInfoView;

    open spec fn view(&self) -> AppInfoView {
        AppInfoView { title: self.title@, version: self.version@ }
    }
}

impl AppInfo {
    /// An equal copy of this label.
    pub fn duplicate(&self) -> (r: AppInfo)
        ensures
            r == *self,
    {
        let r = AppInfo { title: self.title.clone(), version: self.version.clone() };
        r
    }
}

/// Marker for the message type a screen consumes.
pub trait AppMessage {

}

} // verus!
