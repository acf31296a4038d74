//! The landing screen: a static banner that reacts to one key.

use vstd::prelude::*;
use vstd::string::StringExecFns;
use crate::app::{AppInfo, AppMessage, Key};

verus! {

/// The landing screen's state.
pub struct MainScreenApp {
    pub info: AppInfo,
    pub text: String,
}

/// The one message the landing screen understands.
pub enum MainScreenMsg {
    Placeholder,
}

impl AppMessage for MainScreenMsg {

}

impl MainScreenApp {
    pub fn new() -> (r: MainScreenApp)
        ensures
            r.info@.title == "Main Screen"@,
            r.info@.version == "v1.0"@,
            r.text@ == "Welcome to Rustor"@,
    {
        let main_app = MainScreenApp {
            info: AppInfo {
                title: String::from_str("Main Screen"),
                version: String::from_str("v1.0"),
            },
            text: String::from_str("Welcome to Rustor"),
        };
        return main_app;
    }

    /// Apply one message; a message that means nothing here would be a
    /// no-op, but every message of this screen is recognized.
    pub fn update(&mut self, msg: &MainScreenMsg)
        ensures
            final(self).info == old(self).info,
            final(self).text@ == "Event Received!"@,
    {
        match msg {
            MainScreenMsg::Placeholder => self.text = String::from_str("Event Received!"),
        }
    }

    /// The menu label of this screen.
    pub fn info(&self) -> (r: AppInfo)
        ensures
            r == self.info,
    {
        self.info.duplicate()
    }

    /// Translate one key press into at most one message: only `Enter` is
    /// bound, every other key is ignored.
    pub fn generate_msg(&self, key_event: Key) -> (r: Option<MainScreenMsg>)
        ensures
            r == if key_event == Key::Enter {
                Some(MainScreenMsg::Placeholder)
            } else {
                None::<MainScreenMsg>
            },
    {
        match key_event {
            Key::Enter => Some(MainScreenMsg::Placeholder),
            _ => None,
        }
    }
}

} // verus!
