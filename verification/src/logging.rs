//! The log-viewer screen: its pane is drawn from the logging sink by the
//! terminal front end, so the state here is only the label and a banner.

use vstd::prelude::*;
use vstd::string::StringExecFns;
use crate::app::{AppInfo, AppMessage, Key};

verus! {

/// The log-viewer screen's state.
pub struct LoggingApp {
    pub info: AppInfo,
    pub text: String,
}

/// The one message the log viewer understands.
pub enum LoggingMsg {
    Placeholder,
}

impl AppMessage for LoggingMsg {

}

impl LoggingApp {
    pub fn new() -> (r: LoggingApp)
        ensures
            r.info@.title == "Logging Screen"@,
            r.info@.version == "v1.0"@,
            r.text@ == "Logging App"@,
    {
        let log_app = LoggingApp {
            info: AppInfo {
                title: String::from_str("Logging Screen"),
                version: String::from_str("v1.0"),
            },
            text: String::from_str("Logging App"),
        };
        return log_app;
    }

    /// Apply one message; a message that means nothing here would be a
    /// no-op, but every message of this screen is recognized.
    pub fn update(&mut self, msg: &LoggingMsg)
        ensures
            final(self).info == old(self).info,
            final(self).text@ == "Event Received!"@,
    {
        match msg {
            LoggingMsg::Placeholder => self.text = String::from_str("Event Received!"),
        }
    }

    /// The menu label of this screen.
    pub fn info(&self) -> (r: AppInfo)
        ensures
            r == self.info,
    {
        self.info.duplicate()
    }

    /// Translate one key press into at most one message: only `Enter` is
    /// bound, every other key is ignored.
    pub fn generate_msg(&self, key_event: Key) -> (r: Option<LoggingMsg>)
        ensures
            r == if key_event == Key::Enter {
                Some(LoggingMsg::Placeholder)
            } else {
                None::<LoggingMsg>
            },
    {
        match key_event {
            Key::Enter => Some(LoggingMsg::Placeholder),
            _ => None,
        }
    }
}

} // verus!
