//! A terminal-dashboard core: a shell that hosts several sub-applications
//! behind one message-driven dispatch framework.
//!
//! The crate holds the state machines and the invariant-preserving logic of
//! the dashboard: the selection-list primitive, the file-browser state
//! machine, the network-interface screen state, and the shell's focus
//! router.  Terminal rendering, raw input capture, filesystem access and
//! packet-level scanning are external collaborators: a thin front end
//! performs them and feeds plain values into the functions of this crate.

pub mod app;
pub mod filetree;
pub mod logging;
pub mod mainscreen;
pub mod networkscan;
pub mod optionlist;
pub mod shell;
pub mod textbuf;
