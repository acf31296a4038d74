//! The shell: it owns the registry of screens, the menu cursor, the open
//! screen and the focus flag, and routes every key press either to a
//! shell-level message or to the open screen's own key translator.
//!
//! Exactly one message is produced and applied per key press.  Routing a
//! key to a screen may leave the front end owing one filesystem call or
//! one scan: that comes back as an [`Effect`].

use vstd::prelude::*;
use crate::app::Key;
use crate::filetree::{key_to_msg, step, FileTreeApp, FsAction};
use crate::logging::LoggingApp;
use crate::mainscreen::MainScreenApp;
use crate::networkscan::{netscan_key_to_msg, NetScanApp, NetScanMsg, ScanAction};
use crate::optionlist::rot_next;

verus! {

/// The closed set of screens the shell hosts.  Dispatch is an exhaustive
/// match on this enum: the set of screens is fixed at build time.
pub enum AppType {
    MainScreenApp(MainScreenApp),
    FileTreeApp(FileTreeApp),
    LoggingApp(LoggingApp),
    NetScan(NetScanApp),
}

/// The shell-level messages.
#[derive(Clone, Copy, PartialEq, Eq, Structural, Debug)]
pub enum Message {
    NextApp,
    PrevApp,
    OpenApp,
    CloseRustor,
    SwapFocus,
}

/// What the front end owes after routing one key press to a screen.
pub enum Effect {
    /// No outside work.
    Pass,
    /// A filesystem call of the file browser.
    Fs(FsAction),
    /// A scan decision of the scanner screen.
    Scan(ScanAction),
}

/// The shell's state.
pub struct Rustor {
    pub apps: Vec<AppType>,
    pub menu_selection: usize,
    pub open_app: Option<usize>,
    pub app_focused: bool,
    pub exit: bool,
}

/// The per-screen invariant the shell maintains for every hosted screen.
pub open spec fn app_wf(a: AppType) -> bool {
    match a {
        AppType::MainScreenApp(_) => true,
        AppType::FileTreeApp(f) => f@.wf(),
        AppType::LoggingApp(_) => true,
        AppType::NetScan(n) => n.wf(),
    }
}

impl Rustor {
    /// The shell's invariants: at least one screen is registered, the
    /// menu cursor and the open-screen index point at registered screens,
    /// and every screen's own invariant holds.
    pub open spec fn wf(self) -> bool {
        &&& self.apps.len() >= 1
        &&& self.menu_selection < self.apps.len()
        &&& match self.open_app {
            Some(i) => i < self.apps.len(),
            None => true,
        }
        &&& forall|j: int| 0 <= j < self.apps@.len() ==> app_wf(#[trigger] self.apps@[j])
    }

    /// A fresh shell over the given screens: menu cursor on the first
    /// screen, no screen open, menu holding focus, not exiting.
    pub fn new(apps: Vec<AppType>) -> (r: Rustor)
        requires
            apps@.len() >= 1,
            forall|j: int| 0 <= j < apps@.len() ==> app_wf(#[trigger] apps@[j]),
        ensures
            r.wf(),
            r.apps == apps,
            r.menu_selection == 0,
            r.open_app is None,
            !r.app_focused,
            !r.exit,
    {
        Rustor {
            apps,
            menu_selection: 0,
            open_app: None,
            app_focused: false,
            exit: false,
        }
    }
}

/// The state after one shell-level message.
///
/// With the menu active: `NextApp`/`PrevApp` move the menu cursor
/// cyclically, `OpenApp` opens the screen under the cursor (without
/// changing focus), `CloseRustor` asks the run loop to stop, and
/// `SwapFocus` hands focus to the open screen.  With a screen focused,
/// only `SwapFocus` acts — it hands focus back to the menu — and every
/// other shell message is a no-op.
pub open spec fn shell_step(s: Rustor, msg: Message) -> Rustor {
    if !s.app_focused {
        match msg {
            Message::NextApp => Rustor {
                menu_selection: rot_next(s.menu_selection as int, s.apps.len() as int) as usize,
                ..s
            },
            Message::PrevApp => Rustor {
                menu_selection: crate::optionlist::rot_prev(
                    s.menu_selection as int,
                    s.apps.len() as int,
                ) as usize,
                ..s
            },
            Message::OpenApp => Rustor { open_app: Some(s.menu_selection), ..s },
            Message::CloseRustor => Rustor { exit: true, ..s },
            Message::SwapFocus => Rustor { app_focused: !s.app_focused, ..s },
        }
    } else {
        match msg {
            Message::SwapFocus => Rustor { app_focused: !s.app_focused, ..s },
            _ => s,
        }
    }
}

/// Apply one shell-level message.
pub fn update(model: &mut Rustor, msg: Message)
    requires
        old(model).wf(),
    ensures
        *final(model) == shell_step(*old(model), msg),
        final(model).wf(),
{
    if !model.app_focused {
        match msg {
            Message::NextApp => {
                let count = model.apps.len();
                if model.menu_selection >= count - 1 {
                    proof {
                        vstd::arithmetic::div_mod::lemma_mod_self_0(count as int);
                    }
                    model.menu_selection = 0;
                } else {
                    proof {
                        vstd::arithmetic::div_mod::lemma_small_mod(
                            (model.menu_selection + 1) as nat,
                            count as nat,
                        );
                    }
                    model.menu_selection = model.menu_selection + 1;
                }
            },
            Message::PrevApp => {
                let count = model.apps.len();
                if model.menu_selection == 0 {
                    proof {
                        vstd::arithmetic::div_mod::lemma_small_mod(
                            (count - 1) as nat,
                            count as nat,
                        );
                    }
                    model.menu_selection = count - 1;
                } else {
                    proof {
                        vstd::arithmetic::div_mod::lemma_mod_add_multiples_vanish(
                            model.menu_selection - 1,
                            count as int,
                        );
                        vstd::arithmetic::div_mod::lemma_small_mod(
                            (model.menu_selection - 1) as nat,
                            count as nat,
                        );
                    }
                    model.menu_selection = model.menu_selection - 1;
                }
            },
            Message::OpenApp => {
                model.open_app = Some(model.menu_selection);
            },
            Message::CloseRustor => {
                model.exit = true;
            },
            Message::SwapFocus => {
                model.app_focused = !model.app_focused;
            },
        }
    } else {
        match msg {
            Message::SwapFocus => {
                model.app_focused = !model.app_focused;
            },
            _ => {},
        }
    }
}

/// The menu's key-to-message table, active while the menu holds focus.
pub open spec fn menu_key_to_msg(key: Key) -> Option<Message> {
    match key {
        Key::Char(c) => if c == 'k' {
            Some(Message::PrevApp)
        } else if c == 'j' {
            Some(Message::NextApp)
        } else if c == 'q' {
            Some(Message::CloseRustor)
        } else {
            None
        },
        Key::Enter => Some(Message::OpenApp),
        Key::Tab => Some(Message::SwapFocus),
        _ => None,
    }
}

/// What routing one key press to the screen `a` did: the screen it
/// became, and the outside work the front end now owes.
pub open spec fn dispatched(a: AppType, key: Key, a2: AppType, e: Effect) -> bool {
    match a {
        AppType::MainScreenApp(m) => {
            &&& (key == Key::Enter ==> (a2 matches AppType::MainScreenApp(m2) && m2.info == m.info
                && m2.text@ == "Event Received!"@))
            &&& (key != Key::Enter ==> a2 == a)
            &&& e matches Effect::Pass
        },
        AppType::LoggingApp(l) => {
            &&& (key == Key::Enter ==> (a2 matches AppType::LoggingApp(l2) && l2.info == l.info
                && l2.text@ == "Event Received!"@))
            &&& (key != Key::Enter ==> a2 == a)
            &&& e matches Effect::Pass
        },
        AppType::FileTreeApp(f) => {
            &&& a2 matches AppType::FileTreeApp(f2) && f2@ == step(f@, key_to_msg(f@.mode, key)).0
            &&& e matches Effect::Fs(act) && act@ == step(f@, key_to_msg(f@.mode, key)).1
        },
        AppType::NetScan(n) => {
            let m = netscan_key_to_msg(key);
            &&& (m is None ==> a2 == a && (e matches Effect::Pass))
            &&& (m == Some(NetScanMsg::Scan) ==> a2 == a && (e matches Effect::Scan(act)
                && act == if n.current_options.icmp_ping.active {
                    ScanAction::IcmpScan
                } else {
                    ScanAction::Pass
                }))
            &&& (m == Some(NetScanMsg::NextInterface) ==> (a2 matches AppType::NetScan(n2)
                && n2.selected_interface == rot_next(
                    n.selected_interface as int,
                    n.interfaces.networks.len() as int,
                )
                && n2.options_state == n.options_state
                && n2.current_options == n.current_options
                && n2.interfaces == n.interfaces
                && n2.info == n.info)
                && (e matches Effect::Scan(act) && act == ScanAction::Pass))
            &&& (m == Some(NetScanMsg::NextScanOption) ==> (a2 matches AppType::NetScan(n2)
                && n2.options_state@.highlighted == Some(
                    rot_next(n.options_state@.hl(), n.options_state@.option_size as int) as usize,
                )
                && n2.options_state@.selected == n.options_state@.selected
                && n2.selected_interface == n.selected_interface
                && n2.current_options == n.current_options
                && n2.interfaces == n.interfaces)
                && (e matches Effect::Scan(act) && act == ScanAction::Pass))
            &&& (m == Some(NetScanMsg::ToggleScanOption) ==> (a2 matches AppType::NetScan(n2)
                && (n.options_state@.highlighted == Some(0usize)
                    ==> n2.current_options.icmp_ping.active
                    == !n.current_options.icmp_ping.active)
                && (n.options_state@.highlighted != Some(0usize) ==> n2 == n))
                && (e matches Effect::Scan(act) && act == ScanAction::Pass))
        },
    }
}

/// Route one key press.
///
/// While the menu holds focus the key maps to at most one shell message
/// and the state does not change here (the caller applies the message
/// through [`update`]).  While a screen holds focus, `Tab` is intercepted
/// as `SwapFocus`; every other key is forwarded to the open screen, whose
/// translation and update happen in place.  A focused shell with no open
/// screen ignores every key but `Tab`: focus only matters once a screen
/// is open.
pub fn handle_key(model: &mut Rustor, key: Key) -> (r: (Option<Message>, Effect))
    requires
        old(model).wf(),
    ensures
        final(model).wf(),
        !old(model).app_focused ==> *final(model) == *old(model) && r.0 == menu_key_to_msg(key) && (
        r.1 matches Effect::Pass),
        old(model).app_focused && key == Key::Tab ==> *final(model) == *old(model) && r.0 == Some(
            Message::SwapFocus,
        ) && (r.1 matches Effect::Pass),
        old(model).app_focused && key != Key::Tab ==> {
            &&& r.0 is None
            &&& final(model).menu_selection == old(model).menu_selection
            &&& final(model).open_app == old(model).open_app
            &&& final(model).app_focused == old(model).app_focused
            &&& final(model).exit == old(model).exit
            &&& final(model).apps@.len() == old(model).apps@.len()
            &&& (old(model).open_app is None ==> *final(model) == *old(model) && (
            r.1 matches Effect::Pass))
            &&& (old(model).open_app matches Some(i) ==> (forall|j: int|
                0 <= j < old(model).apps@.len() && j != i ==> final(model).apps@[j] == old(
                    model,
                ).apps@[j]) && dispatched(
                old(model).apps@[i as int],
                key,
                final(model).apps@[i as int],
                r.1,
            ))
        },
{
    if model.app_focused {
        match key {
            Key::Tab => (Some(Message::SwapFocus), Effect::Pass),
            _ => {
                let open = match model.open_app {
                    Some(i) => i,
                    None => {
                        return (None, Effect::Pass);
                    },
                };
                match &mut model.apps[open] {
                    AppType::FileTreeApp(app) => {
                        let msg = app.generate_msg(key);
                        match msg {
                            Some(app_msg) => {
                                let act = app.update(&app_msg);
                                (None, Effect::Fs(act))
                            },
                            None => (None, Effect::Pass),
                        }
                    },
                    AppType::MainScreenApp(app) => {
                        let msg = app.generate_msg(key);
                        match msg {
                            Some(app_msg) => {
                                app.update(&app_msg);
                            },
                            None => {},
                        }
                        (None, Effect::Pass)
                    },
                    AppType::LoggingApp(app) => {
                        let msg = app.generate_msg(key);
                        match msg {
                            Some(app_msg) => {
                                app.update(&app_msg);
                            },
                            None => {},
                        }
                        (None, Effect::Pass)
                    },
                    AppType::NetScan(app) => {
                        let msg = app.generate_msg(key);
                        match msg {
                            Some(app_msg) => {
                                let act = app.update(&app_msg);
                                (None, Effect::Scan(act))
                            },
                            None => (None, Effect::Pass),
                        }
                    },
                }
            },
        }
    } else {
        match key {
            Key::Char('k') => (Some(Message::PrevApp), Effect::Pass),
            Key::Char('j') => (Some(Message::NextApp), Effect::Pass),
            Key::Char('q') => (Some(Message::CloseRustor), Effect::Pass),
            Key::Enter => (Some(Message::OpenApp), Effect::Pass),
            Key::Tab => (Some(Message::SwapFocus), Effect::Pass),
            _ => (None, Effect::Pass),
        }
    }
}

} // verus!
