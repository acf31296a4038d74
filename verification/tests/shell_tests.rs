use rustor::app::Key;
use rustor::filetree::{FileTreeApp, FsAction};
use rustor::logging::LoggingApp;
use rustor::mainscreen::MainScreenApp;
use rustor::networkscan::{NetInfo, NetInterfaces, NetScanApp};
use rustor::shell::{handle_key, update, AppType, Effect, Message, Rustor};

fn registry() -> Vec<AppType> {
    let interfaces = NetInterfaces {
        networks: vec![NetInfo {
            ip4: None,
            ip6: None,
            nmask: None,
            mac: String::new(),
            name: "lo".to_string(),
        }],
    };
    vec![
        AppType::MainScreenApp(MainScreenApp::new()),
        AppType::FileTreeApp(FileTreeApp::new()),
        AppType::LoggingApp(LoggingApp::new()),
        AppType::NetScan(NetScanApp::new(interfaces)),
    ]
}

#[test]
fn test_new_shell_defaults() {
    let shell = Rustor::new(registry());
    assert_eq!(shell.menu_selection, 0);
    assert!(shell.open_app.is_none());
    assert!(!shell.app_focused);
    assert!(!shell.exit);
    assert_eq!(shell.apps.len(), 4);
}

#[test]
fn test_menu_keys_translate() {
    let mut shell = Rustor::new(registry());
    let (msg, _) = handle_key(&mut shell, Key::Char('j'));
    assert_eq!(msg, Some(Message::NextApp));
    let (msg, _) = handle_key(&mut shell, Key::Char('k'));
    assert_eq!(msg, Some(Message::PrevApp));
    let (msg, _) = handle_key(&mut shell, Key::Char('q'));
    assert_eq!(msg, Some(Message::CloseRustor));
    let (msg, _) = handle_key(&mut shell, Key::Enter);
    assert_eq!(msg, Some(Message::OpenApp));
    let (msg, _) = handle_key(&mut shell, Key::Tab);
    assert_eq!(msg, Some(Message::SwapFocus));
    let (msg, _) = handle_key(&mut shell, Key::Char('z'));
    assert_eq!(msg, None);
}

#[test]
fn test_menu_cycles_through_apps() {
    let mut shell = Rustor::new(registry());
    for expected in [1, 2, 3, 0, 1] {
        update(&mut shell, Message::NextApp);
        assert_eq!(shell.menu_selection, expected);
    }
    update(&mut shell, Message::PrevApp);
    assert_eq!(shell.menu_selection, 0);
    update(&mut shell, Message::PrevApp);
    assert_eq!(shell.menu_selection, 3);
}

#[test]
fn test_open_app_keeps_focus() {
    let mut shell = Rustor::new(registry());
    update(&mut shell, Message::NextApp);
    update(&mut shell, Message::OpenApp);
    assert_eq!(shell.open_app, Some(1));
    assert!(!shell.app_focused);
}

#[test]
fn test_swap_focus_toggles_both_ways() {
    let mut shell = Rustor::new(registry());
    update(&mut shell, Message::SwapFocus);
    assert!(shell.app_focused);
    update(&mut shell, Message::SwapFocus);
    assert!(!shell.app_focused);
}

#[test]
fn test_close_sets_exit() {
    let mut shell = Rustor::new(registry());
    update(&mut shell, Message::CloseRustor);
    assert!(shell.exit);
}

#[test]
fn test_menu_messages_ignored_while_focused() {
    let mut shell = Rustor::new(registry());
    update(&mut shell, Message::OpenApp);
    update(&mut shell, Message::SwapFocus);
    update(&mut shell, Message::NextApp);
    assert_eq!(shell.menu_selection, 0);
    update(&mut shell, Message::CloseRustor);
    assert!(!shell.exit);
}

#[test]
fn test_tab_intercepted_while_focused() {
    let mut shell = Rustor::new(registry());
    update(&mut shell, Message::OpenApp);
    update(&mut shell, Message::SwapFocus);
    let (msg, eff) = handle_key(&mut shell, Key::Tab);
    assert_eq!(msg, Some(Message::SwapFocus));
    assert!(matches!(eff, Effect::Pass));
}

#[test]
fn test_focused_key_routes_to_open_app() {
    let mut shell = Rustor::new(registry());
    update(&mut shell, Message::NextApp);
    update(&mut shell, Message::OpenApp);
    update(&mut shell, Message::SwapFocus);
    let (msg, eff) = handle_key(&mut shell, Key::Char('a'));
    assert_eq!(msg, None);
    match eff {
        Effect::Fs(FsAction::ReadDir(p)) => assert_eq!(p, vec!['a']),
        _ => panic!("typing into the focused file browser must ask for a read"),
    }
    match &shell.apps[1] {
        AppType::FileTreeApp(app) => {
            assert_eq!(app.input, vec!['a']);
            assert_eq!(app.character_index, 1);
        }
        _ => panic!("the file browser must stay at its registry slot"),
    }
}

#[test]
fn test_focused_without_open_app_ignores_keys() {
    let mut shell = Rustor::new(registry());
    update(&mut shell, Message::SwapFocus);
    let (msg, eff) = handle_key(&mut shell, Key::Char('a'));
    assert_eq!(msg, None);
    assert!(matches!(eff, Effect::Pass));
    match &shell.apps[1] {
        AppType::FileTreeApp(app) => assert!(app.input.is_empty()),
        _ => panic!("the file browser must stay at its registry slot"),
    }
}

#[test]
fn test_exactly_one_message_per_event() {
    let mut shell = Rustor::new(registry());
    // a full user interaction: move, open, focus, type, unfocus, quit —
    // each key press produces at most one message, applied once
    for (key, expected_menu) in [(Key::Char('j'), 1), (Key::Char('j'), 2), (Key::Char('k'), 1)] {
        let (msg, _) = handle_key(&mut shell, key);
        if let Some(m) = msg {
            update(&mut shell, m);
        }
        assert_eq!(shell.menu_selection, expected_menu);
    }
    let (msg, _) = handle_key(&mut shell, Key::Enter);
    update(&mut shell, msg.unwrap());
    assert_eq!(shell.open_app, Some(1));
    let (msg, _) = handle_key(&mut shell, Key::Tab);
    update(&mut shell, msg.unwrap());
    assert!(shell.app_focused);
    let (msg, _) = handle_key(&mut shell, Key::Tab);
    update(&mut shell, msg.unwrap());
    assert!(!shell.app_focused);
    let (msg, _) = handle_key(&mut shell, Key::Char('q'));
    update(&mut shell, msg.unwrap());
    assert!(shell.exit);
}
