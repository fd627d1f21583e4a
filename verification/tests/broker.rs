use std::collections::HashSet;

use deutron::webview::backend_event::{parse_ipc_line, BackendEvent};
use deutron::webview::effect::Effect;
use deutron::webview::info::{InfoMessage, RequestInfo, ResponseInfo};
use deutron::webview::target::Target;
use deutron::webview::webview_action::WebViewAction;
use deutron::webview::webview_manager::{WebViewManager, WindowManagerId};
use deutron::webview::window_action::{announce_created, WindowAction};
use deutron::webview::window_config::WindowConfig;
use deutron::webview::window_control::WindowControl;
use deutron::webview::window_event::WindowEvent;
use deutron::webview::window_message::WindowMessage;

fn demo_window(title: &str, url: &str) -> WindowConfig {
    let mut c = WindowConfig::default();
    c.title = title.to_string();
    c.url = url.to_string();
    c
}

#[test]
fn id_allocation_is_collision_free() {
    let mut manager = WebViewManager::new();
    let mut seen: HashSet<i32> = HashSet::new();
    for k in 0..3000u64 {
        let id = manager.create_window(demo_window("w", "index.html"), k);
        assert!(seen.insert(id), "duplicate logical ID handed out");
    }
    assert_eq!(manager.iter_ids().len(), 3000);
}

#[test]
fn close_last_window_kills_backend_once() {
    let mut manager = WebViewManager::new();
    let a = manager.create_window(demo_window("a", "a.html"), 1);
    let b = manager.create_window(demo_window("b", "b.html"), 2);

    // closing a non-last window: no termination, no exit
    let effects = WindowAction::Control { target: a, control: WindowControl::Close }
        .perform(Target::Window(a), &mut manager);
    let kills = effects.iter().filter(|e| matches!(e, Effect::KillBackend)).count();
    let exits = effects.iter().filter(|e| matches!(e, Effect::ExitLoop)).count();
    assert_eq!((kills, exits), (0, 0));
    assert!(!manager.is_empty());

    // closing the last window: exactly one of each
    let effects = WindowAction::Control { target: b, control: WindowControl::Close }
        .perform(Target::Window(b), &mut manager);
    let kills = effects.iter().filter(|e| matches!(e, Effect::KillBackend)).count();
    let exits = effects.iter().filter(|e| matches!(e, Effect::ExitLoop)).count();
    assert_eq!((kills, exits), (1, 1));
    assert!(manager.is_empty());
}

#[test]
fn send_others_excludes_sender_and_hits_everyone_else_once() {
    let mut manager = WebViewManager::new();
    let a = manager.create_window(demo_window("a", "a.html"), 1);
    let b = manager.create_window(demo_window("b", "b.html"), 2);
    let c = manager.create_window(demo_window("c", "c.html"), 3);

    let effect = WindowMessage::Info(InfoMessage::Loaded(a)).send_others(a, &manager);
    match effect {
        Effect::Broadcast(targets, _) => {
            assert_eq!(targets.len(), 2);
            assert!(!targets.contains(&a));
            assert!(targets.contains(&b));
            assert!(targets.contains(&c));
        },
        other => panic!("expected a broadcast, got {:?}", other),
    }
}

#[test]
fn bare_window_request_from_backend_is_a_shape_error() {
    let mut manager = WebViewManager::new();
    let _ = manager.create_window(demo_window("a", "a.html"), 1);

    let effects = RequestInfo::Window(None).perform(Target::Backend, &manager);
    assert_eq!(effects.len(), 1);
    match &effects[0] {
        Effect::ToBackend(deutron::webview::backend_message::BackendMessage::Info(
            InfoMessage::Error(text),
        )) => {
            assert_eq!(text, "Backend needs to provide a window id");
        },
        other => panic!("expected an error to the backend, got {:?}", other),
    }
}

#[test]
fn bare_window_request_from_window_resolves_to_itself() {
    let mut manager = WebViewManager::new();
    let _ = manager.create_window(demo_window("a", "a.html"), 1);
    let b = manager.create_window(demo_window("Main", "index.html"), 2);

    let effects = RequestInfo::Window(None).perform(Target::Window(b), &manager);
    assert_eq!(effects.len(), 1);
    match &effects[0] {
        Effect::ToWindow(tid, WindowMessage::Info(InfoMessage::Response(ResponseInfo::Window(
            info,
        )))) => {
            assert_eq!(*tid, b);
            assert_eq!(info.id, b);
            assert_eq!(info.title, "Main");
            assert_eq!(info.url, "index.html");
            assert!(!info.fullscreen);
        },
        other => panic!("expected b's own snapshot, got {:?}", other),
    }
}

#[test]
fn windows_request_lists_every_snapshot() {
    let mut manager = WebViewManager::new();
    let a = manager.create_window(demo_window("a", "a.html"), 1);
    let b = manager.create_window(demo_window("b", "b.html"), 2);

    let effects = RequestInfo::Windows.perform(Target::Backend, &manager);
    assert_eq!(effects.len(), 1);
    match &effects[0] {
        Effect::ToBackend(deutron::webview::backend_message::BackendMessage::Info(
            InfoMessage::Response(ResponseInfo::Windows(infos)),
        )) => {
            assert_eq!(infos.len(), 2);
            assert_eq!(infos[0].id, a);
            assert_eq!(infos[1].id, b);
        },
        other => panic!("expected all snapshots, got {:?}", other),
    }
}

#[test]
fn full_window_lifecycle_scenario() {
    let mut manager = WebViewManager::new();

    // the backend asks for a window
    let create = BackendEvent::Window(WindowAction::Create(demo_window("Main", "index.html")));
    let queued = create.handle();
    let action = match queued {
        Effect::Queue(a) => a,
        other => panic!("expected a queued action, got {:?}", other),
    };
    let effects = manager.handle_user_events(action);
    assert_eq!(effects.len(), 1);
    let config = match effects.into_iter().next().unwrap() {
        Effect::OpenWindow(c) => c,
        other => panic!("expected a window open, got {:?}", other),
    };

    // the native window is built; the manager registers it and the backend
    // hears Created(id)
    let id = manager.create_window(config, 77);
    let effects = announce_created(&manager, id);
    assert!(matches!(
        &effects[0],
        Effect::ToBackend(deutron::webview::backend_message::BackendMessage::Info(
            InfoMessage::Created(cid)
        )) if *cid == id
    ));

    // the page signals Loaded: the backend hears it and the window is shown
    let queued = WindowEvent::Loaded.handle(id);
    let action = match queued {
        Effect::Queue(a) => a,
        other => panic!("expected a queued action, got {:?}", other),
    };
    let effects = manager.handle_user_events(action);
    assert!(matches!(
        &effects[0],
        Effect::ToBackend(deutron::webview::backend_message::BackendMessage::Info(
            InfoMessage::Loaded(lid)
        )) if *lid == id
    ));
    assert!(matches!(effects.last().unwrap(), Effect::ShowWindow(sid) if *sid == id));

    // the window asks to close itself: the backend hears Closed(id), the set
    // becomes empty, and the backend is terminated
    let queued = WindowEvent::Control { target: None, control: WindowControl::Close }.handle(id);
    let action = match queued {
        Effect::Queue(a) => a,
        other => panic!("expected a queued action, got {:?}", other),
    };
    let effects = manager.handle_user_events(action);
    assert!(manager.is_empty());
    assert!(effects.iter().any(|e| matches!(
        e,
        Effect::ToBackend(deutron::webview::backend_message::BackendMessage::Info(
            InfoMessage::Closed(cid)
        )) if *cid == id
    )));
    assert_eq!(effects.iter().filter(|e| matches!(e, Effect::KillBackend)).count(), 1);
    assert_eq!(effects.iter().filter(|e| matches!(e, Effect::ExitLoop)).count(), 1);
}

#[test]
fn message_to_missing_window_is_reported_to_its_source() {
    let mut manager = WebViewManager::new();
    let a = manager.create_window(demo_window("a", "a.html"), 1);
    let effects = manager.handle_user_events(WebViewAction::Message(
        Target::Window(a),
        a + 1,
        WindowMessage::Message { from: Target::Window(a), data: "hi".to_string() },
    ));
    assert_eq!(effects.len(), 1);
    match &effects[0] {
        Effect::Queue(WebViewAction::Message(src, wid, WindowMessage::Info(
            InfoMessage::Error(text),
        ))) => {
            assert_eq!(*src, Target::Window(a));
            assert_eq!(*wid, a);
            assert_eq!(text, "Target window not found");
        },
        other => panic!("expected a routed error, got {:?}", other),
    }
}

#[test]
fn dead_window_request_error_goes_to_live_requester() {
    let mut manager = WebViewManager::new();
    let a = manager.create_window(demo_window("a", "a.html"), 1);

    let effects = RequestInfo::Window(Some(a + 1)).perform(Target::Window(a), &manager);
    assert_eq!(effects.len(), 1);
    match &effects[0] {
        Effect::Queue(WebViewAction::Message(src, wid, WindowMessage::Info(
            InfoMessage::Error(text),
        ))) => {
            assert_eq!(*src, Target::Window(a));
            assert_eq!(*wid, a);
            assert_eq!(text, "Window not found");
        },
        other => panic!("expected the error at the live requester, got {:?}", other),
    }
}

#[test]
fn dead_requester_errors_fall_to_the_backend() {
    let mut manager = WebViewManager::new();
    let a = manager.create_window(demo_window("a", "a.html"), 1);

    // the requester window closed before its request was handled
    let gone = a + 1;
    let effects = RequestInfo::Window(None).perform(Target::Window(gone), &manager);
    assert_eq!(effects.len(), 1);
    match &effects[0] {
        Effect::ToBackend(deutron::webview::backend_message::BackendMessage::Info(
            InfoMessage::Error(text),
        )) => {
            assert_eq!(text, "Window not found");
        },
        other => panic!("expected the error at the backend, got {:?}", other),
    }
}

#[test]
fn loaded_from_dead_window_reports_to_backend() {
    let mut manager = WebViewManager::new();
    let a = manager.create_window(demo_window("a", "a.html"), 1);

    let effects = WindowAction::Loaded.perform(Target::Window(a + 1), &mut manager);
    assert_eq!(effects.len(), 1);
    assert!(matches!(
        &effects[0],
        Effect::ToBackend(deutron::webview::backend_message::BackendMessage::Info(
            InfoMessage::Error(text)
        )) if text == "Window not found"
    ));
}

#[test]
fn native_close_request_resolves_through_the_table() {
    let mut manager = WebViewManager::new();
    let a = manager.create_window(demo_window("a", "a.html"), 41);
    let handle = WindowManagerId::Native(41);
    assert_eq!(handle.to_number(&manager), a);
    let effects = manager.handle_close_requested(41);
    assert!(manager.is_empty());
    assert!(matches!(&effects[0], Effect::CloseNative(cid) if *cid == a));
    // an unknown handle is ignored
    let effects = manager.handle_close_requested(999);
    assert!(effects.is_empty());
}

#[test]
fn fullscreen_control_toggles() {
    let mut manager = WebViewManager::new();
    let a = manager.create_window(demo_window("a", "a.html"), 1);
    let effects = WindowAction::Control { target: a, control: WindowControl::Fullscreen }
        .perform(Target::Window(a), &mut manager);
    assert!(matches!(effects[0], Effect::SetFullscreen(id, true) if id == a));
    let effects = WindowAction::Control { target: a, control: WindowControl::Fullscreen }
        .perform(Target::Window(a), &mut manager);
    assert!(matches!(effects[0], Effect::SetFullscreen(id, false) if id == a));
}

#[test]
fn loaded_from_backend_is_an_error() {
    let mut manager = WebViewManager::new();
    let effects = WindowAction::Loaded.perform(Target::Backend, &mut manager);
    assert_eq!(effects.len(), 1);
    assert!(matches!(
        &effects[0],
        Effect::ToBackend(deutron::webview::backend_message::BackendMessage::Info(
            InfoMessage::Error(text)
        )) if text == "ID not provided to Loaded event"
    ));
}

#[test]
fn ipc_lines_are_split_from_log_lines() {
    assert_eq!(
        parse_ipc_line("DEUTRON_IPC:{\"Window\":\"Loaded\"}"),
        Some("{\"Window\":\"Loaded\"}".to_string())
    );
    assert_eq!(parse_ipc_line("plain log output"), None);
    assert_eq!(parse_ipc_line(""), None);
    assert_eq!(parse_ipc_line("DEUTRON_IPC:"), Some("".to_string()));
}
