use ektox::app::App;
use ektox::app::DispatchOutcome;
use ektox::app::DispatcherEvent;
use ektox::app::WindowSnapshot;
use ektox::app_error::AppError;
use ektox::config::Action;
use ektox::config::Config;
use ektox::hotkey::Hotkey;
use ektox::hotkey::MOD_CONTROL;
use ektox::window_finder::EnumWindowParam;
use ektox::window_finder::WindowFinder;
use ektox::window_finder::WS_EX_TOOLWINDOW;
use ektox::window_finder::WS_MINIMIZE;
use ektox::window_finder::WS_POPUP;
use ektox::window_finder::WS_VISIBLE;

fn one_action_app() -> App {
    let config = Config {
        startup: true,
        actions: vec![Action {
            hotkey: Hotkey::parse("ctrl+1").unwrap(),
            exec_name: String::from("app.exe"),
        }],
    };
    App::init(config)
}

#[test]
fn dispatch_restores_and_raises_minimized_match() {
    let app = one_action_app();
    let windows = vec![
        WindowSnapshot {
            handle: 3,
            exe: String::from("other.exe"),
            style: WS_VISIBLE,
        },
        WindowSnapshot {
            handle: 7,
            exe: String::from("app.exe"),
            style: WS_VISIBLE | WS_MINIMIZE,
        },
    ];
    let outcome = app.dispatch(&DispatcherEvent::Hotkey(1), &windows);
    assert_eq!(
        outcome,
        DispatchOutcome::Raise {
            handle: 7,
            restore: true
        }
    );
}

#[test]
fn dispatch_raises_without_restore_when_not_minimized() {
    let app = one_action_app();
    let windows = vec![WindowSnapshot {
        handle: 9,
        exe: String::from("app.exe"),
        style: WS_VISIBLE,
    }];
    let outcome = app.dispatch(&DispatcherEvent::Hotkey(1), &windows);
    assert_eq!(
        outcome,
        DispatchOutcome::Raise {
            handle: 9,
            restore: false
        }
    );
}

#[test]
fn dispatch_picks_first_enumerated_match() {
    let app = one_action_app();
    let windows = vec![
        WindowSnapshot {
            handle: 1,
            exe: String::from("app.exe"),
            style: WS_VISIBLE,
        },
        WindowSnapshot {
            handle: 2,
            exe: String::from("app.exe"),
            style: WS_VISIBLE | WS_MINIMIZE,
        },
    ];
    let outcome = app.dispatch(&DispatcherEvent::Hotkey(1), &windows);
    assert_eq!(
        outcome,
        DispatchOutcome::Raise {
            handle: 1,
            restore: false
        }
    );
}

#[test]
fn dispatch_misses_silently() {
    let app = one_action_app();
    let windows = vec![WindowSnapshot {
        handle: 3,
        exe: String::from("other.exe"),
        style: WS_VISIBLE,
    }];
    let outcome = app.dispatch(&DispatcherEvent::Hotkey(1), &windows);
    assert_eq!(outcome, DispatchOutcome::Continue);
}

#[test]
fn dispatch_ignores_unknown_ids_and_events() {
    let app = one_action_app();
    let windows = vec![WindowSnapshot {
        handle: 3,
        exe: String::from("app.exe"),
        style: WS_VISIBLE,
    }];
    assert_eq!(
        app.dispatch(&DispatcherEvent::Hotkey(0), &windows),
        DispatchOutcome::Continue
    );
    assert_eq!(
        app.dispatch(&DispatcherEvent::Hotkey(2), &windows),
        DispatchOutcome::Continue
    );
    assert_eq!(
        app.dispatch(&DispatcherEvent::Other, &windows),
        DispatchOutcome::Continue
    );
    assert_eq!(
        app.dispatch(&DispatcherEvent::Quit, &windows),
        DispatchOutcome::Stop
    );
}

#[test]
fn registration_plan_numbers_from_one() {
    let config = Config {
        startup: false,
        actions: vec![
            Action {
                hotkey: Hotkey::parse("ctrl+1").unwrap(),
                exec_name: String::from("a.exe"),
            },
            Action {
                hotkey: Hotkey::parse("ctrl+alt+delete").unwrap(),
                exec_name: String::from("b.exe"),
            },
        ],
    };
    let app = App::init(config);
    let plan = app.registration_plan();
    assert_eq!(plan.len(), 2);
    assert_eq!(plan[0].id, 1);
    assert_eq!(plan[0].modifiers, MOD_CONTROL);
    assert_eq!(plan[0].key_code, '1' as u32);
    assert_eq!(plan[1].id, 2);
    assert_eq!(plan[1].key_code, 46);
}

#[test]
fn app_reports_its_version() {
    let app = one_action_app();
    assert_eq!(app.get_version().get_version(), "0.1.0");
}

#[test]
fn app_error_keeps_message() {
    let err = AppError::new(String::from("Configure File Not Found"));
    assert_eq!(err.message(), "Configure File Not Found");
}

#[test]
fn frontend_filter_rejects_untitled_and_owned() {
    // An empty title is always rejected, whatever else holds.
    assert!(!WindowFinder::is_frontend_window(false, 0, WS_VISIBLE, 0));
    assert!(!WindowFinder::is_frontend_window(true, 0, WS_VISIBLE, 0));
    // An owned window is always rejected.
    assert!(!WindowFinder::is_frontend_window(true, 10, WS_VISIBLE, 0));
    // A visible, owner-less, titled, non-pop-up, non-tool window is accepted.
    assert!(WindowFinder::is_frontend_window(false, 10, WS_VISIBLE, 0));
    // Pop-up, invisible, and tool windows are rejected.
    assert!(!WindowFinder::is_frontend_window(false, 10, WS_VISIBLE | WS_POPUP, 0));
    assert!(!WindowFinder::is_frontend_window(false, 10, 0, 0));
    assert!(!WindowFinder::is_frontend_window(
        false,
        10,
        WS_VISIBLE,
        WS_EX_TOOLWINDOW
    ));
}

#[test]
fn enumeration_session_accumulates_accepted_handles() {
    let mut session = EnumWindowParam::new();
    assert!(session.continue_enum);
    assert!(session.window_handles.is_empty());

    assert!(session.filter(11, false, 5, WS_VISIBLE, 0));
    assert!(!session.filter(12, true, 5, WS_VISIBLE, 0));
    assert!(session.filter(13, false, 5, WS_VISIBLE, 0));
    assert_eq!(session.window_handles, vec![11, 13]);

    session.clear();
    assert!(session.window_handles.is_empty());
    assert!(session.continue_enum);
}
