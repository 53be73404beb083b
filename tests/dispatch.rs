use kernel_core::dispatch::{start, tick, Action, Event, HandlerTable, Key};

#[test]
fn events_run_their_handlers_in_order() {
    let mut d = HandlerTable::new().keyboard('k').timer('t').startup('s').start();
    assert!(!d.started());
    assert_eq!(d.dispatch(Event::Startup), Action::RunStartup);
    assert_eq!(d.dispatch(Event::Timer), Action::RunTimer);
    assert_eq!(d.dispatch(Event::Keyboard(Key::Unicode('A'))), Action::RunKeyboard(Key::Unicode('A')));
    assert_eq!(d.dispatch(Event::Timer), Action::RunTimer);
    assert!(d.started());
}

#[test]
fn dispatch_all_follows_arrival_order() {
    let mut d = HandlerTable::new().keyboard(1u8).timer(2u8).startup(3u8).start();
    let events = vec![Event::Startup, Event::Timer, Event::Keyboard(Key::Unicode('A')), Event::Timer];
    assert_eq!(
        d.dispatch_all(&events),
        vec![Action::RunStartup, Action::RunTimer, Action::RunKeyboard(Key::Unicode('A')), Action::RunTimer]
    );
}

#[test]
fn startup_runs_only_once() {
    let mut d = HandlerTable::new().keyboard(0).timer(0).startup(0).start();
    assert_eq!(d.dispatch(Event::Startup), Action::RunStartup);
    assert_eq!(d.dispatch(Event::Startup), Action::Idle);
}

#[test]
fn events_before_startup_run_nothing() {
    let mut d = HandlerTable::new().keyboard(0).timer(0).startup(0).start();
    assert_eq!(d.dispatch(Event::Timer), Action::Idle);
    assert_eq!(d.dispatch(Event::Keyboard(Key::Raw(5))), Action::Idle);
    assert_eq!(d.dispatch(Event::Startup), Action::RunStartup);
    assert_eq!(d.dispatch(Event::Keyboard(Key::Raw(5))), Action::RunKeyboard(Key::Raw(5)));
}

#[test]
fn unregistered_handlers_run_nothing() {
    let mut d = HandlerTable::<u8, u8, u8>::new().timer(1).start();
    assert!(d.startup_handler().is_none());
    assert_eq!(d.timer_handler(), Some(&1));
    assert!(d.keyboard_handler().is_none());
    assert_eq!(d.dispatch(Event::Startup), Action::Idle);
    assert!(d.started());
    assert_eq!(d.dispatch(Event::Timer), Action::RunTimer);
    assert_eq!(d.dispatch(Event::Keyboard(Key::Unicode('x'))), Action::Idle);
}

#[test]
fn later_registration_replaces_earlier() {
    let t = HandlerTable::new().timer(1u8).timer(2u8).startup(0u8).keyboard(0u8);
    assert_eq!(t.timer, Some(2));
    let d = t.start();
    assert_eq!(d.timer_handler(), Some(&2));
}

#[test]
fn handler_texts() {
    assert_eq!(start(), "Hello, world!\n");
    assert_eq!(tick(), ".");
}
