use zr_alshasha::capture::{Event, HookEvent};
use zr_alshasha::keys::{HookKey, ToolkitKey};
use zr_alshasha::screen::{Command, Config, Message, PositionConfig, ScreenKey, TimerState, UiEvent};

fn screen() -> ScreenKey {
    ScreenKey::new(&Config::default(), 1_000)
}

#[test]
fn config_defaults() {
    let c = Config::default();
    assert_eq!(c.font_size, Some(30));
    assert_eq!(c.width, Some(500));
    assert_eq!(c.erase_on_backspace, Some(false));
    assert_eq!(c.position, Some(PositionConfig { x: 1000, y: 1000 }));
    assert_eq!(c.window_size(), (500, 40));
}

#[test]
fn absent_options_take_defaults() {
    let c = Config { position: None, font_size: None, width: Some(800), erase_on_backspace: None };
    assert_eq!(c.font_size_or_default(), 30);
    assert_eq!(c.width_or_default(), 800);
    assert_eq!(c.position_or_default(), PositionConfig { x: 1000, y: 1000 });
    assert!(!c.erase_on_backspace_or_default());
    assert_eq!(c.window_size(), (800, 40));
}

#[test]
fn new_screen_is_empty_and_ticking() {
    let s = screen();
    assert_eq!(s.display.text(), "");
    assert_eq!(s.display.max_width, 500);
    assert_eq!(s.display.font_size, 30);
    assert_eq!(s.timer_state, TimerState::Ticking { last_tick: 1_000 });
    assert_eq!(s.duration, 0);
    assert_eq!(s.title(), "Zr Alshaha");
}

#[test]
fn key_press_resizes_and_restarts_idle_time() {
    let mut s = screen();
    s.update(Message::Tick(3_500));
    assert_eq!(s.duration, 2_500);
    let cmd = s.update(Message::RdevEvents(Event::Received(HookEvent::KeyPress(HookKey::KeyA))));
    assert_eq!(cmd, Command::Resize { width: 500, height: 40 });
    assert_eq!(s.display.text(), "A ");
    assert_eq!(s.duration, 0);
}

#[test]
fn toolkit_key_press_is_shown() {
    let mut s = screen();
    s.update(Message::IcedEvents(UiEvent::KeyPressed(ToolkitKey::Key5)));
    assert_eq!(s.display.text(), "5 ");
}

#[test]
fn other_hook_events_are_ignored() {
    let mut s = screen();
    assert_eq!(s.update(Message::RdevEvents(Event::Ready)), Command::Nothing);
    assert_eq!(s.update(Message::RdevEvents(Event::Received(HookEvent::Other))), Command::Nothing);
    assert_eq!(s.display.text(), "");
}

#[test]
fn ticks_add_up_idle_time() {
    let mut s = screen();
    s.update(Message::Tick(2_000));
    s.update(Message::Tick(2_500));
    assert_eq!(s.duration, 1_500);
    assert_eq!(s.timer_state, TimerState::Ticking { last_tick: 2_500 });
    s.update(Message::Tick(2_000));
    assert_eq!(s.duration, 1_500);
}

#[test]
fn erase_timer_resets() {
    let mut d: u64 = 12_345;
    ScreenKey::erase_timer(&mut d);
    assert_eq!(d, 0);
}

#[test]
fn right_drag_moves_window() {
    let mut s = screen();
    s.update(Message::IcedEvents(UiEvent::WindowMoved { x: 100, y: 200 }));
    s.update(Message::IcedEvents(UiEvent::RightButtonPressed));
    let first = s.update(Message::IcedEvents(UiEvent::CursorMoved { x: 10, y: 20 }));
    assert_eq!(first, Command::MoveTo { x: 100, y: 200 });
    let second = s.update(Message::IcedEvents(UiEvent::CursorMoved { x: 15, y: 18 }));
    assert_eq!(second, Command::MoveTo { x: 105, y: 198 });
    s.update(Message::IcedEvents(UiEvent::RightButtonReleased));
    assert_eq!(s.update(Message::IcedEvents(UiEvent::CursorMoved { x: 30, y: 30 })), Command::Nothing);
}

#[test]
fn drag_target_is_clamped() {
    let mut s = screen();
    s.update(Message::IcedEvents(UiEvent::WindowMoved { x: i32::MAX, y: i32::MIN }));
    s.update(Message::IcedEvents(UiEvent::RightButtonPressed));
    s.update(Message::IcedEvents(UiEvent::CursorMoved { x: 1, y: 1 }));
    let cmd = s.update(Message::IcedEvents(UiEvent::CursorMoved { x: 5, y: -5 }));
    assert_eq!(cmd, Command::MoveTo { x: i32::MAX, y: i32::MIN });
}

#[test]
fn input_changed_sets_the_line() {
    let mut s = screen();
    s.update(Message::InputChanged("X Y ".to_string()));
    assert_eq!(s.display.text(), "X Y ");
}

#[test]
fn erase_from_config() {
    let c = Config { position: None, font_size: None, width: None, erase_on_backspace: Some(true) };
    let mut s = ScreenKey::new(&c, 0);
    s.add_key(&HookKey::KeyA);
    s.add_key(&HookKey::KeyB);
    let cmd = s.add_key(&HookKey::Backspace);
    assert_eq!(cmd, Command::Nothing);
    assert_eq!(s.display.text(), "A ");
}
