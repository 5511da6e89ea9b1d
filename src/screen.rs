use vstd::prelude::*;
use vstd::string::StringExecFns;

use crate::buffer::{key_step, line_height, DisplayState};
use crate::capture::{Event, HookEvent};
use crate::keys::{iced_token, rdev_token, Keys, ToolkitKey};
use crate::text::chars_of;

verus! {

pub const DEFAULT_FONT_SIZE: u32 = 30;

pub const DEFAULT_WIDTH: u32 = 500;

pub const DEFAULT_POSITION: i32 = 1000;

/// Where the window is placed at start.
#[derive(Clone, Copy, Debug, PartialEq, Eq, Structural)]
pub struct PositionConfig {
    pub x: i32,
    pub y: i32,
}

impl Default for PositionConfig {
    fn default() -> (r: PositionConfig)
        ensures
            r == (PositionConfig { x: DEFAULT_POSITION, y: DEFAULT_POSITION }),
    {
        PositionConfig { x: DEFAULT_POSITION, y: DEFAULT_POSITION }
    }
}

/// The options read from the configuration file; an absent one is `None`.
#[derive(Clone, Copy, Debug, PartialEq, Eq, Structural)]
pub struct Config {
    pub position: Option<PositionConfig>,
    pub font_size: Option<u32>,
    pub width: Option<u32>,
    pub erase_on_backspace: Option<bool>,
}

impl Default for Config {
    fn default() -> (r: Config)
        ensures
            r == (Config {
                position: Some(PositionConfig { x: DEFAULT_POSITION, y: DEFAULT_POSITION }),
                font_size: Some(DEFAULT_FONT_SIZE),
                width: Some(DEFAULT_WIDTH),
                erase_on_backspace: Some(false),
            }),
    {
        Config {
            position: Some(PositionConfig::default()),
            font_size: Some(DEFAULT_FONT_SIZE),
            width: Some(DEFAULT_WIDTH),
            erase_on_backspace: Some(false),
        }
    }
}

impl Config {
    pub open spec fn spec_font_size(&self) -> u32 {
        match self.font_size {
            Some(v) => v,
            None => DEFAULT_FONT_SIZE,
        }
    }

    pub open spec fn spec_width(&self) -> u32 {
        match self.width {
            Some(v) => v,
            None => DEFAULT_WIDTH,
        }
    }

    /// The font size, or its default when absent.
    pub fn font_size_or_default(&self) -> (r: u32)
        ensures
            r == self.spec_font_size(),
    {
        match self.font_size {
            Some(v) => v,
            None => DEFAULT_FONT_SIZE,
        }
    }

    /// The line's width, or its default when absent.
    pub fn width_or_default(&self) -> (r: u32)
        ensures
            r == self.spec_width(),
    {
        match self.width {
            Some(v) => v,
            None => DEFAULT_WIDTH,
        }
    }

    /// The window's position, or its default when absent.
    pub fn position_or_default(&self) -> (r: PositionConfig)
        ensures
            r == match self.position {
                Some(p) => p,
                None => PositionConfig { x: DEFAULT_POSITION, y: DEFAULT_POSITION },
            },
    {
        match self.position {
            Some(p) => p,
            None => PositionConfig::default(),
        }
    }

    /// Whether backspace erases, off when absent.
    pub fn erase_on_backspace_or_default(&self) -> (r: bool)
        ensures
            r == match self.erase_on_backspace {
                Some(v) => v,
                None => false,
            },
    {
        match self.erase_on_backspace {
            Some(v) => v,
            None => false,
        }
    }

    /// The window's size at start: the line's width, and one line's height.
    pub fn window_size(&self) -> (r: (u32, u32))
        ensures
            r == (self.spec_width(), line_height(self.spec_font_size())),
    {
        let font_size = self.font_size_or_default();
        let height: u32 = if font_size <= u32::MAX - 10 {
            font_size + 10
        } else {
            u32::MAX
        };
        (self.width_or_default(), height)
    }
}

/// Whether idle time is being counted, and from which tick on.
#[derive(Clone, Copy, Debug, PartialEq, Eq, Structural)]
pub enum TimerState {
    Idle,
    /// Counting; `last_tick` is the time of the last tick, in milliseconds.
    Ticking { last_tick: u64 },
}

/// What the window toolkit reports to the focused window, cursor positions in
/// whole pixels.
#[derive(Clone, Copy, Debug, PartialEq, Eq, Structural)]
pub enum UiEvent {
    KeyPressed(ToolkitKey),
    RightButtonPressed,
    RightButtonReleased,
    CursorMoved { x: i32, y: i32 },
    WindowMoved { x: i32, y: i32 },
    Other,
}

/// The inputs of the window.
pub enum Message {
    /// From the capture source.
    RdevEvents(Event),
    /// From the window toolkit.
    IcedEvents(UiEvent),
    /// The line is set to the given text.
    InputChanged(String),
    /// A periodic tick, at the given time in milliseconds.
    Tick(u64),
}

/// What the window host is asked to do.
#[derive(Clone, Copy, Debug, PartialEq, Eq, Structural)]
pub enum Command {
    Nothing,
    Resize { width: u32, height: u32 },
    MoveTo { x: i32, y: i32 },
}

/// `v`, held to the range of `i32`.
pub open spec fn clamp_i32(v: int) -> i32 {
    if v < i32::MIN {
        i32::MIN
    } else if v > i32::MAX {
        i32::MAX
    } else {
        v as i32
    }
}

/// The idle time after a tick at `now`, the previous tick being at `last`:
/// grown by the time between them, none when the clock went back, at most the
/// largest `u64`.
pub open spec fn idle_after(idle: u64, last: u64, now: u64) -> u64 {
    let grown = if now >= last {
        idle + (now - last)
    } else {
        idle as int
    };
    if grown > u64::MAX {
        u64::MAX
    } else {
        grown as u64
    }
}

pub open spec fn resize_of(cmd: Command) -> Option<(u32, u32)> {
    match cmd {
        Command::Resize { width, height } => Some((width, height)),
        _ => None,
    }
}

/// The window's state: the line, the dragging of the window, and the idle time.
pub struct ScreenKey {
    pub display: DisplayState,
    /// Whether the right button holds the window.
    pub is_grabbing: bool,
    /// Where in the window the cursor took hold of it; `(0, 0)` before it did.
    pub grab_location: (i32, i32),
    pub window_position: (i32, i32),
    pub timer_state: TimerState,
    /// Time since the last key token, in milliseconds.
    pub duration: u64,
}

/// A key token taken by the window: the line takes it, the idle time restarts,
/// and the line's resize request is passed on.
pub open spec fn key_pressed(before: ScreenKey, token: Seq<char>, after: ScreenKey, cmd: Command) -> bool {
    &&& key_step(before.display, token, after.display, resize_of(cmd))
    &&& cmd is Nothing || cmd is Resize
    &&& after.duration == 0
    &&& after.is_grabbing == before.is_grabbing
    &&& after.grab_location == before.grab_location
    &&& after.window_position == before.window_position
    &&& after.timer_state == before.timer_state
}

/// What one message does to the window's state, and what it asks of the host.
pub open spec fn handles(before: ScreenKey, message: Message, after: ScreenKey, cmd: Command) -> bool {
    match message {
        Message::RdevEvents(Event::Received(HookEvent::KeyPress(k))) => key_pressed(
            before,
            rdev_token(k),
            after,
            cmd,
        ),
        Message::IcedEvents(UiEvent::KeyPressed(k)) => key_pressed(before, iced_token(k), after, cmd),
        Message::IcedEvents(UiEvent::RightButtonPressed) => {
            &&& after == (ScreenKey { is_grabbing: true, grab_location: (0i32, 0i32), ..before })
            &&& cmd == Command::Nothing
        },
        Message::IcedEvents(UiEvent::RightButtonReleased) => {
            &&& after == (ScreenKey { is_grabbing: false, ..before })
            &&& cmd == Command::Nothing
        },
        Message::IcedEvents(UiEvent::CursorMoved { x, y }) => {
            let grab = if before.grab_location == (0i32, 0i32) {
                (x, y)
            } else {
                before.grab_location
            };
            &&& after == (ScreenKey { grab_location: grab, ..before })
            &&& cmd == if before.is_grabbing {
                Command::MoveTo {
                    x: clamp_i32(x + before.window_position.0 - grab.0),
                    y: clamp_i32(y + before.window_position.1 - grab.1),
                }
            } else {
                Command::Nothing
            }
        },
        Message::IcedEvents(UiEvent::WindowMoved { x, y }) => {
            &&& after == (ScreenKey { window_position: (x, y), ..before })
            &&& cmd == Command::Nothing
        },
        Message::InputChanged(s) => {
            &&& after.display.text@ == s@
            &&& after.display.last_token == before.display.last_token
            &&& after.display.repeat_count == before.display.repeat_count
            &&& after.display.max_width == before.display.max_width
            &&& after.display.font_size == before.display.font_size
            &&& after.display.erase_on_backspace == before.display.erase_on_backspace
            &&& after.is_grabbing == before.is_grabbing
            &&& after.grab_location == before.grab_location
            &&& after.window_position == before.window_position
            &&& after.timer_state == before.timer_state
            &&& after.duration == before.duration
            &&& cmd == Command::Nothing
        },
        Message::Tick(now) => {
            &&& cmd == Command::Nothing
            &&& match before.timer_state {
                TimerState::Ticking { last_tick } => after == (ScreenKey {
                    timer_state: TimerState::Ticking { last_tick: now },
                    duration: idle_after(before.duration, last_tick, now),
                    ..before
                }),
                TimerState::Idle => after == before,
            }
        },
        _ => after == before && cmd == Command::Nothing,
    }
}

impl ScreenKey {
    /// A window with an empty line set up from `config`, counting idle time
    /// from `now` (milliseconds).
    pub fn new(config: &Config, now: u64) -> (r: ScreenKey)
        ensures
            r.display.wf(),
            r.display.text@ == Seq::<char>::empty(),
            r.display.last_token is None,
            r.display.repeat_count == 0,
            r.display.max_width == config.spec_width(),
            r.display.font_size == config.spec_font_size(),
            r.display.erase_on_backspace == match config.erase_on_backspace {
                Some(v) => v,
                None => false,
            },
            !r.is_grabbing,
            r.grab_location == (0i32, 0i32),
            r.window_position == (0i32, 0i32),
            r.timer_state == (TimerState::Ticking { last_tick: now }),
            r.duration == 0,
    {
        ScreenKey {
            display: DisplayState::new(
                config.width_or_default(),
                config.font_size_or_default(),
                config.erase_on_backspace_or_default(),
            ),
            is_grabbing: false,
            grab_location: (0, 0),
            window_position: (0, 0),
            timer_state: TimerState::Ticking { last_tick: now },
            duration: 0,
        }
    }

    /// The window's title.
    pub fn title(&self) -> (r: String)
        ensures
            r@ == "Zr Alshaha"@,
    {
        String::from_str("Zr Alshaha")
    }

    /// Restarts the idle time.
    pub fn erase_timer(duration: &mut u64)
        ensures
            *final(duration) == 0,
    {
        *duration = 0;
    }

    /// Takes a pressed key of either alphabet through its token.
    pub fn add_key<K: Keys>(&mut self, key: &K) -> (r: Command)
        ensures
            key_pressed(*old(self), key.spec_token(), *final(self), r),
    {
        Self::erase_timer(&mut self.duration);
        let coming_key = key.key_to_string();
        match self.display.on_key_token(coming_key.as_str()) {
            Some((width, height)) => Command::Resize { width, height },
            None => Command::Nothing,
        }
    }

    /// Handles one message: key presses go to the line, the right button drags
    /// the window, ticks count idle time.
    pub fn update(&mut self, message: Message) -> (r: Command)
        ensures
            handles(*old(self), message, *final(self), r),
    {
        match message {
            Message::RdevEvents(event) => match event {
                Event::Ready => Command::Nothing,
                Event::Received(HookEvent::KeyPress(key)) => self.add_key(&key),
                Event::Received(HookEvent::Other) => Command::Nothing,
            },
            Message::IcedEvents(event) => match event {
                UiEvent::KeyPressed(key_code) => self.add_key(&key_code),
                UiEvent::RightButtonPressed => {
                    self.is_grabbing = true;
                    self.grab_location = (0, 0);
                    Command::Nothing
                },
                UiEvent::RightButtonReleased => {
                    self.is_grabbing = false;
                    Command::Nothing
                },
                UiEvent::CursorMoved { x, y } => {
                    if self.grab_location.0 == 0 && self.grab_location.1 == 0 {
                        self.grab_location = (x, y);
                    }
                    if self.is_grabbing {
                        let to_x = clamp(x as i64 + self.window_position.0 as i64 - self.grab_location.0 as i64);
                        let to_y = clamp(y as i64 + self.window_position.1 as i64 - self.grab_location.1 as i64);
                        Command::MoveTo { x: to_x, y: to_y }
                    } else {
                        Command::Nothing
                    }
                },
                UiEvent::WindowMoved { x, y } => {
                    self.window_position = (x, y);
                    Command::Nothing
                },
                UiEvent::Other => Command::Nothing,
            },
            Message::InputChanged(new_value) => {
                self.display.text = chars_of(new_value.as_str());
                Command::Nothing
            },
            Message::Tick(now) => {
                match self.timer_state {
                    TimerState::Ticking { last_tick } => {
                        let elapsed: u64 = if now >= last_tick {
                            now - last_tick
                        } else {
                            0
                        };
                        self.duration = if self.duration <= u64::MAX - elapsed {
                            self.duration + elapsed
                        } else {
                            u64::MAX
                        };
                        self.timer_state = TimerState::Ticking { last_tick: now };
                    },
                    TimerState::Idle => {},
                }
                Command::Nothing
            },
        }
    }
}

fn clamp(v: i64) -> (r: i32)
    ensures
        r == clamp_i32(v as int),
{
    if v < i32::MIN as i64 {
        i32::MIN
    } else if v > i32::MAX as i64 {
        i32::MAX
    } else {
        v as i32
    }
}

} // verus!
