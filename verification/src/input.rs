//! Input signal adapter: raw window events become three derived signals,
//! opposed-button direction state, latest cursor position and latest window
//! size.
//!
//! Tie-break policy for a direction axis: most-recent press wins while both
//! buttons are held, and releasing one side reverts to the side still held.

use vstd::prelude::*;

verus! {

/// An opaque button identifier. Letter keys use their ASCII code.
#[derive(Clone, Copy, Debug, PartialEq, Eq, Structural)]
pub struct ButtonId(pub u32);

/// Key code of the letter `w`.
pub const KEY_W: u32 = 119;

/// Key code of the letter `a`.
pub const KEY_A: u32 = 97;

/// Key code of the letter `s`.
pub const KEY_S: u32 = 115;

/// Key code of the letter `d`.
pub const KEY_D: u32 = 100;

/// Key code of the space bar.
pub const KEY_SPACE: u32 = 32;

/// Key code of the left shift key.
pub const KEY_LSHIFT: u32 = 304;

/// Cursor coordinates are held within this magnitude (16.16 fixed-point
/// pixels), so that per-tick deltas always fit the arithmetic downstream.
pub const CURSOR_BOUND: i64 = 0x4000_0000;

/// A raw window event. Cursor coordinates are 16.16 fixed-point pixels.
#[derive(Clone, Copy, Debug, PartialEq, Eq, Structural)]
pub enum InputEvent {
    ButtonDown(ButtonId),
    ButtonUp(ButtonId),
    CursorMoved(i64, i64),
    Resized(u32, u32),
}

/// Which button drives which movement axis.
#[derive(Clone, Copy, Debug, PartialEq, Eq, Structural)]
pub struct ButtonConfig {
    pub forward: ButtonId,
    pub backward: ButtonId,
    pub right: ButtonId,
    pub left: ButtonId,
    pub up: ButtonId,
    pub down: ButtonId,
}

impl Default for ButtonConfig {
    /// The conventional first-person layout: `w`/`s` forward and backward,
    /// `d`/`a` right and left, space and left shift up and down.
    fn default() -> (c: ButtonConfig)
        ensures
            c.forward == (ButtonId(KEY_W)),
            c.backward == (ButtonId(KEY_S)),
            c.right == (ButtonId(KEY_D)),
            c.left == (ButtonId(KEY_A)),
            c.up == (ButtonId(KEY_SPACE)),
            c.down == (ButtonId(KEY_LSHIFT)),
    {
        ButtonConfig {
            forward: ButtonId(KEY_W),
            backward: ButtonId(KEY_S),
            right: ButtonId(KEY_D),
            left: ButtonId(KEY_A),
            up: ButtonId(KEY_SPACE),
            down: ButtonId(KEY_LSHIFT),
        }
    }
}

/// Net signed state of an opposed pair of buttons: a signal in `{-1, 0, +1}`.
#[derive(Clone, Copy, Debug, PartialEq, Eq, Structural)]
pub struct DirectionTracker {
    pub positive: ButtonId,
    pub negative: ButtonId,
    pub positive_held: bool,
    pub negative_held: bool,
    pub last_pressed_positive: bool,
}

/// The axis value a tracker state denotes: most-recent press wins while both
/// buttons are held; one held side alone gives its own sign; none gives 0.
pub open spec fn direction_value_spec(t: DirectionTracker) -> int {
    if t.positive_held && t.negative_held {
        if t.last_pressed_positive { 1 } else { -1 }
    } else if t.positive_held {
        1
    } else if t.negative_held {
        -1
    } else {
        0
    }
}

/// The tracker state after one raw event. Only transitions of the two
/// tracked buttons matter; if one button serves both roles, the positive
/// role wins.
pub open spec fn direction_step_spec(t: DirectionTracker, ev: InputEvent) -> DirectionTracker {
    match ev {
        InputEvent::ButtonDown(b) => {
            if b == t.positive {
                DirectionTracker { positive_held: true, last_pressed_positive: true, ..t }
            } else if b == t.negative {
                DirectionTracker { negative_held: true, last_pressed_positive: false, ..t }
            } else {
                t
            }
        },
        InputEvent::ButtonUp(b) => {
            if b == t.positive {
                DirectionTracker { positive_held: false, ..t }
            } else if b == t.negative {
                DirectionTracker { negative_held: false, ..t }
            } else {
                t
            }
        },
        _ => t,
    }
}

/// A fresh tracker state: both buttons up.
pub open spec fn tracker_init_spec(positive: ButtonId, negative: ButtonId) -> DirectionTracker {
    DirectionTracker {
        positive,
        negative,
        positive_held: false,
        negative_held: false,
        last_pressed_positive: false,
    }
}

impl DirectionTracker {
    /// A fresh tracker: both buttons up, axis value 0.
    pub fn track(positive: ButtonId, negative: ButtonId) -> (t: DirectionTracker)
        ensures
            t == tracker_init_spec(positive, negative),
            direction_value_spec(t) == 0,
    {
        DirectionTracker {
            positive,
            negative,
            positive_held: false,
            negative_held: false,
            last_pressed_positive: false,
        }
    }

    /// Feed one raw event through the axis state machine.
    pub fn on_event(&mut self, ev: &InputEvent)
        ensures
            *final(self) == direction_step_spec(*old(self), *ev),
    {
        match ev {
            InputEvent::ButtonDown(b) => {
                if *b == self.positive {
                    self.positive_held = true;
                    self.last_pressed_positive = true;
                } else if *b == self.negative {
                    self.negative_held = true;
                    self.last_pressed_positive = false;
                }
            },
            InputEvent::ButtonUp(b) => {
                if *b == self.positive {
                    self.positive_held = false;
                } else if *b == self.negative {
                    self.negative_held = false;
                }
            },
            _ => {},
        }
    }

    /// The current axis value in `{-1, 0, +1}`.
    pub fn value(&self) -> (r: i8)
        ensures
            r as int == direction_value_spec(*self),
    {
        if self.positive_held && self.negative_held {
            if self.last_pressed_positive { 1 } else { -1 }
        } else if self.positive_held {
            1
        } else if self.negative_held {
            -1
        } else {
            0
        }
    }
}

/// The three direction signals plus the latched cursor and window size.
///
/// The forward/backward axis is oriented so that its positive side is the
/// backward button: forward motion points toward negative `z`.
#[derive(Clone, Copy, Debug, PartialEq, Eq, Structural)]
pub struct InputAdapter {
    pub strafe: DirectionTracker,
    pub vertical: DirectionTracker,
    pub fore: DirectionTracker,
    pub cursor_x: i64,
    pub cursor_y: i64,
    pub width: u32,
    pub height: u32,
}

/// Latched cursor coordinates stay within `CURSOR_BOUND`.
pub open spec fn adapter_wf(a: InputAdapter) -> bool {
    &&& -CURSOR_BOUND <= a.cursor_x <= CURSOR_BOUND
    &&& -CURSOR_BOUND <= a.cursor_y <= CURSOR_BOUND
}

/// The adapter state after one raw event: buttons feed all three axis
/// trackers, a cursor move replaces the latched position (saturated at
/// `CURSOR_BOUND`), a resize replaces the latched size.
pub open spec fn adapter_step_spec(a: InputAdapter, ev: InputEvent) -> InputAdapter {
    match ev {
        InputEvent::CursorMoved(x, y) => InputAdapter {
            cursor_x: crate::fixed::clamp_spec(x as int, -CURSOR_BOUND as int, CURSOR_BOUND as int) as i64,
            cursor_y: crate::fixed::clamp_spec(y as int, -CURSOR_BOUND as int, CURSOR_BOUND as int) as i64,
            ..a
        },
        InputEvent::Resized(w, h) => InputAdapter { width: w, height: h, ..a },
        _ => InputAdapter {
            strafe: direction_step_spec(a.strafe, ev),
            vertical: direction_step_spec(a.vertical, ev),
            fore: direction_step_spec(a.fore, ev),
            ..a
        },
    }
}

impl InputAdapter {
    /// A fresh adapter over a button layout, with an initial window size,
    /// the cursor at the origin and every axis neutral.
    pub fn new(config: &ButtonConfig, width: u32, height: u32) -> (a: InputAdapter)
        ensures
            adapter_wf(a),
            a.strafe == tracker_init_spec(config.right, config.left),
            a.vertical == tracker_init_spec(config.up, config.down),
            a.fore == tracker_init_spec(config.backward, config.forward),
            a.cursor_x == 0 && a.cursor_y == 0,
            a.width == width && a.height == height,
            direction_value_spec(a.strafe) == 0,
            direction_value_spec(a.vertical) == 0,
            direction_value_spec(a.fore) == 0,
    {
        InputAdapter {
            strafe: DirectionTracker::track(config.right, config.left),
            vertical: DirectionTracker::track(config.up, config.down),
            fore: DirectionTracker::track(config.backward, config.forward),
            cursor_x: 0,
            cursor_y: 0,
            width,
            height,
        }
    }

    /// Feed one raw event to every derived signal.
    pub fn handle_event(&mut self, ev: &InputEvent)
        requires
            adapter_wf(*old(self)),
        ensures
            *final(self) == adapter_step_spec(*old(self), *ev),
            adapter_wf(*final(self)),
    {
        match ev {
            InputEvent::CursorMoved(x, y) => {
                self.cursor_x = crate::fixed::clamp(*x, -CURSOR_BOUND, CURSOR_BOUND);
                self.cursor_y = crate::fixed::clamp(*y, -CURSOR_BOUND, CURSOR_BOUND);
            },
            InputEvent::Resized(w, h) => {
                self.width = *w;
                self.height = *h;
            },
            _ => {
                self.strafe.on_event(ev);
                self.vertical.on_event(ev);
                self.fore.on_event(ev);
            },
        }
    }

    /// The latched cursor position.
    pub fn cursor(&self) -> (r: (i64, i64))
        ensures
            r.0 == self.cursor_x && r.1 == self.cursor_y,
    {
        (self.cursor_x, self.cursor_y)
    }

    /// The latched window size.
    pub fn size(&self) -> (r: (u32, u32))
        ensures
            r.0 == self.width && r.1 == self.height,
    {
        (self.width, self.height)
    }
}

} // verus!
