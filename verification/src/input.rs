use vstd::prelude::*;

verus! {

#[derive(Debug, Clone, Copy, PartialEq, Eq, Structural)]
pub enum SlideDirection {
    Left,
    Right,
}

#[derive(Debug, Clone, Copy, PartialEq, Eq, Structural)]
pub enum RotateDirection {
    Clockwise,
    CounterClockwise,
}

#[derive(Debug, Clone, Copy, PartialEq, Eq, Structural)]
pub enum DropSpeed {
    Slow,
    Fast,
}

/// The discrete commands the engine reacts to; which key produces
/// which command is decided outside the engine.
#[derive(Debug, Clone, Copy, PartialEq, Eq, PartialOrd, Ord, Structural)]
pub enum Command {
    SlideLeft,
    SlideRight,
    DownFast,
    Lock,
    RotateClockwise,
    RotateCounterClockwise,
}

/// One held-down flag per command: `None` until the key is first
/// seen, then `Some(pressed)`.
#[derive(Debug, Clone, Copy)]
pub struct KeyFlags {
    pub slide_left: Option<bool>,
    pub slide_right: Option<bool>,
    pub down_fast: Option<bool>,
    pub lock: Option<bool>,
    pub rotate_cw: Option<bool>,
    pub rotate_ccw: Option<bool>,
}

pub open spec fn spec_no_flags() -> KeyFlags {
    KeyFlags {
        slide_left: None,
        slide_right: None,
        down_fast: None,
        lock: None,
        rotate_cw: None,
        rotate_ccw: None,
    }
}

/// The flags with one command's entry set.
pub open spec fn spec_set_flag(k: KeyFlags, c: Command, v: bool) -> KeyFlags {
    match c {
        Command::SlideLeft => (KeyFlags { slide_left: Some(v), ..k }),
        Command::SlideRight => (KeyFlags { slide_right: Some(v), ..k }),
        Command::DownFast => (KeyFlags { down_fast: Some(v), ..k }),
        Command::Lock => (KeyFlags { lock: Some(v), ..k }),
        Command::RotateClockwise => (KeyFlags { rotate_cw: Some(v), ..k }),
        Command::RotateCounterClockwise => (KeyFlags { rotate_ccw: Some(v), ..k }),
    }
}

/// The pending movement requests distilled from key presses and
/// releases, polled once per tick by the scheduler.
#[derive(Debug, Clone, Copy)]
pub struct CommandState {
    pub slide: Option<SlideDirection>,
    pub rotate: Option<RotateDirection>,
    pub drop: DropSpeed,
    pub lock: bool,
    pub key_active: KeyFlags,
}

pub open spec fn spec_initial_state() -> CommandState {
    CommandState {
        slide: None,
        rotate: None,
        drop: DropSpeed::Slow,
        lock: false,
        key_active: spec_no_flags(),
    }
}

/// What one key press does: record the request, mark the key held,
/// and cancel a slide or rotation whose two opposing keys are in the
/// same state.
pub open spec fn spec_key_press(s: CommandState, key: Command) -> CommandState {
    let s1 = match key {
        Command::SlideLeft => (CommandState { slide: Some(SlideDirection::Left), ..s }),
        Command::SlideRight => (CommandState { slide: Some(SlideDirection::Right), ..s }),
        Command::DownFast => (CommandState { drop: DropSpeed::Fast, ..s }),
        Command::Lock => (CommandState { lock: true, ..s }),
        Command::RotateClockwise => (CommandState { rotate: Some(RotateDirection::Clockwise), ..s }),
        Command::RotateCounterClockwise => (CommandState {
            rotate: Some(RotateDirection::CounterClockwise),
            ..s
        }),
    };
    let s2 = CommandState { key_active: spec_set_flag(s1.key_active, key, true), ..s1 };
    let s3 = if s2.key_active.slide_left == s2.key_active.slide_right {
        CommandState { slide: None, ..s2 }
    } else {
        s2
    };
    if s3.key_active.rotate_cw == s3.key_active.rotate_ccw {
        CommandState { rotate: None, ..s3 }
    } else {
        s3
    }
}

/// What one key release does: mark the key up, and drop back to the
/// slow fall speed when the fast-drop key goes up.
pub open spec fn spec_key_release(s: CommandState, key: Command) -> CommandState {
    let s1 = CommandState { key_active: spec_set_flag(s.key_active, key, false), ..s };
    match key {
        Command::DownFast => (CommandState { drop: DropSpeed::Slow, ..s1 }),
        _ => s1,
    }
}

/// Polling the slide request: the pending direction is handed out,
/// and cleared when its key has been released.
pub open spec fn spec_do_slide(s: CommandState) -> CommandState {
    let key_state = match s.slide {
        Some(SlideDirection::Left) => s.key_active.slide_left,
        Some(SlideDirection::Right) => s.key_active.slide_right,
        None => None,
    };
    if key_state == Some(false) {
        CommandState { slide: None, ..s }
    } else {
        s
    }
}

/// Polling the rotation request: the pending direction is handed
/// out, and cleared when its key has been released.
pub open spec fn spec_do_rotate(s: CommandState) -> CommandState {
    let key_state = match s.rotate {
        Some(RotateDirection::Clockwise) => s.key_active.rotate_cw,
        Some(RotateDirection::CounterClockwise) => s.key_active.rotate_ccw,
        None => None,
    };
    if key_state == Some(false) {
        CommandState { rotate: None, ..s }
    } else {
        s
    }
}

fn opt_bool_eq(a: Option<bool>, b: Option<bool>) -> (r: bool)
    ensures
        r == (a == b),
{
    match (a, b) {
        (None, None) => true,
        (Some(x), Some(y)) => x == y,
        _ => false,
    }
}

impl CommandState {
    pub fn new() -> (r: Self)
        ensures
            r == spec_initial_state(),
    {
        CommandState {
            slide: None,
            rotate: None,
            lock: false,
            drop: DropSpeed::Slow,
            key_active: KeyFlags {
                slide_left: None,
                slide_right: None,
                down_fast: None,
                lock: None,
                rotate_cw: None,
                rotate_ccw: None,
            },
        }
    }

    pub fn clear_state(&mut self)
        ensures
            *final(self) == spec_initial_state(),
    {
        *self = CommandState::new();
    }

    pub fn get_drop_speed(&self) -> (r: DropSpeed)
        ensures
            r == self.drop,
    {
        self.drop
    }

    pub fn lock(&self) -> (r: bool)
        ensures
            r == self.lock,
    {
        self.lock
    }

    fn set_active(&mut self, key: Command, v: bool)
        ensures
            *final(self) == (CommandState {
                key_active: spec_set_flag(old(self).key_active, key, v),
                ..*old(self)
            }),
    {
        match key {
            Command::SlideLeft => self.key_active.slide_left = Some(v),
            Command::SlideRight => self.key_active.slide_right = Some(v),
            Command::DownFast => self.key_active.down_fast = Some(v),
            Command::Lock => self.key_active.lock = Some(v),
            Command::RotateClockwise => self.key_active.rotate_cw = Some(v),
            Command::RotateCounterClockwise => self.key_active.rotate_ccw = Some(v),
        }
    }

    pub fn key_press(&mut self, key: Command)
        ensures
            *final(self) == spec_key_press(*old(self), key),
    {
        match key {
            Command::SlideLeft => self.slide = Some(SlideDirection::Left),
            Command::SlideRight => self.slide = Some(SlideDirection::Right),
            Command::DownFast => self.drop = DropSpeed::Fast,
            Command::Lock => self.lock = true,
            Command::RotateClockwise => self.rotate = Some(RotateDirection::Clockwise),
            Command::RotateCounterClockwise => {
                self.rotate = Some(RotateDirection::CounterClockwise)
            },
        }
        self.set_active(key, true);
        if opt_bool_eq(self.key_active.slide_left, self.key_active.slide_right) {
            self.slide = None;
        }
        if opt_bool_eq(self.key_active.rotate_cw, self.key_active.rotate_ccw) {
            self.rotate = None;
        }
    }

    pub fn key_release(&mut self, key: Command)
        ensures
            *final(self) == spec_key_release(*old(self), key),
    {
        self.set_active(key, false);
        match key {
            Command::DownFast => self.drop = DropSpeed::Slow,
            _ => {},
        }
    }

    /// The pending slide direction, cleared for the next poll when
    /// its key has been released.
    pub fn do_slide(&mut self) -> (r: Option<SlideDirection>)
        ensures
            r == old(self).slide,
            *final(self) == spec_do_slide(*old(self)),
    {
        let direction = self.slide;
        let key_state = match direction {
            Some(SlideDirection::Left) => self.key_active.slide_left,
            Some(SlideDirection::Right) => self.key_active.slide_right,
            None => None,
        };
        if let Some(key_pressed) = key_state {
            if !key_pressed {
                self.slide = None;
            }
        }
        direction
    }

    /// The pending rotation direction, cleared for the next poll
    /// when its key has been released.
    pub fn do_rotate(&mut self) -> (r: Option<RotateDirection>)
        ensures
            r == old(self).rotate,
            *final(self) == spec_do_rotate(*old(self)),
    {
        let direction = self.rotate;
        let key_state = match direction {
            Some(RotateDirection::Clockwise) => self.key_active.rotate_cw,
            Some(RotateDirection::CounterClockwise) => self.key_active.rotate_ccw,
            None => None,
        };
        if let Some(key_pressed) = key_state {
            if !key_pressed {
                self.rotate = None;
            }
        }
        direction
    }
}

} // verus!
