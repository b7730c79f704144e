//! Raw device events as plain values, and their classification.
//!
//! Event kinds and codes follow the Linux input subsystem. Whether a code is
//! valid for its kind, and whether a key code is a button, is asked of the
//! `input_linux` crate; everything built on those answers is verified here.

use vstd::prelude::*;

verus! {

/// Number of key codes.
pub const KEY_COUNT: u16 = 0x300;

/// First code of the mouse and gamepad buttons.
pub const KEY_BUTTON_0: u16 = 0x100;

/// First key code after the mouse and gamepad buttons.
pub const KEY_OK: u16 = 0x160;

/// First code of the extra gamepad buttons, which extend to the last key code.
pub const KEY_BUTTON_TRIGGER_HAPPY_1: u16 = 0x2c0;

/// Number of relative axis codes.
pub const RELATIVE_AXIS_COUNT: u16 = 0x10;

/// Number of absolute axis codes.
pub const ABSOLUTE_AXIS_COUNT: u16 = 0x40;

/// Code of the horizontal axis, relative or absolute.
pub const AXIS_X: u16 = 0;

/// Code of the vertical axis, relative or absolute.
pub const AXIS_Y: u16 = 1;

/// Code of the absolute volume axis.
pub const ABSOLUTE_AXIS_VOLUME: u16 = 0x20;

/// Value of a key event that reports a release.
pub const KEY_RELEASED: i32 = 0;

/// Value of a key event that reports a press.
pub const KEY_PRESSED: i32 = 1;

/// The kind of a raw event.
#[derive(Debug, Copy, Clone, PartialEq, Eq, Structural, Hash)]
pub enum EventKind {
    Synchronize,
    Key,
    Relative,
    Absolute,
    Misc,
    Switch,
    Led,
    Sound,
    Autorepeat,
    ForceFeedback,
    Power,
    ForceFeedbackStatus,
    UInput,
    /// Any other kind, by its type number.
    Unknown(u16),
}

impl EventKind {
    /// The type number the input subsystem gives this kind.
    pub open spec fn spec_type_code(self) -> u16 {
        match self {
            EventKind::Synchronize => 0x00,
            EventKind::Key => 0x01,
            EventKind::Relative => 0x02,
            EventKind::Absolute => 0x03,
            EventKind::Misc => 0x04,
            EventKind::Switch => 0x05,
            EventKind::Led => 0x11,
            EventKind::Sound => 0x12,
            EventKind::Autorepeat => 0x14,
            EventKind::ForceFeedback => 0x15,
            EventKind::Power => 0x16,
            EventKind::ForceFeedbackStatus => 0x17,
            EventKind::UInput => 0x101,
            EventKind::Unknown(code) => code,
        }
    }

    /// The kind a type number stands for; numbers without a name of their
    /// own are kept as `Unknown`.
    pub open spec fn spec_from_type_code(code: u16) -> EventKind {
        if code == 0x00 {
            EventKind::Synchronize
        } else if code == 0x01 {
            EventKind::Key
        } else if code == 0x02 {
            EventKind::Relative
        } else if code == 0x03 {
            EventKind::Absolute
        } else if code == 0x04 {
            EventKind::Misc
        } else if code == 0x05 {
            EventKind::Switch
        } else if code == 0x11 {
            EventKind::Led
        } else if code == 0x12 {
            EventKind::Sound
        } else if code == 0x14 {
            EventKind::Autorepeat
        } else if code == 0x15 {
            EventKind::ForceFeedback
        } else if code == 0x16 {
            EventKind::Power
        } else if code == 0x17 {
            EventKind::ForceFeedbackStatus
        } else if code == 0x101 {
            EventKind::UInput
        } else {
            EventKind::Unknown(code)
        }
    }

    /// The kind with the same type number in which `Unknown` hides no
    /// named kind.
    pub open spec fn spec_canonical(self) -> EventKind {
        Self::spec_from_type_code(self.spec_type_code())
    }

    /// A kind is canonical when `Unknown` does not hide a named kind.
    pub open spec fn is_canonical(self) -> bool {
        self.spec_canonical() == self
    }

    pub fn type_code(self) -> (r: u16)
        ensures
            r == self.spec_type_code(),
    {
        match self {
            EventKind::Synchronize => 0x00,
            EventKind::Key => 0x01,
            EventKind::Relative => 0x02,
            EventKind::Absolute => 0x03,
            EventKind::Misc => 0x04,
            EventKind::Switch => 0x05,
            EventKind::Led => 0x11,
            EventKind::Sound => 0x12,
            EventKind::Autorepeat => 0x14,
            EventKind::ForceFeedback => 0x15,
            EventKind::Power => 0x16,
            EventKind::ForceFeedbackStatus => 0x17,
            EventKind::UInput => 0x101,
            EventKind::Unknown(code) => code,
        }
    }

    /// The same kind, named if its type number has a name.
    pub fn canonical(self) -> (r: EventKind)
        ensures
            r == self.spec_canonical(),
            r.is_canonical(),
            r.spec_type_code() == self.spec_type_code(),
    {
        Self::from_type_code(self.type_code())
    }

    pub fn from_type_code(code: u16) -> (r: EventKind)
        ensures
            r == Self::spec_from_type_code(code),
            r.is_canonical(),
            r.spec_type_code() == code,
    {
        if code == 0x00 {
            EventKind::Synchronize
        } else if code == 0x01 {
            EventKind::Key
        } else if code == 0x02 {
            EventKind::Relative
        } else if code == 0x03 {
            EventKind::Absolute
        } else if code == 0x04 {
            EventKind::Misc
        } else if code == 0x05 {
            EventKind::Switch
        } else if code == 0x11 {
            EventKind::Led
        } else if code == 0x12 {
            EventKind::Sound
        } else if code == 0x14 {
            EventKind::Autorepeat
        } else if code == 0x15 {
            EventKind::ForceFeedback
        } else if code == 0x16 {
            EventKind::Power
        } else if code == 0x17 {
            EventKind::ForceFeedbackStatus
        } else if code == 0x101 {
            EventKind::UInput
        } else {
            EventKind::Unknown(code)
        }
    }
}

/// When an event was produced.
#[derive(Debug, Copy, Clone, PartialEq, Eq, Structural, Hash)]
pub struct EventTime {
    pub seconds: i64,
    pub microseconds: i64,
}

/// A raw device event: immutable once produced.
#[derive(Debug, Copy, Clone, PartialEq, Eq, Structural, Hash)]
pub struct InputEvent {
    pub time: EventTime,
    pub kind: EventKind,
    pub code: u16,
    pub value: i32,
}

/// An event code outside the range of its kind.
#[derive(Debug, Copy, Clone, PartialEq, Eq, Structural, Hash)]
pub struct RangeError;

/// A device event whose code is known to be valid for its kind. Each
/// variant carries the code and the value.
#[derive(Debug, Copy, Clone, PartialEq, Eq, Structural, Hash)]
pub enum Event {
    Synchronize(u16, i32),
    Key(u16, i32),
    Relative(u16, i32),
    Absolute(u16, i32),
    Misc(u16, i32),
    Switch(u16, i32),
    Led(u16, i32),
    Sound(u16, i32),
    Autorepeat(u16, i32),
    ForceFeedback(u16, i32),
    ForceFeedbackStatus(u16, i32),
    UInput(u16, i32),
    /// An event of a kind that has no codes of its own.
    Unknown(InputEvent),
}

/// Whether a key code denotes a button of a mouse or a gamepad.
pub open spec fn spec_is_button(code: u16) -> bool {
    (KEY_BUTTON_0 <= code < KEY_OK) || (KEY_BUTTON_TRIGGER_HAPPY_1 <= code < KEY_COUNT)
}

/// Whether `code` is a code that events of the kind with type number
/// `kind` may carry. Kinds without codes of their own accept every code;
/// type numbers that name no kind accept none.
pub open spec fn spec_code_in_range(kind: u16, code: u16) -> bool {
    if kind == 0x00 {
        code < 0x10
    } else if kind == 0x01 {
        code < KEY_COUNT
    } else if kind == 0x02 {
        code < RELATIVE_AXIS_COUNT
    } else if kind == 0x03 {
        code < ABSOLUTE_AXIS_COUNT
    } else if kind == 0x04 {
        code < 0x08
    } else if kind == 0x05 {
        code < 0x11
    } else if kind == 0x11 {
        code < 0x10
    } else if kind == 0x12 {
        code < 0x08
    } else if kind == 0x14 {
        code < 0x02
    } else if kind == 0x15 {
        code < 0x80
    } else if kind == 0x17 {
        code < 0x02
    } else if kind == 0x101 {
        code < 0x03
    } else {
        kind <= 0x1f
    }
}

/// Calls `input_linux::EventRef::new` on an event of the given type number
/// and code, after `input_linux::EventKind::from_type` has accepted the type
/// number. The contract restates the bound that the crate checks for each
/// kind: the number of codes of that kind.
#[verifier::external_body]
fn code_in_range(kind: u16, code: u16) -> (r: bool)
    ensures
        r == spec_code_in_range(kind, code),
{
    match input_linux::EventKind::from_type(kind) {
        Ok(kind) => {
            let time = input_linux::EventTime::new(0, 0);
            input_linux::EventRef::new(&input_linux::InputEvent { time, kind, code, value: 0 }).is_ok()
        },
        Err(_) => false,
    }
}

/// Calls `input_linux::Key::from_code` and, on the key it yields,
/// `input_linux::Key::is_button`. The contract says that codes below the
/// number of key codes yield a key, and that the buttons are the two code
/// ranges the crate tests for.
#[verifier::external_body]
fn key_is_button(code: u16) -> (r: Option<bool>)
    ensures
        r == (if code < KEY_COUNT {
            Some(spec_is_button(code))
        } else {
            None
        }),
{
    match input_linux::Key::from_code(code) {
        Ok(key) => Some(key.is_button()),
        Err(_) => None,
    }
}

/// Calls `input_linux::RelativeAxis::from_code`. The contract says that
/// codes below the number of relative axes yield the axis with that code.
#[verifier::external_body]
fn relative_axis_from_code(code: u16) -> (r: Option<u16>)
    ensures
        r == (if code < RELATIVE_AXIS_COUNT {
            Some(code)
        } else {
            None
        }),
{
    match input_linux::RelativeAxis::from_code(code) {
        Ok(axis) => Some(axis as u16),
        Err(_) => None,
    }
}

/// Calls `input_linux::AbsoluteAxis::from_code`. The contract says that
/// codes below the number of absolute axes yield the axis with that code.
#[verifier::external_body]
fn absolute_axis_from_code(code: u16) -> (r: Option<u16>)
    ensures
        r == (if code < ABSOLUTE_AXIS_COUNT {
            Some(code)
        } else {
            None
        }),
{
    match input_linux::AbsoluteAxis::from_code(code) {
        Ok(axis) => Some(axis as u16),
        Err(_) => None,
    }
}

/// Whether `code` names a key that is a button. Codes that name no key are
/// no buttons.
pub fn is_button_code(code: u16) -> (r: bool)
    ensures
        r == (code < KEY_COUNT && spec_is_button(code)),
        r == spec_is_button(code),
{
    match key_is_button(code) {
        Some(button) => button,
        None => false,
    }
}

/// The relative axis with the given code, if there is one.
pub fn relative_axis(code: u16) -> (r: Option<u16>)
    ensures
        r.is_some() <==> code < RELATIVE_AXIS_COUNT,
        r.is_some() ==> r.unwrap() == code,
{
    relative_axis_from_code(code)
}

/// The absolute axis with the given code, if there is one.
pub fn absolute_axis(code: u16) -> (r: Option<u16>)
    ensures
        r.is_some() <==> code < ABSOLUTE_AXIS_COUNT,
        r.is_some() ==> r.unwrap() == code,
{
    absolute_axis_from_code(code)
}

impl InputEvent {
    /// The typed event this raw event stands for, if its code is in range.
    pub open spec fn spec_parse(self) -> Result<Event, RangeError> {
        if !spec_code_in_range(self.kind.spec_type_code(), self.code) {
            Err(RangeError)
        } else {
            Ok(
                match self.kind.spec_canonical() {
                    EventKind::Synchronize => Event::Synchronize(self.code, self.value),
                    EventKind::Key => Event::Key(self.code, self.value),
                    EventKind::Relative => Event::Relative(self.code, self.value),
                    EventKind::Absolute => Event::Absolute(self.code, self.value),
                    EventKind::Misc => Event::Misc(self.code, self.value),
                    EventKind::Switch => Event::Switch(self.code, self.value),
                    EventKind::Led => Event::Led(self.code, self.value),
                    EventKind::Sound => Event::Sound(self.code, self.value),
                    EventKind::Autorepeat => Event::Autorepeat(self.code, self.value),
                    EventKind::ForceFeedback => Event::ForceFeedback(self.code, self.value),
                    EventKind::ForceFeedbackStatus => Event::ForceFeedbackStatus(
                        self.code,
                        self.value,
                    ),
                    EventKind::UInput => Event::UInput(self.code, self.value),
                    _ => Event::Unknown(self),
                },
            )
        }
    }

    /// A key event with the given code and value, produced at `time`.
    pub fn key(time: EventTime, code: u16, value: i32) -> (r: InputEvent)
        ensures
            r == (InputEvent { time, kind: EventKind::Key, code, value }),
    {
        InputEvent { time, kind: EventKind::Key, code, value }
    }

    /// Whether this is a key event whose code names a key.
    pub open spec fn spec_is_key(self) -> bool {
        self.kind.spec_canonical() == EventKind::Key && self.code < KEY_COUNT
    }
}

impl Event {
    /// Reads a raw event as a typed one. Fails exactly when the code is
    /// outside the range of the event's kind.
    pub fn new(event: &InputEvent) -> (r: Result<Event, RangeError>)
        ensures
            r == event.spec_parse(),
    {
        if !code_in_range(event.kind.type_code(), event.code) {
            return Err(RangeError);
        }
        let code = event.code;
        let value = event.value;
        Ok(
            match event.kind.canonical() {
                EventKind::Synchronize => Event::Synchronize(code, value),
                EventKind::Key => Event::Key(code, value),
                EventKind::Relative => Event::Relative(code, value),
                EventKind::Absolute => Event::Absolute(code, value),
                EventKind::Misc => Event::Misc(code, value),
                EventKind::Switch => Event::Switch(code, value),
                EventKind::Led => Event::Led(code, value),
                EventKind::Sound => Event::Sound(code, value),
                EventKind::Autorepeat => Event::Autorepeat(code, value),
                EventKind::ForceFeedback => Event::ForceFeedback(code, value),
                EventKind::ForceFeedbackStatus => Event::ForceFeedbackStatus(code, value),
                EventKind::UInput => Event::UInput(code, value),
                _ => Event::Unknown(*event),
            },
        )
    }
}

} // verus!
