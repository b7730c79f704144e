//! Screen configuration: the data a deployment supplies once at startup.
//!
//! Keys are held by their key codes.

use crate::input::{
    Event, EventKind, InputEvent, ABSOLUTE_AXIS_COUNT, ABSOLUTE_AXIS_VOLUME, KEY_BUTTON_0, KEY_OK,
};
use std::collections::HashMap;
use vstd::prelude::*;

verus! {

/// The configuration of every managed screen.
pub type Config = Vec<ConfigScreen>;

/// Everything known about one managed screen.
#[derive(Debug, Clone, PartialEq, Eq)]
pub struct ConfigScreen {
    pub monitor: ConfigMonitor,
    pub guest_source: ConfigInput,
    pub host_source: ConfigInput,
    pub ddc: ConfigDdc,
    pub hotkeys: Vec<ConfigHotkey>,
    /// Key code to the key code that replaces it.
    pub key_remap: HashMap<u16, u16>,
    pub qemu: ConfigQemu,
    /// Control actions carried out when the session exits.
    pub exit_events: Vec<ConfigEvent>,
}

impl Default for ConfigScreen {
    fn default() -> (r: Self)
        ensures
            r.monitor == ConfigMonitor::spec_default(),
            r.guest_source == ConfigInput::spec_default(),
            r.host_source == ConfigInput::spec_default(),
            r.ddc.host == ConfigDdcHost::Off,
            r.ddc.guest == ConfigDdcGuest::Off,
            r.hotkeys@.len() == 0,
            r.key_remap@ == Map::<u16, u16>::empty(),
            r.qemu == ConfigQemu::spec_default(),
            r.exit_events@.len() == 0,
    {
        ConfigScreen {
            monitor: ConfigMonitor::default(),
            guest_source: ConfigInput::default(),
            host_source: ConfigInput::default(),
            ddc: ConfigDdc::default(),
            hotkeys: Vec::new(),
            key_remap: HashMap::new(),
            qemu: ConfigQemu::default(),
            exit_events: Vec::new(),
        }
    }
}

/// How the monitor is told to show the host.
#[derive(Debug, Clone, PartialEq, Eq)]
pub enum ConfigDdcHost {
    /// The monitor is left alone.
    Off,
    Libddcutil,
    Ddcutil,
    Exec(Vec<String>),
}

impl Default for ConfigDdcHost {
    fn default() -> (r: Self)
        ensures
            r == ConfigDdcHost::Off,
    {
        ConfigDdcHost::Off
    }
}

/// How the monitor is told to show the guest.
#[derive(Debug, Clone, PartialEq, Eq)]
pub enum ConfigDdcGuest {
    /// The monitor is left alone.
    Off,
    GuestExec(Vec<String>),
    Exec(Vec<String>),
}

impl Default for ConfigDdcGuest {
    fn default() -> (r: Self)
        ensures
            r == ConfigDdcGuest::Off,
    {
        ConfigDdcGuest::Off
    }
}

/// The display-control channel for each side.
#[derive(Debug, Clone, PartialEq, Eq)]
pub struct ConfigDdc {
    pub host: ConfigDdcHost,
    pub guest: ConfigDdcGuest,
}

impl Default for ConfigDdc {
    fn default() -> (r: Self)
        ensures
            r.host == ConfigDdcHost::Off,
            r.guest == ConfigDdcGuest::Off,
    {
        ConfigDdc { host: ConfigDdcHost::default(), guest: ConfigDdcGuest::default() }
    }
}

/// How to reach the virtual machine, and how input reaches the guest.
#[derive(Debug, Clone, PartialEq, Eq)]
pub struct ConfigQemu {
    pub ga_socket: Option<String>,
    pub qmp_socket: Option<String>,
    pub comm: ConfigQemuComm,
    pub driver: ConfigQemuDriver,
}

impl ConfigQemu {
    pub open spec fn spec_default() -> Self {
        ConfigQemu {
            ga_socket: None,
            qmp_socket: None,
            comm: ConfigQemuComm::Qemucomm,
            driver: ConfigQemuDriver::InputLinux,
        }
    }
}

impl Default for ConfigQemu {
    fn default() -> (r: Self)
        ensures
            r == ConfigQemu::spec_default(),
    {
        ConfigQemu {
            ga_socket: None,
            qmp_socket: None,
            comm: ConfigQemuComm::default(),
            driver: ConfigQemuDriver::default(),
        }
    }
}

/// The protocol spoken with the virtual machine.
#[derive(Debug, Copy, Clone, PartialEq, Eq, Structural)]
pub enum ConfigQemuComm {
    /// The virtual machine is not spoken to.
    Off,
    Qemucomm,
    QMP,
    Console,
}

impl Default for ConfigQemuComm {
    fn default() -> (r: Self)
        ensures
            r == ConfigQemuComm::Qemucomm,
    {
        ConfigQemuComm::Qemucomm
    }
}

/// How events are injected into the guest.
#[derive(Debug, Copy, Clone, PartialEq, Eq, Structural)]
pub enum ConfigQemuDriver {
    InputLinux,
    Virtio,
}

impl Default for ConfigQemuDriver {
    fn default() -> (r: Self)
        ensures
            r == ConfigQemuDriver::InputLinux,
    {
        ConfigQemuDriver::InputLinux
    }
}

/// A hotkey binding: its actions are carried out when all modifiers are
/// held and one of the triggers is pressed, or released with `on_release`.
#[derive(Debug, Clone, PartialEq, Eq)]
pub struct ConfigHotkey {
    pub triggers: Vec<u16>,
    pub modifiers: Vec<u16>,
    pub events: Vec<ConfigEvent>,
    pub on_release: bool,
    /// Active even while the input devices are not grabbed.
    pub global: bool,
}

/// A control action.
#[derive(Debug, Clone, PartialEq, Eq)]
pub enum ConfigEvent {
    Exec(Vec<String>),
    ShowHost,
    ShowGuest,
    ToggleShow,
    ToggleGrab(ConfigGrab),
    Grab(ConfigGrab),
    Ungrab(ConfigGrabMode),
    UnstickHost,
    UnstickGuest,
    Shutdown,
    Reboot,
    Exit,
}

/// A class of input event, used to select what a grab captures or ignores.
#[derive(Debug, Copy, Clone, PartialOrd, Ord, PartialEq, Eq, Structural, Hash)]
pub enum ConfigInputEvent {
    Key,
    Button,
    Relative,
    Absolute,
    Misc,
    Switch,
    Led,
    Sound,
}

impl ConfigInputEvent {
    /// Whether a key code lies in the range of the mouse and gamepad buttons.
    pub open spec fn spec_button_match(key: u16) -> bool {
        KEY_BUTTON_0 <= key < KEY_OK
    }

    /// The class of a typed event. Keys are buttons or keys by their code,
    /// the volume axis counts as a key, and every other absolute axis is
    /// absolute; events of the remaining kinds have no class.
    pub open spec fn spec_class(e: Event) -> Option<ConfigInputEvent> {
        match e {
            Event::Key(key, _) => if Self::spec_button_match(key) {
                Some(ConfigInputEvent::Button)
            } else {
                Some(ConfigInputEvent::Key)
            },
            Event::Relative(..) => Some(ConfigInputEvent::Relative),
            Event::Absolute(axis, _) => if axis == ABSOLUTE_AXIS_VOLUME {
                Some(ConfigInputEvent::Key)
            } else {
                Some(ConfigInputEvent::Absolute)
            },
            Event::Misc(..) => Some(ConfigInputEvent::Misc),
            Event::Switch(..) => Some(ConfigInputEvent::Switch),
            Event::Led(..) => Some(ConfigInputEvent::Led),
            Event::Sound(..) => Some(ConfigInputEvent::Sound),
            _ => None,
        }
    }

    /// The class of a raw event; an event whose code is out of range has
    /// none.
    pub open spec fn spec_from_event(e: InputEvent) -> Option<ConfigInputEvent> {
        match e.spec_parse() {
            Ok(event) => Self::spec_class(event),
            Err(_) => None,
        }
    }

    /// Classifies a raw event.
    pub fn from_event(e: &InputEvent) -> (r: Option<Self>)
        ensures
            r == Self::spec_from_event(*e),
    {
        match Event::new(e) {
            Ok(Event::Key(key, _)) => {
                if Self::key_match(key) {
                    Some(ConfigInputEvent::Key)
                } else {
                    Some(ConfigInputEvent::Button)
                }
            },
            Ok(Event::Relative(..)) => Some(ConfigInputEvent::Relative),
            Ok(Event::Absolute(axis, _)) => {
                if axis == ABSOLUTE_AXIS_VOLUME {
                    Some(ConfigInputEvent::Key)
                } else {
                    Some(ConfigInputEvent::Absolute)
                }
            },
            Ok(Event::Misc(..)) => Some(ConfigInputEvent::Misc),
            Ok(Event::Switch(..)) => Some(ConfigInputEvent::Switch),
            Ok(Event::Led(..)) => Some(ConfigInputEvent::Led),
            Ok(Event::Sound(..)) => Some(ConfigInputEvent::Sound),
            _ => None,
        }
    }

    /// Whether a typed event belongs to this class.
    pub fn event_matches(&self, e: &Event) -> (r: bool)
        ensures
            r == (Self::spec_class(*e) == Some(*self)),
    {
        match (*self, *e) {
            (ConfigInputEvent::Key, Event::Key(key, _)) => Self::key_match(key),
            (ConfigInputEvent::Key, Event::Absolute(axis, _)) => axis == ABSOLUTE_AXIS_VOLUME,
            (ConfigInputEvent::Button, Event::Key(key, _)) => Self::button_match(key),
            (ConfigInputEvent::Relative, Event::Relative(..)) => true,
            (ConfigInputEvent::Absolute, Event::Absolute(axis, _)) => axis != ABSOLUTE_AXIS_VOLUME,
            (ConfigInputEvent::Misc, Event::Misc(..)) => true,
            (ConfigInputEvent::Switch, Event::Switch(..)) => true,
            (ConfigInputEvent::Led, Event::Led(..)) => true,
            (ConfigInputEvent::Sound, Event::Sound(..)) => true,
            _ => false,
        }
    }

    /// Whether a key code is a keyboard key: any key that is no button.
    pub fn key_match(key: u16) -> (r: bool)
        ensures
            r == !Self::spec_button_match(key),
    {
        !Self::button_match(key)
    }

    /// Whether a key code is a button.
    pub fn button_match(key: u16) -> (r: bool)
        ensures
            r == Self::spec_button_match(key),
    {
        key >= KEY_BUTTON_0 && key < KEY_OK
    }
}

/// A raw event is of a class exactly when it parses to a typed event that
/// matches the class.
pub proof fn lemma_from_event_agrees_with_event_matches(e: InputEvent, class: ConfigInputEvent)
    ensures
        ConfigInputEvent::spec_from_event(e) == Some(class) <==> (e.spec_parse() is Ok
            && ConfigInputEvent::spec_class(e.spec_parse()->Ok_0) == Some(class)),
{
}

/// Every key event whose code is in range is either a key or a button, and
/// never both.
pub proof fn lemma_key_events_are_keys_or_buttons(e: InputEvent)
    requires
        e.kind.spec_canonical() == EventKind::Key,
        e.spec_parse() is Ok,
    ensures
        ConfigInputEvent::spec_from_event(e) == Some(ConfigInputEvent::Button)
            <==> ConfigInputEvent::spec_button_match(e.code),
        ConfigInputEvent::spec_from_event(e) == Some(ConfigInputEvent::Key)
            <==> !ConfigInputEvent::spec_button_match(e.code),
{
}

/// An absolute event on the volume axis is of the class of keys; on every
/// other absolute axis it is of the absolute class.
pub proof fn lemma_volume_is_a_key(e: InputEvent)
    requires
        e.kind.spec_canonical() == EventKind::Absolute,
        e.code < ABSOLUTE_AXIS_COUNT,
    ensures
        e.code == ABSOLUTE_AXIS_VOLUME ==> ConfigInputEvent::spec_from_event(e) == Some(
            ConfigInputEvent::Key,
        ),
        e.code != ABSOLUTE_AXIS_VOLUME ==> ConfigInputEvent::spec_from_event(e) == Some(
            ConfigInputEvent::Absolute,
        ),
{
}

/// How to capture input devices, with the parameters each mechanism needs.
#[derive(Debug, Clone, PartialEq, Eq)]
pub enum ConfigGrab {
    XCore,
    XDevice { devices: Vec<String> },
    Evdev {
        exclusive: bool,
        new_device_name: Option<String>,
        xcore_ignore: Vec<ConfigInputEvent>,
        evdev_ignore: Vec<ConfigInputEvent>,
        devices: Vec<String>,
    },
}

impl ConfigGrab {
    /// The mode a grab specification projects to.
    pub open spec fn spec_mode(self) -> ConfigGrabMode {
        match self {
            ConfigGrab::XCore => ConfigGrabMode::XCore,
            ConfigGrab::XDevice { .. } => ConfigGrabMode::XDevice,
            ConfigGrab::Evdev { .. } => ConfigGrabMode::Evdev,
        }
    }

    /// Projects the specification to its mode, dropping the parameters.
    pub fn mode(&self) -> (r: ConfigGrabMode)
        ensures
            r == self.spec_mode(),
    {
        match self {
            ConfigGrab::XCore => ConfigGrabMode::XCore,
            ConfigGrab::XDevice { .. } => ConfigGrabMode::XDevice,
            ConfigGrab::Evdev { .. } => ConfigGrabMode::Evdev,
        }
    }
}

impl Default for ConfigGrab {
    fn default() -> (r: Self)
        ensures
            r == ConfigGrab::XCore,
    {
        ConfigGrab::XCore
    }
}

/// The mechanism by which input devices are captured.
#[derive(Debug, Copy, Clone, PartialEq, Eq, PartialOrd, Ord, Structural, Hash)]
pub enum ConfigGrabMode {
    Evdev,
    XDevice,
    XCore,
}

impl Default for ConfigGrabMode {
    fn default() -> (r: Self)
        ensures
            r == ConfigGrabMode::XCore,
    {
        ConfigGrabMode::XCore
    }
}

/// The identity of a monitor; absent fields match any monitor.
#[derive(Debug, Clone, PartialEq, Eq)]
pub struct ConfigMonitor {
    pub manufacturer: Option<String>,
    pub model: Option<String>,
    pub serial: Option<String>,
}

impl ConfigMonitor {
    pub open spec fn spec_default() -> Self {
        ConfigMonitor { manufacturer: None, model: None, serial: None }
    }
}

impl Default for ConfigMonitor {
    fn default() -> (r: Self)
        ensures
            r == ConfigMonitor::spec_default(),
    {
        ConfigMonitor { manufacturer: None, model: None, serial: None }
    }
}

/// A video input of the monitor, by its number, its name, or both.
#[derive(Debug, Clone, PartialEq, Eq)]
pub struct ConfigInput {
    pub value: Option<u8>,
    pub name: Option<String>,
}

impl ConfigInput {
    pub open spec fn spec_default() -> Self {
        ConfigInput { value: None, name: None }
    }
}

impl Default for ConfigInput {
    fn default() -> (r: Self)
        ensures
            r == ConfigInput::spec_default(),
    {
        ConfigInput { value: None, name: None }
    }
}

} // verus!
