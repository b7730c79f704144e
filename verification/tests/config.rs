use screenstub::config::{
    ConfigDdc, ConfigDdcGuest, ConfigDdcHost, ConfigGrab, ConfigGrabMode, ConfigInput,
    ConfigInputEvent, ConfigMonitor, ConfigQemu, ConfigQemuComm, ConfigQemuDriver, ConfigScreen,
};
use screenstub::input::{Event, EventKind, EventTime, InputEvent};

fn raw(kind: EventKind, code: u16, value: i32) -> InputEvent {
    InputEvent { time: EventTime { seconds: 0, microseconds: 0 }, kind, code, value }
}

fn evdev(xcore_ignore: Vec<ConfigInputEvent>) -> ConfigGrab {
    ConfigGrab::Evdev {
        exclusive: true,
        new_device_name: None,
        xcore_ignore,
        evdev_ignore: vec![],
        devices: vec![],
    }
}

#[test]
fn mode_projects_each_grab() {
    assert_eq!(ConfigGrab::XCore.mode(), ConfigGrabMode::XCore);
    assert_eq!(
        ConfigGrab::XDevice { devices: vec!["mouse".to_string()] }.mode(),
        ConfigGrabMode::XDevice
    );
    assert_eq!(evdev(vec![ConfigInputEvent::Key]).mode(), ConfigGrabMode::Evdev);
}

#[test]
fn grab_modes_are_ordered_as_declared() {
    assert!(ConfigGrabMode::Evdev < ConfigGrabMode::XDevice);
    assert!(ConfigGrabMode::XDevice < ConfigGrabMode::XCore);
    assert!(ConfigInputEvent::Key < ConfigInputEvent::Button);
    assert!(ConfigInputEvent::Led < ConfigInputEvent::Sound);
}

#[test]
fn defaults_are_the_documented_ones() {
    assert_eq!(ConfigDdcHost::default(), ConfigDdcHost::Off);
    assert_eq!(ConfigDdcGuest::default(), ConfigDdcGuest::Off);
    assert_eq!(ConfigQemuComm::default(), ConfigQemuComm::Qemucomm);
    assert_eq!(ConfigQemuDriver::default(), ConfigQemuDriver::InputLinux);
    assert_eq!(ConfigGrab::default(), ConfigGrab::XCore);
    assert_eq!(ConfigGrabMode::default(), ConfigGrabMode::XCore);
    assert_eq!(ConfigInput::default(), ConfigInput { value: None, name: None });
    assert_eq!(
        ConfigMonitor::default(),
        ConfigMonitor { manufacturer: None, model: None, serial: None }
    );
    assert_eq!(
        ConfigDdc::default(),
        ConfigDdc { host: ConfigDdcHost::Off, guest: ConfigDdcGuest::Off }
    );
    assert_eq!(
        ConfigQemu::default(),
        ConfigQemu {
            ga_socket: None,
            qmp_socket: None,
            comm: ConfigQemuComm::Qemucomm,
            driver: ConfigQemuDriver::InputLinux,
        }
    );
    let screen = ConfigScreen::default();
    assert!(screen.hotkeys.is_empty());
    assert!(screen.key_remap.is_empty());
    assert!(screen.exit_events.is_empty());
    assert_eq!(screen.qemu, ConfigQemu::default());
    assert_eq!(screen.ddc, ConfigDdc::default());
    assert_eq!(screen.monitor, ConfigMonitor::default());
    assert_eq!(screen.host_source, ConfigInput::default());
    assert_eq!(screen.guest_source, ConfigInput::default());
}

#[test]
fn button_match_is_the_button_range() {
    assert!(!ConfigInputEvent::button_match(0xff));
    assert!(ConfigInputEvent::button_match(0x100));
    assert!(ConfigInputEvent::button_match(0x110));
    assert!(ConfigInputEvent::button_match(0x15f));
    assert!(!ConfigInputEvent::button_match(0x160));
    assert!(!ConfigInputEvent::button_match(0x2c0));
    assert!(!ConfigInputEvent::button_match(30));
}

#[test]
fn key_match_is_every_other_key() {
    for key in 0..0x300u16 {
        assert_eq!(ConfigInputEvent::key_match(key), !ConfigInputEvent::button_match(key));
    }
    assert!(ConfigInputEvent::key_match(30));
    assert!(!ConfigInputEvent::key_match(0x110));
}

#[test]
fn from_event_classifies_each_kind() {
    assert_eq!(ConfigInputEvent::from_event(&raw(EventKind::Key, 30, 1)), Some(ConfigInputEvent::Key));
    assert_eq!(
        ConfigInputEvent::from_event(&raw(EventKind::Key, 0x110, 1)),
        Some(ConfigInputEvent::Button)
    );
    assert_eq!(
        ConfigInputEvent::from_event(&raw(EventKind::Key, 0x2c0, 1)),
        Some(ConfigInputEvent::Key)
    );
    assert_eq!(
        ConfigInputEvent::from_event(&raw(EventKind::Relative, 0, 5)),
        Some(ConfigInputEvent::Relative)
    );
    assert_eq!(
        ConfigInputEvent::from_event(&raw(EventKind::Absolute, 1, 5)),
        Some(ConfigInputEvent::Absolute)
    );
    assert_eq!(ConfigInputEvent::from_event(&raw(EventKind::Misc, 4, 5)), Some(ConfigInputEvent::Misc));
    assert_eq!(
        ConfigInputEvent::from_event(&raw(EventKind::Switch, 0, 1)),
        Some(ConfigInputEvent::Switch)
    );
    assert_eq!(ConfigInputEvent::from_event(&raw(EventKind::Led, 0, 1)), Some(ConfigInputEvent::Led));
    assert_eq!(
        ConfigInputEvent::from_event(&raw(EventKind::Sound, 1, 1)),
        Some(ConfigInputEvent::Sound)
    );
}

#[test]
fn volume_axis_is_of_the_class_of_keys() {
    let volume = raw(EventKind::Absolute, 0x20, 3);
    assert_eq!(ConfigInputEvent::from_event(&volume), Some(ConfigInputEvent::Key));
    assert!(ConfigInputEvent::Key.event_matches(&Event::Absolute(0x20, 3)));
    assert!(!ConfigInputEvent::Absolute.event_matches(&Event::Absolute(0x20, 3)));
    assert!(!ConfigInputEvent::Button.event_matches(&Event::Absolute(0x20, 3)));
    for axis in [0x00u16, 0x01, 0x1f, 0x21, 0x3f] {
        assert_eq!(
            ConfigInputEvent::from_event(&raw(EventKind::Absolute, axis, 3)),
            Some(ConfigInputEvent::Absolute)
        );
        assert!(ConfigInputEvent::Absolute.event_matches(&Event::Absolute(axis, 3)));
        assert!(!ConfigInputEvent::Key.event_matches(&Event::Absolute(axis, 3)));
    }
    assert_eq!(ConfigInputEvent::from_event(&raw(EventKind::Absolute, 0x40, 3)), None);
    assert_eq!(
        ConfigInputEvent::from_event(&raw(EventKind::Relative, 0x08, 3)),
        Some(ConfigInputEvent::Relative)
    );
}

#[test]
fn from_event_has_no_class_for_the_rest() {
    assert_eq!(ConfigInputEvent::from_event(&raw(EventKind::Synchronize, 0, 0)), None);
    assert_eq!(ConfigInputEvent::from_event(&raw(EventKind::Autorepeat, 0, 0)), None);
    assert_eq!(ConfigInputEvent::from_event(&raw(EventKind::ForceFeedback, 0, 0)), None);
    assert_eq!(ConfigInputEvent::from_event(&raw(EventKind::Power, 0, 0)), None);
    assert_eq!(ConfigInputEvent::from_event(&raw(EventKind::Unknown(9), 0, 0)), None);
    assert_eq!(ConfigInputEvent::from_event(&raw(EventKind::Key, 0x300, 1)), None);
    assert_eq!(ConfigInputEvent::from_event(&raw(EventKind::Relative, 0x10, 1)), None);
    assert_eq!(ConfigInputEvent::from_event(&raw(EventKind::Led, 0x10, 1)), None);
}

#[test]
fn event_matches_only_its_own_class() {
    let classes = [
        ConfigInputEvent::Key,
        ConfigInputEvent::Button,
        ConfigInputEvent::Relative,
        ConfigInputEvent::Absolute,
        ConfigInputEvent::Misc,
        ConfigInputEvent::Switch,
        ConfigInputEvent::Led,
        ConfigInputEvent::Sound,
    ];
    let events = [
        (Event::Key(30, 1), Some(ConfigInputEvent::Key)),
        (Event::Key(0x110, 1), Some(ConfigInputEvent::Button)),
        (Event::Relative(0, 1), Some(ConfigInputEvent::Relative)),
        (Event::Absolute(0, 1), Some(ConfigInputEvent::Absolute)),
        (Event::Absolute(0x20, 1), Some(ConfigInputEvent::Key)),
        (Event::Misc(0, 1), Some(ConfigInputEvent::Misc)),
        (Event::Switch(0, 1), Some(ConfigInputEvent::Switch)),
        (Event::Led(0, 1), Some(ConfigInputEvent::Led)),
        (Event::Sound(0, 1), Some(ConfigInputEvent::Sound)),
        (Event::Synchronize(0, 0), None),
        (Event::Autorepeat(0, 0), None),
        (Event::UInput(1, 0), None),
    ];
    for (event, class) in events.iter() {
        for candidate in classes.iter() {
            assert_eq!(candidate.event_matches(event), Some(*candidate) == *class);
        }
    }
}

#[test]
fn from_event_agrees_with_event_matches() {
    let kinds = [
        EventKind::Key,
        EventKind::Relative,
        EventKind::Absolute,
        EventKind::Led,
        EventKind::Synchronize,
    ];
    for kind in kinds.iter() {
        for code in [0u16, 1, 0x20, 30, 0x0f, 0x10, 0x110, 0x15f, 0x160, 0x2ff, 0x300] {
            let event = raw(*kind, code, 1);
            let class = ConfigInputEvent::from_event(&event);
            match Event::new(&event) {
                Ok(typed) => {
                    for candidate in [
                        ConfigInputEvent::Key,
                        ConfigInputEvent::Button,
                        ConfigInputEvent::Absolute,
                        ConfigInputEvent::Led,
                    ] {
                        assert_eq!(candidate.event_matches(&typed), class == Some(candidate));
                    }
                },
                Err(_) => assert_eq!(class, None),
            }
        }
    }
}
