use screenstub::config::{ConfigEvent, ConfigGrab, ConfigGrabMode, ConfigInputEvent, ConfigQemuDriver};
use screenstub::input::{EventKind, EventTime, InputEvent};
use screenstub::process::{Effect, GuestDevice, LinkUnavailable, PowerAction, Process, XRequest};
use screenstub::route::RouteClass;

fn evdev(xcore_ignore: Vec<ConfigInputEvent>) -> ConfigGrab {
    ConfigGrab::Evdev {
        exclusive: false,
        new_device_name: Some("kvm".to_string()),
        xcore_ignore,
        evdev_ignore: vec![ConfigInputEvent::Key],
        devices: vec!["/dev/input/event3".to_string()],
    }
}

fn key(code: u16) -> InputEvent {
    InputEvent { time: EventTime { seconds: 0, microseconds: 0 }, kind: EventKind::Key, code, value: 1 }
}

fn process() -> Process {
    Process::new(ConfigQemuDriver::Virtio, vec![])
}

#[test]
fn new_controller_is_absolute_and_ungrabbed() {
    let process = process();
    assert!(!process.is_mouse());
    assert_eq!(process.grab_mode(), None);
    assert!(process.x_filter().filter_event(&key(30)));
}

#[test]
fn set_is_mouse_switches_the_pointer_mode() {
    let mut process = process();
    process.set_is_mouse(true);
    assert!(process.is_mouse());
    process.set_is_mouse(true);
    assert!(process.is_mouse());
    process.set_is_mouse(false);
    assert!(!process.is_mouse());
    assert_eq!(process.grab_mode(), None);
}

#[test]
fn devices_init_needs_the_link() {
    let mut process = process();
    assert_eq!(process.devices_init(false), Err(LinkUnavailable));
    let devices = process.devices_init(true).unwrap();
    assert_eq!(
        devices,
        vec![
            GuestDevice { class: RouteClass::Keyboard, driver: ConfigQemuDriver::Virtio },
            GuestDevice { class: RouteClass::Relative, driver: ConfigQemuDriver::Virtio },
            GuestDevice { class: RouteClass::Absolute, driver: ConfigQemuDriver::Virtio },
        ]
    );
}

#[test]
fn devices_init_sets_up_once() {
    let mut process = Process::new(ConfigQemuDriver::InputLinux, vec![]);
    assert_eq!(process.devices_init(true).unwrap().len(), 3);
    assert_eq!(process.devices_init(true), Ok(vec![]));
    assert_eq!(process.devices_init(false), Err(LinkUnavailable));
    assert_eq!(process.devices_init(true), Ok(vec![]));
}

#[test]
fn plain_actions_become_one_effect_each() {
    let mut process = process();
    let args = vec!["notify-send".to_string(), "hi".to_string()];
    let exec = ConfigEvent::Exec(args.clone());
    assert_eq!(process.process_user_event(&exec), vec![Effect::Exec(&args)]);
    assert_eq!(process.process_user_event(&ConfigEvent::ShowHost), vec![Effect::ShowHost]);
    assert_eq!(process.process_user_event(&ConfigEvent::ShowGuest), vec![Effect::ShowGuest]);
    assert_eq!(process.process_user_event(&ConfigEvent::ToggleShow), vec![Effect::ToggleShow]);
    assert_eq!(process.process_user_event(&ConfigEvent::UnstickHost), vec![Effect::UnstickHost]);
    assert_eq!(process.process_user_event(&ConfigEvent::UnstickGuest), vec![Effect::UnstickGuest]);
    assert_eq!(
        process.process_user_event(&ConfigEvent::Shutdown),
        vec![Effect::Power(PowerAction::Shutdown)]
    );
    assert_eq!(
        process.process_user_event(&ConfigEvent::Reboot),
        vec![Effect::Power(PowerAction::Reboot)]
    );
    assert_eq!(process.grab_mode(), None);
    assert!(!process.is_mouse());
}

#[test]
fn grab_in_the_current_mode_requests_nothing() {
    let mut process = process();
    let spec = ConfigGrab::XCore;
    let grab = ConfigEvent::Grab(spec.clone());
    assert_eq!(process.process_user_event(&grab), vec![Effect::Capture(XRequest::Grab(&spec))]);
    assert_eq!(process.grab_mode(), Some(ConfigGrabMode::XCore));
    assert_eq!(process.process_user_event(&grab), vec![]);
    assert_eq!(process.process_user_event(&grab), vec![]);
    assert_eq!(process.grab_mode(), Some(ConfigGrabMode::XCore));
}

#[test]
fn grab_in_another_mode_requests_the_new_mode() {
    let mut process = process();
    process.process_user_event(&ConfigEvent::Grab(ConfigGrab::XCore));
    let spec = evdev(vec![ConfigInputEvent::Key]);
    let grab = ConfigEvent::Grab(spec.clone());
    assert_eq!(process.process_user_event(&grab), vec![Effect::Capture(XRequest::Grab(&spec))]);
    assert_eq!(process.grab_mode(), Some(ConfigGrabMode::Evdev));
    assert!(!process.x_filter().filter_event(&key(30)));
    assert!(process.x_filter().filter_event(&key(0x110)));
    let same_mode = ConfigEvent::Grab(evdev(vec![]));
    assert_eq!(process.process_user_event(&same_mode), vec![]);
    assert!(!process.x_filter().filter_event(&key(30)));
    let device = ConfigGrab::XDevice { devices: vec!["mouse".to_string()] };
    let grab = ConfigEvent::Grab(device.clone());
    assert_eq!(process.process_user_event(&grab), vec![Effect::Capture(XRequest::Grab(&device))]);
    assert_eq!(process.grab_mode(), Some(ConfigGrabMode::XDevice));
    assert!(process.x_filter().filter_event(&key(30)));
}

#[test]
fn ungrab_releases_the_current_mode_only() {
    let mut process = process();
    assert_eq!(process.process_user_event(&ConfigEvent::Ungrab(ConfigGrabMode::XCore)), vec![]);
    process.process_user_event(&ConfigEvent::Grab(evdev(vec![ConfigInputEvent::Button])));
    assert_eq!(process.process_user_event(&ConfigEvent::Ungrab(ConfigGrabMode::XCore)), vec![]);
    assert_eq!(process.grab_mode(), Some(ConfigGrabMode::Evdev));
    assert!(!process.x_filter().filter_event(&key(0x110)));
    assert_eq!(
        process.process_user_event(&ConfigEvent::Ungrab(ConfigGrabMode::Evdev)),
        vec![Effect::Capture(XRequest::Ungrab)]
    );
    assert_eq!(process.grab_mode(), None);
    assert!(process.x_filter().filter_event(&key(0x110)));
    assert_eq!(process.process_user_event(&ConfigEvent::Ungrab(ConfigGrabMode::Evdev)), vec![]);
}

#[test]
fn toggle_grab_alternates() {
    let mut process = process();
    let spec = evdev(vec![ConfigInputEvent::Relative]);
    let toggle = ConfigEvent::ToggleGrab(spec.clone());
    assert_eq!(process.process_user_event(&toggle), vec![Effect::Capture(XRequest::Grab(&spec))]);
    assert_eq!(process.grab_mode(), Some(ConfigGrabMode::Evdev));
    assert_eq!(process.process_user_event(&toggle), vec![Effect::Capture(XRequest::Ungrab)]);
    assert_eq!(process.grab_mode(), None);
    assert_eq!(process.process_user_event(&toggle), vec![Effect::Capture(XRequest::Grab(&spec))]);
    let other = ConfigEvent::ToggleGrab(ConfigGrab::XCore);
    assert_eq!(
        process.process_user_event(&other),
        vec![Effect::Capture(XRequest::Grab(&ConfigGrab::XCore))]
    );
    assert_eq!(process.grab_mode(), Some(ConfigGrabMode::XCore));
}

#[test]
fn exit_without_exit_events_quits() {
    let mut process = process();
    assert_eq!(process.process_user_event(&ConfigEvent::Exit), vec![Effect::Capture(XRequest::Quit)]);
}

#[test]
fn exit_carries_out_the_exit_events_first() {
    let args = vec!["sync".to_string()];
    let exit_events = vec![
        ConfigEvent::ShowHost,
        ConfigEvent::Exit,
        ConfigEvent::Ungrab(ConfigGrabMode::XCore),
        ConfigEvent::Exec(args.clone()),
        ConfigEvent::Ungrab(ConfigGrabMode::XCore),
        ConfigEvent::Shutdown,
    ];
    let mut process = Process::new(ConfigQemuDriver::InputLinux, exit_events);
    process.process_user_event(&ConfigEvent::Grab(ConfigGrab::XCore));
    assert_eq!(
        process.process_user_event(&ConfigEvent::Exit),
        vec![
            Effect::ShowHost,
            Effect::Capture(XRequest::Ungrab),
            Effect::Exec(&args),
            Effect::Power(PowerAction::Shutdown),
            Effect::Capture(XRequest::Quit),
        ]
    );
    assert_eq!(process.grab_mode(), None);
}
