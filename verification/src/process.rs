//! The session controller: it owns the pointer mode, the grab mode and the
//! capture filter, and turns control actions into the effects to perform.
//!
//! Performing an effect is left to the caller; the controller only decides.

use crate::config::{ConfigEvent, ConfigGrab, ConfigGrabMode, ConfigInputEvent, ConfigQemuDriver};
use crate::filter::{copy_classes, InputEventFilter};
use crate::route::RouteClass;
use vstd::prelude::*;

verus! {

/// A power request to the virtual machine.
#[derive(Debug, Copy, Clone, PartialEq, Eq, Structural)]
pub enum PowerAction {
    Shutdown,
    Reboot,
}

/// A request to the side that captures the input devices.
#[derive(Debug, PartialEq, Eq)]
pub enum XRequest<'a> {
    /// Capture the devices as the specification says.
    Grab(&'a ConfigGrab),
    /// Release the devices.
    Ungrab,
    /// Stop capturing for good.
    Quit,
}

/// What the caller is to do for a control action.
#[derive(Debug, PartialEq, Eq)]
pub enum Effect<'a> {
    /// Run a command with its arguments, without waiting for it.
    Exec(&'a Vec<String>),
    /// Ask the monitor input coordinator to show the host.
    ShowHost,
    /// Ask the monitor input coordinator to show the guest.
    ShowGuest,
    /// Ask the monitor input coordinator to show the other side.
    ToggleShow,
    /// Send a request to the capturing side.
    Capture(XRequest<'a>),
    /// Release every key and button held on the host.
    UnstickHost,
    /// Release every key and button held in the guest.
    UnstickGuest,
    /// Send a power request over the link to the virtual machine.
    Power(PowerAction),
}

/// The link to the virtual machine could not be established.
#[derive(Debug, Copy, Clone, PartialEq, Eq, Structural)]
pub struct LinkUnavailable;

/// A guest-side input device to register with the virtual machine.
#[derive(Debug, Copy, Clone, PartialEq, Eq, Structural)]
pub struct GuestDevice {
    pub class: RouteClass,
    pub driver: ConfigQemuDriver,
}

/// The controller's state as contracts speak of it.
pub struct SessionView {
    /// Pointer events without a side of their own go to the relative device.
    pub is_mouse: bool,
    /// The mode in which the devices are grabbed, if they are.
    pub grab: Option<ConfigGrabMode>,
    /// The classes of captured events that are held back.
    pub ignored: Seq<ConfigInputEvent>,
    /// Whether the guest-side devices have been set up.
    pub devices_ready: bool,
}

/// The state after a grab in the mode of `spec`.
pub open spec fn spec_grabbed(state: SessionView, spec: ConfigGrab) -> SessionView {
    SessionView {
        grab: Some(spec.spec_mode()),
        ignored: match spec {
            ConfigGrab::Evdev { xcore_ignore, .. } => xcore_ignore@,
            _ => Seq::empty(),
        },
        ..state
    }
}

/// The state after the devices were released.
pub open spec fn spec_ungrabbed(state: SessionView) -> SessionView {
    SessionView { grab: None, ignored: Seq::empty(), ..state }
}

/// What one control action other than `Exit` does: the state after it and
/// the effects to perform, in order. A grab in the current mode and a
/// release of a mode that is not the current one do nothing. `Exit` itself
/// does nothing here.
pub open spec fn spec_apply<'a>(state: SessionView, event: &'a ConfigEvent) -> (
    SessionView,
    Seq<Effect<'a>>,
) {
    match event {
        ConfigEvent::Exec(args) => (state, seq![Effect::Exec(args)]),
        ConfigEvent::ShowHost => (state, seq![Effect::ShowHost]),
        ConfigEvent::ShowGuest => (state, seq![Effect::ShowGuest]),
        ConfigEvent::ToggleShow => (state, seq![Effect::ToggleShow]),
        ConfigEvent::Grab(spec) => if state.grab == Some(spec.spec_mode()) {
            (state, Seq::empty())
        } else {
            (spec_grabbed(state, *spec), seq![Effect::Capture(XRequest::Grab(spec))])
        },
        ConfigEvent::ToggleGrab(spec) => if state.grab == Some(spec.spec_mode()) {
            (spec_ungrabbed(state), seq![Effect::Capture(XRequest::Ungrab)])
        } else {
            (spec_grabbed(state, *spec), seq![Effect::Capture(XRequest::Grab(spec))])
        },
        ConfigEvent::Ungrab(mode) => if state.grab == Some(*mode) {
            (spec_ungrabbed(state), seq![Effect::Capture(XRequest::Ungrab)])
        } else {
            (state, Seq::empty())
        },
        ConfigEvent::UnstickHost => (state, seq![Effect::UnstickHost]),
        ConfigEvent::UnstickGuest => (state, seq![Effect::UnstickGuest]),
        ConfigEvent::Shutdown => (state, seq![Effect::Power(PowerAction::Shutdown)]),
        ConfigEvent::Reboot => (state, seq![Effect::Power(PowerAction::Reboot)]),
        ConfigEvent::Exit => (state, Seq::empty()),
    }
}

/// What a list of control actions does, one after the other.
pub open spec fn spec_apply_all<'a>(state: SessionView, events: Seq<ConfigEvent>) -> (
    SessionView,
    Seq<Effect<'a>>,
)
    decreases events.len(),
{
    if events.len() == 0 {
        (state, Seq::empty())
    } else {
        let (before, effects) = spec_apply_all::<'a>(state, events.drop_last());
        let (after, more) = spec_apply(before, &events.last());
        (after, effects + more)
    }
}

/// What a control action does. `Exit` carries out the exit actions, in
/// order, and then tells the capturing side to quit; exit actions that are
/// themselves `Exit` do nothing.
pub open spec fn spec_process<'a>(
    state: SessionView,
    exit_events: Seq<ConfigEvent>,
    event: &'a ConfigEvent,
) -> (SessionView, Seq<Effect<'a>>) {
    match event {
        ConfigEvent::Exit => {
            let (after, effects) = spec_apply_all::<'a>(state, exit_events);
            (after, effects.push(Effect::Capture(XRequest::Quit)))
        },
        _ => spec_apply(state, event),
    }
}

/// The guest-side devices: one for each device class, all with one driver.
pub open spec fn spec_guest_devices(driver: ConfigQemuDriver) -> Seq<GuestDevice> {
    seq![
        GuestDevice { class: RouteClass::Keyboard, driver },
        GuestDevice { class: RouteClass::Relative, driver },
        GuestDevice { class: RouteClass::Absolute, driver },
    ]
}

struct SessionState {
    is_mouse: bool,
    grab: Option<ConfigGrabMode>,
    filter: InputEventFilter,
    devices_ready: bool,
}

impl SessionState {
    closed spec fn view(&self) -> SessionView {
        SessionView {
            is_mouse: self.is_mouse,
            grab: self.grab,
            ignored: self.filter.ignored(),
            devices_ready: self.devices_ready,
        }
    }

    fn set_grabbed(&mut self, spec: &ConfigGrab)
        ensures
            final(self)@ == spec_grabbed(old(self)@, *spec),
    {
        self.grab = Some(spec.mode());
        match spec {
            ConfigGrab::Evdev { xcore_ignore, .. } => {
                self.filter.set_filter(copy_classes(xcore_ignore));
            },
            _ => {
                self.filter.unset_filter();
            },
        }
    }

    fn set_ungrabbed(&mut self)
        ensures
            final(self)@ == spec_ungrabbed(old(self)@),
    {
        self.grab = None;
        self.filter.unset_filter();
    }

    fn in_mode(&self, mode: ConfigGrabMode) -> (r: bool)
        ensures
            r == (self@.grab == Some(mode)),
    {
        match self.grab {
            Some(current) => current == mode,
            None => false,
        }
    }

    fn apply<'a>(&mut self, event: &'a ConfigEvent, out: &mut Vec<Effect<'a>>)
        ensures
            final(self)@ == spec_apply(old(self)@, event).0,
            final(out)@ == old(out)@ + spec_apply(old(self)@, event).1,
    {
        let ghost before = out@;
        match event {
            ConfigEvent::Exec(args) => {
                out.push(Effect::Exec(args));
            },
            ConfigEvent::ShowHost => {
                out.push(Effect::ShowHost);
            },
            ConfigEvent::ShowGuest => {
                out.push(Effect::ShowGuest);
            },
            ConfigEvent::ToggleShow => {
                out.push(Effect::ToggleShow);
            },
            ConfigEvent::Grab(spec) => {
                if !self.in_mode(spec.mode()) {
                    self.set_grabbed(spec);
                    out.push(Effect::Capture(XRequest::Grab(spec)));
                }
            },
            ConfigEvent::ToggleGrab(spec) => {
                if self.in_mode(spec.mode()) {
                    self.set_ungrabbed();
                    out.push(Effect::Capture(XRequest::Ungrab));
                } else {
                    self.set_grabbed(spec);
                    out.push(Effect::Capture(XRequest::Grab(spec)));
                }
            },
            ConfigEvent::Ungrab(mode) => {
                if self.in_mode(*mode) {
                    self.set_ungrabbed();
                    out.push(Effect::Capture(XRequest::Ungrab));
                }
            },
            ConfigEvent::UnstickHost => {
                out.push(Effect::UnstickHost);
            },
            ConfigEvent::UnstickGuest => {
                out.push(Effect::UnstickGuest);
            },
            ConfigEvent::Shutdown => {
                out.push(Effect::Power(PowerAction::Shutdown));
            },
            ConfigEvent::Reboot => {
                out.push(Effect::Power(PowerAction::Reboot));
            },
            ConfigEvent::Exit => {},
        }
        assert(out@ =~= before + spec_apply(old(self)@, event).1);
    }
}

/// The session controller.
pub struct Process {
    driver: ConfigQemuDriver,
    exit_events: Vec<ConfigEvent>,
    state: SessionState,
}

impl Process {
    /// The controller's state.
    pub closed spec fn view(&self) -> SessionView {
        self.state@
    }

    /// The control actions carried out on exit.
    pub closed spec fn exit_events(&self) -> Seq<ConfigEvent> {
        self.exit_events@
    }

    /// The driver that injects events into the guest.
    pub closed spec fn driver(&self) -> ConfigQemuDriver {
        self.driver
    }

    /// A controller in absolute pointer mode, with nothing grabbed, every
    /// captured event passing, and the guest-side devices not yet set up.
    pub fn new(driver: ConfigQemuDriver, exit_events: Vec<ConfigEvent>) -> (r: Self)
        ensures
            r.driver() == driver,
            r.exit_events() == exit_events@,
            !r@.is_mouse,
            r@.grab == None::<ConfigGrabMode>,
            r@.ignored == Seq::<ConfigInputEvent>::empty(),
            !r@.devices_ready,
    {
        Process {
            driver,
            exit_events,
            state: SessionState {
                is_mouse: false,
                grab: None,
                filter: InputEventFilter::empty(),
                devices_ready: false,
            },
        }
    }

    /// Sets up the guest-side devices, once. With the link established, the
    /// first call returns the devices to register with the virtual machine
    /// and later calls return none; without the link the call fails and
    /// nothing is set up.
    pub fn devices_init(&mut self, link_established: bool) -> (r: Result<
        Vec<GuestDevice>,
        LinkUnavailable,
    >)
        ensures
            r is Ok <==> link_established,
            r is Err ==> final(self)@ == old(self)@,
            r is Ok ==> final(self)@ == (SessionView { devices_ready: true, ..old(self)@ }),
            r is Ok ==> r->Ok_0@ == (if old(self)@.devices_ready {
                Seq::<GuestDevice>::empty()
            } else {
                spec_guest_devices(old(self).driver())
            }),
            final(self).exit_events() == old(self).exit_events(),
            final(self).driver() == old(self).driver(),
    {
        if !link_established {
            return Err(LinkUnavailable);
        }
        let mut devices: Vec<GuestDevice> = Vec::new();
        if !self.state.devices_ready {
            devices.push(GuestDevice { class: RouteClass::Keyboard, driver: self.driver });
            devices.push(GuestDevice { class: RouteClass::Relative, driver: self.driver });
            devices.push(GuestDevice { class: RouteClass::Absolute, driver: self.driver });
            self.state.devices_ready = true;
            assert(devices@ =~= spec_guest_devices(self.driver()));
        }
        Ok(devices)
    }

    /// Chooses where pointer events without a side of their own go from
    /// now on: to the relative device with `true`, to the absolute one
    /// with `false`.
    pub fn set_is_mouse(&mut self, is_mouse: bool)
        ensures
            final(self)@ == (SessionView { is_mouse, ..old(self)@ }),
            final(self).exit_events() == old(self).exit_events(),
            final(self).driver() == old(self).driver(),
    {
        self.state.is_mouse = is_mouse;
    }

    pub fn is_mouse(&self) -> (r: bool)
        ensures
            r == self@.is_mouse,
    {
        self.state.is_mouse
    }

    /// The mode in which the devices are grabbed, if they are.
    pub fn grab_mode(&self) -> (r: Option<ConfigGrabMode>)
        ensures
            r == self@.grab,
    {
        self.state.grab
    }

    /// The filter for events that the display server captured.
    pub fn x_filter(&self) -> (r: &InputEventFilter)
        ensures
            r.ignored() == self@.ignored,
    {
        &self.state.filter
    }

    /// Carries out a control action: updates the state and returns the
    /// effects for the caller to perform, in order.
    pub fn process_user_event<'a>(&'a mut self, event: &'a ConfigEvent) -> (r: Vec<Effect<'a>>)
        ensures
            final(self)@ == spec_process(old(self)@, old(self).exit_events(), event).0,
            r@ == spec_process(old(self)@, old(self).exit_events(), event).1,
            final(self).exit_events() == old(self).exit_events(),
            final(self).driver() == old(self).driver(),
    {
        let mut out: Vec<Effect<'a>> = Vec::new();
        match event {
            ConfigEvent::Exit => {
                let mut i: usize = 0;
                assert(self.exit_events@.take(0) =~= Seq::<ConfigEvent>::empty());
                while i < self.exit_events.len()
                    invariant
                        i <= self.exit_events@.len(),
                        self.exit_events == old(self).exit_events,
                        self.driver == old(self).driver,
                        (self.state@, out@) == spec_apply_all::<'a>(
                            old(self)@,
                            self.exit_events@.take(i as int),
                        ),
                    decreases self.exit_events@.len() - i,
                {
                    assert(self.exit_events@.take(i + 1).drop_last() =~= self.exit_events@.take(
                        i as int,
                    ));
                    self.state.apply(&self.exit_events[i], &mut out);
                    i += 1;
                }
                assert(self.exit_events@.take(i as int) =~= self.exit_events@);
                out.push(Effect::Capture(XRequest::Quit));
            },
            _ => {
                self.state.apply(event, &mut out);
                assert(out@ =~= spec_apply(old(self)@, event).1);
            },
        }
        out
    }
}

/// A grab request in the mode that is already current performs no request
/// to the capturing side, and changes nothing.
pub proof fn lemma_grab_in_current_mode_is_noop(state: SessionView, spec: ConfigGrab)
    requires
        state.grab == Some(spec.spec_mode()),
    ensures
        spec_apply(state, &ConfigEvent::Grab(spec)).0 == state,
        spec_apply(state, &ConfigEvent::Grab(spec)).1 == Seq::<Effect>::empty(),
{
}

/// A grab request in any other mode performs exactly one request to the
/// capturing side, after which the requested mode is current.
pub proof fn lemma_grab_in_other_mode_requests_once(state: SessionView, spec: ConfigGrab)
    requires
        state.grab != Some(spec.spec_mode()),
    ensures
        spec_apply(state, &ConfigEvent::Grab(spec)).0.grab == Some(spec.spec_mode()),
        spec_apply(state, &ConfigEvent::Grab(spec)).1 == seq![
            Effect::Capture(XRequest::Grab(&spec)),
        ],
{
}

/// Toggling a grab twice, with nothing grabbed and every captured event
/// passing at the start, ends where it began.
pub proof fn lemma_toggle_grab_twice(state: SessionView, spec: ConfigGrab)
    requires
        state.grab == None::<ConfigGrabMode>,
        state.ignored == Seq::<ConfigInputEvent>::empty(),
    ensures
        ({
            let once = spec_apply(state, &ConfigEvent::ToggleGrab(spec)).0;
            spec_apply(once, &ConfigEvent::ToggleGrab(spec)).0 == state
        }),
{
}

} // verus!
