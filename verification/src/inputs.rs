//! The monitor input coordinator: which display-control request switches
//! the monitor to the host or to the guest, and when the switch to the
//! guest is held back.
//!
//! The coordinator keeps no record of what the monitor shows: every call
//! yields the request anew, and sending it is left to the caller.

use crate::config::{ConfigDdcGuest, ConfigDdcHost, ConfigInput, ConfigMonitor};
use vstd::prelude::*;

verus! {

/// The two sides that share the monitor.
#[derive(Debug, Copy, Clone, PartialEq, Eq, Structural, Hash)]
pub enum Side {
    Host,
    Guest,
}

/// What is known of the guest when a switch to it is asked for.
#[derive(Debug, Copy, Clone, PartialEq, Eq, Structural, Hash)]
pub enum Liveness {
    /// The guest agent answered: the guest is up.
    Ready,
    /// The guest agent answered: the guest is not up.
    NotReady,
    /// The guest agent could not be reached, or the question failed.
    Unreachable,
    /// Nobody asked.
    Unchecked,
}

/// A request to the display-control side.
#[derive(Debug, PartialEq, Eq)]
pub enum DdcRequest<'a> {
    /// Select the source on the monitor through the native library.
    Library { monitor: &'a ConfigMonitor, source: &'a ConfigInput },
    /// Select the source on the monitor through the external tool.
    Ddcutil { monitor: &'a ConfigMonitor, source: &'a ConfigInput },
    /// Run a command on the host that selects the source.
    Exec { command: &'a Vec<String>, source: &'a ConfigInput },
    /// Run a command in the guest that selects the source.
    GuestExec { command: &'a Vec<String>, source: &'a ConfigInput },
}

/// The guest is not known to be up, so the monitor stays as it is.
#[derive(Debug, Copy, Clone, PartialEq, Eq, Structural, Hash)]
pub struct GuestNotReady;

/// The monitor input coordinator.
#[derive(Debug, Clone, PartialEq, Eq)]
pub struct Inputs {
    pub monitor: ConfigMonitor,
    pub host_source: ConfigInput,
    pub guest_source: ConfigInput,
    pub ddc_host: ConfigDdcHost,
    pub ddc_guest: ConfigDdcGuest,
    /// Switch to the guest only when it is known to be up.
    pub confirm_guest: bool,
}

impl Inputs {
    pub fn new(
        monitor: ConfigMonitor,
        host_source: ConfigInput,
        guest_source: ConfigInput,
        ddc_host: ConfigDdcHost,
        ddc_guest: ConfigDdcGuest,
        confirm_guest: bool,
    ) -> (r: Self)
        ensures
            r == (Inputs { monitor, host_source, guest_source, ddc_host, ddc_guest, confirm_guest }),
    {
        Inputs { monitor, host_source, guest_source, ddc_host, ddc_guest, confirm_guest }
    }

    /// The request that shows the host; none where the monitor is left
    /// alone.
    pub open spec fn spec_show_host<'a>(&'a self) -> Option<DdcRequest<'a>> {
        match &self.ddc_host {
            ConfigDdcHost::Off => None,
            ConfigDdcHost::Libddcutil => Some(
                DdcRequest::Library { monitor: &self.monitor, source: &self.host_source },
            ),
            ConfigDdcHost::Ddcutil => Some(
                DdcRequest::Ddcutil { monitor: &self.monitor, source: &self.host_source },
            ),
            ConfigDdcHost::Exec(command) => Some(
                DdcRequest::Exec { command, source: &self.host_source },
            ),
        }
    }

    /// Whether a switch to the guest is held back.
    pub open spec fn spec_guest_held_back(&self, liveness: Liveness) -> bool {
        self.confirm_guest && liveness != Liveness::Ready
    }

    /// The request that shows the guest; none where the monitor is left
    /// alone. With the check enabled, anything but a guest that is known
    /// to be up fails without a request.
    pub open spec fn spec_show_guest<'a>(&'a self, liveness: Liveness) -> Result<
        Option<DdcRequest<'a>>,
        GuestNotReady,
    > {
        if self.spec_guest_held_back(liveness) {
            Err(GuestNotReady)
        } else {
            Ok(
                match &self.ddc_guest {
                    ConfigDdcGuest::Off => None,
                    ConfigDdcGuest::GuestExec(command) => Some(
                        DdcRequest::GuestExec { command, source: &self.guest_source },
                    ),
                    ConfigDdcGuest::Exec(command) => Some(
                        DdcRequest::Exec { command, source: &self.guest_source },
                    ),
                },
            )
        }
    }

    /// The side to show next when the monitor reports `current` as its
    /// source: the host if that is the guest's source, the guest otherwise.
    pub open spec fn spec_toggle_side(&self, current: Option<u8>) -> Side {
        if current is Some && current == self.guest_source.value {
            Side::Host
        } else {
            Side::Guest
        }
    }

    /// Whether the caller has to ask the guest agent before `show_guest`.
    pub fn confirms_guest(&self) -> (r: bool)
        ensures
            r == self.confirm_guest,
    {
        self.confirm_guest
    }

    /// The request that shows the host. No question about the guest is
    /// needed for it.
    pub fn show_host<'a>(&'a self) -> (r: Option<DdcRequest<'a>>)
        ensures
            r == self.spec_show_host(),
    {
        match &self.ddc_host {
            ConfigDdcHost::Off => None,
            ConfigDdcHost::Libddcutil => Some(
                DdcRequest::Library { monitor: &self.monitor, source: &self.host_source },
            ),
            ConfigDdcHost::Ddcutil => Some(
                DdcRequest::Ddcutil { monitor: &self.monitor, source: &self.host_source },
            ),
            ConfigDdcHost::Exec(command) => Some(
                DdcRequest::Exec { command, source: &self.host_source },
            ),
        }
    }

    /// The request that shows the guest, or the refusal to switch.
    pub fn show_guest<'a>(&'a self, liveness: Liveness) -> (r: Result<
        Option<DdcRequest<'a>>,
        GuestNotReady,
    >)
        ensures
            r == self.spec_show_guest(liveness),
            r is Err <==> self.spec_guest_held_back(liveness),
    {
        if self.confirm_guest {
            match liveness {
                Liveness::Ready => {},
                _ => {
                    return Err(GuestNotReady);
                },
            }
        }
        Ok(
            match &self.ddc_guest {
                ConfigDdcGuest::Off => None,
                ConfigDdcGuest::GuestExec(command) => Some(
                    DdcRequest::GuestExec { command, source: &self.guest_source },
                ),
                ConfigDdcGuest::Exec(command) => Some(
                    DdcRequest::Exec { command, source: &self.guest_source },
                ),
            },
        )
    }

    /// Shows the side that the monitor does not show now, going by the
    /// source it reports; a monitor that reports none is taken to show the
    /// host.
    pub fn toggle_show<'a>(&'a self, current: Option<u8>, liveness: Liveness) -> (r: (
        Side,
        Result<Option<DdcRequest<'a>>, GuestNotReady>,
    ))
        ensures
            r.0 == self.spec_toggle_side(current),
            r.1 == (match r.0 {
                Side::Host => Ok(self.spec_show_host()),
                Side::Guest => self.spec_show_guest(liveness),
            }),
    {
        let shows_guest = match (current, self.guest_source.value) {
            (Some(now), Some(guest)) => now == guest,
            _ => false,
        };
        if shows_guest {
            (Side::Host, Ok(self.show_host()))
        } else {
            (Side::Guest, self.show_guest(liveness))
        }
    }
}

/// With the check enabled and the guest agent out of reach, showing the
/// guest fails in a way the caller can recover from, and no request goes
/// to the monitor.
pub proof fn lemma_unreachable_guest_is_not_shown(inputs: Inputs)
    requires
        inputs.confirm_guest,
    ensures
        inputs.spec_show_guest(Liveness::Unreachable) == Err::<Option<DdcRequest>, GuestNotReady>(
            GuestNotReady,
        ),
        inputs.spec_show_guest(Liveness::NotReady) is Err,
        inputs.spec_show_guest(Liveness::Unchecked) is Err,
        inputs.spec_show_guest(Liveness::Ready) is Ok,
{
}

/// Without the check, showing the guest never fails.
pub proof fn lemma_unconfirmed_guest_is_shown(inputs: Inputs, liveness: Liveness)
    requires
        !inputs.confirm_guest,
    ensures
        inputs.spec_show_guest(liveness) is Ok,
        inputs.spec_show_guest(liveness) == inputs.spec_show_guest(Liveness::Ready),
{
}

} // verus!
