//! The device router: one forwarding route for each device class.
//!
//! A route owns the description of one synthetic guest device and a bounded
//! queue of events on their way to it. Whoever drives a route takes the
//! events out one by one, delivers each to the guest and reports back how
//! that went; a route whose delivery failed stops for good.

use crate::config::ConfigQemuDriver;
use crate::input::{EventKind, InputEvent};
use vstd::prelude::*;

verus! {

/// How many events a route holds before it refuses more.
pub const EVENT_BUFFER: usize = 8;

/// Bus type of devices that are no hardware.
pub const BUS_VIRTUAL: u16 = 0x06;

/// The device class a route serves.
#[derive(Debug, Copy, Clone, PartialEq, Eq, Structural, Hash)]
pub enum RouteClass {
    Keyboard,
    Relative,
    Absolute,
}

/// Where a classified event is sent.
#[derive(Debug, Copy, Clone, PartialEq, Eq, Structural, Hash)]
pub enum RouteTarget {
    /// To the route of one class.
    One(RouteClass),
    /// To all three routes.
    All,
}

/// The route an event of a routed class goes to: keys to the keyboard,
/// motion to the pointer device of its class, synchronization to all
/// three, and every other class nowhere.
pub open spec fn spec_route_target(kind: EventKind) -> Option<RouteTarget> {
    match kind {
        EventKind::Key => Some(RouteTarget::One(RouteClass::Keyboard)),
        EventKind::Relative => Some(RouteTarget::One(RouteClass::Relative)),
        EventKind::Absolute => Some(RouteTarget::One(RouteClass::Absolute)),
        EventKind::Synchronize => Some(RouteTarget::All),
        _ => None,
    }
}

/// The route an event of a routed class goes to.
pub fn route_target(kind: EventKind) -> (r: Option<RouteTarget>)
    ensures
        r == spec_route_target(kind),
{
    match kind {
        EventKind::Key => Some(RouteTarget::One(RouteClass::Keyboard)),
        EventKind::Relative => Some(RouteTarget::One(RouteClass::Relative)),
        EventKind::Absolute => Some(RouteTarget::One(RouteClass::Absolute)),
        EventKind::Synchronize => Some(RouteTarget::All),
        _ => None,
    }
}

/// Identifies an input device.
#[derive(Debug, Copy, Clone, PartialEq, Eq, Structural, Hash)]
pub struct InputId {
    pub bustype: u16,
    pub vendor: u16,
    pub product: u16,
    pub version: u16,
}

/// What kinds of event a synthetic device announces.
#[derive(Debug, Copy, Clone, PartialEq, Eq, Structural, Hash)]
pub struct Capabilities {
    /// Keyboard keys.
    pub keys: bool,
    /// Mouse buttons.
    pub buttons: bool,
    /// Relative axes.
    pub relative_axes: bool,
    /// Absolute axes.
    pub absolute_axes: bool,
    /// Key repetition.
    pub repeat: bool,
}

/// The description of a synthetic device, put together before the device
/// is created.
#[derive(Debug, Clone, PartialEq, Eq)]
pub struct Builder {
    pub name: String,
    pub id: InputId,
    pub capabilities: Capabilities,
}

impl Builder {
    /// A device without name, identity or capabilities.
    pub fn new() -> (r: Self)
        ensures
            r.name@ == Seq::<char>::empty(),
            r.id == (InputId { bustype: 0, vendor: 0, product: 0, version: 0 }),
            r.capabilities == (Capabilities {
                keys: false,
                buttons: false,
                relative_axes: false,
                absolute_axes: false,
                repeat: false,
            }),
    {
        Builder {
            name: String::new(),
            id: InputId { bustype: 0, vendor: 0, product: 0, version: 0 },
            capabilities: Capabilities {
                keys: false,
                buttons: false,
                relative_axes: false,
                absolute_axes: false,
                repeat: false,
            },
        }
    }

    pub fn name(self, name: String) -> (r: Self)
        ensures
            r.name == name,
            r.id == self.id,
            r.capabilities == self.capabilities,
    {
        Builder { name, id: self.id, capabilities: self.capabilities }
    }

    pub fn id(self, id: InputId) -> (r: Self)
        ensures
            r.name == self.name,
            r.id == id,
            r.capabilities == self.capabilities,
    {
        Builder { name: self.name, id, capabilities: self.capabilities }
    }

    /// Announces a keyboard, with key repetition if `repeat`.
    pub fn x_config_key(self, repeat: bool) -> (r: Self)
        ensures
            r.name == self.name,
            r.id == self.id,
            r.capabilities == (Capabilities { keys: true, repeat, ..self.capabilities }),
    {
        Builder {
            name: self.name,
            id: self.id,
            capabilities: Capabilities {
                keys: true,
                buttons: self.capabilities.buttons,
                relative_axes: self.capabilities.relative_axes,
                absolute_axes: self.capabilities.absolute_axes,
                repeat,
            },
        }
    }

    /// Announces a mouse: buttons and relative axes.
    pub fn x_config_rel(self) -> (r: Self)
        ensures
            r.name == self.name,
            r.id == self.id,
            r.capabilities == (Capabilities {
                buttons: true,
                relative_axes: true,
                ..self.capabilities
            }),
    {
        Builder {
            name: self.name,
            id: self.id,
            capabilities: Capabilities {
                keys: self.capabilities.keys,
                buttons: true,
                relative_axes: true,
                absolute_axes: self.capabilities.absolute_axes,
                repeat: self.capabilities.repeat,
            },
        }
    }

    /// Announces a tablet: buttons and absolute axes.
    pub fn x_config_abs(self) -> (r: Self)
        ensures
            r.name == self.name,
            r.id == self.id,
            r.capabilities == (Capabilities {
                buttons: true,
                absolute_axes: true,
                ..self.capabilities
            }),
    {
        Builder {
            name: self.name,
            id: self.id,
            capabilities: Capabilities {
                keys: self.capabilities.keys,
                buttons: true,
                relative_axes: self.capabilities.relative_axes,
                absolute_axes: true,
                repeat: self.capabilities.repeat,
            },
        }
    }
}

/// The identity that every synthetic device of the router carries.
pub open spec fn spec_uinput_id() -> InputId {
    InputId { bustype: BUS_VIRTUAL, vendor: 0x16c0, product: 0x05df, version: 1 }
}

/// The capabilities of the synthetic device of a class.
pub open spec fn spec_class_capabilities(class: RouteClass, repeat: bool) -> Capabilities {
    match class {
        RouteClass::Keyboard => Capabilities {
            keys: true,
            buttons: false,
            relative_axes: false,
            absolute_axes: false,
            repeat,
        },
        RouteClass::Relative => Capabilities {
            keys: false,
            buttons: true,
            relative_axes: true,
            absolute_axes: false,
            repeat: false,
        },
        RouteClass::Absolute => Capabilities {
            keys: false,
            buttons: true,
            relative_axes: false,
            absolute_axes: true,
            repeat: false,
        },
    }
}

/// The name of the synthetic device of a class.
pub open spec fn spec_device_name(class: RouteClass) -> Seq<char> {
    match class {
        RouteClass::Keyboard => "screenstub-kbd"@,
        RouteClass::Relative => "screenstub-mouse"@,
        RouteClass::Absolute => "screenstub-tablet"@,
    }
}

/// The name of the route of a class.
pub open spec fn spec_route_name(class: RouteClass) -> Seq<char> {
    match class {
        RouteClass::Keyboard => "screenstub-route-kbd"@,
        RouteClass::Relative => "screenstub-route-mouse"@,
        RouteClass::Absolute => "screenstub-route-tablet"@,
    }
}

/// Where a route stands in its life.
#[derive(Debug, Copy, Clone, PartialEq, Eq, Structural, Hash)]
pub enum RouteState {
    /// Described, its device not yet created.
    Configured,
    /// Accepting and forwarding events.
    Running,
    /// Closed to new events, still forwarding the ones it holds.
    Draining,
    /// Stopped by a failure; it accepts and forwards nothing.
    Failed,
}

/// Why a route stopped.
#[derive(Debug, Copy, Clone, PartialEq, Eq, Structural, Hash)]
pub enum RouteError {
    /// The synthetic device of the class could not be created.
    Create(RouteClass),
    /// An event could not be delivered to the device of the class.
    Forward(RouteClass),
}

/// Why a route took no event.
#[derive(Debug, Copy, Clone, PartialEq, Eq, Structural, Hash)]
pub enum SendError {
    /// The route holds as many events as it may; try again once it has
    /// forwarded one.
    Full,
    /// The route accepts no events: it was not started, was closed or
    /// has failed.
    Closed,
}

/// A forwarding route.
pub struct Route {
    class: RouteClass,
    driver: ConfigQemuDriver,
    name: String,
    builder: Builder,
    state: RouteState,
    queue: Vec<InputEvent>,
}

impl Route {
    pub closed spec fn class(&self) -> RouteClass {
        self.class
    }

    pub closed spec fn driver(&self) -> ConfigQemuDriver {
        self.driver
    }

    pub closed spec fn name(&self) -> Seq<char> {
        self.name@
    }

    pub closed spec fn builder(&self) -> Builder {
        self.builder
    }

    pub closed spec fn state(&self) -> RouteState {
        self.state
    }

    /// The events accepted and not yet handed out, oldest first.
    pub closed spec fn queue(&self) -> Seq<InputEvent> {
        self.queue@
    }

    /// Everything about the route that sending and forwarding leave alone.
    pub open spec fn same_setup(&self, other: &Route) -> bool {
        &&& self.class() == other.class()
        &&& self.driver() == other.driver()
        &&& self.name() == other.name()
        &&& self.builder() == other.builder()
    }

    /// A route that holds no events and is not yet started.
    pub fn new(class: RouteClass, driver: ConfigQemuDriver, name: String, builder: Builder) -> (r:
        Self)
        ensures
            r.class() == class,
            r.driver() == driver,
            r.name() == name@,
            r.builder() == builder,
            r.state() == RouteState::Configured,
            r.queue() == Seq::<InputEvent>::empty(),
    {
        Route { class, driver, name, builder, state: RouteState::Configured, queue: Vec::new() }
    }

    /// The route of a class as the router sets it up.
    pub fn for_class(class: RouteClass, driver: ConfigQemuDriver, repeat: bool) -> (r: Self)
        ensures
            r.class() == class,
            r.driver() == driver,
            r.name() == spec_route_name(class),
            r.builder().name@ == spec_device_name(class),
            r.builder().id == spec_uinput_id(),
            r.builder().capabilities == spec_class_capabilities(class, repeat),
            r.state() == RouteState::Configured,
            r.queue() == Seq::<InputEvent>::empty(),
    {
        let id = InputId { bustype: BUS_VIRTUAL, vendor: 0x16c0, product: 0x05df, version: 1 };
        match class {
            RouteClass::Keyboard => Route::new(
                class,
                driver,
                "screenstub-route-kbd".to_owned(),
                Builder::new().name("screenstub-kbd".to_owned()).x_config_key(repeat).id(id),
            ),
            RouteClass::Relative => Route::new(
                class,
                driver,
                "screenstub-route-mouse".to_owned(),
                Builder::new().name("screenstub-mouse".to_owned()).x_config_rel().id(id),
            ),
            RouteClass::Absolute => Route::new(
                class,
                driver,
                "screenstub-route-tablet".to_owned(),
                Builder::new().name("screenstub-tablet".to_owned()).x_config_abs().id(id),
            ),
        }
    }

    pub fn get_class(&self) -> (r: RouteClass)
        ensures
            r == self.class(),
    {
        self.class
    }

    pub fn get_driver(&self) -> (r: ConfigQemuDriver)
        ensures
            r == self.driver(),
    {
        self.driver
    }

    pub fn get_name(&self) -> (r: &String)
        ensures
            r@ == self.name(),
    {
        &self.name
    }

    /// The description from which the caller creates the device.
    pub fn get_builder(&self) -> (r: &Builder)
        ensures
            *r == self.builder(),
    {
        &self.builder
    }

    pub fn get_state(&self) -> (r: RouteState)
        ensures
            r == self.state(),
    {
        self.state
    }

    /// How many events the route holds.
    pub fn pending(&self) -> (r: usize)
        ensures
            r == self.queue().len(),
    {
        self.queue.len()
    }

    /// Starts the route once the caller has tried to create its device.
    /// A route that was described and whose device exists runs from now
    /// on; one whose device could not be created has failed. A route that
    /// was started before stays as it is.
    pub fn spawn(&mut self, device_created: bool) -> (r: Result<(), RouteError>)
        ensures
            final(self).same_setup(old(self)),
            final(self).queue() == old(self).queue(),
            final(self).state() == (if old(self).state() == RouteState::Configured {
                if device_created {
                    RouteState::Running
                } else {
                    RouteState::Failed
                }
            } else {
                old(self).state()
            }),
            r == (if old(self).state() == RouteState::Configured && !device_created {
                Err::<(), RouteError>(RouteError::Create(old(self).class()))
            } else {
                Ok::<(), RouteError>(())
            }),
    {
        match self.state {
            RouteState::Configured => {
                if device_created {
                    self.state = RouteState::Running;
                    Ok(())
                } else {
                    self.state = RouteState::Failed;
                    Err(RouteError::Create(self.class))
                }
            },
            _ => Ok(()),
        }
    }

    /// What `send` returns for a route in the given state that holds
    /// `pending` events.
    pub open spec fn spec_send_result(state: RouteState, pending: nat) -> Result<(), SendError> {
        if state != RouteState::Running {
            Err(SendError::Closed)
        } else if pending >= EVENT_BUFFER {
            Err(SendError::Full)
        } else {
            Ok(())
        }
    }

    /// Hands an event to the route. A running route with room takes it
    /// behind the events it holds; otherwise nothing changes.
    pub fn send(&mut self, event: InputEvent) -> (r: Result<(), SendError>)
        ensures
            final(self).same_setup(old(self)),
            final(self).state() == old(self).state(),
            r == Self::spec_send_result(old(self).state(), old(self).queue().len()),
            final(self).queue() == (if r is Ok {
                old(self).queue().push(event)
            } else {
                old(self).queue()
            }),
    {
        match self.state {
            RouteState::Running => {
                if self.queue.len() >= EVENT_BUFFER {
                    Err(SendError::Full)
                } else {
                    self.queue.push(event);
                    Ok(())
                }
            },
            _ => Err(SendError::Closed),
        }
    }

    /// Takes out the event to deliver next: the oldest one the route holds,
    /// unless the route is not started or has failed.
    pub fn next(&mut self) -> (r: Option<InputEvent>)
        ensures
            final(self).same_setup(old(self)),
            final(self).state() == old(self).state(),
            r is Some <==> (old(self).queue().len() > 0 && (old(self).state()
                == RouteState::Running || old(self).state() == RouteState::Draining)),
            r is Some ==> r->Some_0 == old(self).queue()[0] && final(self).queue() == old(self).queue().drop_first(),
            r is None ==> final(self).queue() == old(self).queue(),
    {
        match self.state {
            RouteState::Running | RouteState::Draining => {
                if self.queue.len() > 0 {
                    let event = self.queue.remove(0);
                    assert(self.queue@ =~= old(self).queue@.drop_first());
                    Some(event)
                } else {
                    None
                }
            },
            _ => None,
        }
    }

    /// Tells the route how delivering the event it last handed out went.
    /// The first failed delivery stops the route: it drops what it holds
    /// and reports the failure. Every other report changes nothing.
    pub fn forwarded(&mut self, delivered: bool) -> (r: Option<RouteError>)
        ensures
            final(self).same_setup(old(self)),
            r == (if !delivered && (old(self).state() == RouteState::Running || old(self).state()
                == RouteState::Draining) {
                Some(RouteError::Forward(old(self).class()))
            } else {
                None::<RouteError>
            }),
            r is Some ==> final(self).state() == RouteState::Failed && final(self).queue() == Seq::<
                InputEvent,
            >::empty(),
            r is None ==> final(self).state() == old(self).state() && final(self).queue() == old(self).queue(),
    {
        if delivered {
            return None;
        }
        match self.state {
            RouteState::Running | RouteState::Draining => {
                self.state = RouteState::Failed;
                self.queue.clear();
                Some(RouteError::Forward(self.class))
            },
            _ => None,
        }
    }

    /// Closes the route to new events. A running route goes on forwarding
    /// what it holds; a route that never ran counts as failed.
    pub fn close(&mut self)
        ensures
            final(self).same_setup(old(self)),
            final(self).queue() == old(self).queue(),
            final(self).state() == (match old(self).state() {
                RouteState::Running => RouteState::Draining,
                RouteState::Configured => RouteState::Failed,
                state => state,
            }),
    {
        match self.state {
            RouteState::Running => {
                self.state = RouteState::Draining;
            },
            RouteState::Configured => {
                self.state = RouteState::Failed;
            },
            _ => {},
        }
    }

    /// Whether the route has nothing left to do: it failed, or it was
    /// closed and holds no more events.
    pub fn is_finished(&self) -> (r: bool)
        ensures
            r == (self.state() == RouteState::Failed || (self.state() == RouteState::Draining
                && self.queue().len() == 0)),
    {
        match self.state {
            RouteState::Failed => true,
            RouteState::Draining => self.queue.len() == 0,
            _ => false,
        }
    }
}

/// What became of an event at each of the three routes; `None` where the
/// event was not meant for the route.
#[derive(Debug, Copy, Clone, PartialEq, Eq)]
pub struct Delivery {
    pub keyboard: Option<Result<(), SendError>>,
    pub relative: Option<Result<(), SendError>>,
    pub absolute: Option<Result<(), SendError>>,
}

impl Delivery {
    /// Whether the event is meant for the route of a class.
    pub open spec fn spec_targets(target: RouteTarget, class: RouteClass) -> bool {
        match target {
            RouteTarget::One(one) => one == class,
            RouteTarget::All => true,
        }
    }

    /// Whether no route that the event was meant for refused it.
    pub open spec fn spec_complete(self) -> bool {
        &&& !(self.keyboard matches Some(Err(_)))
        &&& !(self.relative matches Some(Err(_)))
        &&& !(self.absolute matches Some(Err(_)))
    }

    /// Whether no route that the event was meant for refused it.
    pub fn complete(&self) -> (r: bool)
        ensures
            r == self.spec_complete(),
    {
        let keyboard = match self.keyboard {
            Some(Err(_)) => false,
            _ => true,
        };
        let relative = match self.relative {
            Some(Err(_)) => false,
            _ => true,
        };
        let absolute = match self.absolute {
            Some(Err(_)) => false,
            _ => true,
        };
        keyboard && relative && absolute
    }
}

/// The three routes.
pub struct Router {
    keyboard: Route,
    relative: Route,
    absolute: Route,
}

impl Router {
    /// The route of a class.
    pub closed spec fn route(&self, class: RouteClass) -> Route {
        match class {
            RouteClass::Keyboard => self.keyboard,
            RouteClass::Relative => self.relative,
            RouteClass::Absolute => self.absolute,
        }
    }

    /// The three routes as they are set up at startup, none started yet.
    pub fn new(driver: ConfigQemuDriver, repeat: bool) -> (r: Self)
        ensures
            forall|class: RouteClass|
                {
                    let route = #[trigger] r.route(class);
                    &&& route.class() == class
                    &&& route.driver() == driver
                    &&& route.name() == spec_route_name(class)
                    &&& route.builder().name@ == spec_device_name(class)
                    &&& route.builder().id == spec_uinput_id()
                    &&& route.builder().capabilities == spec_class_capabilities(class, repeat)
                    &&& route.state() == RouteState::Configured
                    &&& route.queue() == Seq::<InputEvent>::empty()
                },
    {
        Router {
            keyboard: Route::for_class(RouteClass::Keyboard, driver, repeat),
            relative: Route::for_class(RouteClass::Relative, driver, repeat),
            absolute: Route::for_class(RouteClass::Absolute, driver, repeat),
        }
    }

    /// The route of a class.
    pub fn get(&self, class: RouteClass) -> (r: &Route)
        ensures
            *r == self.route(class),
    {
        match class {
            RouteClass::Keyboard => &self.keyboard,
            RouteClass::Relative => &self.relative,
            RouteClass::Absolute => &self.absolute,
        }
    }

    /// Starts the route of a class; see `Route::spawn`.
    pub fn spawn(&mut self, class: RouteClass, device_created: bool) -> (r: Result<(), RouteError>)
        ensures
            forall|other: RouteClass|
                #![trigger old(self).route(other)]
                #![trigger final(self).route(other)]
                other != class ==> final(self).route(other) == old(self).route(other),
            final(self).route(class).same_setup(&old(self).route(class)),
            final(self).route(class).queue() == old(self).route(class).queue(),
            final(self).route(class).state() == (if old(self).route(class).state()
                == RouteState::Configured {
                if device_created {
                    RouteState::Running
                } else {
                    RouteState::Failed
                }
            } else {
                old(self).route(class).state()
            }),
            r == (if old(self).route(class).state() == RouteState::Configured && !device_created {
                Err::<(), RouteError>(RouteError::Create(old(self).route(class).class()))
            } else {
                Ok::<(), RouteError>(())
            }),
    {
        match class {
            RouteClass::Keyboard => self.keyboard.spawn(device_created),
            RouteClass::Relative => self.relative.spawn(device_created),
            RouteClass::Absolute => self.absolute.spawn(device_created),
        }
    }

    /// What a route that is sent `event` answers, and the events it holds
    /// afterwards.
    pub open spec fn spec_sent(route: Route, event: InputEvent) -> (
        Result<(), SendError>,
        Seq<InputEvent>,
    ) {
        let result = Route::spec_send_result(route.state(), route.queue().len());
        (
            result,
            if result is Ok {
                route.queue().push(event)
            } else {
                route.queue()
            },
        )
    }

    /// Sends an event where it is meant to go. Each route the event is
    /// meant for takes it or refuses it on its own account: a route that
    /// refuses does not keep the others from taking it. Routes the event
    /// is not meant for are left alone.
    pub fn send(&mut self, target: RouteTarget, event: InputEvent) -> (r: Delivery)
        ensures
            forall|class: RouteClass|
                #![trigger old(self).route(class)]
                #![trigger final(self).route(class)]
                {
                    let before = old(self).route(class);
                    let after = final(self).route(class);
                    &&& after.same_setup(&before)
                    &&& after.state() == before.state()
                    &&& after.queue() == (if Delivery::spec_targets(target, class) {
                        Self::spec_sent(before, event).1
                    } else {
                        before.queue()
                    })
                },
            r.keyboard == (if Delivery::spec_targets(target, RouteClass::Keyboard) {
                Some(Self::spec_sent(old(self).route(RouteClass::Keyboard), event).0)
            } else {
                None
            }),
            r.relative == (if Delivery::spec_targets(target, RouteClass::Relative) {
                Some(Self::spec_sent(old(self).route(RouteClass::Relative), event).0)
            } else {
                None
            }),
            r.absolute == (if Delivery::spec_targets(target, RouteClass::Absolute) {
                Some(Self::spec_sent(old(self).route(RouteClass::Absolute), event).0)
            } else {
                None
            }),
    {
        let (to_keyboard, to_relative, to_absolute) = match target {
            RouteTarget::One(RouteClass::Keyboard) => (true, false, false),
            RouteTarget::One(RouteClass::Relative) => (false, true, false),
            RouteTarget::One(RouteClass::Absolute) => (false, false, true),
            RouteTarget::All => (true, true, true),
        };
        let keyboard = if to_keyboard {
            Some(self.keyboard.send(event))
        } else {
            None
        };
        let relative = if to_relative {
            Some(self.relative.send(event))
        } else {
            None
        };
        let absolute = if to_absolute {
            Some(self.absolute.send(event))
        } else {
            None
        };
        Delivery { keyboard, relative, absolute }
    }

    /// Takes out the event that the route of a class delivers next; see
    /// `Route::next`.
    pub fn next(&mut self, class: RouteClass) -> (r: Option<InputEvent>)
        ensures
            forall|other: RouteClass|
                #![trigger old(self).route(other)]
                #![trigger final(self).route(other)]
                other != class ==> final(self).route(other) == old(self).route(other),
            final(self).route(class).same_setup(&old(self).route(class)),
            final(self).route(class).state() == old(self).route(class).state(),
            r is Some <==> (old(self).route(class).queue().len() > 0 && (old(self).route(
                class,
            ).state() == RouteState::Running || old(self).route(class).state()
                == RouteState::Draining)),
            r is Some ==> r->Some_0 == old(self).route(class).queue()[0] && final(self).route(
                class,
            ).queue() == old(self).route(class).queue().drop_first(),
            r is None ==> final(self).route(class).queue() == old(self).route(class).queue(),
    {
        match class {
            RouteClass::Keyboard => self.keyboard.next(),
            RouteClass::Relative => self.relative.next(),
            RouteClass::Absolute => self.absolute.next(),
        }
    }

    /// Tells the route of a class how its last delivery went; see
    /// `Route::forwarded`. A failure stops that route only.
    pub fn forwarded(&mut self, class: RouteClass, delivered: bool) -> (r: Option<RouteError>)
        ensures
            forall|other: RouteClass|
                #![trigger old(self).route(other)]
                #![trigger final(self).route(other)]
                other != class ==> final(self).route(other) == old(self).route(other),
            final(self).route(class).same_setup(&old(self).route(class)),
            r == (if !delivered && (old(self).route(class).state() == RouteState::Running || old(self).route(class).state() == RouteState::Draining) {
                Some(RouteError::Forward(old(self).route(class).class()))
            } else {
                None::<RouteError>
            }),
            r is Some ==> final(self).route(class).state() == RouteState::Failed && final(self).route(class).queue() == Seq::<InputEvent>::empty(),
            r is None ==> final(self).route(class).state() == old(self).route(class).state()
                && final(self).route(class).queue() == old(self).route(class).queue(),
    {
        match class {
            RouteClass::Keyboard => self.keyboard.forwarded(delivered),
            RouteClass::Relative => self.relative.forwarded(delivered),
            RouteClass::Absolute => self.absolute.forwarded(delivered),
        }
    }

    /// Begins the shutdown: every route is closed to new events.
    pub fn shutdown(&mut self)
        ensures
            forall|class: RouteClass|
                #![trigger old(self).route(class)]
                #![trigger final(self).route(class)]
                {
                    let before = old(self).route(class);
                    let after = final(self).route(class);
                    &&& after.same_setup(&before)
                    &&& after.queue() == before.queue()
                    &&& after.state() == (match before.state() {
                        RouteState::Running => RouteState::Draining,
                        RouteState::Configured => RouteState::Failed,
                        state => state,
                    })
                    &&& after.state() != RouteState::Running
                },
    {
        self.keyboard.close();
        self.relative.close();
        self.absolute.close();
    }

    /// Whether every route has nothing left to do.
    pub fn is_finished(&self) -> (r: bool)
        ensures
            r == (forall|class: RouteClass|
                {
                    let route = #[trigger] self.route(class);
                    route.state() == RouteState::Failed || (route.state() == RouteState::Draining
                        && route.queue().len() == 0)
                }),
    {
        let keyboard = self.keyboard.is_finished();
        let relative = self.relative.is_finished();
        let absolute = self.absolute.is_finished();
        proof {
            if !keyboard {
                let _ = self.route(RouteClass::Keyboard);
            } else if !relative {
                let _ = self.route(RouteClass::Relative);
            } else if !absolute {
                let _ = self.route(RouteClass::Absolute);
            }
        }
        keyboard && relative && absolute
    }
}

/// A synchronization event that all three routes take is held by each of
/// them, behind what the route held before, when the send returns.
pub proof fn lemma_synchronize_reaches_every_route(
    keyboard: Route,
    relative: Route,
    absolute: Route,
    event: InputEvent,
)
    requires
        Router::spec_sent(keyboard, event).0 is Ok,
        Router::spec_sent(relative, event).0 is Ok,
        Router::spec_sent(absolute, event).0 is Ok,
    ensures
        Delivery::spec_targets(RouteTarget::All, RouteClass::Keyboard),
        Delivery::spec_targets(RouteTarget::All, RouteClass::Relative),
        Delivery::spec_targets(RouteTarget::All, RouteClass::Absolute),
        Router::spec_sent(keyboard, event).1 == keyboard.queue().push(event),
        Router::spec_sent(relative, event).1 == relative.queue().push(event),
        Router::spec_sent(absolute, event).1 == absolute.queue().push(event),
        Router::spec_sent(keyboard, event).1.last() == event,
        Router::spec_sent(relative, event).1.last() == event,
        Router::spec_sent(absolute, event).1.last() == event,
{
}

/// Events leave a route in the order in which it took them: what is sent
/// later is handed out later.
pub proof fn lemma_route_keeps_order(queue: Seq<InputEvent>, first: InputEvent, second: InputEvent)
    ensures
        queue.push(first).push(second).drop_first() == queue.push(first).drop_first().push(second),
        queue.len() == 0 ==> queue.push(first).push(second)[0] == first && queue.push(first).push(
            second,
        ).drop_first()[0] == second,
        queue.len() > 0 ==> queue.push(first)[0] == queue[0] && queue.push(first).drop_first()
            == queue.drop_first().push(first),
{
    assert(queue.push(first).push(second).drop_first() =~= queue.push(first).drop_first().push(
        second,
    ));
    if queue.len() > 0 {
        assert(queue.push(first).drop_first() =~= queue.drop_first().push(first));
    }
}

/// A route that has stopped accepting takes no event, whatever it holds.
pub proof fn lemma_closed_route_refuses(route: Route, event: InputEvent)
    requires
        route.state() != RouteState::Running,
    ensures
        Router::spec_sent(route, event).0 == Err::<(), SendError>(SendError::Closed),
        Router::spec_sent(route, event).1 == route.queue(),
{
}

} // verus!
