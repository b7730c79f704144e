//! Deciding where each event goes: which device class an event is routed
//! to, and what the engine makes of the two event sources.

use crate::config::{ConfigEvent, ConfigHotkey, ConfigInputEvent};
use crate::events::{
    spec_actions, spec_held_after, spec_map_input_event, spec_matches, spec_process_x_event,
    spec_values, Binding, Events, Hotkey, ProcessedXEvent, UserEvent, XEvent,
};
use crate::filter::{spec_filter_event, InputEventFilter};
use crate::input::{
    absolute_axis, is_button_code, relative_axis, spec_is_button, EventKind, InputEvent,
    ABSOLUTE_AXIS_VOLUME, AXIS_X, AXIS_Y,
};
use crate::route::{route_target, spec_route_target, RouteTarget};
use std::collections::HashMap;
use std::sync::Arc;
use vstd::prelude::*;

verus! {

/// Whether a relative axis is one of the two pointer axes. The axis is
/// given by its code.
pub fn axis_is_relative(axis: u16) -> (r: bool)
    ensures
        r == (axis == AXIS_X || axis == AXIS_Y),
{
    axis == AXIS_X || axis == AXIS_Y
}

/// Whether an absolute axis is one of the two pointer axes. The axis is
/// given by its code.
pub fn axis_is_absolute(axis: u16) -> (r: bool)
    ensures
        r == (axis == AXIS_X || axis == AXIS_Y),
{
    axis == AXIS_X || axis == AXIS_Y
}

/// The class that pointer events without a side of their own go to.
pub open spec fn spec_pointer_kind(is_mouse: bool) -> EventKind {
    if is_mouse {
        EventKind::Relative
    } else {
        EventKind::Absolute
    }
}

/// The device class an event is routed to.
///
/// Buttons follow the pointer mode, other keys are keys. The volume axis
/// counts as a key. Motion along the two pointer axes keeps its own class,
/// motion along any other axis follows the pointer mode. Synchronization
/// stays what it is, and so does every other kind, which nothing forwards.
pub open spec fn spec_map_event_kind(e: InputEvent, is_mouse: bool) -> EventKind {
    match e.kind.spec_canonical() {
        EventKind::Key => if spec_is_button(e.code) {
            spec_pointer_kind(is_mouse)
        } else {
            EventKind::Key
        },
        EventKind::Absolute => if e.code == ABSOLUTE_AXIS_VOLUME {
            EventKind::Key
        } else if e.code == AXIS_X || e.code == AXIS_Y {
            EventKind::Absolute
        } else {
            spec_pointer_kind(is_mouse)
        },
        EventKind::Relative => if e.code == AXIS_X || e.code == AXIS_Y {
            EventKind::Relative
        } else {
            spec_pointer_kind(is_mouse)
        },
        kind => kind,
    }
}

/// Classifies an event for routing.
pub fn map_event_kind(inputevent: &InputEvent, is_mouse: bool) -> (r: EventKind)
    ensures
        r == spec_map_event_kind(*inputevent, is_mouse),
{
    let pointer = if is_mouse {
        EventKind::Relative
    } else {
        EventKind::Absolute
    };
    match inputevent.kind.canonical() {
        EventKind::Key => {
            if is_button_code(inputevent.code) {
                pointer
            } else {
                EventKind::Key
            }
        },
        EventKind::Absolute => {
            if inputevent.code == ABSOLUTE_AXIS_VOLUME {
                EventKind::Key
            } else {
                let on_pointer_axis = match absolute_axis(inputevent.code) {
                    Some(axis) => axis_is_absolute(axis),
                    None => false,
                };
                if on_pointer_axis {
                    EventKind::Absolute
                } else {
                    pointer
                }
            }
        },
        EventKind::Relative => {
            let on_pointer_axis = match relative_axis(inputevent.code) {
                Some(axis) => axis_is_relative(axis),
                None => false,
            };
            if on_pointer_axis {
                EventKind::Relative
            } else {
                pointer
            }
        },
        kind => kind,
    }
}

/// Key events whose code is no button are routed as keys, whatever the
/// pointer mode.
pub proof fn lemma_keys_route_as_keys(e: InputEvent, is_mouse: bool)
    requires
        e.kind.spec_canonical() == EventKind::Key,
        !spec_is_button(e.code),
    ensures
        spec_map_event_kind(e, is_mouse) == EventKind::Key,
{
}

/// Key events whose code is a button are routed as relative events in
/// mouse mode and as absolute events otherwise.
pub proof fn lemma_buttons_follow_pointer_mode(e: InputEvent, is_mouse: bool)
    requires
        e.kind.spec_canonical() == EventKind::Key,
        spec_is_button(e.code),
    ensures
        spec_map_event_kind(e, is_mouse) == EventKind::Relative <==> is_mouse,
        spec_map_event_kind(e, is_mouse) == EventKind::Absolute <==> !is_mouse,
{
}

/// Synchronization events are routed as synchronization, whatever their
/// code and the pointer mode.
pub proof fn lemma_synchronize_stays_synchronize(e: InputEvent, is_mouse: bool)
    requires
        e.kind.spec_canonical() == EventKind::Synchronize,
    ensures
        spec_map_event_kind(e, is_mouse) == EventKind::Synchronize,
{
}

/// The control action a notification asks for.
pub open spec fn spec_convert_user_event(event: UserEvent) -> ConfigEvent {
    match event {
        UserEvent::Quit => ConfigEvent::Exit,
        UserEvent::ShowGuest => ConfigEvent::ShowGuest,
        UserEvent::ShowHost => ConfigEvent::ShowHost,
        UserEvent::UnstickGuest => ConfigEvent::UnstickGuest,
        UserEvent::UnstickHost => ConfigEvent::UnstickHost,
    }
}

/// Turns a notification into the control action it asks for.
pub fn convert_user_event(event: UserEvent) -> (r: Arc<ConfigEvent>)
    ensures
        *r == spec_convert_user_event(event),
{
    Arc::new(
        match event {
            UserEvent::Quit => ConfigEvent::Exit,
            UserEvent::ShowGuest => ConfigEvent::ShowGuest,
            UserEvent::ShowHost => ConfigEvent::ShowHost,
            UserEvent::UnstickGuest => ConfigEvent::UnstickGuest,
            UserEvent::UnstickHost => ConfigEvent::UnstickHost,
        },
    )
}

/// Whether a registered binding is what a configured hotkey converts to.
pub open spec fn spec_converted(
    hotkey: ConfigHotkey,
    binding: Hotkey<Arc<ConfigEvent>>,
    on_press: bool,
) -> bool {
    &&& binding.triggers == hotkey.triggers
    &&& binding.modifiers == hotkey.modifiers
    &&& binding.global == hotkey.global
    &&& binding.events@.len() == hotkey.events@.len()
    &&& forall|i: int| 0 <= i < hotkey.events@.len() ==> *binding.events@[i] == hotkey.events@[i]
    &&& on_press == !hotkey.on_release
}

/// Turns a configured hotkey into what the engine registers: the hotkey,
/// and whether it fires on press.
pub fn convert_hotkey(hotkey: ConfigHotkey) -> (r: (Hotkey<Arc<ConfigEvent>>, bool))
    ensures
        spec_converted(hotkey, r.0, r.1),
{
    let ConfigHotkey { triggers, modifiers, events, on_release, global } = hotkey;
    let mut shared: Vec<Arc<ConfigEvent>> = Vec::new();
    let ghost all = events@;
    for event in it: events
        invariant
            it.seq() == all,
            shared@.len() == it.index(),
            forall|i: int| 0 <= i < shared@.len() ==> *shared@[i] == all[i],
    {
        shared.push(Arc::new(event));
    }
    (Hotkey::new(triggers, modifiers, shared, global), !on_release)
}

/// The engine for a screen: the configured hotkeys registered in their
/// order, the configured remap table, no key held and the devices not
/// captured.
pub fn events_from_config(hotkeys: Vec<ConfigHotkey>, key_remap: HashMap<u16, u16>) -> (r: Events<
    Arc<ConfigEvent>,
>)
    ensures
        r.remap() == key_remap@,
        r.held() == Set::<u16>::empty(),
        !r.grabbed(),
        r.bindings().len() == hotkeys@.len(),
        forall|i: int|
            0 <= i < hotkeys@.len() ==> spec_converted(
                hotkeys@[i],
                (#[trigger] r.bindings()[i]).hotkey,
                r.bindings()[i].on_press,
            ),
{
    let mut events: Events<Arc<ConfigEvent>> = Events::new();
    events.set_remap(key_remap);
    let ghost all = hotkeys@;
    for hotkey in it: hotkeys
        invariant
            it.seq() == all,
            events.remap() == key_remap@,
            events.held() == Set::<u16>::empty(),
            !events.grabbed(),
            events.bindings().len() == it.index(),
            forall|i: int|
                0 <= i < it.index() ==> spec_converted(
                    all[i],
                    (#[trigger] events.bindings()[i]).hotkey,
                    events.bindings()[i].on_press,
                ),
    {
        let (converted, on_press) = convert_hotkey(hotkey);
        events.add_hotkey(converted, on_press);
    }
    events
}

/// What the engine makes of one device event.
pub struct InputDispatch<'a, U> {
    /// What the hotkeys that fired emit, in order.
    pub actions: Vec<&'a U>,
    /// The remapped event and where to send it; nothing for an event that
    /// fired a hotkey, and nothing for an event of a class that no route
    /// serves.
    pub forward: Option<(RouteTarget, InputEvent)>,
}

/// The event to forward and its target: the event after remapping, unless
/// the event fired a hotkey or its class is one that no route serves.
pub open spec fn spec_forward<U>(
    bindings: Seq<Binding<U>>,
    remap: Map<u16, u16>,
    held: Set<u16>,
    grabbed: bool,
    e: InputEvent,
    is_mouse: bool,
) -> Option<(RouteTarget, InputEvent)> {
    let mapped = spec_map_input_event(remap, e);
    if spec_matches(bindings, held, grabbed, e) {
        None
    } else {
        match spec_route_target(spec_map_event_kind(mapped, is_mouse)) {
            Some(target) => Some((target, mapped)),
            None => None,
        }
    }
}

/// Feeds one device event to the engine: hotkeys are matched against the
/// event as it came, and the event is forwarded as remapped.
pub fn dispatch_input_event<'a, U>(
    events: &'a mut Events<U>,
    event: &InputEvent,
    is_mouse: bool,
) -> (r: InputDispatch<'a, U>)
    ensures
        final(events).held() == spec_held_after(old(events).held(), *event),
        final(events).bindings() == old(events).bindings(),
        final(events).remap() == old(events).remap(),
        final(events).grabbed() == old(events).grabbed(),
        spec_values(r.actions@) == spec_actions(
            old(events).bindings(),
            old(events).held(),
            old(events).grabbed(),
            *event,
        ),
        r.forward == spec_forward(
            old(events).bindings(),
            old(events).remap(),
            old(events).held(),
            old(events).grabbed(),
            *event,
            is_mouse,
        ),
{
    let mapped = events.map_input_event(*event);
    let matched = events.hotkey_matches(event);
    let forward = if matched {
        None
    } else {
        match route_target(map_event_kind(&mapped, is_mouse)) {
            Some(target) => Some((target, mapped)),
            None => None,
        }
    };
    let actions = events.process_input_event(event);
    InputDispatch { actions, forward }
}

/// The control actions that a list of classified reports asks for.
pub open spec fn spec_x_actions(processed: Seq<ProcessedXEvent>) -> Seq<ConfigEvent>
    decreases processed.len(),
{
    if processed.len() == 0 {
        Seq::empty()
    } else {
        let rest = spec_x_actions(processed.drop_last());
        match processed.last() {
            ProcessedXEvent::UserEvent(event) => rest.push(spec_convert_user_event(event)),
            ProcessedXEvent::InputEvent(_) => rest,
        }
    }
}

/// The device events in a list of classified reports that pass the filter.
pub open spec fn spec_x_inputs(
    ignored: Seq<ConfigInputEvent>,
    processed: Seq<ProcessedXEvent>,
) -> Seq<InputEvent>
    decreases processed.len(),
{
    if processed.len() == 0 {
        Seq::empty()
    } else {
        let rest = spec_x_inputs(ignored, processed.drop_last());
        match processed.last() {
            ProcessedXEvent::InputEvent(event) => if spec_filter_event(ignored, event) {
                rest.push(event)
            } else {
                rest
            },
            ProcessedXEvent::UserEvent(_) => rest,
        }
    }
}

/// The control actions that shared handles point to.
pub open spec fn spec_shared_values(shared: Seq<Arc<ConfigEvent>>) -> Seq<ConfigEvent> {
    Seq::new(shared.len(), |i: int| *shared[i])
}

/// What the engine makes of one report of the display-server side.
pub struct XDispatch {
    /// Control actions to carry out.
    pub actions: Vec<Arc<ConfigEvent>>,
    /// Captured device events to feed to `dispatch_input_event`.
    pub inputs: Vec<InputEvent>,
}

/// Feeds one report of the display-server side to the engine: what it
/// asks for becomes control actions, and captured device events go on
/// unless the filter holds them back.
pub fn dispatch_x_event<U>(
    events: &mut Events<U>,
    filter: &InputEventFilter,
    xevent: &XEvent,
) -> (r: XDispatch)
    ensures
        final(events).grabbed() == (match *xevent {
            XEvent::Grabbed(grabbed) => grabbed,
            _ => old(events).grabbed(),
        }),
        final(events).bindings() == old(events).bindings(),
        final(events).remap() == old(events).remap(),
        final(events).held() == old(events).held(),
        spec_shared_values(r.actions@) == spec_x_actions(spec_process_x_event(*xevent)),
        r.inputs@ == spec_x_inputs(filter.ignored(), spec_process_x_event(*xevent)),
{
    let processed = events.process_x_event(xevent);
    let mut actions: Vec<Arc<ConfigEvent>> = Vec::new();
    let mut inputs: Vec<InputEvent> = Vec::new();
    let mut i: usize = 0;
    assert(processed@.take(0) =~= Seq::<ProcessedXEvent>::empty());
    assert(spec_shared_values(actions@) =~= Seq::<ConfigEvent>::empty());
    while i < processed.len()
        invariant
            i <= processed@.len(),
            spec_shared_values(actions@) == spec_x_actions(processed@.take(i as int)),
            inputs@ == spec_x_inputs(filter.ignored(), processed@.take(i as int)),
        decreases processed@.len() - i,
    {
        assert(processed@.take(i + 1).drop_last() =~= processed@.take(i as int));
        match processed[i] {
            ProcessedXEvent::UserEvent(event) => {
                let ghost before = actions@;
                let action = convert_user_event(event);
                actions.push(action);
                assert(spec_shared_values(actions@) =~= spec_shared_values(before).push(
                    spec_convert_user_event(event),
                ));
            },
            ProcessedXEvent::InputEvent(event) => {
                if filter.filter_event(&event) {
                    inputs.push(event);
                }
            },
        }
        i += 1;
    }
    assert(processed@.take(i as int) =~= processed@);
    XDispatch { actions, inputs }
}

/// A captured device event goes on exactly when the filter lets it pass,
/// and asks for no control action.
pub proof fn lemma_x_input_is_filtered(ignored: Seq<ConfigInputEvent>, e: InputEvent)
    ensures
        spec_x_actions(spec_process_x_event(XEvent::Input(e))) == Seq::<ConfigEvent>::empty(),
        spec_x_inputs(ignored, spec_process_x_event(XEvent::Input(e))) == (if spec_filter_event(
            ignored,
            e,
        ) {
            seq![e]
        } else {
            Seq::<InputEvent>::empty()
        }),
{
    reveal_with_fuel(spec_x_actions, 3);
    reveal_with_fuel(spec_x_inputs, 3);
    let processed = spec_process_x_event(XEvent::Input(e));
    assert(processed.drop_last() =~= Seq::<ProcessedXEvent>::empty());
    assert(Seq::<InputEvent>::empty().push(e) =~= seq![e]);
}

/// A device event that fires a hotkey is forwarded to no route.
pub proof fn lemma_hotkey_event_is_not_forwarded<U>(
    bindings: Seq<Binding<U>>,
    remap: Map<u16, u16>,
    held: Set<u16>,
    grabbed: bool,
    e: InputEvent,
    is_mouse: bool,
)
    requires
        spec_matches(bindings, held, grabbed, e),
    ensures
        spec_forward(bindings, remap, held, grabbed, e, is_mouse) is None,
{
}

/// A synchronization event is forwarded to all three routes, as it came.
pub proof fn lemma_synchronize_goes_to_all<U>(
    bindings: Seq<Binding<U>>,
    remap: Map<u16, u16>,
    held: Set<u16>,
    grabbed: bool,
    e: InputEvent,
    is_mouse: bool,
)
    requires
        e.kind.spec_canonical() == EventKind::Synchronize,
    ensures
        spec_forward(bindings, remap, held, grabbed, e, is_mouse) == Some((RouteTarget::All, e)),
{
}

} // verus!
