use screenstub::config::ConfigQemuDriver;
use screenstub::input::{EventKind, EventTime, InputEvent};
use screenstub::route::{
    route_target, Builder, Capabilities, Delivery, InputId, Route, RouteClass, RouteError,
    RouteState, RouteTarget, Router, SendError, BUS_VIRTUAL, EVENT_BUFFER,
};

fn event(n: i32) -> InputEvent {
    InputEvent { time: EventTime { seconds: 0, microseconds: 0 }, kind: EventKind::Key, code: 30, value: n }
}

fn sync() -> InputEvent {
    InputEvent { time: EventTime { seconds: 0, microseconds: 0 }, kind: EventKind::Synchronize, code: 0, value: 0 }
}

fn running(class: RouteClass) -> Route {
    let mut route = Route::for_class(class, ConfigQemuDriver::Virtio, false);
    assert_eq!(route.spawn(true), Ok(()));
    route
}

fn running_router() -> Router {
    let mut router = Router::new(ConfigQemuDriver::InputLinux, false);
    for class in [RouteClass::Keyboard, RouteClass::Relative, RouteClass::Absolute] {
        assert_eq!(router.spawn(class, true), Ok(()));
    }
    router
}

const CLASSES: [RouteClass; 3] = [RouteClass::Keyboard, RouteClass::Relative, RouteClass::Absolute];

#[test]
fn route_constants_agree_with_input_linux() {
    assert_eq!(BUS_VIRTUAL, input_linux::sys::BUS_VIRTUAL);
    assert_eq!(EVENT_BUFFER, 8);
}

#[test]
fn route_target_by_class() {
    assert_eq!(route_target(EventKind::Key), Some(RouteTarget::One(RouteClass::Keyboard)));
    assert_eq!(route_target(EventKind::Relative), Some(RouteTarget::One(RouteClass::Relative)));
    assert_eq!(route_target(EventKind::Absolute), Some(RouteTarget::One(RouteClass::Absolute)));
    assert_eq!(route_target(EventKind::Synchronize), Some(RouteTarget::All));
    assert_eq!(route_target(EventKind::Misc), None);
    assert_eq!(route_target(EventKind::Unknown(1)), None);
}

#[test]
fn builder_collects_the_description() {
    let empty = Builder::new();
    assert_eq!(empty.name, "");
    assert_eq!(empty.id, InputId { bustype: 0, vendor: 0, product: 0, version: 0 });
    let none = Capabilities { keys: false, buttons: false, relative_axes: false, absolute_axes: false, repeat: false };
    assert_eq!(empty.capabilities, none);
    let id = InputId { bustype: 6, vendor: 1, product: 2, version: 3 };
    let keyboard = Builder::new().name("kbd".to_string()).x_config_key(true).id(id);
    assert_eq!(keyboard.name, "kbd");
    assert_eq!(keyboard.id, id);
    assert_eq!(keyboard.capabilities, Capabilities { keys: true, repeat: true, ..none });
    let mouse = Builder::new().x_config_rel();
    assert_eq!(mouse.capabilities, Capabilities { buttons: true, relative_axes: true, ..none });
    let tablet = Builder::new().x_config_abs();
    assert_eq!(tablet.capabilities, Capabilities { buttons: true, absolute_axes: true, ..none });
    let both = Builder::new().x_config_key(false).x_config_abs();
    assert_eq!(both.capabilities, Capabilities { keys: true, buttons: true, absolute_axes: true, ..none });
}

#[test]
fn for_class_names_and_describes_each_route() {
    let id = InputId { bustype: 0x06, vendor: 0x16c0, product: 0x05df, version: 1 };
    let names = [
        (RouteClass::Keyboard, "screenstub-route-kbd", "screenstub-kbd"),
        (RouteClass::Relative, "screenstub-route-mouse", "screenstub-mouse"),
        (RouteClass::Absolute, "screenstub-route-tablet", "screenstub-tablet"),
    ];
    for (class, route_name, device_name) in names.iter() {
        let route = Route::for_class(*class, ConfigQemuDriver::Virtio, true);
        assert_eq!(route.get_class(), *class);
        assert_eq!(route.get_driver(), ConfigQemuDriver::Virtio);
        assert_eq!(route.get_name(), route_name);
        assert_eq!(route.get_builder().name, *device_name);
        assert_eq!(route.get_builder().id, id);
        assert_eq!(route.get_state(), RouteState::Configured);
        assert_eq!(route.pending(), 0);
    }
    let none = Capabilities { keys: false, buttons: false, relative_axes: false, absolute_axes: false, repeat: false };
    assert_eq!(
        Route::for_class(RouteClass::Keyboard, ConfigQemuDriver::Virtio, true).get_builder().capabilities,
        Capabilities { keys: true, repeat: true, ..none }
    );
    assert_eq!(
        Route::for_class(RouteClass::Keyboard, ConfigQemuDriver::Virtio, false).get_builder().capabilities,
        Capabilities { keys: true, ..none }
    );
    assert_eq!(
        Route::for_class(RouteClass::Relative, ConfigQemuDriver::Virtio, true).get_builder().capabilities,
        Capabilities { buttons: true, relative_axes: true, ..none }
    );
    assert_eq!(
        Route::for_class(RouteClass::Absolute, ConfigQemuDriver::Virtio, true).get_builder().capabilities,
        Capabilities { buttons: true, absolute_axes: true, ..none }
    );
}

#[test]
fn spawn_starts_or_fails_the_route() {
    let mut route = Route::for_class(RouteClass::Relative, ConfigQemuDriver::InputLinux, false);
    assert_eq!(route.send(event(1)), Err(SendError::Closed));
    assert_eq!(route.spawn(true), Ok(()));
    assert_eq!(route.get_state(), RouteState::Running);
    assert_eq!(route.spawn(false), Ok(()));
    assert_eq!(route.get_state(), RouteState::Running);

    let mut broken = Route::for_class(RouteClass::Relative, ConfigQemuDriver::InputLinux, false);
    assert_eq!(broken.spawn(false), Err(RouteError::Create(RouteClass::Relative)));
    assert_eq!(broken.get_state(), RouteState::Failed);
    assert_eq!(broken.spawn(true), Ok(()));
    assert_eq!(broken.get_state(), RouteState::Failed);
    assert_eq!(broken.send(event(1)), Err(SendError::Closed));
    assert!(broken.is_finished());
}

#[test]
fn route_hands_events_out_in_the_order_received() {
    let mut route = running(RouteClass::Keyboard);
    assert_eq!(route.next(), None);
    for n in 0..5 {
        assert_eq!(route.send(event(n)), Ok(()));
    }
    assert_eq!(route.pending(), 5);
    assert_eq!(route.next(), Some(event(0)));
    assert_eq!(route.forwarded(true), None);
    assert_eq!(route.send(event(5)), Ok(()));
    for n in 1..6 {
        assert_eq!(route.next(), Some(event(n)));
        assert_eq!(route.forwarded(true), None);
    }
    assert_eq!(route.next(), None);
    assert_eq!(route.get_state(), RouteState::Running);
    assert!(!route.is_finished());
}

#[test]
fn route_refuses_once_it_is_full() {
    let mut route = running(RouteClass::Keyboard);
    for n in 0..8 {
        assert_eq!(route.send(event(n)), Ok(()));
    }
    assert_eq!(route.send(event(8)), Err(SendError::Full));
    assert_eq!(route.pending(), 8);
    assert_eq!(route.next(), Some(event(0)));
    assert_eq!(route.send(event(8)), Ok(()));
    assert_eq!(route.send(event(9)), Err(SendError::Full));
    for n in 1..9 {
        assert_eq!(route.next(), Some(event(n)));
    }
    assert_eq!(route.next(), None);
}

#[test]
fn failed_delivery_is_reported_once_and_stops_the_route() {
    let mut route = running(RouteClass::Absolute);
    route.send(event(1)).unwrap();
    route.send(event(2)).unwrap();
    assert_eq!(route.next(), Some(event(1)));
    assert_eq!(route.forwarded(false), Some(RouteError::Forward(RouteClass::Absolute)));
    assert_eq!(route.get_state(), RouteState::Failed);
    assert_eq!(route.pending(), 0);
    assert_eq!(route.forwarded(false), None);
    assert_eq!(route.forwarded(true), None);
    assert_eq!(route.next(), None);
    assert_eq!(route.send(event(3)), Err(SendError::Closed));
    assert!(route.is_finished());
    route.close();
    assert_eq!(route.get_state(), RouteState::Failed);
}

#[test]
fn closed_route_drains_what_it_holds() {
    let mut route = running(RouteClass::Keyboard);
    route.send(event(1)).unwrap();
    route.send(event(2)).unwrap();
    route.close();
    assert_eq!(route.get_state(), RouteState::Draining);
    assert!(!route.is_finished());
    assert_eq!(route.send(event(3)), Err(SendError::Closed));
    assert_eq!(route.next(), Some(event(1)));
    assert_eq!(route.next(), Some(event(2)));
    assert_eq!(route.next(), None);
    assert!(route.is_finished());
    route.close();
    assert_eq!(route.get_state(), RouteState::Draining);

    let mut never_ran = Route::for_class(RouteClass::Keyboard, ConfigQemuDriver::Virtio, false);
    never_ran.close();
    assert_eq!(never_ran.get_state(), RouteState::Failed);
}

#[test]
fn draining_route_can_still_fail() {
    let mut route = running(RouteClass::Keyboard);
    route.send(event(1)).unwrap();
    route.send(event(2)).unwrap();
    route.close();
    assert_eq!(route.next(), Some(event(1)));
    assert_eq!(route.forwarded(false), Some(RouteError::Forward(RouteClass::Keyboard)));
    assert_eq!(route.next(), None);
    assert_eq!(route.get_state(), RouteState::Failed);
}

#[test]
fn delivery_is_complete_without_refusals() {
    let all = Delivery { keyboard: Some(Ok(())), relative: Some(Ok(())), absolute: Some(Ok(())) };
    assert!(all.complete());
    let one = Delivery { keyboard: None, relative: Some(Ok(())), absolute: None };
    assert!(one.complete());
    let none = Delivery { keyboard: None, relative: None, absolute: None };
    assert!(none.complete());
    let full = Delivery { keyboard: Some(Ok(())), relative: Some(Err(SendError::Full)), absolute: Some(Ok(())) };
    assert!(!full.complete());
    let closed = Delivery { keyboard: Some(Err(SendError::Closed)), relative: None, absolute: None };
    assert!(!closed.complete());
}

#[test]
fn router_starts_with_three_configured_routes() {
    let router = Router::new(ConfigQemuDriver::Virtio, true);
    for class in CLASSES {
        let route = router.get(class);
        assert_eq!(route.get_class(), class);
        assert_eq!(route.get_driver(), ConfigQemuDriver::Virtio);
        assert_eq!(route.get_state(), RouteState::Configured);
        assert_eq!(route.pending(), 0);
    }
    assert_eq!(router.get(RouteClass::Keyboard).get_name(), "screenstub-route-kbd");
    assert!(router.get(RouteClass::Keyboard).get_builder().capabilities.repeat);
    assert!(!router.is_finished());
}

#[test]
fn router_sends_to_one_route() {
    let mut router = running_router();
    let delivery = router.send(RouteTarget::One(RouteClass::Relative), event(1));
    assert_eq!(delivery, Delivery { keyboard: None, relative: Some(Ok(())), absolute: None });
    assert_eq!(router.get(RouteClass::Keyboard).pending(), 0);
    assert_eq!(router.get(RouteClass::Relative).pending(), 1);
    assert_eq!(router.get(RouteClass::Absolute).pending(), 0);
    assert_eq!(router.next(RouteClass::Keyboard), None);
    assert_eq!(router.next(RouteClass::Relative), Some(event(1)));
}

#[test]
fn synchronize_reaches_all_three_routes() {
    let mut router = running_router();
    router.send(RouteTarget::One(RouteClass::Keyboard), event(1));
    router.send(RouteTarget::One(RouteClass::Absolute), event(2));
    let delivery = router.send(RouteTarget::All, sync());
    assert_eq!(delivery, Delivery { keyboard: Some(Ok(())), relative: Some(Ok(())), absolute: Some(Ok(())) });
    assert!(delivery.complete());
    assert_eq!(router.next(RouteClass::Keyboard), Some(event(1)));
    assert_eq!(router.next(RouteClass::Keyboard), Some(sync()));
    assert_eq!(router.next(RouteClass::Relative), Some(sync()));
    assert_eq!(router.next(RouteClass::Absolute), Some(event(2)));
    assert_eq!(router.next(RouteClass::Absolute), Some(sync()));
    for class in CLASSES {
        assert_eq!(router.next(class), None);
    }
}

#[test]
fn a_failed_route_does_not_block_the_others() {
    let mut router = running_router();
    router.send(RouteTarget::One(RouteClass::Relative), event(1));
    assert_eq!(router.next(RouteClass::Relative), Some(event(1)));
    assert_eq!(router.forwarded(RouteClass::Relative, false), Some(RouteError::Forward(RouteClass::Relative)));
    let delivery = router.send(RouteTarget::All, sync());
    assert_eq!(
        delivery,
        Delivery { keyboard: Some(Ok(())), relative: Some(Err(SendError::Closed)), absolute: Some(Ok(())) }
    );
    assert!(!delivery.complete());
    assert_eq!(router.next(RouteClass::Keyboard), Some(sync()));
    assert_eq!(router.next(RouteClass::Absolute), Some(sync()));
    assert_eq!(router.next(RouteClass::Relative), None);
}

#[test]
fn a_full_route_does_not_block_the_others() {
    let mut router = running_router();
    for n in 0..8 {
        router.send(RouteTarget::One(RouteClass::Keyboard), event(n));
    }
    let delivery = router.send(RouteTarget::All, sync());
    assert_eq!(
        delivery,
        Delivery { keyboard: Some(Err(SendError::Full)), relative: Some(Ok(())), absolute: Some(Ok(())) }
    );
    assert_eq!(router.get(RouteClass::Keyboard).pending(), 8);
    assert_eq!(router.next(RouteClass::Keyboard), Some(event(0)));
    let retry = router.send(RouteTarget::One(RouteClass::Keyboard), sync());
    assert_eq!(retry, Delivery { keyboard: Some(Ok(())), relative: None, absolute: None });
    assert_eq!(router.get(RouteClass::Relative).pending(), 1);
}

#[test]
fn router_spawn_reports_the_class_that_failed() {
    let mut router = Router::new(ConfigQemuDriver::InputLinux, false);
    assert_eq!(router.spawn(RouteClass::Keyboard, true), Ok(()));
    assert_eq!(router.spawn(RouteClass::Absolute, false), Err(RouteError::Create(RouteClass::Absolute)));
    assert_eq!(router.get(RouteClass::Keyboard).get_state(), RouteState::Running);
    assert_eq!(router.get(RouteClass::Relative).get_state(), RouteState::Configured);
    assert_eq!(router.get(RouteClass::Absolute).get_state(), RouteState::Failed);
}

#[test]
fn shutdown_closes_every_route() {
    let mut router = running_router();
    router.send(RouteTarget::One(RouteClass::Keyboard), event(1));
    router.shutdown();
    for class in CLASSES {
        assert_eq!(router.get(class).get_state(), RouteState::Draining);
    }
    let delivery = router.send(RouteTarget::All, sync());
    assert_eq!(
        delivery,
        Delivery {
            keyboard: Some(Err(SendError::Closed)),
            relative: Some(Err(SendError::Closed)),
            absolute: Some(Err(SendError::Closed)),
        }
    );
    assert!(!router.is_finished());
    assert_eq!(router.next(RouteClass::Keyboard), Some(event(1)));
    assert_eq!(router.forwarded(RouteClass::Keyboard, true), None);
    assert!(router.is_finished());
}
