use screenstub::config::ConfigInputEvent;
use screenstub::filter::{contains_class, copy_classes, ignores, InputEventFilter};
use screenstub::input::{Event, EventKind, EventTime, InputEvent};

fn raw(kind: EventKind, code: u16) -> InputEvent {
    InputEvent { time: EventTime { seconds: 0, microseconds: 0 }, kind, code, value: 1 }
}

#[test]
fn copy_classes_copies_in_order() {
    let classes = vec![ConfigInputEvent::Led, ConfigInputEvent::Key, ConfigInputEvent::Led];
    assert_eq!(copy_classes(&classes), classes);
    assert_eq!(copy_classes(&vec![]), vec![]);
}

#[test]
fn contains_class_finds_members_only() {
    let classes = vec![ConfigInputEvent::Led, ConfigInputEvent::Key];
    assert!(contains_class(&classes, ConfigInputEvent::Led));
    assert!(contains_class(&classes, ConfigInputEvent::Key));
    assert!(!contains_class(&classes, ConfigInputEvent::Button));
    assert!(!contains_class(&vec![], ConfigInputEvent::Key));
}

#[test]
fn ignores_events_of_listed_classes() {
    let ignore = vec![ConfigInputEvent::Button, ConfigInputEvent::Absolute];
    assert!(ignores(&ignore, &Event::Key(0x110, 1)));
    assert!(!ignores(&ignore, &Event::Key(30, 1)));
    assert!(ignores(&ignore, &Event::Absolute(0, 5)));
    assert!(!ignores(&ignore, &Event::Absolute(0x20, 5)));
    assert!(ignores(&vec![ConfigInputEvent::Key], &Event::Absolute(0x20, 5)));
    assert!(!ignores(&ignore, &Event::Relative(0, 5)));
    assert!(!ignores(&ignore, &Event::Synchronize(0, 0)));
    assert!(!ignores(&vec![], &Event::Key(0x110, 1)));
}

#[test]
fn empty_filter_passes_everything() {
    let filter = InputEventFilter::empty();
    for kind in [EventKind::Key, EventKind::Relative, EventKind::Synchronize, EventKind::Unknown(9)] {
        for code in [0u16, 30, 0x110, 0x300] {
            assert!(filter.filter_event(&raw(kind, code)));
        }
    }
}

#[test]
fn filter_holds_back_listed_classes() {
    let filter = InputEventFilter::new(vec![ConfigInputEvent::Key, ConfigInputEvent::Misc]);
    assert!(!filter.filter_event(&raw(EventKind::Key, 30)));
    assert!(filter.filter_event(&raw(EventKind::Key, 0x110)));
    assert!(!filter.filter_event(&raw(EventKind::Misc, 4)));
    assert!(!filter.filter_event(&raw(EventKind::Absolute, 0x20)));
    assert!(filter.filter_event(&raw(EventKind::Absolute, 0x21)));
    assert!(filter.filter_event(&raw(EventKind::Misc, 8)));
    assert!(filter.filter_event(&raw(EventKind::Key, 0x300)));
    assert!(filter.filter_event(&raw(EventKind::Synchronize, 0)));
    assert!(filter.filter_event(&raw(EventKind::Relative, 0)));
}

#[test]
fn set_and_unset_filter_replace_the_classes() {
    let mut filter = InputEventFilter::new(vec![ConfigInputEvent::Key]);
    filter.set_filter(vec![ConfigInputEvent::Relative]);
    assert!(filter.filter_event(&raw(EventKind::Key, 30)));
    assert!(!filter.filter_event(&raw(EventKind::Relative, 0)));
    filter.unset_filter();
    assert!(filter.filter_event(&raw(EventKind::Relative, 0)));
}
