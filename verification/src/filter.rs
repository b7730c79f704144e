//! Deciding which captured events are forwarded at all.

use crate::config::ConfigInputEvent;
use crate::input::{Event, InputEvent};
use vstd::prelude::*;

verus! {

/// Whether a list of classes holds the class of a typed event.
pub open spec fn spec_ignores(ignore: Seq<ConfigInputEvent>, e: Event) -> bool {
    match ConfigInputEvent::spec_class(e) {
        Some(class) => ignore.contains(class),
        None => false,
    }
}

/// Whether a raw event passes a list of ignored classes: it does unless it
/// has a class and the list holds it.
pub open spec fn spec_filter_event(ignore: Seq<ConfigInputEvent>, e: InputEvent) -> bool {
    match ConfigInputEvent::spec_from_event(e) {
        Some(class) => !ignore.contains(class),
        None => true,
    }
}

/// A copy of a list of classes.
pub fn copy_classes(classes: &Vec<ConfigInputEvent>) -> (r: Vec<ConfigInputEvent>)
    ensures
        r@ == classes@,
{
    let mut out: Vec<ConfigInputEvent> = Vec::new();
    let mut i: usize = 0;
    while i < classes.len()
        invariant
            i <= classes@.len(),
            out@ == classes@.take(i as int),
        decreases classes@.len() - i,
    {
        out.push(classes[i]);
        assert(classes@.take(i + 1) =~= classes@.take(i as int).push(classes@[i as int]));
        i += 1;
    }
    assert(classes@.take(i as int) =~= classes@);
    out
}

/// Whether a list holds a class.
pub fn contains_class(classes: &Vec<ConfigInputEvent>, class: ConfigInputEvent) -> (r: bool)
    ensures
        r == classes@.contains(class),
{
    let mut i: usize = 0;
    while i < classes.len()
        invariant
            i <= classes@.len(),
            forall|k: int| 0 <= k < i ==> classes@[k] != class,
        decreases classes@.len() - i,
    {
        if classes[i] == class {
            return true;
        }
        i += 1;
    }
    false
}

/// Whether a typed event is of a class that a grab was told to ignore.
pub fn ignores(ignore: &Vec<ConfigInputEvent>, e: &Event) -> (r: bool)
    ensures
        r == spec_ignores(ignore@, *e),
        r == (exists|i: int|
            0 <= i < ignore@.len() && ConfigInputEvent::spec_class(*e) == Some(ignore@[i])),
{
    let mut i: usize = 0;
    while i < ignore.len()
        invariant
            i <= ignore@.len(),
            forall|k: int| 0 <= k < i ==> ConfigInputEvent::spec_class(*e) != Some(ignore@[k]),
        decreases ignore@.len() - i,
    {
        if ignore[i].event_matches(e) {
            return true;
        }
        i += 1;
    }
    false
}

/// The filter for events that the display server captured: the classes it
/// holds are not forwarded.
pub struct InputEventFilter {
    ignore: Vec<ConfigInputEvent>,
}

impl InputEventFilter {
    /// The classes that are not forwarded.
    pub closed spec fn ignored(&self) -> Seq<ConfigInputEvent> {
        self.ignore@
    }

    /// A filter that holds the given classes back.
    pub fn new(ignore: Vec<ConfigInputEvent>) -> (r: Self)
        ensures
            r.ignored() == ignore@,
    {
        InputEventFilter { ignore }
    }

    /// A filter that lets every event pass.
    pub fn empty() -> (r: Self)
        ensures
            r.ignored() == Seq::<ConfigInputEvent>::empty(),
    {
        InputEventFilter { ignore: Vec::new() }
    }

    /// Replaces the classes that are held back.
    pub fn set_filter(&mut self, ignore: Vec<ConfigInputEvent>)
        ensures
            final(self).ignored() == ignore@,
    {
        self.ignore = ignore;
    }

    /// Lets every event pass again.
    pub fn unset_filter(&mut self)
        ensures
            final(self).ignored() == Seq::<ConfigInputEvent>::empty(),
    {
        self.ignore = Vec::new();
    }

    /// Whether an event is to be forwarded.
    pub fn filter_event(&self, e: &InputEvent) -> (r: bool)
        ensures
            r == spec_filter_event(self.ignored(), *e),
    {
        match ConfigInputEvent::from_event(e) {
            Some(class) => !contains_class(&self.ignore, class),
            None => true,
        }
    }
}

/// A filter without classes lets every event pass.
pub proof fn lemma_empty_filter_passes_all(e: InputEvent)
    ensures
        spec_filter_event(Seq::<ConfigInputEvent>::empty(), e),
{
}

/// A raw event is held back exactly when it parses to a typed event of an
/// ignored class.
pub proof fn lemma_filter_agrees_with_ignores(ignore: Seq<ConfigInputEvent>, e: InputEvent)
    ensures
        !spec_filter_event(ignore, e) <==> (e.spec_parse() is Ok && spec_ignores(
            ignore,
            e.spec_parse()->Ok_0,
        )),
{
}

} // verus!
