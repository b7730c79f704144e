//! The event engine: key remapping, held-key tracking and hotkey matching.
//!
//! The engine is a single-owner state machine. It is configured once with
//! `add_hotkey` and `add_remap` and then fed every event in arrival order.

use crate::input::{
    Event, EventKind, EventTime, InputEvent, RangeError, KEY_COUNT, KEY_PRESSED, KEY_RELEASED,
};
use std::collections::HashMap;
use vstd::prelude::*;

verus! {

broadcast use vstd::std_specs::hash::group_hash_axioms;

/// A notification that asks for a control action.
#[derive(Debug, Copy, Clone, PartialEq, Eq, Structural, Hash)]
pub enum UserEvent {
    Quit,
    ShowGuest,
    ShowHost,
    UnstickGuest,
    UnstickHost,
}

/// What the display-server side reports.
#[derive(Debug, Copy, Clone, PartialEq, Eq, Structural, Hash)]
pub enum XEvent {
    /// The window was shown (`true`) or hidden.
    Visible(bool),
    /// The window gained (`true`) or lost the input focus.
    Focus(bool),
    /// The window was closed.
    Close,
    /// The input devices are now captured (`true`) or released.
    Grabbed(bool),
    /// A captured device event.
    Input(InputEvent),
}

/// A display-server report after classification.
#[derive(Debug, Copy, Clone, PartialEq, Eq, Structural, Hash)]
pub enum ProcessedXEvent {
    UserEvent(UserEvent),
    InputEvent(InputEvent),
}

/// A hotkey: key codes that trigger it, key codes that must be held, and
/// what it emits.
pub struct Hotkey<U> {
    pub triggers: Vec<u16>,
    pub modifiers: Vec<u16>,
    pub events: Vec<U>,
    /// Evaluated even while the input devices are not captured.
    pub global: bool,
}

impl<U> Hotkey<U> {
    pub fn new(triggers: Vec<u16>, modifiers: Vec<u16>, events: Vec<U>, global: bool) -> (r: Self)
        ensures
            r.triggers == triggers,
            r.modifiers == modifiers,
            r.events == events,
            r.global == global,
    {
        Hotkey { triggers, modifiers, events, global }
    }

    /// The hotkey's key codes: the triggers, then the modifiers.
    pub fn keys(&self) -> (r: Vec<u16>)
        ensures
            r@ == self.triggers@ + self.modifiers@,
    {
        let mut out: Vec<u16> = Vec::new();
        let mut i: usize = 0;
        while i < self.triggers.len()
            invariant
                i <= self.triggers@.len(),
                out@ == self.triggers@.take(i as int),
            decreases self.triggers@.len() - i,
        {
            out.push(self.triggers[i]);
            assert(self.triggers@.take(i + 1) =~= self.triggers@.take(i as int).push(
                self.triggers@[i as int],
            ));
            i += 1;
        }
        assert(self.triggers@.take(i as int) =~= self.triggers@);
        let mut j: usize = 0;
        while j < self.modifiers.len()
            invariant
                j <= self.modifiers@.len(),
                out@ == self.triggers@ + self.modifiers@.take(j as int),
            decreases self.modifiers@.len() - j,
        {
            out.push(self.modifiers[j]);
            assert(self.triggers@ + self.modifiers@.take(j + 1) =~= (self.triggers@
                + self.modifiers@.take(j as int)).push(self.modifiers@[j as int]));
            j += 1;
        }
        assert(self.modifiers@.take(j as int) =~= self.modifiers@);
        out
    }
}

/// A registered hotkey, with the edge it fires on.
pub struct Binding<U> {
    pub hotkey: Hotkey<U>,
    /// Fires when a trigger is pressed; otherwise when one is released.
    pub on_press: bool,
}

impl<U> Binding<U> {
    /// Whether every modifier is in `held`.
    pub open spec fn spec_modifiers_held(self, held: Set<u16>) -> bool {
        forall|i: int|
            0 <= i < self.hotkey.modifiers@.len() ==> held.contains(
                #[trigger] self.hotkey.modifiers@[i],
            )
    }

    /// Whether a key event with the given code and value fires the binding,
    /// when `held` are the keys held once the event is accounted for.
    pub open spec fn spec_fires(self, held: Set<u16>, grabbed: bool, key: u16, value: i32) -> bool {
        &&& self.hotkey.global || grabbed
        &&& if self.on_press {
            value == KEY_PRESSED
        } else {
            value == KEY_RELEASED
        }
        &&& self.hotkey.triggers@.contains(key)
        &&& self.spec_modifiers_held(held)
    }
}

/// The held keys after a key event with the given code and value: a press
/// adds the key, a release removes it, any other value changes nothing.
pub open spec fn spec_key_applied(held: Set<u16>, key: u16, value: i32) -> Set<u16> {
    if value == KEY_PRESSED {
        held.insert(key)
    } else if value == KEY_RELEASED {
        held.remove(key)
    } else {
        held
    }
}

/// The held keys after an event: only key events with a code in range
/// change them.
pub open spec fn spec_held_after(held: Set<u16>, e: InputEvent) -> Set<u16> {
    match e.spec_parse() {
        Ok(Event::Key(key, value)) => spec_key_applied(held, key, value),
        _ => held,
    }
}

/// What the bindings that fire emit, one binding after the other in the
/// order of registration.
pub open spec fn spec_fired<U>(
    bindings: Seq<Binding<U>>,
    held: Set<u16>,
    grabbed: bool,
    key: u16,
    value: i32,
) -> Seq<U>
    decreases bindings.len(),
{
    if bindings.len() == 0 {
        Seq::empty()
    } else {
        let rest = spec_fired(bindings.drop_last(), held, grabbed, key, value);
        if bindings.last().spec_fires(held, grabbed, key, value) {
            rest + bindings.last().hotkey.events@
        } else {
            rest
        }
    }
}

/// Whether at least one binding fires.
pub open spec fn spec_any_fires<U>(
    bindings: Seq<Binding<U>>,
    held: Set<u16>,
    grabbed: bool,
    key: u16,
    value: i32,
) -> bool {
    exists|i: int|
        0 <= i < bindings.len() && (#[trigger] bindings[i]).spec_fires(held, grabbed, key, value)
}

/// What an event emits when `held` are the keys held before it: only key
/// events with a code in range emit anything, and the bindings are
/// evaluated against the keys held after the event.
pub open spec fn spec_actions<U>(
    bindings: Seq<Binding<U>>,
    held: Set<u16>,
    grabbed: bool,
    e: InputEvent,
) -> Seq<U> {
    match e.spec_parse() {
        Ok(Event::Key(key, value)) => spec_fired(
            bindings,
            spec_held_after(held, e),
            grabbed,
            key,
            value,
        ),
        _ => Seq::empty(),
    }
}

/// Whether an event fires at least one binding when `held` are the keys
/// held before it.
pub open spec fn spec_matches<U>(
    bindings: Seq<Binding<U>>,
    held: Set<u16>,
    grabbed: bool,
    e: InputEvent,
) -> bool {
    match e.spec_parse() {
        Ok(Event::Key(key, value)) => spec_any_fires(
            bindings,
            spec_held_after(held, e),
            grabbed,
            key,
            value,
        ),
        _ => false,
    }
}

/// The event after key remapping: a key event whose code is a key of the
/// table carries the code the table gives; every other event is unchanged.
/// The table is applied once, never to its own result.
pub open spec fn spec_map_input_event(remap: Map<u16, u16>, e: InputEvent) -> InputEvent {
    match e.spec_parse() {
        Ok(Event::Key(key, value)) => if remap.contains_key(key) {
            InputEvent { time: e.time, kind: EventKind::Key, code: remap[key], value }
        } else {
            e
        },
        _ => e,
    }
}

/// The codes below `bound` that are in `held`, in ascending order.
pub open spec fn spec_held_codes(held: Set<u16>, bound: nat) -> Seq<u16>
    decreases bound,
{
    if bound == 0 {
        Seq::empty()
    } else {
        let rest = spec_held_codes(held, (bound - 1) as nat);
        if bound <= 0x10000 && held.contains((bound - 1) as u16) {
            rest.push((bound - 1) as u16)
        } else {
            rest
        }
    }
}

/// The release event for a key.
pub open spec fn spec_release_event(time: EventTime, key: u16) -> InputEvent {
    InputEvent { time, kind: EventKind::Key, code: key, value: KEY_RELEASED }
}

/// What `process_x_event` makes of a report.
pub open spec fn spec_process_x_event(e: XEvent) -> Seq<ProcessedXEvent> {
    match e {
        XEvent::Close => seq![ProcessedXEvent::UserEvent(UserEvent::Quit)],
        XEvent::Visible(visible) => if visible {
            seq![ProcessedXEvent::UserEvent(UserEvent::ShowGuest)]
        } else {
            seq![ProcessedXEvent::UserEvent(UserEvent::ShowHost)]
        },
        XEvent::Focus(focus) => if focus {
            seq![ProcessedXEvent::UserEvent(UserEvent::UnstickHost)]
        } else {
            seq![ProcessedXEvent::UserEvent(UserEvent::UnstickGuest)]
        },
        XEvent::Grabbed(_) => Seq::empty(),
        XEvent::Input(event) => seq![ProcessedXEvent::InputEvent(event)],
    }
}

/// The values a sequence of references points to.
pub open spec fn spec_values<U>(refs: Seq<&U>) -> Seq<U> {
    Seq::new(refs.len(), |i: int| *refs[i])
}

/// The engine's state: the registered bindings, the remap table, the keys
/// currently held and whether the input devices are captured.
pub struct Events<U> {
    bindings: Vec<Binding<U>>,
    remap: HashMap<u16, u16>,
    /// Indexed by key code; codes past the end are not held.
    keys: Vec<bool>,
    grabbed: bool,
}

impl<U> Events<U> {
    /// The registered bindings, in the order of registration.
    pub closed spec fn bindings(&self) -> Seq<Binding<U>> {
        self.bindings@
    }

    /// The remap table.
    pub closed spec fn remap(&self) -> Map<u16, u16> {
        self.remap@
    }

    /// The key codes currently held.
    pub closed spec fn held(&self) -> Set<u16> {
        Set::new(|key: u16| key < self.keys@.len() && self.keys@[key as int])
    }

    /// Whether the input devices are captured.
    pub closed spec fn grabbed(&self) -> bool {
        self.grabbed
    }

    /// An engine without bindings or remaps, with no key held and the
    /// devices not captured.
    pub fn new() -> (r: Self)
        ensures
            r.bindings() == Seq::<Binding<U>>::empty(),
            r.remap() == Map::<u16, u16>::empty(),
            r.held() == Set::<u16>::empty(),
            !r.grabbed(),
    {
        let r = Events { bindings: Vec::new(), remap: HashMap::new(), keys: Vec::new(), grabbed: false };
        assert(r.held() =~= Set::<u16>::empty());
        r
    }

    /// Registers a hotkey after those registered before.
    pub fn add_hotkey(&mut self, hotkey: Hotkey<U>, on_press: bool)
        ensures
            final(self).bindings() == old(self).bindings().push(Binding { hotkey, on_press }),
            final(self).remap() == old(self).remap(),
            final(self).held() == old(self).held(),
            final(self).grabbed() == old(self).grabbed(),
    {
        self.bindings.push(Binding { hotkey, on_press });
    }

    /// Makes the table replace `from` by `to`, instead of whatever it
    /// replaced `from` by before.
    pub fn add_remap(&mut self, from: u16, to: u16)
        ensures
            final(self).remap() == old(self).remap().insert(from, to),
            final(self).bindings() == old(self).bindings(),
            final(self).held() == old(self).held(),
            final(self).grabbed() == old(self).grabbed(),
    {
        self.remap.insert(from, to);
    }

    /// Replaces the whole remap table.
    pub fn set_remap(&mut self, remap: HashMap<u16, u16>)
        ensures
            final(self).remap() == remap@,
            final(self).bindings() == old(self).bindings(),
            final(self).held() == old(self).held(),
            final(self).grabbed() == old(self).grabbed(),
    {
        self.remap = remap;
    }

    /// Records whether the input devices are captured.
    pub fn set_grabbed(&mut self, grabbed: bool)
        ensures
            final(self).grabbed() == grabbed,
            final(self).bindings() == old(self).bindings(),
            final(self).remap() == old(self).remap(),
            final(self).held() == old(self).held(),
    {
        self.grabbed = grabbed;
    }

    pub fn is_grabbed(&self) -> (r: bool)
        ensures
            r == self.grabbed(),
    {
        self.grabbed
    }

    /// Whether a key is currently held.
    pub fn is_held(&self, key: u16) -> (r: bool)
        ensures
            r == self.held().contains(key),
    {
        (key as usize) < self.keys.len() && self.keys[key as usize]
    }

    /// Applies the remap table to an event.
    pub fn map_input_event(&self, e: InputEvent) -> (r: InputEvent)
        ensures
            r == spec_map_input_event(self.remap(), e),
    {
        match Event::new(&e) {
            Ok(Event::Key(key, value)) => {
                match self.remap.get(&key) {
                    Some(to) => InputEvent {
                        time: e.time,
                        kind: EventKind::Key,
                        code: *to,
                        value,
                    },
                    None => e,
                }
            },
            _ => e,
        }
    }

    fn press(&mut self, key: u16)
        ensures
            final(self).held() == old(self).held().insert(key),
            final(self).bindings() == old(self).bindings(),
            final(self).remap() == old(self).remap(),
            final(self).grabbed() == old(self).grabbed(),
    {
        while self.keys.len() <= key as usize
            invariant
                self.bindings == old(self).bindings,
                self.remap == old(self).remap,
                self.grabbed == old(self).grabbed,
                self.held() =~= old(self).held(),
            decreases key + 1 - self.keys@.len(),
        {
            self.keys.push(false);
        }
        self.keys.set(key as usize, true);
        assert(self.held() =~= old(self).held().insert(key));
    }

    fn release(&mut self, key: u16)
        ensures
            final(self).held() == old(self).held().remove(key),
            final(self).bindings() == old(self).bindings(),
            final(self).remap() == old(self).remap(),
            final(self).grabbed() == old(self).grabbed(),
    {
        if (key as usize) < self.keys.len() {
            self.keys.set(key as usize, false);
        }
        assert(self.held() =~= old(self).held().remove(key));
    }

    /// Whether the event would fire at least one binding if it were
    /// processed now.
    pub fn hotkey_matches(&self, e: &InputEvent) -> (r: bool)
        ensures
            r == spec_matches(self.bindings(), self.held(), self.grabbed(), *e),
    {
        match Event::new(e) {
            Ok(Event::Key(key, value)) => {
                let ghost held = spec_held_after(self.held(), *e);
                let mut i: usize = 0;
                while i < self.bindings.len()
                    invariant
                        i <= self.bindings@.len(),
                        held == spec_held_after(self.held(), *e),
                        e.spec_parse() == Ok::<Event, RangeError>(Event::Key(key, value)),
                        forall|k: int|
                            0 <= k < i ==> !(#[trigger] self.bindings@[k]).spec_fires(
                                held,
                                self.grabbed(),
                                key,
                                value,
                            ),
                    decreases self.bindings@.len() - i,
                {
                    if self.binding_fires(&self.bindings[i], key, value, false) {
                        return true;
                    }
                    i += 1;
                }
                false
            },
            _ => false,
        }
    }

    /// Whether a key event fires a binding. With `applied` the event is
    /// already accounted for in the held keys; without, it is accounted for
    /// on the fly.
    fn binding_fires(&self, binding: &Binding<U>, key: u16, value: i32, applied: bool) -> (r: bool)
        ensures
            r == binding.spec_fires(
                if applied {
                    self.held()
                } else {
                    spec_key_applied(self.held(), key, value)
                },
                self.grabbed(),
                key,
                value,
            ),
    {
        let ghost held = if applied {
            self.held()
        } else {
            spec_key_applied(self.held(), key, value)
        };
        if !(binding.hotkey.global || self.grabbed) {
            return false;
        }
        let edge = if binding.on_press {
            value == KEY_PRESSED
        } else {
            value == KEY_RELEASED
        };
        if !edge {
            return false;
        }
        let triggers = &binding.hotkey.triggers;
        let mut triggered = false;
        let mut i: usize = 0;
        while i < triggers.len()
            invariant
                i <= triggers@.len(),
                triggered == (exists|k: int| 0 <= k < i && triggers@[k] == key),
            decreases triggers@.len() - i,
        {
            if triggers[i] == key {
                triggered = true;
            }
            i += 1;
        }
        if !triggered {
            return false;
        }
        let modifiers = &binding.hotkey.modifiers;
        let mut j: usize = 0;
        while j < modifiers.len()
            invariant
                j <= modifiers@.len(),
                modifiers@ == binding.hotkey.modifiers@,
                held == (if applied {
                    self.held()
                } else {
                    spec_key_applied(self.held(), key, value)
                }),
                forall|k: int| 0 <= k < j ==> held.contains(#[trigger] modifiers@[k]),
            decreases modifiers@.len() - j,
        {
            let modifier = modifiers[j];
            let is_held = if !applied && modifier == key && value == KEY_PRESSED {
                true
            } else if !applied && modifier == key && value == KEY_RELEASED {
                false
            } else {
                self.is_held(modifier)
            };
            if !is_held {
                assert(!held.contains(binding.hotkey.modifiers@[j as int]));
                return false;
            }
            j += 1;
        }
        true
    }

    /// Accounts for an event and returns what it emits: the held keys
    /// follow key presses and releases, and every binding that fires
    /// contributes its events, in the order of registration.
    pub fn process_input_event<'a>(&'a mut self, e: &InputEvent) -> (r: Vec<&'a U>)
        ensures
            final(self).held() == spec_held_after(old(self).held(), *e),
            final(self).bindings() == old(self).bindings(),
            final(self).remap() == old(self).remap(),
            final(self).grabbed() == old(self).grabbed(),
            spec_values(r@) == spec_actions(
                old(self).bindings(),
                old(self).held(),
                old(self).grabbed(),
                *e,
            ),
    {
        match Event::new(e) {
            Ok(Event::Key(key, value)) => {
                if value == KEY_PRESSED {
                    self.press(key);
                } else if value == KEY_RELEASED {
                    self.release(key);
                }
                let this: &'a Events<U> = self;
                let mut out: Vec<&'a U> = Vec::new();
                let mut i: usize = 0;
                assert(this.bindings@.take(0) =~= Seq::<Binding<U>>::empty());
                assert(spec_values(out@) =~= Seq::<U>::empty());
                while i < this.bindings.len()
                    invariant
                        i <= this.bindings@.len(),
                        spec_values(out@) == spec_fired(
                            this.bindings@.take(i as int),
                            this.held(),
                            this.grabbed(),
                            key,
                            value,
                        ),
                    decreases this.bindings@.len() - i,
                {
                    let binding = &this.bindings[i];
                    let ghost before = out@;
                    assert(this.bindings@.take(i + 1).drop_last() =~= this.bindings@.take(
                        i as int,
                    ));
                    if this.binding_fires(binding, key, value, true) {
                        let mut j: usize = 0;
                        while j < binding.hotkey.events.len()
                            invariant
                                j <= binding.hotkey.events@.len(),
                                spec_values(out@) == spec_values(before)
                                    + binding.hotkey.events@.take(j as int),
                            decreases binding.hotkey.events@.len() - j,
                        {
                            proof {
                                lemma_values_push(out@, &binding.hotkey.events@[j as int]);
                            }
                            out.push(&binding.hotkey.events[j]);
                            assert(spec_values(out@) =~= spec_values(before)
                                + binding.hotkey.events@.take(j + 1));
                            j += 1;
                        }
                        assert(binding.hotkey.events@.take(j as int) =~= binding.hotkey.events@);
                    }
                    i += 1;
                }
                assert(this.bindings@.take(i as int) =~= this.bindings@);
                out
            },
            _ => {
                let out: Vec<&'a U> = Vec::new();
                assert(spec_values(out@) =~= Seq::<U>::empty());
                out
            },
        }
    }

    /// Classifies a report of the display-server side. A capture report
    /// updates the capture state and emits nothing.
    pub fn process_x_event(&mut self, e: &XEvent) -> (r: Vec<ProcessedXEvent>)
        ensures
            r@ == spec_process_x_event(*e),
            final(self).grabbed() == (match *e {
                XEvent::Grabbed(grabbed) => grabbed,
                _ => old(self).grabbed(),
            }),
            final(self).bindings() == old(self).bindings(),
            final(self).remap() == old(self).remap(),
            final(self).held() == old(self).held(),
    {
        let mut out: Vec<ProcessedXEvent> = Vec::new();
        match *e {
            XEvent::Close => {
                out.push(ProcessedXEvent::UserEvent(UserEvent::Quit));
            },
            XEvent::Visible(visible) => {
                if visible {
                    out.push(ProcessedXEvent::UserEvent(UserEvent::ShowGuest));
                } else {
                    out.push(ProcessedXEvent::UserEvent(UserEvent::ShowHost));
                }
            },
            XEvent::Focus(focus) => {
                if focus {
                    out.push(ProcessedXEvent::UserEvent(UserEvent::UnstickHost));
                } else {
                    out.push(ProcessedXEvent::UserEvent(UserEvent::UnstickGuest));
                }
            },
            XEvent::Grabbed(grabbed) => {
                self.grabbed = grabbed;
            },
            XEvent::Input(event) => {
                out.push(ProcessedXEvent::InputEvent(event));
            },
        }
        assert(out@ =~= spec_process_x_event(*e));
        out
    }

    /// Forgets every held key and returns a release event for each, in
    /// ascending order of key code, stamped with `time`.
    pub fn unstick(&mut self, time: EventTime) -> (r: Vec<InputEvent>)
        ensures
            final(self).held() == Set::<u16>::empty(),
            final(self).bindings() == old(self).bindings(),
            final(self).remap() == old(self).remap(),
            final(self).grabbed() == old(self).grabbed(),
            r@ == spec_held_codes(old(self).held(), 0x10000).map_values(
                |key: u16| spec_release_event(time, key),
            ),
    {
        let mut out: Vec<InputEvent> = Vec::new();
        let n = self.keys.len();
        let ghost held = self.held();
        let mut i: usize = 0;
        assert(out@ =~= spec_held_codes(held, 0).map_values(
            |key: u16| spec_release_event(time, key),
        ));
        while i < n && i < 0x10000
            invariant
                i <= n,
                i <= 0x10000,
                n == self.keys@.len(),
                self.keys == old(self).keys,
                self.bindings == old(self).bindings,
                self.remap == old(self).remap,
                self.grabbed == old(self).grabbed,
                held == old(self).held(),
                out@ == spec_held_codes(held, i as nat).map_values(
                    |key: u16| spec_release_event(time, key),
                ),
            decreases n - i,
        {
            if self.keys[i] {
                out.push(InputEvent { time, kind: EventKind::Key, code: i as u16, value: KEY_RELEASED });
            }
            assert(held.contains(i as u16) == self.keys@[i as int]);
            assert(out@ =~= spec_held_codes(held, (i + 1) as nat).map_values(
                |key: u16| spec_release_event(time, key),
            ));
            i += 1;
        }
        proof {
            lemma_held_codes_stable(held, i as nat, 0x10000);
        }
        self.keys.clear();
        assert(self.held() =~= Set::<u16>::empty());
        out
    }
}

/// The values of a sequence of references grow with the sequence.
pub proof fn lemma_values_push<U>(refs: Seq<&U>, last: &U)
    ensures
        spec_values(refs.push(last)) == spec_values(refs).push(*last),
{
    assert(spec_values(refs.push(last)) =~= spec_values(refs).push(*last));
}

/// Past the last held code the ascending listing does not grow.
pub proof fn lemma_held_codes_stable(held: Set<u16>, from: nat, to: nat)
    requires
        from <= to,
        forall|key: u16| held.contains(key) ==> key < from,
    ensures
        spec_held_codes(held, to) == spec_held_codes(held, from),
    decreases to,
{
    if from < to {
        lemma_held_codes_stable(held, from, (to - 1) as nat);
    }
}

/// The code the remap table turns a key code into: the table's entry, or
/// the code itself where the table has none.
pub open spec fn spec_remap_code(remap: Map<u16, u16>, key: u16) -> u16 {
    if remap.contains_key(key) {
        remap[key]
    } else {
        key
    }
}

/// The press event for a key.
pub open spec fn spec_press_event(time: EventTime, key: u16) -> InputEvent {
    InputEvent { time, kind: EventKind::Key, code: key, value: KEY_PRESSED }
}

/// One pass of remapping sends a key event's code through the table once,
/// also where the table would remap the result again.
pub proof fn lemma_remap_applies_once(remap: Map<u16, u16>, e: InputEvent)
    requires
        e.spec_is_key(),
    ensures
        spec_map_input_event(remap, e).code == spec_remap_code(remap, e.code),
        spec_map_input_event(remap, e).value == e.value,
        spec_map_input_event(remap, e).time == e.time,
{
}

/// Remapping is idempotent on every event whose remapped key code the
/// table leaves alone: a second pass then changes nothing.
pub proof fn lemma_remap_idempotent(remap: Map<u16, u16>, e: InputEvent)
    requires
        spec_remap_code(remap, spec_remap_code(remap, e.code)) == spec_remap_code(remap, e.code),
    ensures
        spec_map_input_event(remap, spec_map_input_event(remap, e)) == spec_map_input_event(
            remap,
            e,
        ),
{
}

/// Events that are no key events with a code in range pass through
/// remapping untouched.
pub proof fn lemma_remap_leaves_other_events(remap: Map<u16, u16>, e: InputEvent)
    requires
        !e.spec_is_key(),
    ensures
        spec_map_input_event(remap, e) == e,
{
}

/// A binding that fires on press emits its events, once, when one of its
/// triggers is pressed while all its modifiers are held.
pub proof fn lemma_hotkey_fires_when_modifiers_held<U>(
    b: Binding<U>,
    held: Set<u16>,
    grabbed: bool,
    trigger: u16,
    time: EventTime,
)
    requires
        b.on_press,
        b.hotkey.global || grabbed,
        b.hotkey.triggers@.contains(trigger),
        trigger < KEY_COUNT,
        b.spec_modifiers_held(held.insert(trigger)),
    ensures
        spec_actions(seq![b], held, grabbed, spec_press_event(time, trigger)) == b.hotkey.events@,
        spec_matches(seq![b], held, grabbed, spec_press_event(time, trigger)),
{
    reveal_with_fuel(spec_fired, 3);
    let bs = seq![b];
    assert(bs.last() == b);
    assert(bs.drop_last() =~= Seq::<Binding<U>>::empty());
    assert(Seq::<U>::empty() + b.hotkey.events@ =~= b.hotkey.events@);
    assert(bs[0].spec_fires(held.insert(trigger), grabbed, trigger, KEY_PRESSED));
}

/// A binding emits nothing while one of its modifiers is not held, whatever
/// key is pressed or released.
pub proof fn lemma_hotkey_needs_every_modifier<U>(
    b: Binding<U>,
    held: Set<u16>,
    grabbed: bool,
    e: InputEvent,
    missing: int,
)
    requires
        0 <= missing < b.hotkey.modifiers@.len(),
        !spec_held_after(held, e).contains(b.hotkey.modifiers@[missing]),
    ensures
        spec_actions(seq![b], held, grabbed, e) == Seq::<U>::empty(),
        !spec_matches(seq![b], held, grabbed, e),
{
    reveal_with_fuel(spec_fired, 3);
    let bs = seq![b];
    assert(bs.last() == b);
    assert(bs.drop_last() =~= Seq::<Binding<U>>::empty());
}

/// With modifiers `first` and `second` and trigger `trigger`, firing on
/// press: pressing the two modifiers and then the trigger, with no key
/// held before, emits the binding's events at the trigger and nothing
/// before it.
pub proof fn lemma_hotkey_modifiers_then_trigger<U>(
    b: Binding<U>,
    grabbed: bool,
    first: u16,
    second: u16,
    trigger: u16,
    time: EventTime,
)
    requires
        b.hotkey.modifiers@ == seq![first, second],
        b.hotkey.triggers@ == seq![trigger],
        b.on_press,
        b.hotkey.global || grabbed,
        first < KEY_COUNT,
        second < KEY_COUNT,
        trigger < KEY_COUNT,
        first != trigger,
        second != trigger,
    ensures
        ({
            let none = Set::<u16>::empty();
            let one = spec_held_after(none, spec_press_event(time, first));
            let two = spec_held_after(one, spec_press_event(time, second));
            &&& spec_actions(seq![b], none, grabbed, spec_press_event(time, first)) == Seq::<
                U,
            >::empty()
            &&& spec_actions(seq![b], one, grabbed, spec_press_event(time, second)) == Seq::<
                U,
            >::empty()
            &&& spec_actions(seq![b], two, grabbed, spec_press_event(time, trigger))
                == b.hotkey.events@
        }),
{
    reveal_with_fuel(spec_fired, 3);
    let bs = seq![b];
    assert(bs.last() == b);
    assert(bs.drop_last() =~= Seq::<Binding<U>>::empty());
    assert(b.hotkey.triggers@[0] == trigger);
    assert(!b.hotkey.triggers@.contains(first));
    assert(!b.hotkey.triggers@.contains(second));
    let none = Set::<u16>::empty();
    let one = spec_held_after(none, spec_press_event(time, first));
    let two = spec_held_after(one, spec_press_event(time, second));
    lemma_hotkey_fires_when_modifiers_held(b, two, grabbed, trigger, time);
}

/// With modifiers `first` and `second` and trigger `trigger`, firing on
/// press: pressing the trigger before the second modifier emits nothing,
/// neither at the trigger nor when the modifier follows.
pub proof fn lemma_hotkey_trigger_before_modifier<U>(
    b: Binding<U>,
    grabbed: bool,
    first: u16,
    second: u16,
    trigger: u16,
    time: EventTime,
)
    requires
        b.hotkey.modifiers@ == seq![first, second],
        b.hotkey.triggers@ == seq![trigger],
        b.on_press,
        first < KEY_COUNT,
        second < KEY_COUNT,
        trigger < KEY_COUNT,
        first != second,
        first != trigger,
        second != trigger,
    ensures
        ({
            let none = Set::<u16>::empty();
            let one = spec_held_after(none, spec_press_event(time, first));
            let two = spec_held_after(one, spec_press_event(time, trigger));
            &&& spec_actions(seq![b], none, grabbed, spec_press_event(time, first)) == Seq::<
                U,
            >::empty()
            &&& spec_actions(seq![b], one, grabbed, spec_press_event(time, trigger)) == Seq::<
                U,
            >::empty()
            &&& spec_actions(seq![b], two, grabbed, spec_press_event(time, second)) == Seq::<
                U,
            >::empty()
        }),
{
    reveal_with_fuel(spec_fired, 3);
    let bs = seq![b];
    assert(bs.last() == b);
    assert(bs.drop_last() =~= Seq::<Binding<U>>::empty());
    assert(b.hotkey.triggers@[0] == trigger);
    assert(!b.hotkey.triggers@.contains(first));
    assert(!b.hotkey.triggers@.contains(second));
    let none = Set::<u16>::empty();
    let one = spec_held_after(none, spec_press_event(time, first));
    assert(b.hotkey.modifiers@[1] == second);
    lemma_hotkey_needs_every_modifier(b, one, grabbed, spec_press_event(time, trigger), 1);
}

/// Once a modifier is released, pressing a trigger emits nothing for as
/// long as the modifier stays released.
pub proof fn lemma_released_modifier_blocks_hotkey<U>(
    b: Binding<U>,
    held: Set<u16>,
    grabbed: bool,
    modifier: int,
    trigger: u16,
    time: EventTime,
)
    requires
        0 <= modifier < b.hotkey.modifiers@.len(),
        b.hotkey.modifiers@[modifier] < KEY_COUNT,
        b.hotkey.modifiers@[modifier] != trigger,
    ensures
        ({
            let released = spec_held_after(
                held,
                spec_release_event(time, b.hotkey.modifiers@[modifier]),
            );
            &&& !released.contains(b.hotkey.modifiers@[modifier])
            &&& spec_actions(seq![b], released, grabbed, spec_press_event(time, trigger)) == Seq::<
                U,
            >::empty()
        }),
{
    let released = spec_held_after(held, spec_release_event(time, b.hotkey.modifiers@[modifier]));
    lemma_hotkey_needs_every_modifier(
        b,
        released,
        grabbed,
        spec_press_event(time, trigger),
        modifier,
    );
}

/// Bindings fire independently: registering one more binding appends what
/// it emits, if it fires, to what the others emit.
pub proof fn lemma_fired_in_registration_order<U>(
    bindings: Seq<Binding<U>>,
    b: Binding<U>,
    held: Set<u16>,
    grabbed: bool,
    key: u16,
    value: i32,
)
    ensures
        spec_fired(bindings.push(b), held, grabbed, key, value) == spec_fired(
            bindings,
            held,
            grabbed,
            key,
            value,
        ) + (if b.spec_fires(held, grabbed, key, value) {
            b.hotkey.events@
        } else {
            Seq::<U>::empty()
        }),
{
    assert(bindings.push(b).drop_last() =~= bindings);
    assert(bindings.push(b).last() == b);
    let rest = spec_fired(bindings, held, grabbed, key, value);
    assert(rest + Seq::<U>::empty() =~= rest);
}

} // verus!
