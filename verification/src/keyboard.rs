//! The keyboard side of the broker: a per-device table of key cells, the
//! process-wide observer registry that fans key transitions out to every live
//! table, and the [`Keyboard`] handle with identity equality.

use vstd::prelude::*;

use crate::Window;
use crate::keyboard::key::{KeyboardKey, KEY_COUNT};

/// The hardware key codes and their state-table indices.
pub mod key;

verus! {

/// State of one coalesced keyboard device: one boolean cell per hardware key,
/// plus the token of the window that most recently received a key event.
///
/// One instance exists per live [`Keyboard`] handle; the observer registry
/// fans every incoming key transition out to all instances.
pub struct Shared {
    keys: Vec<bool>,
    last_window: Option<Window>,
}

/// Mathematical model of one keyboard state table.
pub ghost struct SharedView {
    pub keys: Seq<bool>,
    pub last_window: Option<Window>,
}

impl View for Shared {
    type V = SharedView;

    closed spec fn view(&self) -> SharedView {
        SharedView { keys: self.keys@, last_window: self.last_window }
    }
}

impl SharedView {
    /// The table has exactly one cell per hardware key.
    pub open spec fn wf(self) -> bool {
        self.keys.len() == KEY_COUNT
    }

    /// A freshly constructed device: every key up, no window seen yet.
    pub open spec fn fresh() -> SharedView {
        SharedView { keys: Seq::new(KEY_COUNT as nat, |i: int| false), last_window: None }
    }

    /// Effect of one key transition: the key's own cell takes the new value,
    /// every other cell is untouched, and the event's window token is
    /// remembered.
    pub open spec fn after_key_event(
        self,
        key: KeyboardKey,
        pressed: bool,
        window: Option<Window>,
    ) -> SharedView {
        SharedView { keys: self.keys.update(key.index_spec(), pressed), last_window: window }
    }
}

impl Shared {
    /// A fresh state table with every key unpressed.
    fn new() -> (r: Shared)
        ensures
            r@ == SharedView::fresh(),
    {
        let keys: Vec<bool> = vec![false; KEY_COUNT];
        let r = Shared { keys, last_window: None };
        proof {
            assert(r@.keys =~= SharedView::fresh().keys);
        }
        r
    }

    /// Unconditional store into one key's cell; other cells are independent
    /// and keep their values.
    fn set_key_state(&mut self, key: KeyboardKey, pressed: bool, window: Option<Window>)
        requires
            old(self)@.wf(),
        ensures
            final(self)@ == old(self)@.after_key_event(key, pressed, window),
    {
        let idx = key.index();
        self.keys[idx] = pressed;
        self.last_window = window;
    }
}

/// One entry of the observer registry.  A slot outlives the device states it
/// carries: when a handle is released the slot goes dead (its state is
/// dropped), and a later registration may reclaim it under a fresh
/// generation.
pub struct Slot {
    gen: u64,
    state: Option<Shared>,
}

/// Mathematical model of one registry slot.
pub ghost struct SlotView {
    pub gen: u64,
    pub state: Option<SharedView>,
}

impl View for Slot {
    type V = SlotView;

    closed spec fn view(&self) -> SlotView {
        SlotView {
            gen: self.gen,
            state: match self.state {
                Some(s) => Some(s@),
                None => None,
            },
        }
    }
}

impl SlotView {
    /// Effect of fanning one key transition out to this slot: a live state is
    /// updated, a dead slot is left exactly as it is.
    pub open spec fn after_key_event(
        self,
        key: KeyboardKey,
        pressed: bool,
        window: Option<Window>,
    ) -> SlotView {
        match self.state {
            Some(s) => SlotView { gen: self.gen, state: Some(s.after_key_event(key, pressed, window)) },
            None => self,
        }
    }
}

/// The observer registry for the keyboard device class: the process-wide list
/// of every keyboard state table ever registered, live or dead.
///
/// Platform event plumbing owns one registry per process (behind its own
/// lock) and calls [`KeyboardRegistry::fan_out_key`] once per native key
/// event; application code reaches the registry only through [`Keyboard`]
/// handles.
pub struct KeyboardRegistry {
    slots: Vec<Slot>,
}

/// Mathematical model of the keyboard registry.
pub ghost struct RegistryView {
    pub slots: Seq<SlotView>,
}

impl View for KeyboardRegistry {
    type V = RegistryView;

    closed spec fn view(&self) -> RegistryView {
        RegistryView { slots: self.slots@.map_values(|s: Slot| s@) }
    }
}

/// A handle to one coalesced keyboard device.
///
/// Two handles are equal exactly when they name the same registered device
/// (same slot, same generation), never by the contents of the state they
/// observe.
#[derive(Debug, Hash, PartialEq, Eq, Structural)]
pub struct Keyboard {
    /// Index of the registry slot this handle was registered into.
    pub slot: usize,
    /// Generation of that slot at registration time; a reclaimed slot gets a
    /// fresh generation, so a stale handle never matches it again.
    pub gen: u64,
}

impl RegistryView {
    /// Every live state table in the registry is well formed.
    pub open spec fn wf(self) -> bool {
        forall|i: int|
            0 <= i < self.slots.len() ==> ((#[trigger] self.slots[i]).state matches Some(s)
                ==> s.wf())
    }

    /// The handle names a registered device that has not been released.
    pub open spec fn live(self, h: Keyboard) -> bool {
        &&& h.slot < self.slots.len()
        &&& self.slots[h.slot as int].gen == h.gen
        &&& self.slots[h.slot as int].state is Some
    }

    /// The state table observed through a live handle.
    pub open spec fn state_of(self, h: Keyboard) -> SharedView
        recommends
            self.live(h),
    {
        self.slots[h.slot as int].state->Some_0
    }

    /// Whether the given key reads as pressed through the given handle.
    pub open spec fn key_down(self, h: Keyboard, key: KeyboardKey) -> bool {
        self.state_of(h).keys[key.index_spec()]
    }

    /// Effect of fanning one key transition out to every live device.
    pub open spec fn after_key_event(
        self,
        key: KeyboardKey,
        pressed: bool,
        window: Option<Window>,
    ) -> RegistryView {
        RegistryView { slots: self.slots.map_values(|s: SlotView| s.after_key_event(key, pressed, window)) }
    }

    /// A slot that a new registration may reclaim.
    pub open spec fn free_slot(self, i: int) -> bool {
        self.slots[i].state is None && self.slots[i].gen < u64::MAX
    }
}

/// What registering one fresh device guarantees: the new handle is live and
/// observes an all-unpressed table, every previously live handle stays live
/// with its state untouched, the new handle equals no previously live handle,
/// and no other handle springs to life.
pub open spec fn register_post(pre: RegistryView, post: RegistryView, h: Keyboard) -> bool {
    &&& post.wf()
    &&& post.live(h)
    &&& post.state_of(h) == SharedView::fresh()
    &&& forall|h2: Keyboard|
        pre.live(h2) ==> #[trigger] post.live(h2) && post.state_of(h2) == pre.state_of(h2) && h2
            != h
    &&& forall|h2: Keyboard| #[trigger] post.live(h2) ==> pre.live(h2) || h2 == h
    &&& pre.slots.len() <= post.slots.len() <= pre.slots.len() + 1
}

/// What releasing a handle guarantees: the handle is dead, its state is gone
/// from the registry, and every other live handle keeps its state.
pub open spec fn release_post(pre: RegistryView, post: RegistryView, h: Keyboard) -> bool {
    &&& post.wf()
    &&& !post.live(h)
    &&& post.slots.len() == pre.slots.len()
    &&& post.slots[h.slot as int].state is None
    &&& forall|h2: Keyboard|
        h2 != h && pre.live(h2) ==> #[trigger] post.live(h2) && post.state_of(h2) == pre.state_of(
            h2,
        )
    &&& forall|h2: Keyboard| #[trigger] post.live(h2) ==> pre.live(h2) && h2 != h
}

impl KeyboardRegistry {
    /// An empty registry: no device has ever been registered.
    pub fn new() -> (r: KeyboardRegistry)
        ensures
            r@.wf(),
            r@.slots.len() == 0,
    {
        KeyboardRegistry { slots: Vec::new() }
    }

    /// Ingestion entry point for one key-or-button transition: fans the event
    /// out to every live device state; dead slots are left untouched.
    ///
    /// Called by platform event plumbing, once per native key event.
    pub fn fan_out_key(&mut self, key: KeyboardKey, pressed: bool, window: Option<Window>)
        requires
            old(self)@.wf(),
        ensures
            final(self)@ == old(self)@.after_key_event(key, pressed, window),
            final(self)@.wf(),
    {
        let ghost pre = self@;
        let n = self.slots.len();
        let mut i: usize = 0;
        while i < n
            invariant
                pre.wf(),
                i <= n,
                n == pre.slots.len(),
                self.slots@.len() == n,
                forall|j: int|
                    0 <= j < i ==> (#[trigger] self.slots@[j])@ == pre.slots[j].after_key_event(
                        key,
                        pressed,
                        window,
                    ),
                forall|j: int| i <= j < n ==> (#[trigger] self.slots@[j])@ == pre.slots[j],
            decreases n - i,
        {
            let slot = &mut self.slots[i];
            match &mut slot.state {
                Some(st) => {
                    st.set_key_state(key, pressed, window);
                },
                None => {},
            }
            i = i + 1;
        }
        proof {
            let post = pre.after_key_event(key, pressed, window);
            assert(self@.slots =~= post.slots);
            assert forall|j: int|
                0 <= j < post.slots.len() implies ((#[trigger] post.slots[j]).state matches Some(s)
                ==> s.wf()) by {
                assert(post.slots[j] == pre.slots[j].after_key_event(key, pressed, window));
            }
        }
    }
}

impl Keyboard {
    /// Create a keyboard representing all coalesced keyboards on the system.
    ///
    /// Registers a fresh, all-unpressed state table with the observer
    /// registry and returns the handle that owns it.  Every call establishes
    /// an independent logical device; each nonetheless receives every fanned
    /// out event.
    pub fn coalesced(reg: &mut KeyboardRegistry) -> (h: Keyboard)
        requires
            old(reg)@.wf(),
        ensures
            register_post(old(reg)@, final(reg)@, h),
    {
        let ghost pre = reg@;
        let n = reg.slots.len();
        let mut i: usize = 0;
        while i < n
            invariant
                pre.wf(),
                pre == old(reg)@,
                i <= n,
                n == pre.slots.len(),
                reg@ == pre,
                forall|j: int| 0 <= j < i ==> !pre.free_slot(j),
            decreases n - i,
        {
            let reuse = {
                let slot = &reg.slots[i];
                slot.state.is_none() && slot.gen < u64::MAX
            };
            if reuse {
                let g = {
                    let slot = &reg.slots[i];
                    slot.gen + 1
                };
                let fresh = Shared::new();
                let slot = &mut reg.slots[i];
                slot.gen = g;
                slot.state = Some(fresh);
                let h = Keyboard { slot: i, gen: g };
                proof {
                    lemma_register_update(pre, reg@, h);
                }
                return h;
            }
            i = i + 1;
        }
        let fresh = Shared::new();
        let h = Keyboard { slot: reg.slots.len(), gen: 0 };
        reg.slots.push(Slot { gen: 0, state: Some(fresh) });
        proof {
            lemma_register_push(pre, reg@, h);
        }
        h
    }

    /// Whether this handle still names a registered, unreleased device in
    /// the given registry.  Unverified callers can test this before reading.
    pub fn is_live(&self, reg: &KeyboardRegistry) -> (r: bool)
        ensures
            r == reg@.live(*self),
    {
        if self.slot < reg.slots.len() {
            let slot = &reg.slots[self.slot];
            slot.gen == self.gen && slot.state.is_some()
        } else {
            false
        }
    }

    /// Determines if the key provided is pressed, as of the most recent event
    /// fanned out to this device.
    pub fn is_pressed(&self, reg: &KeyboardRegistry, key: KeyboardKey) -> (r: bool)
        requires
            reg@.wf(),
            reg@.live(*self),
        ensures
            r == reg@.key_down(*self, key),
    {
        let slot = &reg.slots[self.slot];
        match &slot.state {
            Some(st) => st.keys[key.index()],
            None => false,
        }
    }

    /// Release this handle: the device state it owns is dropped, and the next
    /// event delivery passes its dead registry slot by.  This is the only
    /// unregistration mechanism.
    pub fn release(self, reg: &mut KeyboardRegistry)
        requires
            old(reg)@.wf(),
            old(reg)@.live(self),
        ensures
            release_post(old(reg)@, final(reg)@, self),
    {
        let ghost pre = reg@;
        let slot = &mut reg.slots[self.slot];
        slot.state = None;
        proof {
            let post = reg@;
            assert(post.slots =~= pre.slots.update(
                self.slot as int,
                SlotView { gen: pre.slots[self.slot as int].gen, state: None },
            ));
            assert forall|h2: Keyboard| h2 != self && pre.live(h2) implies #[trigger] post.live(h2)
                && post.state_of(h2) == pre.state_of(h2) by {
                assert(h2.slot != self.slot);
            }
        }
    }
}

/// One key-or-button transition, as fanned out to every live device.
#[derive(Debug, Clone, Copy, PartialEq, Eq, Structural)]
pub struct KeyEvent {
    pub key: KeyboardKey,
    pub pressed: bool,
    pub window: Option<Window>,
}

/// The state table after a whole sequence of key transitions, applied oldest
/// first.
pub open spec fn apply_key_events(s: SharedView, evs: Seq<KeyEvent>) -> SharedView
    decreases evs.len(),
{
    if evs.len() == 0 {
        s
    } else {
        apply_key_events(
            s.after_key_event(evs[0].key, evs[0].pressed, evs[0].window),
            evs.drop_first(),
        )
    }
}

/// Key transitions keep the table well formed.
pub proof fn lemma_apply_key_events_wf(s: SharedView, evs: Seq<KeyEvent>)
    requires
        s.wf(),
    ensures
        apply_key_events(s, evs).wf(),
    decreases evs.len(),
{
    if evs.len() > 0 {
        evs[0].key.lemma_index_bound();
        lemma_apply_key_events_wf(
            s.after_key_event(evs[0].key, evs[0].pressed, evs[0].window),
            evs.drop_first(),
        );
    }
}

/// A key that no transition in the sequence touches keeps its reading,
/// regardless of what happens to any other key.
pub proof fn lemma_untouched_key_persists(s: SharedView, k: KeyboardKey, evs: Seq<KeyEvent>)
    requires
        s.wf(),
        forall|i: int| 0 <= i < evs.len() ==> (#[trigger] evs[i]).key != k,
    ensures
        apply_key_events(s, evs).keys[k.index_spec()] == s.keys[k.index_spec()],
    decreases evs.len(),
{
    if evs.len() > 0 {
        let e = evs[0];
        let s1 = s.after_key_event(e.key, e.pressed, e.window);
        e.key.lemma_index_bound();
        e.key.lemma_of_index_of();
        k.lemma_index_bound();
        k.lemma_of_index_of();
        assert(e.key.index_spec() != k.index_spec());
        assert(s1.keys[k.index_spec()] == s.keys[k.index_spec()]);
        assert(forall|i: int|
            0 <= i < evs.drop_first().len() ==> (#[trigger] evs.drop_first()[i]).key != k);
        lemma_untouched_key_persists(s1, k, evs.drop_first());
    }
}

/// The reading of a key equals the most recently applied transition for that
/// key, whatever happened to other keys in between.
pub proof fn lemma_latest_transition_wins(
    s: SharedView,
    k: KeyboardKey,
    v: bool,
    w: Option<Window>,
    evs: Seq<KeyEvent>,
)
    requires
        s.wf(),
        forall|i: int| 0 <= i < evs.len() ==> (#[trigger] evs[i]).key != k,
    ensures
        apply_key_events(s.after_key_event(k, v, w), evs).keys[k.index_spec()] == v,
{
    k.lemma_index_bound();
    lemma_untouched_key_persists(s.after_key_event(k, v, w), k, evs);
}

/// A key never touched since the device was constructed reads as unpressed.
pub proof fn lemma_fresh_key_unpressed(k: KeyboardKey, evs: Seq<KeyEvent>)
    requires
        forall|i: int| 0 <= i < evs.len() ==> (#[trigger] evs[i]).key != k,
    ensures
        apply_key_events(SharedView::fresh(), evs).keys[k.index_spec()] == false,
{
    k.lemma_index_bound();
    lemma_untouched_key_persists(SharedView::fresh(), k, evs);
}

/// Fanning an event out neither wakes nor kills any handle, and the state
/// seen through every live handle takes exactly that one transition.
pub proof fn lemma_fan_out_key_view(
    v: RegistryView,
    h: Keyboard,
    key: KeyboardKey,
    pressed: bool,
    window: Option<Window>,
)
    requires
        v.wf(),
    ensures
        v.after_key_event(key, pressed, window).live(h) == v.live(h),
        v.live(h) ==> v.after_key_event(key, pressed, window).state_of(h) == v.state_of(
            h,
        ).after_key_event(key, pressed, window),
{
}

/// Handles from two separate registrations are never equal, even though both
/// devices receive the same fanned out events.
pub proof fn lemma_distinct_registrations(
    r0: RegistryView,
    r1: RegistryView,
    r2: RegistryView,
    h1: Keyboard,
    h2: Keyboard,
)
    requires
        register_post(r0, r1, h1),
        register_post(r1, r2, h2),
    ensures
        h1 != h2,
        r2.live(h1),
        r2.live(h2),
{
}

/// After a handle is released, a later fan-out passes its dead slot by — the
/// released device's state is gone and stays gone — while every remaining
/// live handle still receives the event.
pub proof fn lemma_release_then_fan_out(
    pre: RegistryView,
    post: RegistryView,
    h: Keyboard,
    h2: Keyboard,
    key: KeyboardKey,
    pressed: bool,
    window: Option<Window>,
)
    requires
        pre.wf(),
        pre.live(h),
        release_post(pre, post, h),
        h2 != h,
        pre.live(h2),
    ensures
        !post.after_key_event(key, pressed, window).live(h),
        post.after_key_event(key, pressed, window).slots[h.slot as int].state is None,
        post.after_key_event(key, pressed, window).live(h2),
        post.after_key_event(key, pressed, window).state_of(h2) == pre.state_of(
            h2,
        ).after_key_event(key, pressed, window),
{
    lemma_fan_out_key_view(post, h, key, pressed, window);
    lemma_fan_out_key_view(post, h2, key, pressed, window);
}

proof fn lemma_register_update(pre: RegistryView, post: RegistryView, h: Keyboard)
    requires
        pre.wf(),
        h.slot < pre.slots.len(),
        pre.slots[h.slot as int].state is None,
        h.gen == pre.slots[h.slot as int].gen + 1,
        post.slots =~= pre.slots.update(
            h.slot as int,
            SlotView { gen: h.gen, state: Some(SharedView::fresh()) },
        ),
    ensures
        register_post(pre, post, h),
{
    assert forall|h2: Keyboard| pre.live(h2) implies #[trigger] post.live(h2) && post.state_of(h2)
        == pre.state_of(h2) && h2 != h by {
        assert(h2.slot != h.slot);
    }
}

proof fn lemma_register_push(pre: RegistryView, post: RegistryView, h: Keyboard)
    requires
        pre.wf(),
        h.slot == pre.slots.len(),
        h.gen == 0,
        post.slots =~= pre.slots.push(SlotView { gen: 0, state: Some(SharedView::fresh()) }),
    ensures
        register_post(pre, post, h),
{
    assert forall|h2: Keyboard| pre.live(h2) implies #[trigger] post.live(h2) && post.state_of(h2)
        == pre.state_of(h2) && h2 != h by {
        assert(h2.slot < pre.slots.len());
    }
}

} // verus!
