//! The mouse side of the broker: a per-device state object (button cells, a
//! window-location snapshot and two scroll accumulators), the observer
//! registry that fans pointer events out to every live state, and the
//! [`Mouse`] handle with identity equality.

use vstd::prelude::*;

use crate::Window;

/// Wayland-style ingestion entry points: pointer motion, surface size,
/// buttons and axes.
pub mod linux;
/// Browser-style ingestion helpers.
pub mod wasm;
/// Win32-style ingestion: the message-dispatch entry point and the helpers
/// that unpack packed message parameters.
pub mod windows;

verus! {

/// Button code of the primary (left) mouse button.
pub const MOUSE_BUTTON_LEFT: u8 = 0;

/// Button code of the secondary (right) mouse button.
pub const MOUSE_BUTTON_RIGHT: u8 = 1;

/// Button code of the middle mouse button.
pub const MOUSE_BUTTON_MIDDLE: u8 = 2;

/// Number of button cells per device; button codes index this table.
pub const BUTTON_COUNT: usize = 255;

/// Mouse's location in the window, in points, with the origin at the
/// upper-left, together with the window's size and identity.
///
/// The four positional fields always travel as one consistent snapshot: a
/// reader never sees a new position paired with a stale window size.
#[derive(Debug, Clone, Copy, PartialEq, Eq, Structural)]
pub struct MouseWindowLocation {
    /// Pointer x position in the window.
    pub pos_x: i64,
    /// Pointer y position in the window.
    pub pos_y: i64,
    /// Width of the window the snapshot was taken in.
    pub window_width: i64,
    /// Height of the window the snapshot was taken in.
    pub window_height: i64,
    /// Token of the window the event was delivered to, if any.
    pub window: Option<Window>,
}

impl MouseWindowLocation {
    /// Assembles one location snapshot.
    pub fn new(
        pos_x: i64,
        pos_y: i64,
        window_width: i64,
        window_height: i64,
        window: Option<Window>,
    ) -> (r: MouseWindowLocation)
        ensures
            r == (MouseWindowLocation { pos_x, pos_y, window_width, window_height, window }),
    {
        MouseWindowLocation { pos_x, pos_y, window_width, window_height, window }
    }

    /// Pointer x position of this snapshot.
    pub fn pos_x(&self) -> (r: i64)
        ensures
            r == self.pos_x,
    {
        self.pos_x
    }

    /// Pointer y position of this snapshot.
    pub fn pos_y(&self) -> (r: i64)
        ensures
            r == self.pos_y,
    {
        self.pos_y
    }

    /// Window width of this snapshot.
    pub fn window_width(&self) -> (r: i64)
        ensures
            r == self.window_width,
    {
        self.window_width
    }

    /// Window height of this snapshot.
    pub fn window_height(&self) -> (r: i64)
        ensures
            r == self.window_height,
    {
        self.window_height
    }
}

/// `a + b` clamped to the representable range; scroll deltas accumulate with
/// this, so an extreme backlog pins at the range's edge instead of failing.
pub open spec fn sat_add_spec(a: int, b: int) -> int {
    if a + b > i64::MAX as int {
        i64::MAX as int
    } else if a + b < i64::MIN as int {
        i64::MIN as int
    } else {
        a + b
    }
}

/// Saturating addition of two accumulator values.
pub fn sat_add(a: i64, b: i64) -> (r: i64)
    ensures
        r as int == sat_add_spec(a as int, b as int),
{
    if b >= 0 {
        if a > i64::MAX - b {
            i64::MAX
        } else {
            a + b
        }
    } else {
        if a < i64::MIN - b {
            i64::MIN
        } else {
            a + b
        }
    }
}

/// State of one coalesced mouse device: one boolean cell per button code, the
/// most recent window-location snapshot, two scroll accumulators, and the
/// token of the window that most recently received an event.
pub struct Shared {
    window: Option<MouseWindowLocation>,
    buttons: Vec<bool>,
    scroll_delta_x: i64,
    scroll_delta_y: i64,
    last_window: Option<Window>,
}

/// Mathematical model of one mouse state object.
pub ghost struct SharedView {
    pub window: Option<MouseWindowLocation>,
    pub buttons: Seq<bool>,
    pub scroll_delta_x: i64,
    pub scroll_delta_y: i64,
    pub last_window: Option<Window>,
}

impl View for Shared {
    type V = SharedView;

    closed spec fn view(&self) -> SharedView {
        SharedView {
            window: self.window,
            buttons: self.buttons@,
            scroll_delta_x: self.scroll_delta_x,
            scroll_delta_y: self.scroll_delta_y,
            last_window: self.last_window,
        }
    }
}

impl SharedView {
    /// The button table has exactly one cell per button code.
    pub open spec fn wf(self) -> bool {
        self.buttons.len() == BUTTON_COUNT
    }

    /// A freshly constructed device: no snapshot yet, every button up, empty
    /// scroll accumulators.
    pub open spec fn fresh() -> SharedView {
        SharedView {
            window: None,
            buttons: Seq::new(BUTTON_COUNT as nat, |i: int| false),
            scroll_delta_x: 0,
            scroll_delta_y: 0,
            last_window: None,
        }
    }

    /// Effect of one pointer-motion event: the four positional fields are
    /// replaced as a single snapshot, and the snapshot's window token is
    /// remembered.
    pub open spec fn after_window_location(self, loc: MouseWindowLocation) -> SharedView {
        SharedView { window: Some(loc), last_window: loc.window, ..self }
    }

    /// Effect of one button transition: the button's own cell takes the new
    /// value, every other cell is untouched.
    pub open spec fn after_button(self, button: u8, down: bool, window: Option<Window>) -> SharedView {
        SharedView { buttons: self.buttons.update(button as int, down), last_window: window, ..self }
    }

    /// Effect of one scroll event: the deltas accumulate — they never
    /// overwrite — saturating at the representable range.
    pub open spec fn after_scroll(self, dx: i64, dy: i64, window: Option<Window>) -> SharedView {
        SharedView {
            scroll_delta_x: sat_add_spec(self.scroll_delta_x as int, dx as int) as i64,
            scroll_delta_y: sat_add_spec(self.scroll_delta_y as int, dy as int) as i64,
            last_window: window,
            ..self
        }
    }

    /// Effect of draining the scroll accumulators: both reset to zero,
    /// everything else untouched.
    pub open spec fn drained(self) -> SharedView {
        SharedView { scroll_delta_x: 0, scroll_delta_y: 0, ..self }
    }
}

impl Shared {
    /// A fresh mouse state object.
    fn new() -> (r: Shared)
        ensures
            r@ == SharedView::fresh(),
    {
        let buttons: Vec<bool> = vec![false; BUTTON_COUNT];
        let r = Shared {
            window: None,
            buttons,
            scroll_delta_x: 0,
            scroll_delta_y: 0,
            last_window: None,
        };
        proof {
            assert(r@.buttons =~= SharedView::fresh().buttons);
        }
        r
    }

    /// Replaces the location snapshot in one step.
    fn set_window_location(&mut self, location: MouseWindowLocation)
        ensures
            final(self)@ == old(self)@.after_window_location(location),
    {
        self.window = Some(location);
        self.last_window = location.window;
    }

    /// Unconditional store into one button's cell.
    fn set_key_state(&mut self, key: u8, down: bool, window: Option<Window>)
        requires
            old(self)@.wf(),
            key < BUTTON_COUNT,
        ensures
            final(self)@ == old(self)@.after_button(key, down, window),
    {
        let idx: usize = key as usize;
        self.buttons[idx] = down;
        self.last_window = window;
    }

    /// Accumulates one scroll event into both accumulators.
    fn add_scroll_delta(&mut self, delta_x: i64, delta_y: i64, window: Option<Window>)
        ensures
            final(self)@ == old(self)@.after_scroll(delta_x, delta_y, window),
    {
        self.scroll_delta_x = sat_add(self.scroll_delta_x, delta_x);
        self.scroll_delta_y = sat_add(self.scroll_delta_y, delta_y);
        self.last_window = window;
    }
}

/// One entry of the observer registry; see the keyboard side for the slot
/// discipline (dead slots are reclaimed by later registrations under a fresh
/// generation).
pub struct Slot {
    gen: u64,
    state: Option<Shared>,
}

/// Mathematical model of one registry slot.
pub ghost struct SlotView {
    pub gen: u64,
    pub state: Option<SharedView>,
}

impl View for Slot {
    type V = SlotView;

    closed spec fn view(&self) -> SlotView {
        SlotView {
            gen: self.gen,
            state: match self.state {
                Some(s) => Some(s@),
                None => None,
            },
        }
    }
}

impl SlotView {
    /// Applies a per-state transition to a live slot; a dead slot is left
    /// exactly as it is.
    pub open spec fn map_state(self, f: spec_fn(SharedView) -> SharedView) -> SlotView {
        match self.state {
            Some(s) => SlotView { gen: self.gen, state: Some(f(s)) },
            None => self,
        }
    }
}

/// The observer registry for the mouse device class, plus the most recent
/// partial pointer coordinates delivered by adapters that report position and
/// window size through separate events.
pub struct MouseRegistry {
    slots: Vec<Slot>,
    recent_x_pos: Option<i64>,
    recent_y_pos: Option<i64>,
    recent_window_width: Option<i32>,
    recent_window_height: Option<i32>,
}

/// Mathematical model of the mouse registry.
pub ghost struct RegistryView {
    pub slots: Seq<SlotView>,
    pub recent_x_pos: Option<i64>,
    pub recent_y_pos: Option<i64>,
    pub recent_window_width: Option<i32>,
    pub recent_window_height: Option<i32>,
}

impl View for MouseRegistry {
    type V = RegistryView;

    closed spec fn view(&self) -> RegistryView {
        RegistryView {
            slots: self.slots@.map_values(|s: Slot| s@),
            recent_x_pos: self.recent_x_pos,
            recent_y_pos: self.recent_y_pos,
            recent_window_width: self.recent_window_width,
            recent_window_height: self.recent_window_height,
        }
    }
}

/// A handle to one coalesced mouse device.
///
/// Two handles are equal exactly when they name the same registered device
/// (same slot, same generation), never by the contents of the state they
/// observe.
#[derive(Debug, Hash, PartialEq, Eq, Structural)]
pub struct Mouse {
    /// Index of the registry slot this handle was registered into.
    pub slot: usize,
    /// Generation of that slot at registration time.
    pub gen: u64,
}

impl RegistryView {
    /// Every live state object in the registry is well formed.
    pub open spec fn wf(self) -> bool {
        forall|i: int|
            0 <= i < self.slots.len() ==> ((#[trigger] self.slots[i]).state matches Some(s)
                ==> s.wf())
    }

    /// The handle names a registered device that has not been released.
    pub open spec fn live(self, h: Mouse) -> bool {
        &&& h.slot < self.slots.len()
        &&& self.slots[h.slot as int].gen == h.gen
        &&& self.slots[h.slot as int].state is Some
    }

    /// The state observed through a live handle.
    pub open spec fn state_of(self, h: Mouse) -> SharedView
        recommends
            self.live(h),
    {
        self.slots[h.slot as int].state->Some_0
    }

    /// Applies a per-state transition to every live slot.
    pub open spec fn map_states(self, f: spec_fn(SharedView) -> SharedView) -> RegistryView {
        RegistryView { slots: self.slots.map_values(|s: SlotView| s.map_state(f)), ..self }
    }

    /// Effect of fanning one pointer-motion snapshot out to every live
    /// device.
    pub open spec fn after_window_location(self, loc: MouseWindowLocation) -> RegistryView {
        self.map_states(|s: SharedView| s.after_window_location(loc))
    }

    /// Effect of fanning one button transition out to every live device.
    pub open spec fn after_button(self, button: u8, down: bool, window: Option<Window>) -> RegistryView {
        self.map_states(|s: SharedView| s.after_button(button, down, window))
    }

    /// Effect of fanning one scroll event out to every live device.
    pub open spec fn after_scroll(self, dx: i64, dy: i64, window: Option<Window>) -> RegistryView {
        self.map_states(|s: SharedView| s.after_scroll(dx, dy, window))
    }

    /// Effect of draining one device's scroll accumulators.
    pub open spec fn after_drain(self, h: Mouse) -> RegistryView
        recommends
            self.live(h),
    {
        RegistryView {
            slots: self.slots.update(
                h.slot as int,
                SlotView { gen: self.slots[h.slot as int].gen, state: Some(self.state_of(h).drained()) },
            ),
            ..self
        }
    }

    /// A slot that a new registration may reclaim.
    pub open spec fn free_slot(self, i: int) -> bool {
        self.slots[i].state is None && self.slots[i].gen < u64::MAX
    }

    /// All four partial pointer coordinates have been seen at least once.
    pub open spec fn recents_complete(self) -> bool {
        &&& self.recent_x_pos is Some
        &&& self.recent_y_pos is Some
        &&& self.recent_window_width is Some
        &&& self.recent_window_height is Some
    }

    /// The snapshot assembled from the four most recent partial coordinates.
    pub open spec fn recent_location(self) -> MouseWindowLocation
        recommends
            self.recents_complete(),
    {
        MouseWindowLocation {
            pos_x: self.recent_x_pos->Some_0,
            pos_y: self.recent_y_pos->Some_0,
            window_width: self.recent_window_width->Some_0 as i64,
            window_height: self.recent_window_height->Some_0 as i64,
            window: None,
        }
    }
}

/// What registering one fresh mouse device guarantees; the shape matches the
/// keyboard side: the new handle is live over a fresh state, everything
/// previously live is untouched and distinct from the new handle, and the
/// recent partial coordinates are untouched.
pub open spec fn register_post(pre: RegistryView, post: RegistryView, h: Mouse) -> bool {
    &&& post.wf()
    &&& post.live(h)
    &&& post.state_of(h) == SharedView::fresh()
    &&& forall|h2: Mouse|
        pre.live(h2) ==> #[trigger] post.live(h2) && post.state_of(h2) == pre.state_of(h2) && h2
            != h
    &&& forall|h2: Mouse| #[trigger] post.live(h2) ==> pre.live(h2) || h2 == h
    &&& pre.slots.len() <= post.slots.len() <= pre.slots.len() + 1
    &&& post == RegistryView { slots: post.slots, ..pre }
}

/// What releasing a mouse handle guarantees: the handle is dead, its state is
/// gone from the registry, and every other live handle keeps its state.
pub open spec fn release_post(pre: RegistryView, post: RegistryView, h: Mouse) -> bool {
    &&& post.wf()
    &&& !post.live(h)
    &&& post.slots.len() == pre.slots.len()
    &&& post.slots[h.slot as int].state is None
    &&& forall|h2: Mouse|
        h2 != h && pre.live(h2) ==> #[trigger] post.live(h2) && post.state_of(h2) == pre.state_of(
            h2,
        )
    &&& forall|h2: Mouse| #[trigger] post.live(h2) ==> pre.live(h2) && h2 != h
    &&& post == RegistryView { slots: post.slots, ..pre }
}

impl MouseRegistry {
    /// An empty registry: no device has ever been registered, no partial
    /// coordinates seen.
    pub fn new() -> (r: MouseRegistry)
        ensures
            r@.wf(),
            r@.slots.len() == 0,
            r@.recent_x_pos is None,
            r@.recent_y_pos is None,
            r@.recent_window_width is None,
            r@.recent_window_height is None,
    {
        MouseRegistry {
            slots: Vec::new(),
            recent_x_pos: None,
            recent_y_pos: None,
            recent_window_width: None,
            recent_window_height: None,
        }
    }

    /// Ingestion entry point for one pointer-motion event: fans the snapshot
    /// out to every live device; dead slots are passed by.
    pub fn fan_out_window_location(&mut self, location: MouseWindowLocation)
        requires
            old(self)@.wf(),
        ensures
            final(self)@ == old(self)@.after_window_location(location),
            final(self)@.wf(),
    {
        let ghost pre = self@;
        let n = self.slots.len();
        let mut i: usize = 0;
        while i < n
            invariant
                pre.wf(),
                i <= n,
                n == pre.slots.len(),
                self.slots@.len() == n,
                self@ == (RegistryView { slots: self@.slots, ..pre }),
                forall|j: int|
                    0 <= j < i ==> (#[trigger] self.slots@[j])@ == pre.slots[j].map_state(
                        |s: SharedView| s.after_window_location(location),
                    ),
                forall|j: int| i <= j < n ==> (#[trigger] self.slots@[j])@ == pre.slots[j],
            decreases n - i,
        {
            let slot = &mut self.slots[i];
            match &mut slot.state {
                Some(st) => {
                    st.set_window_location(location);
                },
                None => {},
            }
            i = i + 1;
        }
        proof {
            lemma_map_states_wrap(pre, self@, |s: SharedView| s.after_window_location(location));
        }
    }

    /// Ingestion entry point for one key-or-button transition: fans the new
    /// button state out to every live device.
    pub fn fan_out_button(&mut self, button: u8, down: bool, window: Option<Window>)
        requires
            old(self)@.wf(),
            button < BUTTON_COUNT,
        ensures
            final(self)@ == old(self)@.after_button(button, down, window),
            final(self)@.wf(),
    {
        let ghost pre = self@;
        let n = self.slots.len();
        let mut i: usize = 0;
        while i < n
            invariant
                pre.wf(),
                button < BUTTON_COUNT,
                i <= n,
                n == pre.slots.len(),
                self.slots@.len() == n,
                self@ == (RegistryView { slots: self@.slots, ..pre }),
                forall|j: int|
                    0 <= j < i ==> (#[trigger] self.slots@[j])@ == pre.slots[j].map_state(
                        |s: SharedView| s.after_button(button, down, window),
                    ),
                forall|j: int| i <= j < n ==> (#[trigger] self.slots@[j])@ == pre.slots[j],
            decreases n - i,
        {
            let slot = &mut self.slots[i];
            match &mut slot.state {
                Some(st) => {
                    st.set_key_state(button, down, window);
                },
                None => {},
            }
            i = i + 1;
        }
        proof {
            lemma_map_states_wrap(pre, self@, |s: SharedView| s.after_button(button, down, window));
        }
    }

    /// Records the most recent pointer position delivered by an adapter that
    /// reports position and window size through separate events.
    pub fn set_recent_position(&mut self, x: i64, y: i64)
        ensures
            final(self)@ == (RegistryView {
                recent_x_pos: Some(x),
                recent_y_pos: Some(y),
                ..old(self)@
            }),
    {
        self.recent_x_pos = Some(x);
        self.recent_y_pos = Some(y);
    }

    /// Records the most recent window size delivered by such an adapter.
    pub fn set_recent_window_size(&mut self, width: i32, height: i32)
        ensures
            final(self)@ == (RegistryView {
                recent_window_width: Some(width),
                recent_window_height: Some(height),
                ..old(self)@
            }),
    {
        self.recent_window_width = Some(width);
        self.recent_window_height = Some(height);
    }

    /// Once all four partial pointer coordinates have been seen, assembles
    /// them into one snapshot and fans it out; until then, does nothing.
    pub fn send_events_if_needed(&mut self)
        requires
            old(self)@.wf(),
        ensures
            final(self)@ == (if old(self)@.recents_complete() {
                old(self)@.after_window_location(old(self)@.recent_location())
            } else {
                old(self)@
            }),
            final(self)@.wf(),
    {
        if let (Some(width), Some(height), Some(x), Some(y)) = (
            self.recent_window_width,
            self.recent_window_height,
            self.recent_x_pos,
            self.recent_y_pos,
        ) {
            let pos = MouseWindowLocation::new(x, y, width as i64, height as i64, None);
            self.fan_out_window_location(pos);
        }
    }

    /// Ingestion entry point for one scroll event: the deltas accumulate into
    /// every live device; nothing is overwritten.
    pub fn fan_out_scroll(&mut self, delta_x: i64, delta_y: i64, window: Option<Window>)
        requires
            old(self)@.wf(),
        ensures
            final(self)@ == old(self)@.after_scroll(delta_x, delta_y, window),
            final(self)@.wf(),
    {
        let ghost pre = self@;
        let n = self.slots.len();
        let mut i: usize = 0;
        while i < n
            invariant
                pre.wf(),
                i <= n,
                n == pre.slots.len(),
                self.slots@.len() == n,
                self@ == (RegistryView { slots: self@.slots, ..pre }),
                forall|j: int|
                    0 <= j < i ==> (#[trigger] self.slots@[j])@ == pre.slots[j].map_state(
                        |s: SharedView| s.after_scroll(delta_x, delta_y, window),
                    ),
                forall|j: int| i <= j < n ==> (#[trigger] self.slots@[j])@ == pre.slots[j],
            decreases n - i,
        {
            let slot = &mut self.slots[i];
            match &mut slot.state {
                Some(st) => {
                    st.add_scroll_delta(delta_x, delta_y, window);
                },
                None => {},
            }
            i = i + 1;
        }
        proof {
            lemma_map_states_wrap(pre, self@, |s: SharedView| s.after_scroll(delta_x, delta_y, window));
        }
    }
}

/// Packaging of the fan-out loop result: pointwise slot transitions make the
/// registry-level `map_states`, and well-formedness survives because every
/// per-state transition preserves the button table's length.
proof fn lemma_map_states_wrap(pre: RegistryView, post: RegistryView, f: spec_fn(SharedView) -> SharedView)
    requires
        pre.wf(),
        post.slots.len() == pre.slots.len(),
        forall|j: int|
            0 <= j < pre.slots.len() ==> (#[trigger] post.slots[j]) == pre.slots[j].map_state(f),
        forall|s: SharedView| s.wf() ==> (#[trigger] f(s)).wf(),
        post == (RegistryView { slots: post.slots, ..pre }),
    ensures
        post == pre.map_states(f),
        post.wf(),
{
    assert(post.slots =~= pre.map_states(f).slots);
}

impl Mouse {
    /// Returns an object that coalesces input from all mice on the system.
    ///
    /// Registers a fresh state object with the observer registry and returns
    /// the handle that owns it.  Every call establishes an independent
    /// logical device; each nonetheless receives every fanned out event.
    pub fn coalesced(reg: &mut MouseRegistry) -> (h: Mouse)
        requires
            old(reg)@.wf(),
        ensures
            register_post(old(reg)@, final(reg)@, h),
    {
        let ghost pre = reg@;
        let n = reg.slots.len();
        let mut i: usize = 0;
        while i < n
            invariant
                pre.wf(),
                pre == old(reg)@,
                i <= n,
                n == pre.slots.len(),
                reg@ == pre,
                forall|j: int| 0 <= j < i ==> !pre.free_slot(j),
            decreases n - i,
        {
            let reuse = {
                let slot = &reg.slots[i];
                slot.state.is_none() && slot.gen < u64::MAX
            };
            if reuse {
                let g = {
                    let slot = &reg.slots[i];
                    slot.gen + 1
                };
                let fresh = Shared::new();
                let slot = &mut reg.slots[i];
                slot.gen = g;
                slot.state = Some(fresh);
                let h = Mouse { slot: i, gen: g };
                proof {
                    lemma_register_update(pre, reg@, h);
                }
                return h;
            }
            i = i + 1;
        }
        let fresh = Shared::new();
        let h = Mouse { slot: reg.slots.len(), gen: 0 };
        reg.slots.push(Slot { gen: 0, state: Some(fresh) });
        proof {
            lemma_register_push(pre, reg@, h);
        }
        h
    }

    /// Whether this handle still names a registered, unreleased device in
    /// the given registry.  Unverified callers can test this before reading.
    pub fn is_live(&self, reg: &MouseRegistry) -> (r: bool)
        ensures
            r == reg@.live(*self),
    {
        if self.slot < reg.slots.len() {
            let slot = &reg.slots[self.slot];
            slot.gen == self.gen && slot.state.is_some()
        } else {
            false
        }
    }

    /// Returns the most recent window-location snapshot fanned out to this
    /// device, or `None` if no motion event has arrived since construction.
    pub fn window_pos(&self, reg: &MouseRegistry) -> (r: Option<MouseWindowLocation>)
        requires
            reg@.wf(),
            reg@.live(*self),
        ensures
            r == reg@.state_of(*self).window,
    {
        let slot = &reg.slots[self.slot];
        match &slot.state {
            Some(st) => st.window,
            None => None,
        }
    }

    /// Determines if the mouse button specified is down or not, as of the
    /// most recent event fanned out to this device.
    ///
    /// * button: Pass a value like [`MOUSE_BUTTON_LEFT`].  Unspecified
    ///   buttons may be supported on a best-effort basis.
    pub fn button_state(&self, reg: &MouseRegistry, button: u8) -> (r: bool)
        requires
            reg@.wf(),
            reg@.live(*self),
            button < BUTTON_COUNT,
        ensures
            r == reg@.state_of(*self).buttons[button as int],
    {
        let slot = &reg.slots[self.slot];
        match &slot.state {
            Some(st) => st.buttons[button as usize],
            None => false,
        }
    }

    /// Access the accumulated scroll delta, resetting the accumulated delta
    /// to zero.
    ///
    /// A single consumer that polls this periodically observes the total
    /// motion since its last poll exactly once: no double counting, no loss.
    pub fn load_clear_scroll_delta(&self, reg: &mut MouseRegistry) -> (r: (i64, i64))
        requires
            old(reg)@.wf(),
            old(reg)@.live(*self),
        ensures
            r.0 == old(reg)@.state_of(*self).scroll_delta_x,
            r.1 == old(reg)@.state_of(*self).scroll_delta_y,
            final(reg)@ == old(reg)@.after_drain(*self),
            final(reg)@.wf(),
    {
        let ghost pre = reg@;
        let slot = &mut reg.slots[self.slot];
        let r = match &mut slot.state {
            Some(st) => {
                let x = st.scroll_delta_x;
                let y = st.scroll_delta_y;
                st.scroll_delta_x = 0;
                st.scroll_delta_y = 0;
                (x, y)
            },
            None => (0, 0),
        };
        proof {
            assert(reg@.slots =~= pre.after_drain(*self).slots);
        }
        r
    }

    /// Release this handle: the device state it owns is dropped, and the
    /// next event delivery passes its dead registry slot by.  This is the
    /// only unregistration mechanism.
    pub fn release(self, reg: &mut MouseRegistry)
        requires
            old(reg)@.wf(),
            old(reg)@.live(self),
        ensures
            release_post(old(reg)@, final(reg)@, self),
    {
        let ghost pre = reg@;
        let slot = &mut reg.slots[self.slot];
        slot.state = None;
        proof {
            let post = reg@;
            assert(post.slots =~= pre.slots.update(
                self.slot as int,
                SlotView { gen: pre.slots[self.slot as int].gen, state: None },
            ));
            assert forall|h2: Mouse| h2 != self && pre.live(h2) implies #[trigger] post.live(h2)
                && post.state_of(h2) == pre.state_of(h2) by {
                assert(h2.slot != self.slot);
            }
        }
    }
}

proof fn lemma_register_update(pre: RegistryView, post: RegistryView, h: Mouse)
    requires
        pre.wf(),
        h.slot < pre.slots.len(),
        pre.slots[h.slot as int].state is None,
        h.gen == pre.slots[h.slot as int].gen + 1,
        post.slots =~= pre.slots.update(
            h.slot as int,
            SlotView { gen: h.gen, state: Some(SharedView::fresh()) },
        ),
        post == (RegistryView { slots: post.slots, ..pre }),
    ensures
        register_post(pre, post, h),
{
    assert forall|h2: Mouse| pre.live(h2) implies #[trigger] post.live(h2) && post.state_of(h2)
        == pre.state_of(h2) && h2 != h by {
        assert(h2.slot != h.slot);
    }
}

proof fn lemma_register_push(pre: RegistryView, post: RegistryView, h: Mouse)
    requires
        pre.wf(),
        h.slot == pre.slots.len(),
        h.gen == 0,
        post.slots =~= pre.slots.push(SlotView { gen: 0, state: Some(SharedView::fresh()) }),
        post == (RegistryView { slots: post.slots, ..pre }),
    ensures
        register_post(pre, post, h),
{
    assert forall|h2: Mouse| pre.live(h2) implies #[trigger] post.live(h2) && post.state_of(h2)
        == pre.state_of(h2) && h2 != h by {
        assert(h2.slot < pre.slots.len());
    }
}

/// Draining is idempotent-to-empty: a second drain with no scroll event in
/// between finds both accumulators at zero and leaves the device unchanged.
pub proof fn lemma_drain_idempotent(v: RegistryView, h: Mouse)
    requires
        v.wf(),
        v.live(h),
    ensures
        v.after_drain(h).live(h),
        v.after_drain(h).state_of(h).scroll_delta_x == 0,
        v.after_drain(h).state_of(h).scroll_delta_y == 0,
        v.after_drain(h).after_drain(h) == v.after_drain(h),
{
    let v1 = v.after_drain(h);
    assert(v1.after_drain(h).slots =~= v1.slots);
}

/// Scroll accumulation: two scroll events and a drain yield the saturating
/// sum of the starting accumulators and both deltas — with no overflow, the
/// exact sums.
pub proof fn lemma_scroll_accumulates(
    v: RegistryView,
    h: Mouse,
    dx1: i64,
    dy1: i64,
    w1: Option<Window>,
    dx2: i64,
    dy2: i64,
    w2: Option<Window>,
)
    requires
        v.wf(),
        v.live(h),
    ensures
        v.after_scroll(dx1, dy1, w1).after_scroll(dx2, dy2, w2).live(h),
        v.after_scroll(dx1, dy1, w1).after_scroll(dx2, dy2, w2).state_of(h).scroll_delta_x as int
            == sat_add_spec(sat_add_spec(v.state_of(h).scroll_delta_x as int, dx1 as int), dx2 as int),
        v.after_scroll(dx1, dy1, w1).after_scroll(dx2, dy2, w2).state_of(h).scroll_delta_y as int
            == sat_add_spec(sat_add_spec(v.state_of(h).scroll_delta_y as int, dy1 as int), dy2 as int),
        i64::MIN <= v.state_of(h).scroll_delta_x + dx1 + dx2 <= i64::MAX && i64::MIN <= v.state_of(
            h,
        ).scroll_delta_x + dx1 <= i64::MAX ==> v.after_scroll(dx1, dy1, w1).after_scroll(
            dx2,
            dy2,
            w2,
        ).state_of(h).scroll_delta_x == v.state_of(h).scroll_delta_x + dx1 + dx2,
        i64::MIN <= v.state_of(h).scroll_delta_y + dy1 + dy2 <= i64::MAX && i64::MIN <= v.state_of(
            h,
        ).scroll_delta_y + dy1 <= i64::MAX ==> v.after_scroll(dx1, dy1, w1).after_scroll(
            dx2,
            dy2,
            w2,
        ).state_of(h).scroll_delta_y == v.state_of(h).scroll_delta_y + dy1 + dy2,
{
}

/// Fanning any mouse event out neither wakes nor kills any handle, and the
/// state seen through every live handle takes exactly that one transition.
pub proof fn lemma_map_states_view(v: RegistryView, h: Mouse, f: spec_fn(SharedView) -> SharedView)
    requires
        v.wf(),
    ensures
        v.map_states(f).live(h) == v.live(h),
        v.live(h) ==> v.map_states(f).state_of(h) == f(v.state_of(h)),
{
}

/// One motion event fanned out to two live handles leaves both reporting the
/// identical snapshot.
pub proof fn lemma_motion_snapshot_shared(
    v: RegistryView,
    h1: Mouse,
    h2: Mouse,
    loc: MouseWindowLocation,
)
    requires
        v.wf(),
        v.live(h1),
        v.live(h2),
    ensures
        v.after_window_location(loc).state_of(h1).window == Some(loc),
        v.after_window_location(loc).state_of(h2).window == Some(loc),

{
    lemma_map_states_view(v, h1, |s: SharedView| s.after_window_location(loc));
    lemma_map_states_view(v, h2, |s: SharedView| s.after_window_location(loc));
}

/// Handles from two separate registrations are never equal, even though both
/// devices receive the same fanned out events.
pub proof fn lemma_distinct_registrations(
    r0: RegistryView,
    r1: RegistryView,
    r2: RegistryView,
    h1: Mouse,
    h2: Mouse,
)
    requires
        register_post(r0, r1, h1),
        register_post(r1, r2, h2),
    ensures
        h1 != h2,
        r2.live(h1),
        r2.live(h2),
{
}

/// After a handle is released, a later fan-out passes its dead slot by — the
/// released device's state is gone and stays gone — while every remaining
/// live handle still receives the event.
pub proof fn lemma_release_then_fan_out(
    pre: RegistryView,
    post: RegistryView,
    h: Mouse,
    h2: Mouse,
    f: spec_fn(SharedView) -> SharedView,
)
    requires
        pre.wf(),
        pre.live(h),
        release_post(pre, post, h),
        h2 != h,
        pre.live(h2),
    ensures
        !post.map_states(f).live(h),
        post.map_states(f).slots[h.slot as int].state is None,
        post.map_states(f).live(h2),
        post.map_states(f).state_of(h2) == f(pre.state_of(h2)),
{
    lemma_map_states_view(post, h, f);
    lemma_map_states_view(post, h2, f);
}

} // verus!
