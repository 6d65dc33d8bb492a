use std::collections::HashMap;
use vstd::prelude::*;

use crate::keyboard::KeyCode;

verus! {

broadcast use vstd::std_specs::hash::group_hash_axioms;

/// Whether a key or button is down or up.
#[derive(Clone, Copy, Debug, PartialEq, Eq, Structural)]
pub enum ElementState {
    Pressed,
    Released,
}

/// A button of a mouse controller.
#[derive(Clone, Copy, Debug, PartialEq, Eq, Structural)]
pub enum MouseButton {
    Left,
    Right,
    Middle,
    Back,
    Forward,
    Other(u16),
}

/// The stage a touch is in.
#[derive(Clone, Copy, Debug, PartialEq, Eq, Structural)]
pub enum TouchPhase {
    Started,
    Moved,
    Ended,
    Cancelled,
}

impl MouseButton {
    /// A distinct number for each button.
    pub open spec fn spec_id(self) -> u32 {
        match self {
            MouseButton::Left => 0,
            MouseButton::Right => 1,
            MouseButton::Middle => 2,
            MouseButton::Back => 3,
            MouseButton::Forward => 4,
            MouseButton::Other(n) => (n + 5) as u32,
        }
    }

    /// Distinct buttons have distinct numbers.
    pub proof fn lemma_id_injective(a: MouseButton, b: MouseButton)
        ensures
            a.spec_id() == b.spec_id() <==> a == b,
    {
    }

    pub fn id(self) -> (r: u32)
        ensures
            r == self.spec_id(),
    {
        match self {
            MouseButton::Left => 0,
            MouseButton::Right => 1,
            MouseButton::Middle => 2,
            MouseButton::Back => 3,
            MouseButton::Forward => 4,
            MouseButton::Other(n) => n as u32 + 5,
        }
    }
}

/// The state of a key or button: (state this frame, state at the end of the last frame).
pub type Record = (ElementState, ElementState);

/// The record left by an event `state` on a key whose record was `before`:
/// the new current state, and as previous state the current state before it
/// (`Released` for a key that had no record).
pub open spec fn record_after(before: Option<Record>, state: ElementState) -> Record {
    (
        state,
        match before {
            Some(r) => r.0,
            None => ElementState::Released,
        },
    )
}

/// Went down this frame: pressed now, not pressed at the end of the last frame.
pub open spec fn is_just_pressed(r: Option<Record>) -> bool {
    match r {
        Some(r) => r.0 == ElementState::Pressed && r.1 != ElementState::Pressed,
        None => false,
    }
}

/// Down now, whatever it was before.
pub open spec fn is_held(r: Option<Record>) -> bool {
    match r {
        Some(r) => r.0 == ElementState::Pressed,
        None => false,
    }
}

/// Released this frame.
pub open spec fn is_released(r: Option<Record>) -> bool {
    match r {
        Some(r) => r.0 == ElementState::Released,
        None => false,
    }
}

/// The records kept when a frame ends: what is held stays, now also held
/// "last frame"; what was released is forgotten.
pub open spec fn end_of_frame<K>(m: Map<K, Record>) -> Map<K, Record> {
    Map::new(
        |k: K| m.contains_key(k) && m[k].0 == ElementState::Pressed,
        |k: K| (ElementState::Pressed, ElementState::Pressed),
    )
}

/// A touch that has not ended or been cancelled.
pub open spec fn is_active_phase(p: TouchPhase) -> bool {
    p == TouchPhase::Started || p == TouchPhase::Moved
}

/// The touches kept when a frame ends: the active ones.
pub open spec fn active_touches(m: Map<u64, TouchPhase>) -> Map<u64, TouchPhase> {
    Map::new(|id: u64| m.contains_key(id) && is_active_phase(m[id]), |id: u64| m[id])
}

/// The touch phase that a mouse-button event stands for when touches are
/// simulated from the mouse.
pub open spec fn simulated_phase(state: ElementState) -> TouchPhase {
    match state {
        ElementState::Pressed => TouchPhase::Started,
        ElementState::Released => TouchPhase::Ended,
    }
}

/// The mathematical state of an [`Input`].
pub struct InputView {
    pub keys: Map<KeyCode, Record>,
    pub buttons: Map<MouseButton, Record>,
    pub touches: Map<u64, TouchPhase>,
    pub touch_from_mouse: bool,
    pub mouse_from_touch: bool,
    pub primary_touch: Option<u64>,
}

impl InputView {
    pub open spec fn key_pressed(self, k: KeyCode) -> bool {
        is_just_pressed(self.keys.get(k))
    }

    pub open spec fn key_held(self, k: KeyCode) -> bool {
        is_held(self.keys.get(k))
    }

    pub open spec fn key_released(self, k: KeyCode) -> bool {
        is_released(self.keys.get(k))
    }

    pub open spec fn mouse_pressed(self, b: MouseButton) -> bool {
        is_just_pressed(self.buttons.get(b))
    }

    pub open spec fn mouse_held(self, b: MouseButton) -> bool {
        is_held(self.buttons.get(b))
    }

    pub open spec fn mouse_released(self, b: MouseButton) -> bool {
        is_released(self.buttons.get(b))
    }

    /// The state after the event "key `k` is now in `state`".
    pub open spec fn with_key(self, k: KeyCode, state: ElementState) -> InputView {
        InputView { keys: self.keys.insert(k, record_after(self.keys.get(k), state)), ..self }
    }

    /// The state after the event "button `b` is now in `state`".
    pub open spec fn with_button(self, b: MouseButton, state: ElementState) -> InputView {
        InputView {
            buttons: self.buttons.insert(b, record_after(self.buttons.get(b), state)),
            ..self
        }
    }

    /// The state after touch `id` reports `phase`. When the mouse is simulated
    /// from touches, the first touch to start becomes the primary one: it
    /// presses the left button, and its end or cancellation releases it.
    pub open spec fn with_touch(self, id: u64, phase: TouchPhase) -> InputView {
        let base = InputView { touches: self.touches.insert(id, phase), ..self };
        if !self.mouse_from_touch {
            base
        } else {
            match phase {
                TouchPhase::Started => if self.primary_touch is None {
                    InputView { primary_touch: Some(id), ..base.with_button(MouseButton::Left, ElementState::Pressed) }
                } else {
                    base
                },
                TouchPhase::Moved => base,
                _ => if self.primary_touch == Some(id) {
                    InputView { primary_touch: None, ..base.with_button(MouseButton::Left, ElementState::Released) }
                } else {
                    base
                },
            }
        }
    }

    /// Whether touch `id` reporting `phase` moves the simulated mouse cursor
    /// to the touch's location.
    pub open spec fn touch_moves_cursor(self, id: u64, phase: TouchPhase) -> bool {
        self.mouse_from_touch && match phase {
            TouchPhase::Started => self.primary_touch is None,
            _ => self.primary_touch == Some(id),
        }
    }

    /// Whether a mouse-button event produces a simulated touch (id 0).
    pub open spec fn button_simulates_touch(self, button: MouseButton) -> bool {
        self.touch_from_mouse && button == MouseButton::Left
    }

    /// Whether a cursor move produces a simulated touch move: only while the
    /// simulated touch (id 0) is active.
    pub open spec fn move_simulates_touch(self) -> bool {
        self.touch_from_mouse && self.touches.contains_key(0) && is_active_phase(self.touches[0])
    }

    /// The state after a frame has ended.
    pub open spec fn after_frame(self) -> InputView {
        InputView {
            keys: end_of_frame(self.keys),
            buttons: end_of_frame(self.buttons),
            touches: active_touches(self.touches),
            ..self
        }
    }
}

/// Keyboard, mouse-button and touch state, tracked frame by frame.
///
/// Each key and button keeps its state this frame and at the end of the last
/// frame, so that "just pressed", "held" and "just released" can be told apart.
pub struct Input {
    keyboard: HashMap<u32, Record>,
    mouse_buttons: HashMap<u32, Record>,
    touches: HashMap<u64, TouchPhase>,
    simulate_touch_with_mouse: bool,
    simulate_mouse_with_touch: bool,
    /// Tracks which touch id is acting as the primary mouse (for touch→mouse simulation)
    primary_touch_id: Option<u64>,
}

/// The key records of a raw table numbered by [`KeyCode::spec_index`].
pub open spec fn key_records(raw: Map<u32, Record>) -> Map<KeyCode, Record> {
    Map::new(|k: KeyCode| raw.contains_key(k.spec_index()), |k: KeyCode| raw[k.spec_index()])
}

/// The button records of a raw table numbered by [`MouseButton::spec_id`].
pub open spec fn button_records(raw: Map<u32, Record>) -> Map<MouseButton, Record> {
    Map::new(|b: MouseButton| raw.contains_key(b.spec_id()), |b: MouseButton| raw[b.spec_id()])
}

impl View for Input {
    type V = InputView;

    closed spec fn view(&self) -> InputView {
        InputView {
            keys: key_records(self.keyboard@),
            buttons: button_records(self.mouse_buttons@),
            touches: self.touches@,
            touch_from_mouse: self.simulate_touch_with_mouse,
            mouse_from_touch: self.simulate_mouse_with_touch,
            primary_touch: self.primary_touch_id,
        }
    }
}

proof fn lemma_key_records_insert(raw: Map<u32, Record>, k: KeyCode, rec: Record)
    ensures
        key_records(raw.insert(k.spec_index(), rec)) == key_records(raw).insert(k, rec),
{
    assert forall|x: KeyCode| #[trigger] raw.insert(k.spec_index(), rec).contains_key(x.spec_index())
        == key_records(raw).insert(k, rec).contains_key(x) by {
        KeyCode::lemma_index_injective(x, k);
    }
    assert forall|x: KeyCode| key_records(raw).insert(k, rec).contains_key(x) implies #[trigger] raw.insert(
        k.spec_index(),
        rec,
    )[x.spec_index()] == key_records(raw).insert(k, rec)[x] by {
        KeyCode::lemma_index_injective(x, k);
    }
    assert(key_records(raw.insert(k.spec_index(), rec)) =~= key_records(raw).insert(k, rec));
}

proof fn lemma_button_records_insert(raw: Map<u32, Record>, b: MouseButton, rec: Record)
    ensures
        button_records(raw.insert(b.spec_id(), rec)) == button_records(raw).insert(b, rec),
{
    assert forall|x: MouseButton| #[trigger] raw.insert(b.spec_id(), rec).contains_key(x.spec_id())
        == button_records(raw).insert(b, rec).contains_key(x) by {
        MouseButton::lemma_id_injective(x, b);
    }
    assert forall|x: MouseButton| button_records(raw).insert(b, rec).contains_key(x) implies #[trigger] raw.insert(
        b.spec_id(),
        rec,
    )[x.spec_id()] == button_records(raw).insert(b, rec)[x] by {
        MouseButton::lemma_id_injective(x, b);
    }
    assert(button_records(raw.insert(b.spec_id(), rec)) =~= button_records(raw).insert(b, rec));
}

proof fn lemma_key_records_get(raw: Map<u32, Record>, k: KeyCode)
    ensures
        key_records(raw).get(k) == raw.get(k.spec_index()),
{
}

proof fn lemma_button_records_get(raw: Map<u32, Record>, b: MouseButton)
    ensures
        button_records(raw).get(b) == raw.get(b.spec_id()),
{
}

proof fn lemma_records_end_of_frame(raw: Map<u32, Record>)
    ensures
        key_records(end_of_frame(raw)) == end_of_frame(key_records(raw)),
        button_records(end_of_frame(raw)) == end_of_frame(button_records(raw)),
{
    assert(key_records(end_of_frame(raw)) =~= end_of_frame(key_records(raw)));
    assert(button_records(end_of_frame(raw)) =~= end_of_frame(button_records(raw)));
}

/// The record of `number` after an event `state`.
fn record_event(table: &mut HashMap<u32, Record>, number: u32, state: ElementState)
    ensures
        final(table)@ == old(table)@.insert(number, record_after(old(table)@.get(number), state)),
{
    let prev = match table.get(&number) {
        Some(r) => r.0,
        None => ElementState::Released,
    };
    table.insert(number, (state, prev));
}

/// The table kept at the end of a frame: held entries, marked held last frame too.
fn carry_held(table: &HashMap<u32, Record>) -> (r: HashMap<u32, Record>)
    ensures
        r@ == end_of_frame(table@),
{
    let mut next: HashMap<u32, Record> = HashMap::new();
    for entry in it: table.iter()
        invariant
            forall|k: u32| #[trigger]
                next@.contains_key(k) ==> table@.contains_key(k) && table@[k].0
                    == ElementState::Pressed && next@[k] == (
                    ElementState::Pressed,
                    ElementState::Pressed,
                ),
            forall|j: int|
                0 <= j < it.index() ==> ((#[trigger] it.seq()[j]).1).0 == ElementState::Pressed
                    ==> next@.contains_key(*it.seq()[j].0),
    {
        let (k, v) = entry;
        match v.0 {
            ElementState::Pressed => {
                next.insert(*k, (ElementState::Pressed, ElementState::Pressed));
            },
            ElementState::Released => {},
        }
    }
    assert(next@ =~= end_of_frame(table@));
    next
}

/// The touch table kept at the end of a frame: the active touches.
fn keep_active(table: &HashMap<u64, TouchPhase>) -> (r: HashMap<u64, TouchPhase>)
    ensures
        r@ == active_touches(table@),
{
    let mut next: HashMap<u64, TouchPhase> = HashMap::new();
    for entry in it: table.iter()
        invariant
            forall|k: u64| #[trigger]
                next@.contains_key(k) ==> table@.contains_key(k) && is_active_phase(table@[k])
                    && next@[k] == table@[k],
            forall|j: int|
                0 <= j < it.index() ==> is_active_phase(*(#[trigger] it.seq()[j]).1)
                    ==> next@.contains_key(*it.seq()[j].0),
    {
        let (k, v) = entry;
        match *v {
            TouchPhase::Started | TouchPhase::Moved => {
                next.insert(*k, *v);
            },
            TouchPhase::Ended | TouchPhase::Cancelled => {},
        }
    }
    assert(next@ =~= active_touches(table@));
    next
}

/// The state of an [`Input`] that has seen nothing.
pub open spec fn empty_input() -> InputView {
    InputView {
        keys: Map::empty(),
        buttons: Map::empty(),
        touches: Map::empty(),
        touch_from_mouse: false,
        mouse_from_touch: false,
        primary_touch: None,
    }
}

impl Default for Input {
    fn default() -> (r: Self)
        ensures
            r@ == empty_input(),
    {
        let r = Input {
            keyboard: HashMap::new(),
            mouse_buttons: HashMap::new(),
            touches: HashMap::new(),
            simulate_touch_with_mouse: false,
            simulate_mouse_with_touch: false,
            primary_touch_id: None,
        };
        assert(r@.keys =~= Map::empty());
        assert(r@.buttons =~= Map::empty());
        r
    }
}

impl Input {
    /// Enable or disable simulating touch events from mouse input.
    /// When enabled, left mouse button presses/moves/releases generate touch events with id 0.
    pub fn set_simulate_touch_with_mouse(&mut self, enabled: bool)
        ensures
            final(self)@ == (InputView { touch_from_mouse: enabled, ..old(self)@ }),
    {
        self.simulate_touch_with_mouse = enabled;
    }

    /// Enable or disable simulating mouse events from touch input.
    /// When enabled, the first active touch drives the cursor and the left button.
    pub fn set_simulate_mouse_with_touch(&mut self, enabled: bool)
        ensures
            final(self)@ == (InputView { mouse_from_touch: enabled, ..old(self)@ }),
    {
        self.simulate_mouse_with_touch = enabled;
    }

    /// Returns whether touch-from-mouse simulation is enabled
    pub fn simulate_touch_with_mouse(&self) -> (r: bool)
        ensures
            r == self@.touch_from_mouse,
    {
        self.simulate_touch_with_mouse
    }

    /// Returns whether mouse-from-touch simulation is enabled
    pub fn simulate_mouse_with_touch(&self) -> (r: bool)
        ensures
            r == self@.mouse_from_touch,
    {
        self.simulate_mouse_with_touch
    }

    /// Record that `key` is now in `state`.
    pub fn update_key(&mut self, key: KeyCode, state: ElementState)
        ensures
            final(self)@ == old(self)@.with_key(key, state),
    {
        let n = key.index();
        proof {
            lemma_key_records_get(self.keyboard@, key);
            lemma_key_records_insert(
                self.keyboard@,
                key,
                record_after(self.keyboard@.get(n), state),
            );
        }
        record_event(&mut self.keyboard, n, state);
    }

    /// Record that `key` is now in `state` (the same event as [`Input::update_key`]).
    pub fn inject_key(&mut self, key: KeyCode, state: ElementState)
        ensures
            final(self)@ == old(self)@.with_key(key, state),
    {
        self.update_key(key, state);
    }

    /// Record that mouse `button` is now in `state`.
    pub fn update_mouse_button(&mut self, button: MouseButton, state: ElementState)
        ensures
            final(self)@ == old(self)@.with_button(button, state),
    {
        let n = button.id();
        proof {
            lemma_button_records_get(self.mouse_buttons@, button);
            lemma_button_records_insert(
                self.mouse_buttons@,
                button,
                record_after(self.mouse_buttons@.get(n), state),
            );
        }
        record_event(&mut self.mouse_buttons, n, state);
    }

    /// Record that mouse `button` is now in `state` (the same event as [`Input::update_mouse_button`]).
    pub fn inject_mouse_button(&mut self, button: MouseButton, state: ElementState)
        ensures
            final(self)@ == old(self)@.with_button(button, state),
    {
        self.update_mouse_button(button, state);
    }

    /// Update previous states & clean up released keys/buttons and finished touches
    pub fn end_frame(&mut self)
        ensures
            final(self)@ == old(self)@.after_frame(),
    {
        proof {
            lemma_records_end_of_frame(self.keyboard@);
            lemma_records_end_of_frame(self.mouse_buttons@);
        }
        self.keyboard = carry_held(&self.keyboard);
        self.mouse_buttons = carry_held(&self.mouse_buttons);
        self.touches = keep_active(&self.touches);
    }

    fn record_of(table: &HashMap<u32, Record>, n: u32) -> (r: Option<Record>)
        ensures
            r == table@.get(n),
    {
        match table.get(&n) {
            Some(r) => Some(*r),
            None => None,
        }
    }

    fn just_pressed(r: Option<Record>) -> (b: bool)
        ensures
            b == is_just_pressed(r),
    {
        match r {
            Some((ElementState::Pressed, ElementState::Released)) => true,
            _ => false,
        }
    }

    fn held(r: Option<Record>) -> (b: bool)
        ensures
            b == is_held(r),
    {
        match r {
            Some((ElementState::Pressed, _)) => true,
            _ => false,
        }
    }

    fn released(r: Option<Record>) -> (b: bool)
        ensures
            b == is_released(r),
    {
        match r {
            Some((ElementState::Released, _)) => true,
            _ => false,
        }
    }

    /// True if the key went from not pressed last frame to pressed this frame
    pub fn key_pressed(&self, key: KeyCode) -> (r: bool)
        ensures
            r == self@.key_pressed(key),
    {
        proof {
            lemma_key_records_get(self.keyboard@, key);
        }
        Self::just_pressed(Self::record_of(&self.keyboard, key.index()))
    }

    /// True if key is held down (pressed now regardless of last frame)
    pub fn key_held(&self, key: KeyCode) -> (r: bool)
        ensures
            r == self@.key_held(key),
    {
        proof {
            lemma_key_records_get(self.keyboard@, key);
        }
        Self::held(Self::record_of(&self.keyboard, key.index()))
    }

    /// True if key was just released this frame
    pub fn key_released(&self, key: KeyCode) -> (r: bool)
        ensures
            r == self@.key_released(key),
    {
        proof {
            lemma_key_records_get(self.keyboard@, key);
        }
        Self::released(Self::record_of(&self.keyboard, key.index()))
    }

    /// True if mouse button was just pressed this frame
    pub fn mouse_pressed(&self, button: MouseButton) -> (r: bool)
        ensures
            r == self@.mouse_pressed(button),
    {
        proof {
            lemma_button_records_get(self.mouse_buttons@, button);
        }
        Self::just_pressed(Self::record_of(&self.mouse_buttons, button.id()))
    }

    /// True if mouse button is held down
    pub fn mouse_held(&self, button: MouseButton) -> (r: bool)
        ensures
            r == self@.mouse_held(button),
    {
        proof {
            lemma_button_records_get(self.mouse_buttons@, button);
        }
        Self::held(Self::record_of(&self.mouse_buttons, button.id()))
    }

    /// True if mouse button was released this frame
    pub fn mouse_released(&self, button: MouseButton) -> (r: bool)
        ensures
            r == self@.mouse_released(button),
    {
        proof {
            lemma_button_records_get(self.mouse_buttons@, button);
        }
        Self::released(Self::record_of(&self.mouse_buttons, button.id()))
    }
}

impl Input {
    /// Record a touch event for touch `id`. Returns whether the mouse cursor
    /// must be moved to the touch's location (when the mouse is simulated
    /// from touches); the cursor position itself is kept by the caller.
    pub fn update_touch(&mut self, id: u64, phase: TouchPhase) -> (move_cursor: bool)
        ensures
            final(self)@ == old(self)@.with_touch(id, phase),
            move_cursor == old(self)@.touch_moves_cursor(id, phase),
    {
        self.touches.insert(id, phase);
        if self.simulate_mouse_with_touch {
            match phase {
                TouchPhase::Started => {
                    if self.primary_touch_id.is_none() {
                        self.primary_touch_id = Some(id);
                        self.update_mouse_button(MouseButton::Left, ElementState::Pressed);
                        true
                    } else {
                        false
                    }
                },
                TouchPhase::Moved => {
                    match self.primary_touch_id {
                        Some(p) => p == id,
                        None => false,
                    }
                },
                TouchPhase::Ended | TouchPhase::Cancelled => {
                    let is_primary = match self.primary_touch_id {
                        Some(p) => p == id,
                        None => false,
                    };
                    if is_primary {
                        self.update_mouse_button(MouseButton::Left, ElementState::Released);
                        self.primary_touch_id = None;
                    }
                    is_primary
                },
            }
        } else {
            false
        }
    }

    /// Simulate a touch event (id 0) from a mouse-button event, when enabled.
    /// Returns whether a simulated touch was recorded; its location is the
    /// current cursor position, kept by the caller.
    pub fn simulate_touch_from_mouse(&mut self, button: MouseButton, state: ElementState) -> (recorded: bool)
        ensures
            recorded == old(self)@.button_simulates_touch(button),
            final(self)@ == if recorded {
                InputView { touches: old(self)@.touches.insert(0, simulated_phase(state)), ..old(self)@ }
            } else {
                old(self)@
            },
    {
        let is_left = match button {
            MouseButton::Left => true,
            _ => false,
        };
        if !self.simulate_touch_with_mouse || !is_left {
            return false;
        }
        let phase = match state {
            ElementState::Pressed => TouchPhase::Started,
            ElementState::Released => TouchPhase::Ended,
        };
        self.touches.insert(0, phase);
        true
    }

    /// Simulate a touch move (id 0) from a cursor move, when enabled and the
    /// simulated touch is active. Returns whether the move was recorded.
    pub fn simulate_touch_move_from_mouse(&mut self) -> (recorded: bool)
        ensures
            recorded == old(self)@.move_simulates_touch(),
            final(self)@ == if recorded {
                InputView { touches: old(self)@.touches.insert(0, TouchPhase::Moved), ..old(self)@ }
            } else {
                old(self)@
            },
    {
        if !self.simulate_touch_with_mouse {
            return false;
        }
        let active = match self.touches.get(&0) {
            Some(TouchPhase::Started) | Some(TouchPhase::Moved) => true,
            _ => false,
        };
        if active {
            self.touches.insert(0, TouchPhase::Moved);
        }
        active
    }

    /// The phase of touch `id`, if it is known this frame.
    pub fn touch(&self, id: u64) -> (r: Option<TouchPhase>)
        ensures
            r == self@.touches.get(id),
    {
        match self.touches.get(&id) {
            Some(p) => Some(*p),
            None => None,
        }
    }

    /// Returns true if any touch is known this frame (finger on screen)
    pub fn is_touched(&self) -> (r: bool)
        ensures
            r == (self@.touches.len() > 0),
            r == !self@.touches.is_empty(),
    {
        proof {
            vstd::std_specs::hash::axiom_hashmap_view_finite_dom(self.touches);
            if self.touches@.len() == 0 {
                self.touches@.dom().lemma_len0_is_empty();
            }
        }
        !self.touches.is_empty()
    }

    /// Returns the number of touches known this frame
    pub fn touch_count(&self) -> (r: usize)
        ensures
            r == self@.touches.len(),
            self@.touches.dom().finite(),
    {
        self.touches.len()
    }

    /// All touches known this frame, as (id, phase) pairs, each id once.
    pub fn touches(&self) -> (r: Vec<(u64, TouchPhase)>)
        ensures
            r@.len() == self@.touches.len(),
            forall|i: int| 0 <= i < r@.len() ==> self@.touches.contains_key(#[trigger] r@[i].0)
                && self@.touches[r@[i].0] == r@[i].1,
            forall|id: u64| #[trigger] self@.touches.contains_key(id) ==> exists|i: int|
                0 <= i < r@.len() && r@[i].0 == id,
            forall|i: int, j: int| 0 <= i < j < r@.len() ==> r@[i].0 != r@[j].0,
    {
        let mut out: Vec<(u64, TouchPhase)> = Vec::new();
        for entry in it: self.touches.iter()
            invariant
                out@.len() == it.index(),
                forall|i: int| #![trigger it.seq()[i]] #![trigger out@[i]]
                    0 <= i < it.index() ==> out@[i].0 == *it.seq()[i].0 && out@[i].1
                        == *it.seq()[i].1,
                forall|i: int| 0 <= i < it.index() ==> self.touches@.contains_key(
                    #[trigger] out@[i].0,
                ) && self.touches@[out@[i].0] == out@[i].1,
        {
            let (k, v) = entry;
            proof {
                assert(self.touches@.contains_key(*k) && self.touches@[*k] == *v);
            }
            out.push((*k, *v));
        }
        out
    }
}

/// Which per-frame fact about a key a query asks for.
#[derive(Clone, Copy)]
enum KeyQuery {
    Pressed,
    Held,
    Released,
}

spec fn key_query_holds(v: InputView, q: KeyQuery, k: KeyCode) -> bool {
    match q {
        KeyQuery::Pressed => v.key_pressed(k),
        KeyQuery::Held => v.key_held(k),
        KeyQuery::Released => v.key_released(k),
    }
}

impl Input {
    fn key_query(&self, q: KeyQuery, key: KeyCode) -> (r: bool)
        ensures
            r == key_query_holds(self@, q, key),
    {
        match q {
            KeyQuery::Pressed => self.key_pressed(key),
            KeyQuery::Held => self.key_held(key),
            KeyQuery::Released => self.key_released(key),
        }
    }

    fn any_key(&self, keys: &[KeyCode], q: KeyQuery) -> (r: bool)
        ensures
            r == exists|i: int| 0 <= i < keys@.len() && key_query_holds(self@, q, #[trigger] keys@[i]),
    {
        let mut i: usize = 0;
        while i < keys.len()
            invariant
                i <= keys@.len(),
                forall|j: int| 0 <= j < i ==> !key_query_holds(self@, q, #[trigger] keys@[j]),
            decreases keys.len() - i,
        {
            if self.key_query(q, keys[i]) {
                return true;
            }
            i += 1;
        }
        false
    }

    fn all_keys(&self, keys: &[KeyCode], q: KeyQuery) -> (r: bool)
        ensures
            r == forall|i: int| 0 <= i < keys@.len() ==> key_query_holds(self@, q, #[trigger] keys@[i]),
    {
        let mut i: usize = 0;
        while i < keys.len()
            invariant
                i <= keys@.len(),
                forall|j: int| 0 <= j < i ==> key_query_holds(self@, q, #[trigger] keys@[j]),
            decreases keys.len() - i,
        {
            if !self.key_query(q, keys[i]) {
                return false;
            }
            i += 1;
        }
        true
    }

    /// True if any key in slice was just pressed
    pub fn keys_pressed(&self, keys: &[KeyCode]) -> (r: bool)
        ensures
            r == exists|i: int| 0 <= i < keys@.len() && self@.key_pressed(#[trigger] keys@[i]),
    {
        self.any_key(keys, KeyQuery::Pressed)
    }

    /// True if any key in slice is held
    pub fn keys_held(&self, keys: &[KeyCode]) -> (r: bool)
        ensures
            r == exists|i: int| 0 <= i < keys@.len() && self@.key_held(#[trigger] keys@[i]),
    {
        self.any_key(keys, KeyQuery::Held)
    }

    /// True if any key in slice was released
    pub fn keys_released(&self, keys: &[KeyCode]) -> (r: bool)
        ensures
            r == exists|i: int| 0 <= i < keys@.len() && self@.key_released(#[trigger] keys@[i]),
    {
        self.any_key(keys, KeyQuery::Released)
    }

    /// True if all keys in slice were just pressed
    pub fn all_keys_pressed(&self, keys: &[KeyCode]) -> (r: bool)
        ensures
            r == forall|i: int| 0 <= i < keys@.len() ==> self@.key_pressed(#[trigger] keys@[i]),
    {
        self.all_keys(keys, KeyQuery::Pressed)
    }

    /// True if all keys in slice are held
    pub fn all_keys_held(&self, keys: &[KeyCode]) -> (r: bool)
        ensures
            r == forall|i: int| 0 <= i < keys@.len() ==> self@.key_held(#[trigger] keys@[i]),
    {
        self.all_keys(keys, KeyQuery::Held)
    }

    /// True if all keys in slice were released this frame
    pub fn all_keys_released(&self, keys: &[KeyCode]) -> (r: bool)
        ensures
            r == forall|i: int| 0 <= i < keys@.len() ==> self@.key_released(#[trigger] keys@[i]),
    {
        self.all_keys(keys, KeyQuery::Released)
    }
}

/// A key (or button) pressed this frame is held; nothing is both held and
/// released.
pub proof fn law_pressed_implies_held(v: InputView, k: KeyCode, b: MouseButton)
    ensures
        v.key_pressed(k) ==> v.key_held(k),
        !(v.key_held(k) && v.key_released(k)),
        v.mouse_pressed(b) ==> v.mouse_held(b),
        !(v.mouse_held(b) && v.mouse_released(b)),
{
}

/// Pressing a key that is not held makes it pressed and held, not released.
pub proof fn law_press_of_idle_key(v: InputView, k: KeyCode)
    requires
        !v.key_held(k),
    ensures
        v.with_key(k, ElementState::Pressed).key_pressed(k),
        v.with_key(k, ElementState::Pressed).key_held(k),
        !v.with_key(k, ElementState::Pressed).key_released(k),
{
}

/// Releasing a key makes it released and no longer held.
pub proof fn law_release_of_key(v: InputView, k: KeyCode)
    ensures
        v.with_key(k, ElementState::Released).key_released(k),
        !v.with_key(k, ElementState::Released).key_held(k),
        !v.with_key(k, ElementState::Released).key_pressed(k),
{
}

/// A key released and pressed again within one frame counts as pressed this frame.
pub proof fn law_release_then_press_same_frame(v: InputView, k: KeyCode)
    ensures
        v.with_key(k, ElementState::Released).with_key(k, ElementState::Pressed).key_pressed(k),
        v.with_key(k, ElementState::Released).with_key(k, ElementState::Pressed).key_held(k),
        !v.with_key(k, ElementState::Released).with_key(k, ElementState::Pressed).key_released(k),
{
}

/// Ending a frame clears "just pressed" and "just released" for every key and
/// button, keeps what is held, and forgets ended or cancelled touches.
pub proof fn law_end_frame(v: InputView, k: KeyCode, b: MouseButton, id: u64)
    ensures
        !v.after_frame().key_pressed(k),
        !v.after_frame().key_released(k),
        v.after_frame().key_held(k) == v.key_held(k),
        !v.after_frame().mouse_pressed(b),
        !v.after_frame().mouse_released(b),
        v.after_frame().mouse_held(b) == v.mouse_held(b),
        v.after_frame().touches.contains_key(id) <==> v.touches.contains_key(id)
            && is_active_phase(v.touches[id]),
{
}

/// A frame without events changes nothing: ending a frame twice is ending it once.
pub proof fn law_end_frame_idempotent(v: InputView)
    ensures
        v.after_frame().after_frame() == v.after_frame(),
{
    assert(end_of_frame(end_of_frame(v.keys)) =~= end_of_frame(v.keys));
    assert(end_of_frame(end_of_frame(v.buttons)) =~= end_of_frame(v.buttons));
    assert(active_touches(active_touches(v.touches)) =~= active_touches(v.touches));
}

/// An event on one key leaves every other key, every button and every touch as it was.
pub proof fn law_key_events_independent(v: InputView, a: KeyCode, b: KeyCode, s: ElementState)
    requires
        a != b,
    ensures
        v.with_key(a, s).keys.get(b) == v.keys.get(b),
        v.with_key(a, s).buttons == v.buttons,
        v.with_key(a, s).touches == v.touches,
{
}

/// An event on one button leaves every other button and every key as it was.
pub proof fn law_button_events_independent(
    v: InputView,
    a: MouseButton,
    b: MouseButton,
    s: ElementState,
)
    requires
        a != b,
    ensures
        v.with_button(a, s).buttons.get(b) == v.buttons.get(b),
        v.with_button(a, s).keys == v.keys,
{
}

/// Nothing is pressed, held or released, and nothing is touched, before any event.
pub proof fn law_new_input_is_idle(k: KeyCode, b: MouseButton)
    ensures
        !empty_input().key_pressed(k),
        !empty_input().key_held(k),
        !empty_input().key_released(k),
        !empty_input().mouse_pressed(b),
        !empty_input().mouse_held(b),
        !empty_input().mouse_released(b),
        empty_input().touches.is_empty(),
{
}

/// With mouse simulation from touches, a touch that starts while no touch is
/// primary presses the left button; when that touch ends or is cancelled, the
/// left button is released and no touch is primary any more.
pub proof fn law_primary_touch_drives_left_button(v: InputView, id: u64, end: TouchPhase)
    requires
        v.mouse_from_touch,
        v.primary_touch is None,
        end == TouchPhase::Ended || end == TouchPhase::Cancelled,
    ensures
        v.with_touch(id, TouchPhase::Started).mouse_held(MouseButton::Left),
        v.with_touch(id, TouchPhase::Started).primary_touch == Some(id),
        v.with_touch(id, TouchPhase::Started).with_touch(id, end).mouse_released(MouseButton::Left),
        v.with_touch(id, TouchPhase::Started).with_touch(id, end).primary_touch is None,
{
}

/// A press counts as "just pressed" exactly when the key (or button) was not
/// already down: a repeated press event on a held key (key repeat) leaves it
/// held but not just pressed.
pub proof fn law_press_is_new_only_if_not_held(v: InputView, k: KeyCode, b: MouseButton)
    ensures
        v.with_key(k, ElementState::Pressed).key_pressed(k) == !v.key_held(k),
        v.with_key(k, ElementState::Pressed).key_held(k),
        v.with_button(b, ElementState::Pressed).mouse_pressed(b) == !v.mouse_held(b),
        v.with_button(b, ElementState::Pressed).mouse_held(b),
{
}

/// A key pressed in one frame and reported pressed again in the next (a
/// key repeat) is held in the next frame, not just pressed.
pub proof fn law_key_repeat_is_held(v: InputView, k: KeyCode)
    ensures
        !v.with_key(k, ElementState::Pressed).after_frame().with_key(k, ElementState::Pressed).key_pressed(k),
        v.with_key(k, ElementState::Pressed).after_frame().with_key(k, ElementState::Pressed).key_held(k),
        !v.with_key(k, ElementState::Pressed).after_frame().with_key(k, ElementState::Pressed).key_released(k),
{
}

/// Ending a frame keeps a touch exactly when it has started or moved, and
/// keeps it in the phase it had.
pub proof fn law_end_frame_keeps_touch_phases(v: InputView, id: u64)
    ensures
        v.after_frame().touches.contains_key(id) <==> v.touches.contains_key(id) && (
            v.touches[id] == TouchPhase::Started || v.touches[id] == TouchPhase::Moved),
        v.after_frame().touches.contains_key(id) ==> v.after_frame().touches[id] == v.touches[id],
{
}

/// A touch that started in one frame and moved in the next is still known as
/// moved at the start of the frame after.
pub proof fn law_dragging_touch_stays_moved(v: InputView, id: u64)
    ensures
        v.with_touch(id, TouchPhase::Started).after_frame().with_touch(id, TouchPhase::Moved)
            .after_frame().touches.get(id) == Some(TouchPhase::Moved),
{
}

/// A cursor move is recorded as a simulated touch move exactly when touches
/// are simulated from the mouse and the simulated touch (id 0) has started
/// or moved; once recorded, the next cursor move of the same drag is too.
pub proof fn law_simulated_drag_keeps_moving(v: InputView)
    ensures
        v.move_simulates_touch() == (v.touch_from_mouse && v.touches.contains_key(0) && (
            v.touches[0] == TouchPhase::Started || v.touches[0] == TouchPhase::Moved)),
        v.move_simulates_touch() ==> (InputView {
            touches: v.touches.insert(0, TouchPhase::Moved),
            ..v
        }).move_simulates_touch(),
{
}

/// With touches simulated from the mouse, a left press starts touch 0 and a
/// cursor move after it is recorded as a move, as is every further one.
pub proof fn law_mouse_drag_simulates_touch_moves(v: InputView)
    requires
        v.touch_from_mouse,
    ensures
        ({
            let pressed = InputView {
                touches: v.touches.insert(0, simulated_phase(ElementState::Pressed)),
                ..v
            };
            let moved = InputView { touches: pressed.touches.insert(0, TouchPhase::Moved), ..pressed };
            &&& pressed.touches[0] == TouchPhase::Started
            &&& pressed.move_simulates_touch()
            &&& moved.move_simulates_touch()
        }),
{
}

} // verus!
