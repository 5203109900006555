//! Keyboard and pointer state for one frame window.
//!
//! The tracker ingests window events one at a time, answers pure queries
//! about current and just-changed state, and is cleared once per tick:
//! clearing empties the edge sets and the wheel delta but never the
//! currently-pressed sets. Pointer coordinates are carried as raw IEEE-754
//! single-precision words and never interpreted here.

use vstd::prelude::*;

verus! {

/// A key identifier. Raw platform codes that have no entry here degrade to
/// `Unimplemented` instead of failing, so unknown hardware never crashes
/// the tracker.
#[derive(Clone, Copy, Debug, PartialEq, Eq, Structural)]
pub enum KeyCode {
    A,
    B,
    C,
    D,
    E,
    F,
    G,
    H,
    I,
    J,
    K,
    L,
    M,
    N,
    O,
    P,
    Q,
    R,
    S,
    T,
    U,
    V,
    W,
    X,
    Y,
    Z,
    Zero,
    One,
    Two,
    Three,
    Four,
    Five,
    Six,
    Seven,
    Eight,
    Nine,
    F1,
    F2,
    F3,
    F4,
    F5,
    F6,
    F7,
    F8,
    F9,
    F10,
    F11,
    F12,
    Enter,
    Space,
    Tab,
    Backspace,
    Home,
    Escape,
    LShift,
    RShift,
    LCtrl,
    RCtrl,
    LAlt,
    RAlt,
    Up,
    Down,
    Left,
    Right,
    Unimplemented,
}

/// A pointer-button identifier, with the same `Unimplemented` fallback.
#[derive(Clone, Copy, Debug, PartialEq, Eq, Structural)]
pub enum MouseButton {
    Left,
    Right,
    MouseWheel,
    Unimplemented,
}

/// One window event, as the tracker sees it. Coordinates and wheel deltas
/// are IEEE-754 single-precision words.
#[derive(Clone, Copy, Debug, PartialEq, Eq, Structural)]
pub enum InputEvent {
    /// The user asked to close the window.
    CloseRequested,
    /// The window took a new size, in pixels.
    Resized { width: u32, height: u32 },
    /// A key changed state.
    Keyboard { key: KeyCode, pressed: bool },
    /// A pointer button changed state.
    MouseInput { button: MouseButton, pressed: bool },
    /// The pointer moved to a new position.
    CursorMoved { x_bits: u32, y_bits: u32 },
    /// The scroll wheel moved by a line delta.
    MouseWheel { dx_bits: u32, dy_bits: u32 },
    /// Any other window event; ignored by the tracker.
    Other,
}

/// The abstract state of the tracker: its vectors as sequences.
pub struct InputView {
    pub pressed_keys: Seq<KeyCode>,
    pub just_pressed_keys: Seq<KeyCode>,
    pub pressed_mouse_buttons: Seq<MouseButton>,
    pub just_pressed_mouse_buttons: Seq<MouseButton>,
    pub mouse_position: (u32, u32),
    pub mouse_delta: (u32, u32),
}

/// Whether a sequence holds no element twice.
pub open spec fn no_dups<T>(s: Seq<T>) -> bool {
    forall|i: int, j: int| 0 <= i < j < s.len() ==> s[i] != s[j]
}

impl InputView {
    /// Well-formedness: each pressed set holds a key at most once.
    pub open spec fn wf(self) -> bool {
        no_dups(self.pressed_keys) && no_dups(self.pressed_mouse_buttons)
    }

    /// Whether `key` is currently held down.
    pub open spec fn key_is_pressed(self, key: KeyCode) -> bool {
        self.pressed_keys.contains(key)
    }

    /// Whether `key` went down during the current frame window.
    pub open spec fn key_is_just_pressed(self, key: KeyCode) -> bool {
        self.just_pressed_keys.contains(key)
    }

    /// Whether `button` is currently held down.
    pub open spec fn button_is_pressed(self, button: MouseButton) -> bool {
        self.pressed_mouse_buttons.contains(button)
    }

    /// Whether `button` went down during the current frame window.
    pub open spec fn button_is_just_pressed(self, button: MouseButton) -> bool {
        self.just_pressed_mouse_buttons.contains(button)
    }

    /// The state after one event. A press of an already-pressed key is a
    /// no-op; a fresh press enters both the pressed set and the edge set; a
    /// release only removes from the pressed set.
    pub open spec fn spec_update(self, event: InputEvent) -> InputView {
        match event {
            InputEvent::Keyboard { key, pressed } => {
                if pressed {
                    if self.pressed_keys.contains(key) {
                        self
                    } else {
                        InputView {
                            pressed_keys: self.pressed_keys.push(key),
                            just_pressed_keys: self.just_pressed_keys.push(key),
                            ..self
                        }
                    }
                } else {
                    InputView { pressed_keys: self.pressed_keys.filter(|x: KeyCode| x != key), ..self }
                }
            },
            InputEvent::MouseInput { button, pressed } => {
                if pressed {
                    if self.pressed_mouse_buttons.contains(button) {
                        self
                    } else {
                        InputView {
                            pressed_mouse_buttons: self.pressed_mouse_buttons.push(button),
                            just_pressed_mouse_buttons: self.just_pressed_mouse_buttons.push(button),
                            ..self
                        }
                    }
                } else {
                    InputView {
                        pressed_mouse_buttons: self.pressed_mouse_buttons.filter(
                            |x: MouseButton| x != button,
                        ),
                        ..self
                    }
                }
            },
            InputEvent::CursorMoved { x_bits, y_bits } => {
                InputView { mouse_position: (x_bits, y_bits), ..self }
            },
            InputEvent::MouseWheel { dx_bits, dy_bits } => {
                InputView { mouse_delta: (dx_bits, dy_bits), ..self }
            },
            _ => self,
        }
    }

    /// The state after a per-tick clear: edge sets and wheel delta empty,
    /// pressed sets and pointer position untouched.
    pub open spec fn spec_clear(self) -> InputView {
        InputView {
            just_pressed_keys: Seq::empty(),
            just_pressed_mouse_buttons: Seq::empty(),
            mouse_delta: (0u32, 0u32),
            ..self
        }
    }
}

/// Current and just-changed key and pointer-button state, plus pointer
/// position and wheel delta, for one frame window.
#[derive(Debug)]
pub struct InputManager {
    pressed_keys: Vec<KeyCode>,
    just_pressed_keys: Vec<KeyCode>,
    pressed_mouse_buttons: Vec<MouseButton>,
    just_pressed_mouse_buttons: Vec<MouseButton>,
    mouse_position: (u32, u32),
    mouse_delta: (u32, u32),
}

impl View for InputManager {
    type V = InputView;

    closed spec fn view(&self) -> InputView {
        InputView {
            pressed_keys: self.pressed_keys@,
            just_pressed_keys: self.just_pressed_keys@,
            pressed_mouse_buttons: self.pressed_mouse_buttons@,
            just_pressed_mouse_buttons: self.just_pressed_mouse_buttons@,
            mouse_position: self.mouse_position,
            mouse_delta: self.mouse_delta,
        }
    }
}

impl InputManager {
    /// An empty tracker: nothing pressed, pointer at the origin.
    pub fn new() -> (m: InputManager)
        ensures
            m@ == (InputView {
                pressed_keys: Seq::empty(),
                just_pressed_keys: Seq::empty(),
                pressed_mouse_buttons: Seq::empty(),
                just_pressed_mouse_buttons: Seq::empty(),
                mouse_position: (0u32, 0u32),
                mouse_delta: (0u32, 0u32),
            }),
            m@.wf(),
    {
        InputManager {
            pressed_keys: Vec::new(),
            just_pressed_keys: Vec::new(),
            pressed_mouse_buttons: Vec::new(),
            just_pressed_mouse_buttons: Vec::new(),
            mouse_position: (0, 0),
            mouse_delta: (0, 0),
        }
    }

    /// Ingest one window event.
    pub fn update(&mut self, event: InputEvent)
        requires
            old(self)@.wf(),
        ensures
            final(self)@ == old(self)@.spec_update(event),
            final(self)@.wf(),
    {
        match event {
            InputEvent::Keyboard { key, pressed } => self.handle_keyboard_input(key, pressed),
            InputEvent::MouseInput { button, pressed } => self.handle_mouse_input(button, pressed),
            InputEvent::CursorMoved { x_bits, y_bits } => self.handle_cursor(x_bits, y_bits),
            InputEvent::MouseWheel { dx_bits, dy_bits } => self.handle_mouse_wheel(dx_bits, dy_bits),
            _ => {},
        }
    }

    /// Reset the per-tick edge state. Called exactly once per tick, after
    /// the application logic has read the edges.
    pub fn clear(&mut self)
        requires
            old(self)@.wf(),
        ensures
            final(self)@ == old(self)@.spec_clear(),
            final(self)@.wf(),
    {
        self.just_pressed_keys.clear();
        self.just_pressed_mouse_buttons.clear();
        self.mouse_delta = (0, 0);
    }

    fn handle_keyboard_input(&mut self, key: KeyCode, pressed: bool)
        requires
            old(self)@.wf(),
        ensures
            final(self)@ == old(self)@.spec_update(InputEvent::Keyboard { key, pressed }),
            final(self)@.wf(),
    {
        if pressed {
            if keys_contain(&self.pressed_keys, key) {
                return;
            }
            self.just_pressed_keys.push(key);
            self.pressed_keys.push(key);
        } else {
            remove_key(&mut self.pressed_keys, key);
            proof {
                lemma_filter_no_dups(old(self)@.pressed_keys, |x: KeyCode| x != key);
            }
        }
    }

    fn handle_mouse_input(&mut self, button: MouseButton, pressed: bool)
        requires
            old(self)@.wf(),
        ensures
            final(self)@ == old(self)@.spec_update(InputEvent::MouseInput { button, pressed }),
            final(self)@.wf(),
    {
        if pressed {
            if buttons_contain(&self.pressed_mouse_buttons, button) {
                return;
            }
            self.just_pressed_mouse_buttons.push(button);
            self.pressed_mouse_buttons.push(button);
        } else {
            remove_button(&mut self.pressed_mouse_buttons, button);
            proof {
                lemma_filter_no_dups(old(self)@.pressed_mouse_buttons, |x: MouseButton| x != button);
            }
        }
    }

    fn handle_cursor(&mut self, x_bits: u32, y_bits: u32)
        ensures
            final(self)@ == old(self)@.spec_update(InputEvent::CursorMoved { x_bits, y_bits }),
    {
        self.mouse_position = (x_bits, y_bits);
    }

    fn handle_mouse_wheel(&mut self, dx_bits: u32, dy_bits: u32)
        ensures
            final(self)@ == old(self)@.spec_update(InputEvent::MouseWheel { dx_bits, dy_bits }),
    {
        self.mouse_delta = (dx_bits, dy_bits);
    }

    /// Whether `key_code` is currently held down.
    pub fn is_key_pressed(&self, key_code: KeyCode) -> (r: bool)
        ensures
            r == self@.key_is_pressed(key_code),
    {
        keys_contain(&self.pressed_keys, key_code)
    }

    /// Whether `key_code` went down during the current frame window.
    pub fn is_key_just_pressed(&self, key_code: KeyCode) -> (r: bool)
        ensures
            r == self@.key_is_just_pressed(key_code),
    {
        keys_contain(&self.just_pressed_keys, key_code)
    }

    /// Whether `key_code` is currently up.
    pub fn is_key_released(&self, key_code: KeyCode) -> (r: bool)
        ensures
            r == !self@.key_is_pressed(key_code),
    {
        !self.is_key_pressed(key_code)
    }

    /// Whether `button` is currently held down.
    pub fn is_mouse_button_pressed(&self, button: MouseButton) -> (r: bool)
        ensures
            r == self@.button_is_pressed(button),
    {
        buttons_contain(&self.pressed_mouse_buttons, button)
    }

    /// Whether `button` went down during the current frame window.
    pub fn is_mouse_button_just_pressed(&self, button: MouseButton) -> (r: bool)
        ensures
            r == self@.button_is_just_pressed(button),
    {
        buttons_contain(&self.just_pressed_mouse_buttons, button)
    }

    /// Whether `button` is currently up.
    pub fn is_mouse_button_released(&self, button: MouseButton) -> (r: bool)
        ensures
            r == !self@.button_is_pressed(button),
    {
        !self.is_mouse_button_pressed(button)
    }

    /// The pointer position, as a pair of single-precision words.
    pub fn mouse_position(&self) -> (r: (u32, u32))
        ensures
            r == self@.mouse_position,
    {
        self.mouse_position
    }

    /// The wheel delta since the last clear, as a pair of single-precision
    /// words.
    pub fn mouse_delta(&self) -> (r: (u32, u32))
        ensures
            r == self@.mouse_delta,
    {
        self.mouse_delta
    }
}

fn keys_contain(keys: &Vec<KeyCode>, key: KeyCode) -> (r: bool)
    ensures
        r == keys@.contains(key),
{
    let mut i: usize = 0;
    while i < keys.len()
        invariant
            i <= keys@.len(),
            forall|j: int| 0 <= j < i ==> keys@[j] != key,
        decreases keys@.len() - i,
    {
        if keys[i] == key {
            return true;
        }
        i = i + 1;
    }
    false
}

fn buttons_contain(buttons: &Vec<MouseButton>, button: MouseButton) -> (r: bool)
    ensures
        r == buttons@.contains(button),
{
    let mut i: usize = 0;
    while i < buttons.len()
        invariant
            i <= buttons@.len(),
            forall|j: int| 0 <= j < i ==> buttons@[j] != button,
        decreases buttons@.len() - i,
    {
        if buttons[i] == button {
            return true;
        }
        i = i + 1;
    }
    false
}

/// Remove every occurrence of `key`, keeping the order of the rest.
fn remove_key(keys: &mut Vec<KeyCode>, key: KeyCode)
    ensures
        final(keys)@ == old(keys)@.filter(|x: KeyCode| x != key),
{
    let mut kept: Vec<KeyCode> = Vec::new();
    let mut i: usize = 0;
    while i < keys.len()
        invariant
            i <= keys@.len(),
            kept@ == keys@.subrange(0, i as int).filter(|x: KeyCode| x != key),
        decreases keys@.len() - i,
    {
        let k = keys[i];
        if !(k == key) {
            kept.push(k);
        }
        proof {
            lemma_filter_extend(keys@, |x: KeyCode| x != key, i as int);
        }
        i = i + 1;
    }
    proof {
        assert(keys@.subrange(0, keys@.len() as int) =~= keys@);
    }
    *keys = kept;
}

/// Remove every occurrence of `button`, keeping the order of the rest.
fn remove_button(buttons: &mut Vec<MouseButton>, button: MouseButton)
    ensures
        final(buttons)@ == old(buttons)@.filter(|x: MouseButton| x != button),
{
    let mut kept: Vec<MouseButton> = Vec::new();
    let mut i: usize = 0;
    while i < buttons.len()
        invariant
            i <= buttons@.len(),
            kept@ == buttons@.subrange(0, i as int).filter(|x: MouseButton| x != button),
        decreases buttons@.len() - i,
    {
        let b = buttons[i];
        if !(b == button) {
            kept.push(b);
        }
        proof {
            lemma_filter_extend(buttons@, |x: MouseButton| x != button, i as int);
        }
        i = i + 1;
    }
    proof {
        assert(buttons@.subrange(0, buttons@.len() as int) =~= buttons@);
    }
    *buttons = kept;
}

/// Filtering one more element either appends it or leaves the result as it
/// was, according to the predicate.
proof fn lemma_filter_extend<T>(s: Seq<T>, pred: spec_fn(T) -> bool, i: int)
    requires
        0 <= i < s.len(),
    ensures
        s.subrange(0, i + 1).filter(pred) == if pred(s[i]) {
            s.subrange(0, i).filter(pred).push(s[i])
        } else {
            s.subrange(0, i).filter(pred)
        },
{
    reveal_with_fuel(Seq::filter, 2);
    let longer = s.subrange(0, i + 1);
    assert(longer.drop_last() =~= s.subrange(0, i));
    assert(longer.last() == s[i]);
}

/// A filtered sequence holds only elements that pass the predicate and
/// that stood in the original sequence.
proof fn lemma_filter_members<T>(s: Seq<T>, pred: spec_fn(T) -> bool, x: T)
    requires
        s.filter(pred).contains(x),
    ensures
        pred(x),
        s.contains(x),
    decreases s.len(),
{
    reveal_with_fuel(Seq::filter, 2);
    if s.len() > 0 {
        let shorter = s.drop_last().filter(pred);
        let whole = s.filter(pred);
        if pred(s.last()) {
            assert(whole == shorter.push(s.last()));
            let i = choose|i: int| 0 <= i < whole.len() && whole[i] == x;
            if i < shorter.len() {
                assert(shorter[i] == x);
                assert(shorter.contains(x));
                lemma_filter_members(s.drop_last(), pred, x);
                let j = choose|j: int| 0 <= j < s.drop_last().len() && s.drop_last()[j] == x;
                assert(s[j] == x);
                assert(s.contains(x));
            } else {
                assert(x == s.last());
                assert(s[s.len() - 1] == x);
                assert(s.contains(x));
            }
        } else {
            assert(whole == shorter);
            lemma_filter_members(s.drop_last(), pred, x);
            let j = choose|j: int| 0 <= j < s.drop_last().len() && s.drop_last()[j] == x;
            assert(s[j] == x);
            assert(s.contains(x));
        }
    }
}

/// The tracker state after a whole sequence of events, applied in order.
pub open spec fn apply_events(v: InputView, events: Seq<InputEvent>) -> InputView
    decreases events.len(),
{
    if events.len() == 0 {
        v
    } else {
        apply_events(v, events.drop_last()).spec_update(events.last())
    }
}

/// Whether an event is a press or a release of `key`.
pub open spec fn is_key_event(event: InputEvent, key: KeyCode) -> bool {
    event matches InputEvent::Keyboard { key: k, .. } && k == key
}

/// A key is never kept by a filter that drops it.
proof fn lemma_filter_drops_key(s: Seq<KeyCode>, key: KeyCode)
    ensures
        !s.filter(|x: KeyCode| x != key).contains(key),
{
    if s.filter(|x: KeyCode| x != key).contains(key) {
        lemma_filter_members(s, |x: KeyCode| x != key, key);
        assert(false);
    }
}

/// After any sequence of press and release events on one key, the key is
/// pressed exactly when the last of those events was a press: the tracker
/// reflects the net state, however the presses and releases interleave.
pub proof fn lemma_key_net_state(v: InputView, events: Seq<InputEvent>, key: KeyCode)
    requires
        events.len() > 0,
        forall|i: int| 0 <= i < events.len() ==> is_key_event(#[trigger] events[i], key),
    ensures
        apply_events(v, events).key_is_pressed(key) == (events.last()
            matches InputEvent::Keyboard { pressed, .. } && pressed),
{
    let prev = apply_events(v, events.drop_last());
    assert(is_key_event(events.last(), key));
    match events.last() {
        InputEvent::Keyboard { key: k, pressed } => {
            if pressed {
                if !prev.pressed_keys.contains(key) {
                    assert(prev.pressed_keys.push(key)[prev.pressed_keys.len() as int] == key);
                }
            } else {
                lemma_filter_drops_key(prev.pressed_keys, key);
            }
        },
        _ => {
            assert(false);
        },
    }
}

/// Pressing a key twice is the same as pressing it once: the second press
/// changes nothing at all.
pub proof fn lemma_press_idempotent(v: InputView, key: KeyCode)
    ensures
        v.spec_update(InputEvent::Keyboard { key, pressed: true }).spec_update(
            InputEvent::Keyboard { key, pressed: true },
        ) == v.spec_update(InputEvent::Keyboard { key, pressed: true }),
{
    let v1 = v.spec_update(InputEvent::Keyboard { key, pressed: true });
    if !v.pressed_keys.contains(key) {
        assert(v.pressed_keys.push(key)[v.pressed_keys.len() as int] == key);
    }
    assert(v1.pressed_keys.contains(key));
}

/// A press or release of one key never changes what the tracker reports
/// about any other key.
pub proof fn lemma_key_update_independent(
    v: InputView,
    event: InputEvent,
    key: KeyCode,
    other: KeyCode,
)
    requires
        is_key_event(event, key),
        other != key,
    ensures
        v.spec_update(event).key_is_pressed(other) == v.key_is_pressed(other),
        v.spec_update(event).key_is_just_pressed(other) == v.key_is_just_pressed(other),
{
    match event {
        InputEvent::Keyboard { key: k, pressed } => {
            if pressed {
                if !v.pressed_keys.contains(key) {
                    let pushed = v.pressed_keys.push(key);
                    assert(v.pressed_keys.contains(other) ==> pushed.contains(other)) by {
                        if v.pressed_keys.contains(other) {
                            let j = choose|j: int|
                                0 <= j < v.pressed_keys.len() && v.pressed_keys[j] == other;
                            assert(pushed[j] == other);
                        }
                    }
                    assert(pushed.contains(other) ==> v.pressed_keys.contains(other)) by {
                        if pushed.contains(other) {
                            let j = choose|j: int| 0 <= j < pushed.len() && pushed[j] == other;
                            assert(j < v.pressed_keys.len());
                            assert(v.pressed_keys[j] == other);
                        }
                    }
                    let jpushed = v.just_pressed_keys.push(key);
                    assert(v.just_pressed_keys.contains(other) ==> jpushed.contains(other)) by {
                        if v.just_pressed_keys.contains(other) {
                            let j = choose|j: int|
                                0 <= j < v.just_pressed_keys.len() && v.just_pressed_keys[j]
                                    == other;
                            assert(jpushed[j] == other);
                        }
                    }
                    assert(jpushed.contains(other) ==> v.just_pressed_keys.contains(other)) by {
                        if jpushed.contains(other) {
                            let j = choose|j: int| 0 <= j < jpushed.len() && jpushed[j] == other;
                            assert(j < v.just_pressed_keys.len());
                            assert(v.just_pressed_keys[j] == other);
                        }
                    }
                }
            } else {
                let kept = v.pressed_keys.filter(|x: KeyCode| x != key);
                assert(kept.contains(other) ==> v.pressed_keys.contains(other)) by {
                    if kept.contains(other) {
                        lemma_filter_members(v.pressed_keys, |x: KeyCode| x != key, other);
                    }
                }
                assert(v.pressed_keys.contains(other) ==> kept.contains(other)) by {
                    if v.pressed_keys.contains(other) {
                        let j = choose|j: int|
                            0 <= j < v.pressed_keys.len() && v.pressed_keys[j] == other;
                        v.pressed_keys.lemma_filter_contains(|x: KeyCode| x != key, j);
                    }
                }
            }
        },
        _ => {
            assert(false);
        },
    }
}

/// After a clear, no key or button is reported as just pressed, while the
/// pressed state of every key and button is untouched.
pub proof fn lemma_clear_resets_edges(v: InputView)
    ensures
        forall|k: KeyCode| !v.spec_clear().key_is_just_pressed(k),
        forall|b: MouseButton| !v.spec_clear().button_is_just_pressed(b),
        forall|k: KeyCode| v.spec_clear().key_is_pressed(k) == v.key_is_pressed(k),
        forall|b: MouseButton| v.spec_clear().button_is_pressed(b) == v.button_is_pressed(b),
{
}

/// A filter of a duplicate-free sequence stays duplicate-free.
proof fn lemma_filter_no_dups<T>(s: Seq<T>, pred: spec_fn(T) -> bool)
    requires
        no_dups(s),
    ensures
        no_dups(s.filter(pred)),
    decreases s.len(),
{
    reveal_with_fuel(Seq::filter, 2);
    if s.len() > 0 {
        assert(no_dups(s.drop_last()));
        lemma_filter_no_dups(s.drop_last(), pred);
        let shorter = s.drop_last().filter(pred);
        if pred(s.last()) {
            assert(s.filter(pred) == shorter.push(s.last()));
            if shorter.contains(s.last()) {
                lemma_filter_members(s.drop_last(), pred, s.last());
                let j = choose|j: int| 0 <= j < s.drop_last().len() && s.drop_last()[j] == s.last();
                assert(s[j] == s[s.len() - 1]);
                assert(false);
            }
            assert(no_dups(shorter.push(s.last())));
        }
    }
}

} // verus!
