//! The per-frame input state: which game keys went down, are held, or came
//! up during the current frame, whether the player asked to quit, and the
//! fullscreen toggle.
//!
//! The window system's event pump stays with the application: for each event
//! it asks [`consume_event`] what the new state is and what it has to do
//! (switch relative mouse mode, switch fullscreen, resize the render target,
//! move the view).
use vstd::prelude::*;

use crate::error::{is_misc_error, NUError};

verus! {

/// The game's logical keys.
#[derive(Debug, Clone, Copy, PartialEq, Eq, Structural)]
pub enum Key {
    Up,
    Down,
    Left,
    Right,
    Prev,
    Next,
    Action,
    Jump,
    Sprint,
}

/// The number of logical keys.
pub const NUM_KEYS: usize = 9;

/// The slot of a key in the key tables.
pub open spec fn key_slot(k: Key) -> int {
    match k {
        Key::Up => 0,
        Key::Down => 1,
        Key::Left => 2,
        Key::Right => 3,
        Key::Prev => 4,
        Key::Next => 5,
        Key::Action => 6,
        Key::Jump => 7,
        Key::Sprint => 8,
    }
}

impl Key {
    /// The slot of this key in the key tables.
    pub fn index(&self) -> (res: usize)
        ensures
            res == key_slot(*self),
            res < NUM_KEYS,
    {
        match self {
            Key::Up => 0,
            Key::Down => 1,
            Key::Left => 2,
            Key::Right => 3,
            Key::Prev => 4,
            Key::Next => 5,
            Key::Action => 6,
            Key::Jump => 7,
            Key::Sprint => 8,
        }
    }
}

/// The keyboard keys the game reacts to.
#[derive(Debug, Clone, Copy, PartialEq, Eq, Structural)]
pub enum KeyCode {
    Up,
    W,
    Left,
    A,
    Down,
    S,
    Right,
    D,
    Q,
    E,
    Space,
    LShift,
    Escape,
    Return,
    Other,
}

/// The mouse buttons the game reacts to.
#[derive(Debug, Clone, Copy, PartialEq, Eq, Structural)]
pub enum MouseBtn {
    Left,
    Right,
    Other,
}

/// An event from the window system, as the input state sees it.
#[derive(Debug, Clone, Copy, PartialEq, Eq, Structural)]
pub enum InputEvent {
    Quit,
    KeyDown { keycode: KeyCode, repeat: bool },
    KeyUp { keycode: KeyCode },
    MouseButtonDown { button: MouseBtn },
    MouseButtonUp { button: MouseBtn },
    MouseWheel { y: i32 },
    MouseMotion { xrel: i32, yrel: i32 },
    FocusLost,
    SizeChanged { w: i32, h: i32 },
    Other,
}

/// What the application has to do after an event.
#[derive(Debug, Clone, Copy, PartialEq, Eq, Structural)]
pub enum InputAction {
    Nothing,
    /// Switch the mouse's relative mode on or off.
    SetRelativeMouseMode(bool),
    /// Switch the window to desktop fullscreen (`true`) or back (`false`).
    SetFullscreen(bool),
    /// The window has a new size.
    ChangeWindowSize(i32, i32),
    /// Move the view by a relative mouse motion, its vertical part inverted
    /// when the flag is set.
    MoveMouse { xrel: i32, yrel: i32, invert: bool },
}

/// The input state.
pub struct InputGod {
    pub mouse_invert: bool,
    pub quit: bool,
    pub keys_pressed: [bool; 9],
    pub keys_down: [bool; 9],
    pub keys_released: [bool; 9],
    pub fullscreen: bool,
}

/// The abstract input state: the three key tables as sequences.
pub struct InputView {
    pub mouse_invert: bool,
    pub quit: bool,
    pub pressed: Seq<bool>,
    pub down: Seq<bool>,
    pub released: Seq<bool>,
    pub fullscreen: bool,
}

impl View for InputGod {
    type V = InputView;

    open spec fn view(&self) -> InputView {
        InputView {
            mouse_invert: self.mouse_invert,
            quit: self.quit,
            pressed: self.keys_pressed@,
            down: self.keys_down@,
            released: self.keys_released@,
            fullscreen: self.fullscreen,
        }
    }
}

/// The logical key that a keyboard key stands for.
pub open spec fn key_for_code(c: KeyCode) -> Option<Key> {
    match c {
        KeyCode::Up | KeyCode::W => Some(Key::Up),
        KeyCode::Left | KeyCode::A => Some(Key::Left),
        KeyCode::Down | KeyCode::S => Some(Key::Down),
        KeyCode::Right | KeyCode::D => Some(Key::Right),
        KeyCode::Q => Some(Key::Prev),
        KeyCode::E => Some(Key::Next),
        KeyCode::Space => Some(Key::Jump),
        KeyCode::LShift => Some(Key::Sprint),
        _ => None,
    }
}

/// `v` with key `k` marked down and pressed.
pub open spec fn press(v: InputView, k: Key) -> InputView {
    InputView {
        down: v.down.update(key_slot(k), true),
        pressed: v.pressed.update(key_slot(k), true),
        ..v
    }
}

/// `v` with key `k` marked up and released.
pub open spec fn release(v: InputView, k: Key) -> InputView {
    InputView {
        down: v.down.update(key_slot(k), false),
        released: v.released.update(key_slot(k), true),
        ..v
    }
}

/// `v` with key `k` held or not, nothing else changed.
pub open spec fn hold(v: InputView, k: Key, held: bool) -> InputView {
    InputView { down: v.down.update(key_slot(k), held), ..v }
}

/// The state after one event and what the application has to do, given
/// whether the mouse is in relative mode and whether an Alt key is held.
pub open spec fn input_step(v: InputView, ev: InputEvent, relative: bool, alt: bool) -> (
    InputView,
    InputAction,
) {
    match ev {
        InputEvent::Quit => (InputView { quit: true, ..v }, InputAction::Nothing),
        InputEvent::KeyDown { keycode, repeat } => {
            if !repeat && key_for_code(keycode) is Some {
                (press(v, key_for_code(keycode)->0), InputAction::Nothing)
            } else {
                (v, InputAction::Nothing)
            }
        },
        InputEvent::KeyUp { keycode } => {
            if keycode == KeyCode::Escape {
                (v, InputAction::SetRelativeMouseMode(false))
            } else if key_for_code(keycode) is Some {
                (release(v, key_for_code(keycode)->0), InputAction::Nothing)
            } else if keycode == KeyCode::Return && alt {
                (
                    InputView { fullscreen: !v.fullscreen, ..v },
                    InputAction::SetFullscreen(!v.fullscreen),
                )
            } else {
                (v, InputAction::Nothing)
            }
        },
        InputEvent::MouseButtonDown { button } => {
            match button {
                MouseBtn::Left => (
                    hold(v, Key::Action, true),
                    if relative {
                        InputAction::Nothing
                    } else {
                        InputAction::SetRelativeMouseMode(true)
                    },
                ),
                MouseBtn::Right => (hold(v, Key::Jump, true), InputAction::Nothing),
                MouseBtn::Other => (v, InputAction::Nothing),
            }
        },
        InputEvent::MouseButtonUp { button } => {
            match button {
                MouseBtn::Left => (hold(v, Key::Action, false), InputAction::Nothing),
                MouseBtn::Right => (hold(v, Key::Jump, false), InputAction::Nothing),
                MouseBtn::Other => (v, InputAction::Nothing),
            }
        },
        InputEvent::MouseWheel { y } => {
            if y <= -1 {
                (press(v, Key::Next), InputAction::Nothing)
            } else if y >= 1 {
                (press(v, Key::Prev), InputAction::Nothing)
            } else {
                (v, InputAction::Nothing)
            }
        },
        InputEvent::MouseMotion { xrel, yrel } => {
            if relative {
                (v, InputAction::MoveMouse { xrel, yrel, invert: v.mouse_invert })
            } else {
                (v, InputAction::Nothing)
            }
        },
        InputEvent::FocusLost => (v, InputAction::SetRelativeMouseMode(false)),
        InputEvent::SizeChanged { w, h } => (v, InputAction::ChangeWindowSize(w, h)),
        InputEvent::Other => (v, InputAction::Nothing),
    }
}

/// The input state with nothing pressed, held or released.
pub open spec fn fresh_input() -> InputView {
    InputView {
        mouse_invert: false,
        quit: false,
        pressed: Seq::new(9, |i: int| false),
        down: Seq::new(9, |i: int| false),
        released: Seq::new(9, |i: int| false),
        fullscreen: false,
    }
}

/// The three key tables have one slot per key.
pub open spec fn input_wf(v: InputView) -> bool {
    v.pressed.len() == NUM_KEYS && v.down.len() == NUM_KEYS && v.released.len() == NUM_KEYS
}

fn key_for_keycode(c: KeyCode) -> (res: Option<Key>)
    ensures
        res == key_for_code(c),
{
    match c {
        KeyCode::Up | KeyCode::W => Some(Key::Up),
        KeyCode::Left | KeyCode::A => Some(Key::Left),
        KeyCode::Down | KeyCode::S => Some(Key::Down),
        KeyCode::Right | KeyCode::D => Some(Key::Right),
        KeyCode::Q => Some(Key::Prev),
        KeyCode::E => Some(Key::Next),
        KeyCode::Space => Some(Key::Jump),
        KeyCode::LShift => Some(Key::Sprint),
        _ => None,
    }
}

impl InputGod {
    fn press_key(&mut self, k: Key)
        ensures
            final(self)@ == press(old(self)@, k),
    {
        let i = k.index();
        self.keys_down[i] = true;
        self.keys_pressed[i] = true;
    }

    fn release_key(&mut self, k: Key)
        ensures
            final(self)@ == release(old(self)@, k),
    {
        let i = k.index();
        self.keys_down[i] = false;
        self.keys_released[i] = true;
    }

    fn hold_key(&mut self, k: Key, held: bool)
        ensures
            final(self)@ == hold(old(self)@, k, held),
    {
        let i = k.index();
        self.keys_down[i] = held;
    }
}

/// Creates the input state; an error if it exists already.
pub fn init(ig: &mut Option<InputGod>) -> (res: Result<(), NUError>)
    ensures
        *old(ig) is Some ==> is_misc_error(res->Err_0, "INPUT_GOD already init"@) && res is Err
            && *final(ig) == *old(ig),
        *old(ig) is None ==> res is Ok && *final(ig) is Some && (*final(ig))->0@ == fresh_input(),
{
    if ig.is_some() {
        return Err(NUError::misc("INPUT_GOD already init"));
    }
    let g = InputGod {
        mouse_invert: false,
        quit: false,
        keys_pressed: [false, false, false, false, false, false, false, false, false],
        keys_down: [false, false, false, false, false, false, false, false, false],
        keys_released: [false, false, false, false, false, false, false, false, false],
        fullscreen: false,
    };
    assert(g@.pressed =~= fresh_input().pressed);
    assert(g@.down =~= fresh_input().down);
    assert(g@.released =~= fresh_input().released);
    *ig = Some(g);
    Ok(())
}

/// The error for reading the input state before it exists.
fn uninit() -> (res: NUError)
    ensures
        is_misc_error(res, "INPUT_GOD uninit"@),
{
    NUError::misc("INPUT_GOD uninit")
}

/// Starts a frame: nothing has been pressed or released yet in it; held
/// keys stay held.
pub fn begin_consume(ig: &mut Option<InputGod>) -> (res: Result<(), NUError>)
    ensures
        *old(ig) is None ==> is_misc_error(res->Err_0, "INPUT_GOD uninit"@) && res is Err
            && *final(ig) == *old(ig),
        *old(ig) is Some ==> res is Ok && *final(ig) is Some && (*final(ig))->0@ == (InputView {
            pressed: Seq::new(9, |i: int| false),
            released: Seq::new(9, |i: int| false),
            ..(*old(ig))->0@
        }),
{
    match ig {
        None => Err(uninit()),
        Some(g) => {
            g.keys_pressed = [false, false, false, false, false, false, false, false, false];
            g.keys_released = [false, false, false, false, false, false, false, false, false];
            assert(g.keys_pressed@ =~= Seq::new(9, |i: int| false));
            assert(g.keys_released@ =~= Seq::new(9, |i: int| false));
            Ok(())
        },
    }
}

/// Applies one window-system event to the input state. `relative` tells
/// whether the mouse is in relative mode now, `alt` whether an Alt key is
/// held; the result says what the application has to do.
pub fn consume_event(
    ig: &mut Option<InputGod>,
    ev: InputEvent,
    relative: bool,
    alt: bool,
) -> (res: Result<InputAction, NUError>)
    ensures
        *old(ig) is None ==> is_misc_error(res->Err_0, "INPUT_GOD uninit"@) && res is Err
            && *final(ig) == *old(ig),
        *old(ig) is Some ==> res is Ok && *final(ig) is Some && ((*final(ig))->0@, res->Ok_0)
            == input_step((*old(ig))->0@, ev, relative, alt),
{
    match ig {
        None => Err(uninit()),
        Some(g) => {
            let action = match ev {
                InputEvent::Quit => {
                    g.quit = true;
                    InputAction::Nothing
                },
                InputEvent::KeyDown { keycode, repeat } => {
                    if !repeat {
                        match key_for_keycode(keycode) {
                            Some(k) => g.press_key(k),
                            None => {},
                        }
                    }
                    InputAction::Nothing
                },
                InputEvent::KeyUp { keycode } => {
                    if keycode == KeyCode::Escape {
                        InputAction::SetRelativeMouseMode(false)
                    } else {
                        match key_for_keycode(keycode) {
                            Some(k) => {
                                g.release_key(k);
                                InputAction::Nothing
                            },
                            None => {
                                if keycode == KeyCode::Return && alt {
                                    let fs = !g.fullscreen;
                                    g.fullscreen = fs;
                                    InputAction::SetFullscreen(fs)
                                } else {
                                    InputAction::Nothing
                                }
                            },
                        }
                    }
                },
                InputEvent::MouseButtonDown { button } => {
                    match button {
                        MouseBtn::Left => {
                            g.hold_key(Key::Action, true);
                            if relative {
                                InputAction::Nothing
                            } else {
                                InputAction::SetRelativeMouseMode(true)
                            }
                        },
                        MouseBtn::Right => {
                            g.hold_key(Key::Jump, true);
                            InputAction::Nothing
                        },
                        MouseBtn::Other => InputAction::Nothing,
                    }
                },
                InputEvent::MouseButtonUp { button } => {
                    match button {
                        MouseBtn::Left => {
                            g.hold_key(Key::Action, false);
                            InputAction::Nothing
                        },
                        MouseBtn::Right => {
                            g.hold_key(Key::Jump, false);
                            InputAction::Nothing
                        },
                        MouseBtn::Other => InputAction::Nothing,
                    }
                },
                InputEvent::MouseWheel { y } => {
                    if y <= -1 {
                        g.press_key(Key::Next);
                    } else if y >= 1 {
                        g.press_key(Key::Prev);
                    }
                    InputAction::Nothing
                },
                InputEvent::MouseMotion { xrel, yrel } => {
                    if relative {
                        InputAction::MoveMouse { xrel, yrel, invert: g.mouse_invert }
                    } else {
                        InputAction::Nothing
                    }
                },
                InputEvent::FocusLost => InputAction::SetRelativeMouseMode(false),
                InputEvent::SizeChanged { w, h } => InputAction::ChangeWindowSize(w, h),
                InputEvent::Other => InputAction::Nothing,
            };
            Ok(action)
        },
    }
}

/// Whether the player asked to quit.
pub fn get_quit(ig: &Option<InputGod>) -> (res: Result<bool, NUError>)
    ensures
        ig is None ==> res is Err && is_misc_error(res->Err_0, "INPUT_GOD uninit"@),
        ig is Some ==> res == Ok::<bool, NUError>(ig->0.quit),
{
    match ig {
        None => Err(uninit()),
        Some(g) => Ok(g.quit),
    }
}

/// The keys that went down during this frame.
pub fn get_keys_pressed(ig: &Option<InputGod>) -> (res: Result<[bool; 9], NUError>)
    ensures
        ig is None ==> res is Err && is_misc_error(res->Err_0, "INPUT_GOD uninit"@),
        ig is Some ==> res is Ok && res->Ok_0@ == ig->0.keys_pressed@,
{
    match ig {
        None => Err(uninit()),
        Some(g) => Ok(g.keys_pressed),
    }
}

/// The keys held now.
pub fn get_keys_down(ig: &Option<InputGod>) -> (res: Result<[bool; 9], NUError>)
    ensures
        ig is None ==> res is Err && is_misc_error(res->Err_0, "INPUT_GOD uninit"@),
        ig is Some ==> res is Ok && res->Ok_0@ == ig->0.keys_down@,
{
    match ig {
        None => Err(uninit()),
        Some(g) => Ok(g.keys_down),
    }
}

/// The keys that came up during this frame.
pub fn get_keys_released(ig: &Option<InputGod>) -> (res: Result<[bool; 9], NUError>)
    ensures
        ig is None ==> res is Err && is_misc_error(res->Err_0, "INPUT_GOD uninit"@),
        ig is Some ==> res is Ok && res->Ok_0@ == ig->0.keys_released@,
{
    match ig {
        None => Err(uninit()),
        Some(g) => Ok(g.keys_released),
    }
}

/// Every event keeps one slot per key in each key table.
pub proof fn lemma_step_keeps_wf(v: InputView, ev: InputEvent, relative: bool, alt: bool)
    requires
        input_wf(v),
    ensures
        input_wf(input_step(v, ev, relative, alt).0),
{
}

/// A key that goes down and comes up again in one frame is up afterwards,
/// and counts as both pressed and released in that frame.
pub proof fn lemma_key_down_then_up(v: InputView, c: KeyCode, relative: bool, alt: bool)
    requires
        input_wf(v),
        key_for_code(c) is Some,
    ensures
        ({
            let k = key_for_code(c)->0;
            let after_down = input_step(v, InputEvent::KeyDown { keycode: c, repeat: false }, relative, alt).0;
            let after_up = input_step(after_down, InputEvent::KeyUp { keycode: c }, relative, alt).0;
            &&& after_down.down[key_slot(k)]
            &&& !after_up.down[key_slot(k)]
            &&& after_up.pressed[key_slot(k)]
            &&& after_up.released[key_slot(k)]
        }),
{
}

/// A repeated key-down event, sent while a key is held, changes nothing.
pub proof fn lemma_repeat_ignored(v: InputView, c: KeyCode, relative: bool, alt: bool)
    ensures
        input_step(v, InputEvent::KeyDown { keycode: c, repeat: true }, relative, alt) == (
            v,
            InputAction::Nothing,
        ),
{
}

/// Alt+Enter switches fullscreen on or off, and twice gives back the mode
/// there was.
pub proof fn lemma_fullscreen_toggle_twice(v: InputView, relative: bool)
    ensures
        ({
            let once = input_step(v, InputEvent::KeyUp { keycode: KeyCode::Return }, relative, true);
            let twice = input_step(once.0, InputEvent::KeyUp { keycode: KeyCode::Return }, relative, true);
            &&& once.0.fullscreen == !v.fullscreen
            &&& once.1 == InputAction::SetFullscreen(!v.fullscreen)
            &&& twice.0 == v
            &&& twice.1 == InputAction::SetFullscreen(v.fullscreen)
        }),
{
}

/// Once the player has asked to quit, no event takes it back.
pub proof fn lemma_quit_sticks(v: InputView, ev: InputEvent, relative: bool, alt: bool)
    requires
        v.quit,
    ensures
        input_step(v, ev, relative, alt).0.quit,
{
}

/// A new frame forgets what was pressed and released, and keeps what is
/// held.
pub proof fn lemma_new_frame_keeps_held(v: InputView)
    requires
        input_wf(v),
    ensures
        ({
            let w = InputView {
                pressed: Seq::new(9, |i: int| false),
                released: Seq::new(9, |i: int| false),
                ..v
            };
            &&& input_wf(w)
            &&& w.down == v.down
            &&& forall|k: Key| !w.pressed[key_slot(k)] && !w.released[key_slot(k)]
        }),
{
}

/// The mouse buttons hold keys: the left button holds Action and the right
/// button Jump while they are down; pressing a button holds its key,
/// releasing it lets it go, nothing else changes, and pressing the left
/// button outside relative mode asks for relative mode.
pub proof fn lemma_mouse_buttons(v: InputView, relative: bool, alt: bool)
    requires
        input_wf(v),
    ensures
        ({
            let rd = input_step(v, InputEvent::MouseButtonDown { button: MouseBtn::Right }, relative, alt);
            let ru = input_step(v, InputEvent::MouseButtonUp { button: MouseBtn::Right }, relative, alt);
            let ld = input_step(v, InputEvent::MouseButtonDown { button: MouseBtn::Left }, relative, alt);
            let lu = input_step(v, InputEvent::MouseButtonUp { button: MouseBtn::Left }, relative, alt);
            &&& rd.0.down[key_slot(Key::Jump)]
            &&& !ru.0.down[key_slot(Key::Jump)]
            &&& ld.0.down[key_slot(Key::Action)]
            &&& !lu.0.down[key_slot(Key::Action)]
            &&& rd.0.down.len() == v.down.len() && ru.0.down.len() == v.down.len()
            &&& ld.0.down.len() == v.down.len() && lu.0.down.len() == v.down.len()
            &&& forall|i: int|
                0 <= i < v.down.len() && i != key_slot(Key::Jump) ==> rd.0.down[i] == v.down[i]
                    && ru.0.down[i] == v.down[i]
            &&& forall|i: int|
                0 <= i < v.down.len() && i != key_slot(Key::Action) ==> ld.0.down[i] == v.down[i]
                    && lu.0.down[i] == v.down[i]
            &&& rd.0.pressed == v.pressed && ru.0.pressed == v.pressed && ld.0.pressed == v.pressed
                && lu.0.pressed == v.pressed
            &&& rd.0.released == v.released && ru.0.released == v.released && ld.0.released
                == v.released && lu.0.released == v.released
            &&& rd.1 == InputAction::Nothing && ru.1 == InputAction::Nothing && lu.1
                == InputAction::Nothing
            &&& ld.1 == (if relative {
                InputAction::Nothing
            } else {
                InputAction::SetRelativeMouseMode(true)
            })
        }),
{
}

/// A right button pressed and released again leaves Jump as it was before
/// it was pressed only where Jump was up; in any case Jump is up after the
/// release.
pub proof fn lemma_right_button_down_then_up(v: InputView, relative: bool, alt: bool)
    requires
        input_wf(v),
    ensures
        ({
            let d = input_step(v, InputEvent::MouseButtonDown { button: MouseBtn::Right }, relative, alt).0;
            let u = input_step(d, InputEvent::MouseButtonUp { button: MouseBtn::Right }, relative, alt).0;
            &&& !u.down[key_slot(Key::Jump)]
            &&& !v.down[key_slot(Key::Jump)] ==> u == v
        }),
{
    let d = input_step(v, InputEvent::MouseButtonDown { button: MouseBtn::Right }, relative, alt).0;
    let u = input_step(d, InputEvent::MouseButtonUp { button: MouseBtn::Right }, relative, alt).0;
    if !v.down[key_slot(Key::Jump)] {
        assert(u.down =~= v.down);
    }
}

/// Which key each keyboard key stands for: the arrows and W, A, S, D move,
/// Q and E go to the previous and next item, Space jumps, left Shift
/// sprints; Escape, Enter and other keys stand for none.
pub proof fn lemma_key_codes()
    ensures
        key_for_code(KeyCode::Up) == Some(Key::Up),
        key_for_code(KeyCode::W) == Some(Key::Up),
        key_for_code(KeyCode::Left) == Some(Key::Left),
        key_for_code(KeyCode::A) == Some(Key::Left),
        key_for_code(KeyCode::Down) == Some(Key::Down),
        key_for_code(KeyCode::S) == Some(Key::Down),
        key_for_code(KeyCode::Right) == Some(Key::Right),
        key_for_code(KeyCode::D) == Some(Key::Right),
        key_for_code(KeyCode::Q) == Some(Key::Prev),
        key_for_code(KeyCode::E) == Some(Key::Next),
        key_for_code(KeyCode::Space) == Some(Key::Jump),
        key_for_code(KeyCode::LShift) == Some(Key::Sprint),
        key_for_code(KeyCode::Escape) is None,
        key_for_code(KeyCode::Return) is None,
        key_for_code(KeyCode::Other) is None,
        forall|a: Key, b: Key| a != b ==> key_slot(a) != key_slot(b),
        forall|k: Key| 0 <= #[trigger] key_slot(k) < NUM_KEYS,
{
}

/// The mouse wheel: scrolling down presses Next, scrolling up presses
/// Prev, and Escape or losing focus asks to leave relative mouse mode.
pub proof fn lemma_wheel_and_escape(v: InputView, y: i32, relative: bool, alt: bool)
    requires
        input_wf(v),
    ensures
        y <= -1 ==> input_step(v, InputEvent::MouseWheel { y }, relative, alt).0 == press(v, Key::Next),
        y >= 1 ==> input_step(v, InputEvent::MouseWheel { y }, relative, alt).0 == press(v, Key::Prev),
        y == 0 ==> input_step(v, InputEvent::MouseWheel { y }, relative, alt).0 == v,
        press(v, Key::Next).down[key_slot(Key::Next)] && press(v, Key::Next).pressed[key_slot(
            Key::Next,
        )],
        press(v, Key::Prev).down[key_slot(Key::Prev)] && press(v, Key::Prev).pressed[key_slot(
            Key::Prev,
        )],
        input_step(v, InputEvent::KeyUp { keycode: KeyCode::Escape }, relative, alt) == (
            v,
            InputAction::SetRelativeMouseMode(false),
        ),
        input_step(v, InputEvent::FocusLost, relative, alt) == (
            v,
            InputAction::SetRelativeMouseMode(false),
        ),
{
}

/// Quitting sets the quit flag and nothing else; mouse motion in relative
/// mode asks to move the view by that motion, inverted where the player
/// chose so, and is ignored otherwise; a new window size is passed on.
pub proof fn lemma_quit_motion_and_size(v: InputView, x: i32, y: i32, relative: bool, alt: bool)
    ensures
        input_step(v, InputEvent::Quit, relative, alt).0 == (InputView { quit: true, ..v }),
        relative ==> input_step(v, InputEvent::MouseMotion { xrel: x, yrel: y }, relative, alt) == (
            v,
            InputAction::MoveMouse { xrel: x, yrel: y, invert: v.mouse_invert },
        ),
        !relative ==> input_step(v, InputEvent::MouseMotion { xrel: x, yrel: y }, relative, alt) == (
            v,
            InputAction::Nothing,
        ),
        input_step(v, InputEvent::SizeChanged { w: x, h: y }, relative, alt) == (
            v,
            InputAction::ChangeWindowSize(x, y),
        ),
        input_step(v, InputEvent::Other, relative, alt) == (v, InputAction::Nothing),
{
}

/// A key pressed in a frame is down and pressed afterwards, with nothing
/// else changed but that key; a key released is up and released.
pub proof fn lemma_press_release(v: InputView, c: KeyCode, relative: bool, alt: bool)
    requires
        input_wf(v),
        key_for_code(c) is Some,
    ensures
        ({
            let k = key_for_code(c)->0;
            let d = input_step(v, InputEvent::KeyDown { keycode: c, repeat: false }, relative, alt);
            let u = input_step(v, InputEvent::KeyUp { keycode: c }, relative, alt);
            &&& d.1 == InputAction::Nothing && u.1 == InputAction::Nothing
            &&& d.0.down[key_slot(k)] && d.0.pressed[key_slot(k)]
            &&& !u.0.down[key_slot(k)] && u.0.released[key_slot(k)]
            &&& d.0.released == v.released && u.0.pressed == v.pressed
            &&& forall|i: int|
                0 <= i < NUM_KEYS && i != key_slot(k) ==> d.0.down[i] == v.down[i] && d.0.pressed[i]
                    == v.pressed[i] && u.0.down[i] == v.down[i] && u.0.released[i] == v.released[i]
            &&& d.0.quit == v.quit && u.0.quit == v.quit && d.0.fullscreen == v.fullscreen
                && u.0.fullscreen == v.fullscreen
        }),
{
}

} // verus!
