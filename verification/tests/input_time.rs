use niveluno::input::{
    begin_consume, consume_event, get_keys_down, get_keys_pressed, get_keys_released, get_quit,
    init, InputAction, InputEvent, InputGod, Key, KeyCode, MouseBtn,
};
use niveluno::error::NUError;
use niveluno::time::{self, TimeGod, FIRST_FRAME_MS};

fn fresh() -> Option<InputGod> {
    let mut ig = None;
    init(&mut ig).unwrap();
    ig
}

#[test]
fn input_starts_once() {
    let mut ig = fresh();
    assert_eq!(
        init(&mut ig),
        Err(NUError::MiscError("INPUT_GOD already init".to_string()))
    );
    assert_eq!(get_quit(&ig), Ok(false));
    assert_eq!(get_keys_down(&ig), Ok([false; 9]));
}

#[test]
fn input_before_init_is_an_error() {
    let mut ig: Option<InputGod> = None;
    let uninit = Err(NUError::MiscError("INPUT_GOD uninit".to_string()));
    assert_eq!(get_quit(&ig), uninit.clone().map(|_: ()| false));
    assert_eq!(get_keys_pressed(&ig), uninit.clone().map(|_: ()| [false; 9]));
    assert_eq!(get_keys_released(&ig), uninit.clone().map(|_: ()| [false; 9]));
    assert_eq!(begin_consume(&mut ig), uninit.clone());
    assert_eq!(
        consume_event(&mut ig, InputEvent::Quit, false, false),
        uninit.map(|_: ()| InputAction::Nothing)
    );
}

#[test]
fn key_down_then_up_in_one_frame() {
    let mut ig = fresh();
    let k = Key::Jump.index();
    let a = consume_event(&mut ig, InputEvent::KeyDown { keycode: KeyCode::Space, repeat: false }, false, false);
    assert_eq!(a, Ok(InputAction::Nothing));
    assert!(get_keys_down(&ig).unwrap()[k]);
    consume_event(&mut ig, InputEvent::KeyUp { keycode: KeyCode::Space }, false, false).unwrap();
    assert!(!get_keys_down(&ig).unwrap()[k]);
    assert!(get_keys_pressed(&ig).unwrap()[k]);
    assert!(get_keys_released(&ig).unwrap()[k]);
    // the next frame forgets presses and releases
    begin_consume(&mut ig).unwrap();
    assert_eq!(get_keys_pressed(&ig), Ok([false; 9]));
    assert_eq!(get_keys_released(&ig), Ok([false; 9]));
}

#[test]
fn held_keys_survive_a_new_frame() {
    let mut ig = fresh();
    consume_event(&mut ig, InputEvent::KeyDown { keycode: KeyCode::W, repeat: false }, false, false).unwrap();
    begin_consume(&mut ig).unwrap();
    assert!(get_keys_down(&ig).unwrap()[Key::Up.index()]);
    assert!(!get_keys_pressed(&ig).unwrap()[Key::Up.index()]);
}

#[test]
fn wasd_and_arrows_map_to_the_same_keys() {
    for (code, key) in [
        (KeyCode::Up, Key::Up),
        (KeyCode::W, Key::Up),
        (KeyCode::Left, Key::Left),
        (KeyCode::A, Key::Left),
        (KeyCode::Down, Key::Down),
        (KeyCode::S, Key::Down),
        (KeyCode::Right, Key::Right),
        (KeyCode::D, Key::Right),
        (KeyCode::Q, Key::Prev),
        (KeyCode::E, Key::Next),
        (KeyCode::LShift, Key::Sprint),
    ] {
        let mut ig = fresh();
        consume_event(&mut ig, InputEvent::KeyDown { keycode: code, repeat: false }, false, false).unwrap();
        let down = get_keys_down(&ig).unwrap();
        for (i, d) in down.iter().enumerate() {
            assert_eq!(*d, i == key.index());
        }
    }
}

#[test]
fn repeated_key_down_changes_nothing() {
    let mut ig = fresh();
    consume_event(&mut ig, InputEvent::KeyDown { keycode: KeyCode::A, repeat: true }, false, false).unwrap();
    assert_eq!(get_keys_down(&ig), Ok([false; 9]));
    assert_eq!(get_keys_pressed(&ig), Ok([false; 9]));
}

#[test]
fn alt_enter_toggles_fullscreen_twice_back() {
    let mut ig = fresh();
    let a = consume_event(&mut ig, InputEvent::KeyUp { keycode: KeyCode::Return }, false, true);
    assert_eq!(a, Ok(InputAction::SetFullscreen(true)));
    let b = consume_event(&mut ig, InputEvent::KeyUp { keycode: KeyCode::Return }, false, true);
    assert_eq!(b, Ok(InputAction::SetFullscreen(false)));
    // without Alt, Enter does nothing
    let c = consume_event(&mut ig, InputEvent::KeyUp { keycode: KeyCode::Return }, false, false);
    assert_eq!(c, Ok(InputAction::Nothing));
}

#[test]
fn mouse_and_window_events() {
    let mut ig = fresh();
    assert_eq!(
        consume_event(&mut ig, InputEvent::MouseButtonDown { button: MouseBtn::Left }, false, false),
        Ok(InputAction::SetRelativeMouseMode(true))
    );
    assert!(get_keys_down(&ig).unwrap()[Key::Action.index()]);
    assert_eq!(
        consume_event(&mut ig, InputEvent::MouseButtonDown { button: MouseBtn::Left }, true, false),
        Ok(InputAction::Nothing)
    );
    consume_event(&mut ig, InputEvent::MouseButtonUp { button: MouseBtn::Left }, true, false).unwrap();
    assert!(!get_keys_down(&ig).unwrap()[Key::Action.index()]);
    consume_event(&mut ig, InputEvent::MouseButtonDown { button: MouseBtn::Right }, true, false).unwrap();
    assert!(get_keys_down(&ig).unwrap()[Key::Jump.index()]);
    consume_event(&mut ig, InputEvent::MouseWheel { y: -1 }, true, false).unwrap();
    assert!(get_keys_pressed(&ig).unwrap()[Key::Next.index()]);
    consume_event(&mut ig, InputEvent::MouseWheel { y: 2 }, true, false).unwrap();
    assert!(get_keys_pressed(&ig).unwrap()[Key::Prev.index()]);
    assert_eq!(
        consume_event(&mut ig, InputEvent::MouseMotion { xrel: 3, yrel: -4 }, true, false),
        Ok(InputAction::MoveMouse { xrel: 3, yrel: -4, invert: false })
    );
    assert_eq!(
        consume_event(&mut ig, InputEvent::MouseMotion { xrel: 3, yrel: -4 }, false, false),
        Ok(InputAction::Nothing)
    );
    assert_eq!(
        consume_event(&mut ig, InputEvent::KeyUp { keycode: KeyCode::Escape }, true, false),
        Ok(InputAction::SetRelativeMouseMode(false))
    );
    assert_eq!(
        consume_event(&mut ig, InputEvent::FocusLost, true, false),
        Ok(InputAction::SetRelativeMouseMode(false))
    );
    assert_eq!(
        consume_event(&mut ig, InputEvent::SizeChanged { w: 800, h: 600 }, true, false),
        Ok(InputAction::ChangeWindowSize(800, 600))
    );
}

#[test]
fn quit_sticks() {
    let mut ig = fresh();
    consume_event(&mut ig, InputEvent::Quit, false, false).unwrap();
    assert_eq!(get_quit(&ig), Ok(true));
    begin_consume(&mut ig).unwrap();
    consume_event(&mut ig, InputEvent::KeyUp { keycode: KeyCode::Escape }, false, false).unwrap();
    assert_eq!(get_quit(&ig), Ok(true));
}

#[test]
fn clock_counts_milliseconds() {
    let mut tg: Option<TimeGod> = None;
    assert_eq!(
        time::get_run_time_ms(&tg),
        Err(NUError::MiscError("TIME_GOD uninit".to_string()))
    );
    time::init(&mut tg, 1000).unwrap();
    assert_eq!(
        time::init(&mut tg, 2000),
        Err(NUError::MiscError("TIME_GOD already init".to_string()))
    );
    assert_eq!(time::get_delta_time_ms(&tg), Ok(FIRST_FRAME_MS));
    assert_eq!(time::get_run_time_ms(&tg), Ok(16));
    time::update_time(&mut tg, 1040).unwrap();
    assert_eq!(time::get_delta_time_ms(&tg), Ok(40));
    assert_eq!(time::get_run_time_ms(&tg), Ok(56));
    time::update_time(&mut tg, 1040).unwrap();
    assert_eq!(time::get_delta_time_ms(&tg), Ok(0));
    assert_eq!(time::get_run_time_ms(&tg), Ok(56));
    // the last frame never outlasts the time since the start
    let t = tg.as_ref().unwrap();
    assert!(t.delta_time_ms() <= t.run_time_ms());
}

#[test]
fn clock_value_methods() {
    let mut t = TimeGod::start(100);
    assert_eq!(t.run_time_ms(), 16);
    assert_eq!(t.delta_time_ms(), 16);
    t.advance(150);
    assert_eq!(t.run_time_ms(), 66);
    assert_eq!(t.delta_time_ms(), 50);
}
