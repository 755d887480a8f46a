use winit_event_helper::definitions::{ElementState, GenericInput, KeyCode, Modifiers, MouseButton, Symbol};
use winit_event_helper::dispatch::{call_all, Action, Callback, CallbackWith, Rewrite, RewriteWith};
use winit_event_helper::input::callbacks::InputCallbacks;
use winit_event_helper::input::data::InputData;
use winit_event_helper::input::{
    element_state_callbacks, filter_keyboard_keys, filter_mouse_buttons, symbols_of, GeneralInput, Input,
    State,
};

fn key(code: u32) -> GenericInput {
    GenericInput::KeyCode(KeyCode(code))
}

#[test]
fn press_is_seen_at_once() {
    let mut inputs: Input<GenericInput> = Input::new();
    inputs.press(key(30));
    assert!(inputs.pressed(key(30)));
    assert!(inputs.just_pressed(key(30)));
    assert!(!inputs.just_released(key(30)));
    assert!(!inputs.pressed(key(31)));
}

#[test]
fn second_press_keeps_the_first_instant() {
    let mut inputs: Input<GenericInput> = Input::new();
    inputs.press(key(30));
    let first = inputs.pressed_since(key(30));
    assert!(first.is_some());
    let begun = std::time::Instant::now();
    while begun.elapsed().as_micros() < 200 {}
    inputs.press(key(30));
    assert_eq!(inputs.pressed_since(key(30)), first);
    assert!(inputs.just_pressed(key(30)));
    assert!(inputs.pressed_for(key(30)).unwrap().as_micros() >= 200);
}

#[test]
fn press_release_clear_leaves_nothing() {
    let mut inputs: Input<GenericInput> = Input::new();
    inputs.press(key(7));
    inputs.release(key(7));
    assert!(!inputs.pressed(key(7)));
    assert!(!inputs.just_pressed(key(7)));
    assert!(inputs.just_released(key(7)));
    inputs.clear();
    assert!(!inputs.pressed(key(7)));
    assert!(!inputs.just_pressed(key(7)));
    assert!(!inputs.just_released(key(7)));
}

#[test]
fn clear_keeps_what_is_held() {
    let mut inputs: Input<GenericInput> = Input::new();
    inputs.press(key(1));
    inputs.press(key(2));
    inputs.release(key(2));
    inputs.clear();
    assert!(inputs.pressed(key(1)));
    assert!(!inputs.just_pressed(key(1)));
    assert!(inputs.just_pressed_iter().is_empty());
    assert!(inputs.just_released_iter().is_empty());
    assert_eq!(inputs.pressed_iter(), vec![key(1)]);
}

#[test]
fn press_of_a_held_input_after_clear_is_not_reported_again() {
    let mut inputs: Input<GenericInput> = Input::new();
    inputs.press(key(1));
    inputs.clear();
    inputs.press(key(1));
    assert!(inputs.pressed(key(1)));
    assert!(!inputs.just_pressed(key(1)));
}

#[test]
fn reset_forgets_everything() {
    let mut inputs: Input<GenericInput> = Input::new();
    inputs.press(key(1));
    inputs.release(key(2));
    inputs.reset();
    assert!(!inputs.pressed(key(1)));
    assert!(!inputs.just_pressed(key(1)));
    assert!(!inputs.just_released(key(2)));
    assert!(inputs.pressed_for(key(1)).is_none());
}

#[test]
fn all_and_any_over_two_inputs() {
    let a = key(1);
    let b = GenericInput::MouseButton(MouseButton::Left);
    let mut neither: Input<GenericInput> = Input::new();
    assert!(!neither.pressed_all(&[a, b]));
    assert!(!neither.pressed_any(&[a, b]));
    neither.press(a);
    assert!(!neither.pressed_all(&[a, b]));
    assert!(neither.pressed_any(&[a, b]));
    let mut only_b: Input<GenericInput> = Input::new();
    only_b.press(b);
    assert!(!only_b.pressed_all(&[a, b]));
    assert!(only_b.pressed_any(&[a, b]));
    only_b.press(a);
    assert!(only_b.pressed_all(&[a, b]));
    assert!(only_b.pressed_any(&[a, b]));
    assert!(only_b.just_pressed_all(&[a, b]));
    assert!(only_b.just_pressed_any(&[b]));
    only_b.release(a);
    assert!(only_b.just_released_any(&[a, b]));
    assert!(!only_b.just_released_all(&[a, b]));
    assert!(only_b.pressed_all(&[]));
    assert!(!only_b.pressed_any(&[]));
}

#[test]
fn combination_needs_inputs_and_modifiers() {
    let ctrl = Modifiers { bits: Modifiers::CTRL };
    let shift = Modifiers { bits: Modifiers::SHIFT };
    let escape = key(1);
    let mut data = InputData::default();
    data.update_modifiers(ctrl);
    assert!(!data.pressed_combination(&[escape], ctrl));
    data.press(escape);
    assert!(data.pressed_combination(&[escape], ctrl));
    assert!(data.just_pressed_combination(&[escape], ctrl));
    assert!(!data.pressed_combination(&[escape], shift));
    assert!(data.pressed_combination(&[escape], Modifiers::empty()));
    data.update_modifiers(Modifiers { bits: Modifiers::CTRL | Modifiers::SHIFT });
    assert!(data.pressed_combination(&[escape], ctrl));
    assert!(data.pressed_combination(&[escape], shift));
    data.update_modifiers(shift);
    assert!(!data.pressed_combination(&[escape], ctrl));
    data.release(escape);
    assert!(data.just_released_combination(&[escape], shift));
    assert!(!data.just_released_combination(&[escape], ctrl));
    assert!(data.pressed_shift());
    assert!(!data.pressed_ctrl());
    assert!(!data.pressed_alt());
    assert!(!data.pressed_logo());
}

#[test]
fn modifiers_are_replaced_not_merged() {
    let mut data = InputData::default();
    data.update_modifiers(Modifiers { bits: Modifiers::ALT });
    data.update_modifiers(Modifiers { bits: Modifiers::LOGO });
    assert_eq!(data.modifiers(), Modifiers { bits: Modifiers::LOGO });
    assert!(data.pressed_logo());
    assert!(!data.pressed_alt());
    data.clear();
    assert!(data.pressed_logo());
    data.reset();
    assert!(data.pressed_logo());
}

#[test]
fn update_presses_and_releases() {
    let mut data = InputData::default();
    data.update(key(5), ElementState::Pressed);
    assert!(data.pressed(key(5)));
    data.update(key(5), ElementState::Released);
    assert!(!data.pressed(key(5)));
    assert!(data.just_released(key(5)));
}

#[test]
fn listings_sort_inputs_by_kind() {
    let mut data = InputData::default();
    data.press(key(5));
    data.press(GenericInput::MouseButton(MouseButton::Other(9)));
    data.press(GenericInput::ScanCode(5));
    assert_eq!(data.key_pressed_iter(), vec![KeyCode(5)]);
    assert_eq!(data.button_pressed_iter(), vec![MouseButton::Other(9)]);
    assert_eq!(data.key_just_pressed_iter(), vec![KeyCode(5)]);
    assert_eq!(data.button_just_pressed_iter(), vec![MouseButton::Other(9)]);
    assert_eq!(data.pressed_iter().len(), 3);
    data.release(key(5));
    data.release(GenericInput::MouseButton(MouseButton::Other(9)));
    assert_eq!(data.key_just_released_iter(), vec![KeyCode(5)]);
    assert_eq!(data.button_just_released_iter(), vec![MouseButton::Other(9)]);
    assert!(data.key_pressed_iter().is_empty());
}

#[test]
fn codes_identify_symbols() {
    let symbols = [
        GenericInput::MouseButton(MouseButton::Left),
        GenericInput::MouseButton(MouseButton::Right),
        GenericInput::MouseButton(MouseButton::Middle),
        GenericInput::MouseButton(MouseButton::Other(0)),
        GenericInput::MouseButton(MouseButton::Other(0xffff)),
        GenericInput::KeyCode(KeyCode(0)),
        GenericInput::KeyCode(KeyCode(0xffff_ffff)),
        GenericInput::ScanCode(0),
        GenericInput::ScanCode(0xffff_ffff),
    ];
    for (i, a) in symbols.iter().enumerate() {
        assert_eq!(GenericInput::from_code(a.to_code()), Some(*a));
        for (j, b) in symbols.iter().enumerate() {
            assert_eq!(a.to_code() == b.to_code(), i == j);
        }
    }
    assert_eq!(GenericInput::MouseButton(MouseButton::Other(2)).to_code(), 5);
    assert_eq!(GenericInput::KeyCode(KeyCode(3)).to_code(), 0x1_0000_0003);
    assert_eq!(GenericInput::ScanCode(3).to_code(), 0x2_0000_0003);
    assert_eq!(GenericInput::from_code(0x3_0000_0000), None);
    assert_eq!(GenericInput::from_code(0x1_0003), None);
    assert_eq!(GeneralInput::from_code(0x2_0000_0000), None);
    assert_eq!(GeneralInput::from_code(0x1_0000_0004), Some(GeneralInput::KeyCode(KeyCode(4))));
}

#[test]
fn conversions_into_the_union_and_back() {
    let button: GenericInput = MouseButton::Middle.into();
    assert_eq!(button.mouse_button(), Some(MouseButton::Middle));
    assert_eq!(button.key_code(), None);
    assert_eq!(button.scan_code(), None);
    let by_meaning: GenericInput = KeyCode(4).into();
    assert_eq!(by_meaning.key_code(), Some(KeyCode(4)));
    assert_eq!(by_meaning.mouse_button(), None);
    let by_position: GenericInput = 4u32.into();
    assert_eq!(by_position.scan_code(), Some(4));
    assert_eq!(by_position.key_code(), None);
}

#[test]
fn raw_press_gives_pressed_once_and_held_always() {
    assert_eq!(element_state_callbacks(ElementState::Pressed, true), vec![State::Pressed, State::Held]);
    assert_eq!(element_state_callbacks(ElementState::Pressed, false), vec![State::Held]);
    assert_eq!(element_state_callbacks(ElementState::Released, false), vec![State::Released]);
    assert_eq!(element_state_callbacks(ElementState::Released, true), vec![State::Released]);
}

#[test]
fn filters_keep_order() {
    let inputs = [
        GeneralInput::KeyCode(KeyCode(2)),
        GeneralInput::MouseButton(MouseButton::Left),
        GeneralInput::KeyCode(KeyCode(1)),
        GeneralInput::MouseButton(MouseButton::Right),
    ];
    assert_eq!(filter_keyboard_keys(&inputs), vec![KeyCode(2), KeyCode(1)]);
    assert_eq!(filter_mouse_buttons(&inputs), vec![MouseButton::Left, MouseButton::Right]);
}

struct Tally {
    log: Vec<u32>,
}

fn one(tally: &mut Tally) {
    tally.log.push(1);
}

fn two(tally: &mut Tally) {
    tally.log.push(2);
}

fn three(tally: &mut Tally) {
    tally.log.push(3);
}

type Plain = Action<Tally, fn(&mut Tally)>;

fn plain(function: fn(&mut Tally)) -> Plain {
    Action::new(function)
}

#[test]
fn bound_callbacks_fire_in_order_of_kind_and_binding() {
    let a = key(1);
    let b = key(2);
    let mut callbacks: InputCallbacks<Plain> = InputCallbacks::default();
    callbacks.just_released(b, plain(three));
    callbacks.just_pressed(a, plain(two));
    callbacks.pressed(a, plain(one));
    callbacks.pressed_combination(vec![a], Modifiers { bits: Modifiers::CTRL }, plain(three));
    let mut data = InputData::default();
    data.press(a);
    data.press(b);
    data.release(b);
    let mut tally = Tally { log: vec![] };
    data.call_callbacks(&mut tally, &callbacks);
    assert_eq!(tally.log, vec![1, 2, 3]);
    data.clear();
    data.update_modifiers(Modifiers { bits: Modifiers::CTRL });
    let mut tally = Tally { log: vec![] };
    data.call_callbacks(&mut tally, &callbacks);
    assert_eq!(tally.log, vec![1, 3]);
}

#[test]
fn last_binding_wins() {
    let a = key(1);
    let mut callbacks: InputCallbacks<Plain> = InputCallbacks::default();
    callbacks.pressed(a, plain(one));
    callbacks.pressed(key(9), plain(three));
    callbacks.pressed(a, plain(two));
    assert_eq!(callbacks.pressed.len(), 2);
    let mut data = InputData::default();
    data.press(a);
    data.press(key(9));
    let mut tally = Tally { log: vec![] };
    data.call_callbacks(&mut tally, &callbacks);
    assert_eq!(tally.log, vec![2, 3]);
}

#[test]
fn binding_to_any_binds_each_input() {
    let mut callbacks: InputCallbacks<Plain> = InputCallbacks::default();
    callbacks.just_pressed_any(&[key(1), key(2)], plain(one));
    callbacks.pressed_all(vec![key(1), key(2)], plain(two));
    callbacks.just_released_all(&[key(1), key(2)], plain(three));
    assert_eq!(callbacks.just_pressed.len(), 2);
    assert_eq!(callbacks.pressed.len(), 1);
    assert_eq!(callbacks.just_released.len(), 2);
    let mut data = InputData::default();
    data.press(key(2));
    let mut tally = Tally { log: vec![] };
    data.call_callbacks(&mut tally, &callbacks);
    assert_eq!(tally.log, vec![1]);
    data.press(key(1));
    let mut tally = Tally { log: vec![] };
    data.call_callbacks(&mut tally, &callbacks);
    assert_eq!(tally.log, vec![2, 1, 1]);
    data.release(key(1));
    let mut tally = Tally { log: vec![] };
    data.call_callbacks(&mut tally, &callbacks);
    assert_eq!(tally.log, vec![1, 3]);
}

fn double(count: &u32) -> u32 {
    count * 2
}

fn add_three(count: &u32) -> u32 {
    count + 3
}

fn add_seen(count: &u32, seen: &u32) -> u32 {
    count + seen
}

#[test]
fn a_rewrite_puts_the_answer_of_its_function_in_place_of_the_state() {
    let twice: Rewrite<u32, fn(&u32) -> u32> = Rewrite::new(double);
    let plus: Rewrite<u32, fn(&u32) -> u32> = Rewrite::new(add_three);
    let mut count = 5;
    twice.call(&mut count);
    assert_eq!(count, 10);
    call_all(&vec![plus, twice, Rewrite::new(add_three)], &mut count);
    assert_eq!(count, 29);
    let with: RewriteWith<u32, u32, fn(&u32, &u32) -> u32> = RewriteWith::new(add_seen);
    with.call_with(&mut count, &100);
    assert_eq!(count, 129);
    let mut callbacks: InputCallbacks<Rewrite<u32, fn(&u32) -> u32>> = InputCallbacks::default();
    callbacks.pressed_any(&[key(1), key(2)], Rewrite::new(add_three));
    callbacks.just_pressed(key(1), Rewrite::new(double));
    let mut data = InputData::default();
    data.press(key(1));
    let mut state = 1;
    data.call_callbacks(&mut state, &callbacks);
    assert_eq!(state, 8);
}

#[test]
fn an_input_that_is_held_again_is_not_just_released() {
    let mut inputs: Input<GenericInput> = Input::new();
    inputs.press(key(4));
    inputs.release(key(4));
    assert!(inputs.just_released(key(4)));
    inputs.press(key(4));
    assert!(inputs.pressed(key(4)));
    assert!(inputs.just_pressed(key(4)));
    assert!(!inputs.just_released(key(4)));
    assert!(inputs.just_released_iter().is_empty());
    inputs.release(key(5));
    inputs.press(key(4));
    assert!(inputs.just_released(key(5)));
    assert!(!inputs.just_released(key(4)));
    let mut data = InputData::default();
    data.update(key(4), ElementState::Released);
    data.update(key(4), ElementState::Pressed);
    assert!(data.pressed(key(4)) && !data.just_released(key(4)));
}

#[test]
fn codes_that_name_nothing_are_passed_over() {
    let symbols: Vec<GenericInput> = symbols_of(vec![0, 0x3_0000_0000, 0x1_0000_0002, 0]);
    assert_eq!(
        symbols,
        vec![
            GenericInput::MouseButton(MouseButton::Left),
            GenericInput::KeyCode(KeyCode(2)),
            GenericInput::MouseButton(MouseButton::Left),
        ]
    );
}

#[test]
fn the_time_held_is_counted_from_the_press() {
    let pressed = std::time::Instant::now();
    let later = pressed + std::time::Duration::from_millis(5);
    let mut inputs: Input<GenericInput> = Input::new();
    inputs.press_at(key(1), pressed);
    inputs.press_at(key(2), later);
    inputs.press_at(key(1), later);
    assert_eq!(inputs.pressed_for_at(key(1), later), Some(std::time::Duration::from_millis(5)));
    assert_eq!(inputs.pressed_for_at(key(2), later), Some(std::time::Duration::ZERO));
    assert_eq!(inputs.pressed_for_at(key(2), pressed), Some(std::time::Duration::ZERO));
    assert_eq!(inputs.pressed_for_at(key(3), later), None);
    let mut data = InputData::default();
    data.press_at(key(1), pressed);
    assert_eq!(data.pressed_for_at(key(1), later), Some(std::time::Duration::from_millis(5)));
    assert_eq!(data.pressed_for_at(key(2), later), None);
    assert!(data.pressed_for(key(1)).is_some());
}
