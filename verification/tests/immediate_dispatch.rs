use winit_event_helper::callback_data::CallbackData;
use winit_event_helper::callbacks::Callbacks;
use winit_event_helper::definitions::{ButtonId, ElementState, KeyCode, Modifiers, MouseButton, Quit};
use winit_event_helper::device_callbacks::DeviceEventKind;
use winit_event_helper::dispatch::{Action, Reaction};
use winit_event_helper::events::{
    DeviceEvent, DeviceId, Event, KeyboardInput, MouseScrollDelta, TouchPhase, WindowEvent, WindowId,
};
use winit_event_helper::general_callbacks::GeneralEventKind;
use winit_event_helper::input::{GeneralInput, Signal, State};
use winit_event_helper::window_callbacks::WindowEventKind;
use winit_event_helper::winit_event_helper::{EventHelper, Toggled};

#[derive(Default)]
struct App {
    log: Vec<String>,
}

type Data = CallbackData<App>;
type Plain = Action<Data, fn(&mut Data)>;
type OnEvent = Reaction<Data, Event, fn(&mut Data, &Event)>;
type OnDevice = Reaction<Data, DeviceEvent, fn(&mut Data, &DeviceEvent)>;
type OnWindow = Reaction<Data, WindowEvent, fn(&mut Data, &WindowEvent)>;
type OnKey = Reaction<Data, Signal<KeyCode>, fn(&mut Data, &Signal<KeyCode>)>;
type OnMouse = Reaction<Data, Signal<MouseButton>, fn(&mut Data, &Signal<MouseButton>)>;
type OnButton = Reaction<Data, Signal<ButtonId>, fn(&mut Data, &Signal<ButtonId>)>;
type Immediate = Callbacks<Plain, OnEvent, OnDevice, OnWindow, OnKey, OnMouse, OnButton>;

const KEY: KeyCode = KeyCode(10);

fn window_key(state: ElementState, key: Option<KeyCode>) -> Event {
    Event::WindowEvent {
        window_id: WindowId(1),
        event: WindowEvent::KeyboardInput {
            device_id: DeviceId(1),
            input: KeyboardInput { scancode: 30, state, virtual_keycode: key },
        },
    }
}

fn any_key(data: &mut Data, signal: &Signal<KeyCode>) {
    data.user_data.log.push(format!("any key {} {:?}", signal.input.0, signal.state));
}

fn key_pressed(data: &mut Data) {
    let held = data.pressed(GeneralInput::KeyCode(KEY));
    data.user_data.log.push(format!("key went down, held: {}", held));
}

fn key_held(data: &mut Data) {
    data.user_data.log.push("key is held".to_string());
}

fn key_released(data: &mut Data) {
    data.user_data.log.push("key went up".to_string());
}

#[test]
fn a_key_goes_down_once_and_is_held_on_every_repeat() {
    let mut callbacks = Immediate::default();
    callbacks.window.keyboard_input_any(Reaction::new(any_key as fn(&mut Data, &Signal<KeyCode>)));
    callbacks.window.keyboard_input(KEY, State::Pressed, Action::new(key_pressed as fn(&mut Data)));
    callbacks.window.keyboard_input(KEY, State::Held, Action::new(key_held as fn(&mut Data)));
    callbacks.window.keyboard_input(KEY, State::Released, Action::new(key_released as fn(&mut Data)));
    let mut data = Data::new(App::default());
    assert!(!callbacks.update(&mut data, &window_key(ElementState::Pressed, Some(KEY))));
    assert_eq!(
        data.user_data.log,
        vec!["any key 10 Pressed", "key went down, held: true", "any key 10 Held", "key is held"]
    );
    assert!(data.just_pressed(GeneralInput::KeyCode(KEY)));
    data.user_data.log.clear();
    callbacks.update(&mut data, &window_key(ElementState::Pressed, Some(KEY)));
    assert_eq!(data.user_data.log, vec!["any key 10 Held", "key is held"]);
    data.user_data.log.clear();
    callbacks.update(&mut data, &window_key(ElementState::Pressed, Some(KeyCode(11))));
    assert_eq!(data.user_data.log, vec!["any key 11 Pressed", "any key 11 Held"]);
    data.user_data.log.clear();
    callbacks.update(&mut data, &window_key(ElementState::Released, Some(KEY)));
    assert_eq!(data.user_data.log, vec!["any key 10 Released", "key went up"]);
    assert!(!data.pressed(GeneralInput::KeyCode(KEY)));
    assert!(data.just_released(GeneralInput::KeyCode(KEY)));
    data.user_data.log.clear();
    callbacks.update(&mut data, &window_key(ElementState::Pressed, None));
    assert!(data.user_data.log.is_empty());
    assert!(callbacks.update(&mut data, &Event::MainEventsCleared));
    assert!(data.user_data.log.is_empty());
    assert!(data.pressed(GeneralInput::KeyCode(KeyCode(11))));
}

fn any_mouse(data: &mut Data, signal: &Signal<MouseButton>) {
    data.user_data.log.push(format!("any mouse {:?} {:?}", signal.input, signal.state));
}

fn note_window_event(data: &mut Data, event: &WindowEvent) {
    data.user_data.log.push(format!("{:?}", WindowEventKind::kind_of(event)));
}

fn note_text(data: &mut Data, event: &WindowEvent) {
    let typed: String = data.text().into_iter().collect();
    data.user_data.log.push(format!("{:?} text so far: {}", WindowEventKind::kind_of(event), typed));
}

#[test]
fn window_events_update_the_data_before_their_callback() {
    let mut callbacks = Immediate::default();
    callbacks.window.mouse_input_any(Reaction::new(any_mouse as fn(&mut Data, &Signal<MouseButton>)));
    callbacks.window.on(WindowEventKind::Focused, Reaction::new(note_window_event as fn(&mut Data, &WindowEvent)));
    callbacks.window.on(WindowEventKind::ReceivedCharacter, Reaction::new(note_text as fn(&mut Data, &WindowEvent)));
    callbacks.window.on(WindowEventKind::Destroyed, Reaction::new(note_window_event as fn(&mut Data, &WindowEvent)));
    let window = WindowId(1);
    let mut data = Data::new(App::default());
    assert!(data.focused());
    callbacks.update(&mut data, &Event::WindowEvent { window_id: window, event: WindowEvent::Focused(false) });
    assert!(!data.focused());
    callbacks.update(&mut data, &Event::WindowEvent { window_id: window, event: WindowEvent::ReceivedCharacter('h') });
    callbacks.update(&mut data, &Event::WindowEvent { window_id: window, event: WindowEvent::ReceivedCharacter('i') });
    callbacks.update(
        &mut data,
        &Event::WindowEvent {
            window_id: window,
            event: WindowEvent::MouseInput {
                device_id: DeviceId(1),
                state: ElementState::Pressed,
                button: MouseButton::Left,
            },
        },
    );
    callbacks.update(
        &mut data,
        &Event::WindowEvent {
            window_id: window,
            event: WindowEvent::MouseWheel {
                device_id: DeviceId(1),
                delta: MouseScrollDelta::LineDelta(7, 9),
                phase: TouchPhase::Moved,
            },
        },
    );
    callbacks.update(&mut data, &Event::WindowEvent { window_id: window, event: WindowEvent::Destroyed });
    assert_eq!(
        data.user_data.log,
        vec![
            "Focused",
            "ReceivedCharacter text so far: h",
            "ReceivedCharacter text so far: hi",
            "any mouse Left Pressed",
            "any mouse Left Held",
            "Destroyed",
        ]
    );
    assert_eq!(data.text(), vec!['h', 'i']);
    assert_eq!(data.mouse_wheel, MouseScrollDelta::LineDelta(7, 9));
    assert!(data.quit_requested(Quit { bits: Quit::WINDOW_DESTROYED }));
    assert!(!data.quit_requested(Quit { bits: Quit::USER_REQUESTED | Quit::LOOP_DESTROYED }));
    assert_eq!(data.button_pressed_iter(), vec![MouseButton::Left]);
    assert!(data.key_pressed_iter().is_empty());
    data.update();
    assert!(data.text().is_empty());
    assert_eq!(data.mouse_wheel, MouseScrollDelta::LineDelta(0, 0));
    assert!(data.pressed(GeneralInput::MouseButton(MouseButton::Left)));
    assert!(!data.just_pressed(GeneralInput::MouseButton(MouseButton::Left)));
    data.quit();
    assert!(data.quit_requested(Quit { bits: Quit::USER_REQUESTED }));
}

fn any_button(data: &mut Data, signal: &Signal<ButtonId>) {
    data.user_data.log.push(format!("any button {} {:?}", signal.input, signal.state));
}

fn button_seven_up(data: &mut Data) {
    data.user_data.log.push("button 7 went up".to_string());
}

fn note_device_event(data: &mut Data, event: &DeviceEvent) {
    data.user_data.log.push(format!("{:?}", DeviceEventKind::kind_of(event)));
}

fn note_general_event(data: &mut Data, event: &Event) {
    data.user_data.log.push(format!("{:?}", GeneralEventKind::kind_of(event).unwrap()));
}

#[test]
fn device_and_general_events_go_to_their_callbacks() {
    let mut callbacks = Immediate::default();
    callbacks.device.button_any(Reaction::new(any_button as fn(&mut Data, &Signal<ButtonId>)));
    callbacks.device.button(7, State::Released, Action::new(button_seven_up as fn(&mut Data)));
    callbacks.device.on(DeviceEventKind::Added, Reaction::new(note_device_event as fn(&mut Data, &DeviceEvent)));
    callbacks.device.on(DeviceEventKind::Text, Reaction::new(note_device_event as fn(&mut Data, &DeviceEvent)));
    callbacks.general.on(GeneralEventKind::Suspended, Reaction::new(note_general_event as fn(&mut Data, &Event)));
    callbacks
        .general
        .on(GeneralEventKind::LoopDestroyed, Reaction::new(note_general_event as fn(&mut Data, &Event)));
    let device = DeviceId(2);
    let mut data = Data::new(App::default());
    callbacks.update(&mut data, &Event::DeviceEvent { device_id: device, event: DeviceEvent::Added });
    callbacks.update(&mut data, &Event::DeviceEvent { device_id: device, event: DeviceEvent::Removed });
    callbacks.update(&mut data, &Event::DeviceEvent { device_id: device, event: DeviceEvent::Text { codepoint: 'x' } });
    callbacks.update(
        &mut data,
        &Event::DeviceEvent {
            device_id: device,
            event: DeviceEvent::Button { button: 7, state: ElementState::Pressed },
        },
    );
    callbacks.update(
        &mut data,
        &Event::DeviceEvent {
            device_id: device,
            event: DeviceEvent::Button { button: 7, state: ElementState::Released },
        },
    );
    callbacks.update(&mut data, &Event::Suspended);
    callbacks.update(&mut data, &Event::Resumed);
    callbacks.update(&mut data, &Event::LoopDestroyed);
    assert_eq!(
        data.user_data.log,
        vec![
            "Added",
            "Text",
            "any button 7 Pressed",
            "any button 7 Held",
            "any button 7 Released",
            "button 7 went up",
            "Suspended",
            "LoopDestroyed",
        ]
    );
    assert!(data.text().is_empty());
    assert!(!data.pressed(GeneralInput::MouseButton(MouseButton::Other(7))));
    assert!(data.quit_requested(Quit { bits: Quit::LOOP_DESTROYED }));
    let mut saving = Data::new(App::default());
    saving.save_device_inputs = true;
    callbacks.update(&mut saving, &Event::DeviceEvent { device_id: device, event: DeviceEvent::Text { codepoint: 'x' } });
    callbacks.update(
        &mut saving,
        &Event::DeviceEvent {
            device_id: device,
            event: DeviceEvent::Button { button: 7, state: ElementState::Pressed },
        },
    );
    callbacks.update(&mut saving, &window_key(ElementState::Pressed, Some(KEY)));
    assert_eq!(saving.text(), vec!['x']);
    assert!(saving.pressed(GeneralInput::MouseButton(MouseButton::Other(7))));
    assert!(!saving.pressed(GeneralInput::KeyCode(KEY)));
}

#[test]
fn combinations_in_the_data_need_inputs_and_modifiers() {
    let mut data = Data::new(App::default());
    let key = GeneralInput::KeyCode(KEY);
    data.modifiers = Modifiers { bits: Modifiers::ALT };
    assert!(!data.pressed_combination(Modifiers { bits: Modifiers::ALT }, &[key]));
    data.update_keys(KEY, ElementState::Pressed);
    data.update_buttons(MouseButton::Right, ElementState::Pressed);
    assert!(data.pressed_combination(Modifiers { bits: Modifiers::ALT }, &[key]));
    assert!(data.just_pressed_combination(Modifiers::empty(), &[key]));
    assert!(!data.pressed_combination(Modifiers { bits: Modifiers::CTRL }, &[key]));
    assert!(data.pressed_alt());
    assert!(!data.pressed_shift());
    assert!(data.pressed_all(&[key, GeneralInput::MouseButton(MouseButton::Right)]));
    assert!(data.pressed_any(&[GeneralInput::MouseButton(MouseButton::Left), key]));
    assert!(data.just_pressed_all(&[key]));
    assert!(data.just_pressed_any(&[key]));
    assert!(data.pressed_for(key).is_some());
    assert_eq!(data.key_just_pressed_iter(), vec![KEY]);
    assert_eq!(data.button_just_pressed_iter(), vec![MouseButton::Right]);
    assert_eq!(data.just_pressed_iter().len(), 2);
    assert_eq!(data.pressed_iter().len(), 2);
    data.update_keys(KEY, ElementState::Released);
    assert!(!data.pressed(key));
    assert!(data.just_released_combination(Modifiers { bits: Modifiers::ALT }, &[key]));
    assert!(data.just_released_all(&[key]));
    assert!(data.just_released_any(&[key]));
    assert_eq!(data.key_just_released_iter(), vec![KEY]);
    assert!(data.button_just_released_iter().is_empty());
    assert_eq!(data.just_released_iter(), vec![key]);
}

type Light = EventHelper<
    Vec<String>,
    Action<Vec<String>, fn(&mut Vec<String>)>,
    Reaction<Vec<String>, WindowEvent, fn(&mut Vec<String>, &WindowEvent)>,
    Reaction<Vec<String>, DeviceEvent, fn(&mut Vec<String>, &DeviceEvent)>,
    Reaction<Vec<String>, Toggled<KeyCode>, fn(&mut Vec<String>, &Toggled<KeyCode>)>,
    Reaction<Vec<String>, Toggled<MouseButton>, fn(&mut Vec<String>, &Toggled<MouseButton>)>,
>;

fn light_any_key(log: &mut Vec<String>, toggled: &Toggled<KeyCode>) {
    log.push(format!("key {} {:?}", toggled.input.0, toggled.state));
}

fn light_key_down(log: &mut Vec<String>) {
    log.push("key 10 down".to_string());
}

fn light_left_up(log: &mut Vec<String>) {
    log.push("left up".to_string());
}

fn light_suspended(log: &mut Vec<String>) {
    log.push("suspended".to_string());
}

fn light_window(log: &mut Vec<String>, event: &WindowEvent) {
    log.push(format!("window {:?}", WindowEventKind::kind_of(event)));
}

fn light_device(log: &mut Vec<String>, event: &DeviceEvent) {
    log.push(format!("device {:?}", DeviceEventKind::kind_of(event)));
}

#[test]
fn the_light_helper_tracks_what_is_down_and_forwards_events() {
    let mut helper = Light::new(Vec::new());
    helper.keyboard_any(Reaction::new(light_any_key as fn(&mut Vec<String>, &Toggled<KeyCode>)));
    helper.keyboard(KEY, ElementState::Pressed, Action::new(light_key_down as fn(&mut Vec<String>)));
    helper.mouse_input(MouseButton::Left, ElementState::Released, Action::new(light_left_up as fn(&mut Vec<String>)));
    helper.suspended(Action::new(light_suspended as fn(&mut Vec<String>)));
    helper.on_window(WindowEventKind::CloseRequested, Reaction::new(light_window as fn(&mut Vec<String>, &WindowEvent)));
    helper.on_device(DeviceEventKind::MouseMotion, Reaction::new(light_device as fn(&mut Vec<String>, &DeviceEvent)));
    let device = DeviceId(1);
    let window = WindowId(1);
    let key = |state| Event::DeviceEvent {
        device_id: device,
        event: DeviceEvent::Key(KeyboardInput { scancode: 1, state, virtual_keycode: Some(KEY) }),
    };
    let left = |state| Event::WindowEvent {
        window_id: window,
        event: WindowEvent::MouseInput { device_id: device, state, button: MouseButton::Left },
    };
    assert!(!helper.update(&key(ElementState::Pressed)));
    assert!(helper.key_held(KEY));
    assert_eq!(helper.keys_held(), vec![KEY]);
    assert!(!helper.update(&left(ElementState::Pressed)));
    assert!(helper.mouse_input_held(MouseButton::Left));
    assert_eq!(helper.mouse_inputs_held(), vec![MouseButton::Left]);
    assert!(!helper.update(&left(ElementState::Released)));
    assert!(!helper.mouse_input_held(MouseButton::Left));
    assert!(!helper.update(&key(ElementState::Released)));
    assert!(!helper.key_held(KEY));
    assert!(!helper.update(&Event::Suspended));
    assert!(!helper.update(&Event::Resumed));
    assert!(!helper.update(&Event::WindowEvent { window_id: window, event: WindowEvent::CloseRequested }));
    assert!(!helper.update(&Event::WindowEvent { window_id: window, event: WindowEvent::Focused(true) }));
    assert!(!helper.update(&Event::DeviceEvent { device_id: device, event: DeviceEvent::MouseMotion { delta: (1, 2) } }));
    assert!(helper.update(&Event::MainEventsCleared));
    assert_eq!(
        helper.data,
        vec![
            "key 10 Pressed",
            "key 10 down",
            "left up",
            "key 10 Released",
            "suspended",
            "window CloseRequested",
            "device MouseMotion",
        ]
    );
}

#[test]
fn the_time_held_in_the_data_is_counted_from_the_press() {
    let pressed = std::time::Instant::now();
    let later = pressed + std::time::Duration::from_millis(2);
    let mut data = Data::new(App::default());
    data.update_input_at(GeneralInput::KeyCode(KEY), ElementState::Pressed, pressed);
    assert_eq!(
        data.pressed_for_at(GeneralInput::KeyCode(KEY), later),
        Some(std::time::Duration::from_millis(2))
    );
    assert_eq!(data.pressed_for_at(GeneralInput::MouseButton(MouseButton::Left), later), None);
}
