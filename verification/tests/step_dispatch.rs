use winit_event_helper::callbacks::all::{CallbackData, Callbacks};
use winit_event_helper::callbacks::device::{DeviceCallbackData, DeviceField};
use winit_event_helper::callbacks::general::{GeneralCallbackData, GeneralField};
use winit_event_helper::callbacks::window::{WindowCallbackData, WindowField};
use winit_event_helper::definitions::{
    ElementState, GenericInput, KeyCode, Modifiers, MouseButton, Quit, QuitWindow,
};
use winit_event_helper::dispatch::{Action, Reaction};
use winit_event_helper::event_helper::EventHelper;
use winit_event_helper::events::{
    DeviceEvent, DeviceId, Event, Ime, KeyboardInput, MouseScrollDelta, PhysicalPosition,
    PhysicalSize, StartCause, WindowEvent, WindowId,
};
use winit_event_helper::input::data::InputDataWithId;
use winit_event_helper::input::{Signal, State};

#[derive(Default)]
struct App {
    log: Vec<&'static str>,
    typed: Vec<char>,
    fresh_during_dispatch: Option<bool>,
}

type Plain = Action<App, fn(&mut App)>;
type OnGeneral = Reaction<App, GeneralCallbackData, fn(&mut App, &GeneralCallbackData)>;
type OnWindow = Reaction<App, WindowCallbackData, fn(&mut App, &WindowCallbackData)>;
type OnDevice = Reaction<App, DeviceCallbackData, fn(&mut App, &DeviceCallbackData)>;
type OnInput = Reaction<App, Signal<GenericInput>, fn(&mut App, &Signal<GenericInput>)>;
type AllCallbacks = Callbacks<Plain, OnInput, OnGeneral, OnWindow, OnDevice>;
type Helper = EventHelper<App, Plain>;

const KEY_A: GenericInput = GenericInput::KeyCode(KeyCode(10));

fn plain(function: fn(&mut App)) -> Plain {
    Action::new(function)
}

fn on_window(function: fn(&mut App, &WindowCallbackData)) -> OnWindow {
    Reaction::new(function)
}

fn key_event(device: u64, state: ElementState) -> Event {
    Event::WindowEvent {
        window_id: WindowId(1),
        event: WindowEvent::KeyboardInput {
            device_id: DeviceId(device),
            input: KeyboardInput { scancode: 30, state, virtual_keycode: Some(KeyCode(10)) },
        },
    }
}

fn typed(codepoint: char) -> Event {
    Event::WindowEvent { window_id: WindowId(1), event: WindowEvent::ReceivedCharacter(codepoint) }
}

fn note_pressed(app: &mut App) {
    app.log.push("a went down");
}

fn note_held(app: &mut App) {
    app.log.push("a is held");
}

fn note_deferred(app: &mut App) {
    app.log.push("deferred");
}

fn note_deferred_again(app: &mut App) {
    app.log.push("deferred again");
}

fn record_text(app: &mut App, seen: &WindowCallbackData) {
    app.typed = seen.text.clone();
    app.fresh_during_dispatch = Some(seen.inputs.just_pressed(KEY_A));
    app.log.push("text");
}

#[test]
fn step_reports_completion_and_clears_after_dispatch() {
    let mut callbacks = AllCallbacks::empty();
    callbacks.window.inputs.just_pressed(KEY_A, plain(note_pressed));
    callbacks.window.inputs.pressed(KEY_A, plain(note_held));
    callbacks.window.on(WindowField::Text, on_window(record_text));
    let mut helper = Helper::new(App::default());
    assert!(!helper.update(&callbacks, &key_event(1, ElementState::Pressed)));
    assert!(!helper.update(&callbacks, &typed('x')));
    assert!(helper.user_data().log.is_empty());
    assert!(helper.data().window.inputs.just_pressed(KEY_A));
    assert!(helper.update(&callbacks, &Event::MainEventsCleared));
    assert_eq!(helper.user_data().fresh_during_dispatch, Some(true));
    assert_eq!(helper.user_data().log, vec!["text", "a is held", "a went down"]);
    assert!(!helper.data().window.inputs.just_pressed(KEY_A));
    assert!(helper.data().window.inputs.pressed(KEY_A));
    assert!(helper.data().window.inputs.pressed(GenericInput::ScanCode(30)));
    assert_eq!(helper.update_count(), 1);
    assert!(helper.update(&callbacks, &Event::MainEventsCleared));
    assert_eq!(helper.user_data().log, vec!["text", "a is held", "a went down", "a is held"]);
    assert_eq!(helper.update_count(), 2);
}

#[test]
fn deferred_callbacks_run_once_before_the_dispatch_pass() {
    let mut callbacks = AllCallbacks::empty();
    callbacks.window.inputs.pressed(KEY_A, plain(note_held));
    let mut helper = Helper::new(App::default());
    helper.update(&callbacks, &key_event(1, ElementState::Pressed));
    helper.call_after(plain(note_deferred));
    helper.call_after(plain(note_deferred_again));
    assert!(!helper.update(&callbacks, &typed('x')));
    assert!(helper.user_data().log.is_empty());
    assert!(helper.update(&callbacks, &Event::MainEventsCleared));
    assert_eq!(helper.user_data().log, vec!["deferred", "deferred again", "a is held"]);
    assert!(helper.update(&callbacks, &Event::MainEventsCleared));
    assert_eq!(helper.user_data().log, vec!["deferred", "deferred again", "a is held", "a is held"]);
    assert!(helper.update(&callbacks, &Event::MainEventsCleared));
    assert_eq!(helper.user_data().log.len(), 5);
}

#[test]
fn trackers_of_devices_do_not_leak() {
    let mut sharded = InputDataWithId::new();
    sharded.update_at(1, KEY_A, ElementState::Pressed, std::time::Instant::now());
    assert!(sharded.get(1).pressed(KEY_A));
    assert!(!sharded.get(2).pressed(KEY_A));
    assert!(!sharded.contains_key(2));
    assert_eq!(sharded.len(), 1);
    {
        let second = sharded.get_mut(2);
        assert!(!second.pressed(KEY_A));
        assert!(second.pressed_iter().is_empty());
        assert!(second.just_pressed_iter().is_empty());
        assert!(second.just_released_iter().is_empty());
        assert_eq!(second.modifiers(), Modifiers::empty());
    }
    assert!(sharded.contains_key(2));
    assert_eq!(sharded.len(), 2);
    assert!(sharded.get(1).pressed(KEY_A));
    sharded.clear();
    assert!(sharded.get(1).pressed(KEY_A));
    assert!(!sharded.get(1).just_pressed(KEY_A));
}

#[test]
fn window_events_reach_the_tracker_of_their_device_only() {
    let callbacks = AllCallbacks::empty();
    let mut helper = Helper::new(App::default());
    helper.update(&callbacks, &key_event(1, ElementState::Pressed));
    let window = &helper.data().window;
    assert!(window.inputs.pressed(KEY_A));
    assert!(window.inputs_with_id.get(1).pressed(KEY_A));
    assert!(!window.inputs_with_id.get(2).pressed(KEY_A));
    assert!(!window.inputs_with_id.contains_key(2));
    assert!(helper.data().of_window(WindowId(1)).inputs.pressed(KEY_A));
    assert!(!helper.data().of_window(WindowId(2)).inputs.pressed(KEY_A));
    assert!(!helper.data().windows.contains_key(2));
    assert!(!helper.data().device.inputs.pressed(KEY_A));
}

#[test]
fn typed_text_is_collected_in_order_and_dropped_at_the_step_boundary() {
    let mut callbacks = AllCallbacks::empty();
    callbacks.window.on(WindowField::Text, on_window(record_text));
    let mut helper = Helper::new(App::default());
    helper.update(&callbacks, &typed('a'));
    helper.update(&callbacks, &typed('b'));
    helper.update(&callbacks, &typed('c'));
    assert_eq!(helper.data().window.text, vec!['a', 'b', 'c']);
    assert!(helper.user_data().typed.is_empty());
    assert!(helper.update(&callbacks, &Event::MainEventsCleared));
    assert_eq!(helper.user_data().typed, vec!['a', 'b', 'c']);
    assert!(helper.data().window.text.is_empty());
    assert!(helper.data().of_window(WindowId(1)).text.is_empty());
    assert!(helper.update(&callbacks, &Event::MainEventsCleared));
    assert_eq!(helper.user_data().log, vec!["text"]);
}

fn note_focus(app: &mut App, seen: &WindowCallbackData) {
    app.log.push(if seen.focused == Some(true) { "focused" } else { "unfocused" });
}

fn note_position(app: &mut App, _seen: &WindowCallbackData) {
    app.log.push("position");
}

fn note_moved(app: &mut App, _seen: &WindowCallbackData) {
    app.log.push("moved");
}

#[test]
fn flags_and_latest_values_last_one_step_but_position_and_size_stay() {
    let mut callbacks = AllCallbacks::empty();
    callbacks.window.on(WindowField::Moved, on_window(note_moved));
    callbacks.window.on(WindowField::Focused, on_window(note_focus));
    callbacks.window.on(WindowField::Position, on_window(note_position));
    let mut helper = Helper::new(App::default());
    let window = WindowId(7);
    helper.update(&callbacks, &Event::WindowEvent { window_id: window, event: WindowEvent::Focused(false) });
    helper.update(&callbacks, &Event::WindowEvent { window_id: window, event: WindowEvent::Focused(true) });
    helper.update(
        &callbacks,
        &Event::WindowEvent { window_id: window, event: WindowEvent::Moved(PhysicalPosition { x: 3, y: -4 }) },
    );
    helper.update(
        &callbacks,
        &Event::WindowEvent {
            window_id: window,
            event: WindowEvent::Resized(PhysicalSize { width: 640, height: 480 }),
        },
    );
    assert_eq!(helper.data().window.focused, Some(true));
    assert!(helper.update(&callbacks, &Event::MainEventsCleared));
    assert_eq!(helper.user_data().log, vec!["position", "focused", "moved"]);
    assert_eq!(helper.data().window.focused, None);
    assert_eq!(helper.data().window.moved, None);
    assert_eq!(helper.data().window.resized, None);
    assert_eq!(helper.data().window.position, Some(PhysicalPosition { x: 3, y: -4 }));
    assert_eq!(helper.data().window.size, Some(PhysicalSize { width: 640, height: 480 }));
    assert_eq!(helper.data().of_window(window).position, Some(PhysicalPosition { x: 3, y: -4 }));
    assert!(helper.update(&callbacks, &Event::MainEventsCleared));
    assert_eq!(helper.user_data().log, vec!["position", "focused", "moved", "position"]);
}

#[test]
fn dropped_files_are_kept_once() {
    let callbacks = AllCallbacks::empty();
    let mut helper = Helper::new(App::default());
    for path in ["b.txt", "a.txt", "b.txt"] {
        helper.update(
            &callbacks,
            &Event::WindowEvent { window_id: WindowId(1), event: WindowEvent::DroppedFile(path.to_string()) },
        );
    }
    let mut files = helper.data().window.dropped_files();
    files.sort();
    assert_eq!(files, vec!["a.txt".to_string(), "b.txt".to_string()]);
    assert!(helper.data().window.hovered_files().is_empty());
    assert!(helper.data().window.fires(WindowField::DroppedFiles));
    assert!(!helper.data().window.fires(WindowField::HoveredFiles));
    helper.update(&callbacks, &Event::MainEventsCleared);
    assert!(helper.data().window.dropped_files().is_empty());
}

#[test]
fn window_quit_flags_add_up_and_reach_the_helper() {
    let callbacks = AllCallbacks::empty();
    let mut helper = Helper::new(App::default());
    assert!(helper.quit().is_empty());
    helper.update(&callbacks, &Event::WindowEvent { window_id: WindowId(1), event: WindowEvent::CloseRequested });
    assert_eq!(helper.data().window.quit, Some(QuitWindow { bits: QuitWindow::CLOSE_REQUESTED }));
    assert!(helper.quit().is_empty());
    helper.update(&callbacks, &Event::WindowEvent { window_id: WindowId(1), event: WindowEvent::Destroyed });
    assert_eq!(
        helper.data().window.quit,
        Some(QuitWindow { bits: QuitWindow::CLOSE_REQUESTED | QuitWindow::DESTROYED })
    );
    assert_eq!(helper.quit(), Quit { bits: Quit::WINDOW_DESTROYED });
    helper.request_quit();
    assert!(helper.quit().contains(Quit { bits: Quit::USER_REQUESTED }));
    assert!(helper.quit().intersects(Quit { bits: Quit::USER_REQUESTED | Quit::LOOP_DESTROYED }));
    assert!(!helper.quit().contains(Quit { bits: Quit::LOOP_DESTROYED }));
    helper.update(&callbacks, &Event::LoopDestroyed);
    assert_eq!(helper.quit().bits(), 7);
    helper.update(&callbacks, &Event::MainEventsCleared);
    assert_eq!(helper.quit().bits(), 7);
    assert_eq!(helper.data().window.quit, None);
}

fn note_added(app: &mut App, _seen: &DeviceCallbackData) {
    app.log.push("added");
}

fn note_device_text(app: &mut App, seen: &DeviceCallbackData) {
    app.typed = seen.text.clone();
    app.log.push("device text");
}

fn note_suspended(app: &mut App, _seen: &GeneralCallbackData) {
    app.log.push("suspended");
}

fn note_redraw(app: &mut App, seen: &GeneralCallbackData) {
    assert_eq!(seen.redraw_requested(), vec![4]);
    app.log.push("redraw");
}

fn note_redraw_of_four(app: &mut App) {
    app.log.push("redraw of window 4");
}

fn note_device_press(app: &mut App) {
    app.log.push("device button");
}

#[test]
fn general_window_and_device_callbacks_run_in_that_order() {
    let mut callbacks = AllCallbacks::empty();
    callbacks.device.on(DeviceField::Text, Reaction::new(note_device_text as fn(&mut App, &DeviceCallbackData)));
    callbacks.device.on(DeviceField::Added, Reaction::new(note_added as fn(&mut App, &DeviceCallbackData)));
    callbacks
        .device
        .inputs
        .just_pressed(GenericInput::MouseButton(MouseButton::Middle), plain(note_device_press));
    callbacks.window.on(WindowField::Text, on_window(record_text));
    callbacks
        .general
        .on(GeneralField::RedrawRequested, Reaction::new(note_redraw as fn(&mut App, &GeneralCallbackData)));
    callbacks
        .general
        .on(GeneralField::Suspended, Reaction::new(note_suspended as fn(&mut App, &GeneralCallbackData)));
    callbacks.general.redraw_requested_with_key(WindowId(4), plain(note_redraw_of_four));
    callbacks.general.redraw_requested_with_key(WindowId(5), plain(note_deferred));
    let mut helper = Helper::new(App::default());
    let device = DeviceId(3);
    helper.update(&callbacks, &Event::DeviceEvent { device_id: device, event: DeviceEvent::Text { codepoint: 'q' } });
    helper.update(&callbacks, &Event::DeviceEvent { device_id: device, event: DeviceEvent::Added });
    helper.update(
        &callbacks,
        &Event::DeviceEvent {
            device_id: device,
            event: DeviceEvent::Button { button: 1, state: ElementState::Pressed },
        },
    );
    helper.update(&callbacks, &typed('w'));
    helper.update(&callbacks, &Event::RedrawRequested(WindowId(4)));
    helper.update(&callbacks, &Event::RedrawRequested(WindowId(4)));
    helper.update(&callbacks, &Event::Suspended);
    helper.update(&callbacks, &Event::NewEvents(StartCause::Poll));
    assert!(helper.data().general.suspended);
    assert!(helper.update(&callbacks, &Event::MainEventsCleared));
    assert_eq!(
        helper.user_data().log,
        vec!["suspended", "redraw of window 4", "redraw", "text", "added", "device text", "device button"]
    );
    assert_eq!(helper.user_data().typed, vec!['q']);
    assert!(!helper.data().general.suspended);
    assert!(helper.data().general.new_events.is_none());
    assert!(helper.data().general.redraw_requested().is_empty());
    assert!(!helper.data().device.added);
    assert!(helper.data().device.inputs.pressed(GenericInput::MouseButton(MouseButton::Middle)));
    assert!(helper.data().of_device(device).inputs.pressed(GenericInput::MouseButton(MouseButton::Middle)));
    assert!(!helper.data().of_device(DeviceId(9)).inputs.pressed(GenericInput::MouseButton(MouseButton::Middle)));
}

fn note_window_two(app: &mut App, _seen: &WindowCallbackData) {
    app.log.push("text in window 2");
}

fn note_device_five(app: &mut App, _seen: &DeviceCallbackData) {
    app.log.push("device 5 removed");
}

#[test]
fn callbacks_of_single_windows_and_devices_see_their_own_events_only() {
    let mut callbacks = AllCallbacks::empty();
    callbacks.on_window(WindowId(2), WindowField::Text, on_window(note_window_two));
    callbacks.on_device(
        DeviceId(5),
        DeviceField::Removed,
        Reaction::new(note_device_five as fn(&mut App, &DeviceCallbackData)),
    );
    let mut helper = Helper::new(App::default());
    helper.update(&callbacks, &typed('x'));
    helper.update(&callbacks, &Event::DeviceEvent { device_id: DeviceId(6), event: DeviceEvent::Removed });
    assert!(helper.update(&callbacks, &Event::MainEventsCleared));
    assert!(helper.user_data().log.is_empty());
    helper.update(&callbacks, &Event::WindowEvent { window_id: WindowId(2), event: WindowEvent::ReceivedCharacter('y') });
    helper.update(&callbacks, &Event::DeviceEvent { device_id: DeviceId(5), event: DeviceEvent::Removed });
    assert!(helper.update(&callbacks, &Event::MainEventsCleared));
    assert_eq!(helper.user_data().log, vec!["text in window 2", "device 5 removed"]);
    assert!(helper.update(&callbacks, &Event::MainEventsCleared));
    assert_eq!(helper.user_data().log.len(), 2);
}

#[test]
fn only_the_drained_signal_ends_a_step() {
    assert!(Event::MainEventsCleared.ends_step());
    assert!(!Event::RedrawEventsCleared.ends_step());
    assert!(!Event::UserEvent.ends_step());
    assert!(!typed('x').ends_step());
}

#[test]
fn collected_values_keep_their_order() {
    let mut window = WindowCallbackData::default();
    let device = DeviceId(1);
    window.update(&WindowEvent::Ime(Ime::Enabled));
    window.update(&WindowEvent::Ime(Ime::Commit("done".to_string())));
    window.update(&WindowEvent::MouseWheel {
        device_id: device,
        delta: MouseScrollDelta::LineDelta(1, 2),
        phase: winit_event_helper::events::TouchPhase::Moved,
    });
    window.update(&WindowEvent::SmartMagnify { device_id: device });
    window.update(&WindowEvent::SmartMagnify { device_id: device });
    window.update(&WindowEvent::CursorLeft { device_id: device });
    window.update(&WindowEvent::ModifiersChanged(Modifiers { bits: Modifiers::SHIFT }));
    assert_eq!(window.ime.len(), 2);
    assert!(matches!(window.ime[0], Ime::Enabled));
    assert!(matches!(&window.ime[1], Ime::Commit(text) if text == "done"));
    assert_eq!(window.mouse_wheel, vec![MouseScrollDelta::LineDelta(1, 2)]);
    assert_eq!(window.smart_magnify, Some(2));
    assert_eq!(window.cursor_entered, Some(false));
    assert_eq!(window.cursor_state, None);
    assert!(window.inputs.pressed_shift());
    window.clear();
    assert!(window.ime.is_empty());
    assert_eq!(window.smart_magnify, None);
    assert!(window.inputs.pressed_shift());
    let mut gathered = CallbackData::default();
    gathered.update(&Event::UserEvent);
    assert!(!gathered.general.suspended);
    assert!(gathered.windows.is_empty());
}

fn note_signal(app: &mut App, signal: &Signal<GenericInput>) {
    app.log.push(match (signal.input, signal.state) {
        (KEY_A, State::Pressed) => "a: pressed",
        (KEY_A, State::Held) => "a: held",
        (KEY_A, State::Released) => "a: released",
        (_, State::Pressed) => "other: pressed",
        (_, State::Held) => "other: held",
        (_, State::Released) => "other: released",
    });
}

fn note_a_is_held_now(app: &mut App) {
    app.log.push("held callback");
}

#[test]
fn raw_presses_are_signalled_at_once_and_before_the_dispatch_pass() {
    let mut callbacks = AllCallbacks::empty();
    callbacks.input_any = Some(Reaction::new(note_signal as fn(&mut App, &Signal<GenericInput>)));
    callbacks.on_input(KEY_A, State::Held, plain(note_a_is_held_now));
    callbacks.window.inputs.pressed(KEY_A, plain(note_held));
    let mut helper = Helper::new(App::default());
    assert!(!helper.update(&callbacks, &key_event(1, ElementState::Pressed)));
    assert_eq!(helper.user_data().log, vec!["a: pressed", "a: held", "held callback"]);
    assert!(!helper.update(&callbacks, &key_event(1, ElementState::Pressed)));
    assert_eq!(helper.user_data().log, vec!["a: pressed", "a: held", "held callback", "a: held", "held callback"]);
    helper.user_data_mut().log.clear();
    assert!(!helper.update(
        &callbacks,
        &Event::DeviceEvent {
            device_id: DeviceId(1),
            event: DeviceEvent::Button { button: 0, state: ElementState::Pressed },
        },
    ));
    assert!(!helper.update(&callbacks, &typed('x')));
    assert_eq!(helper.user_data().log, vec!["other: pressed", "other: held"]);
    assert!(helper.update(&callbacks, &Event::MainEventsCleared));
    assert_eq!(helper.user_data().log, vec!["other: pressed", "other: held", "a is held"]);
    helper.user_data_mut().log.clear();
    assert!(!helper.update(&callbacks, &key_event(1, ElementState::Released)));
    assert_eq!(helper.user_data().log, vec!["a: released"]);
    assert!(!helper.update(&callbacks, &key_event(1, ElementState::Pressed)));
    assert_eq!(helper.user_data().log, vec!["a: released", "a: pressed", "a: held", "held callback"]);
}

#[test]
fn the_previous_step_is_not_older_than_the_start() {
    let callbacks = AllCallbacks::empty();
    let mut helper = Helper::new(App::default());
    let begun = std::time::Instant::now();
    while begun.elapsed().as_micros() < 300 {}
    assert!(helper.time_since_start().as_micros() >= 300);
    assert!(helper.time_since_previous_step().as_micros() >= 300);
    helper.update(&callbacks, &Event::MainEventsCleared);
    helper.update(&callbacks, &Event::MainEventsCleared);
    let since_previous = helper.time_since_previous_step();
    let since_start = helper.time_since_start();
    assert!(since_previous <= since_start);
    assert!(since_start.as_micros() >= 300);
    assert!(since_start.as_micros() - since_previous.as_micros() >= 300);
    assert_eq!(helper.update_count(), 2);
}

#[test]
fn a_default_helper_starts_from_nothing() {
    let mut helper: EventHelper<u32, Action<u32, fn(&mut u32)>> = EventHelper::default();
    assert_eq!(*helper.user_data(), 0);
    *helper.user_data_mut() = 4;
    assert_eq!(*helper.user_data(), 4);
    assert_eq!(helper.update_count(), 0);
    assert!(helper.quit().is_empty());
    assert!(helper.data().windows.is_empty());
    assert!(helper.data().devices.is_empty());
    assert!(helper.data().window.text.is_empty());
}

fn note_device_share(app: &mut App, seen: &WindowCallbackData) {
    assert_eq!(seen.cursor_entered_with_id(DeviceId(3)), Some(false));
    assert_eq!(seen.mouse_wheel_with_id(DeviceId(3)), &vec![MouseScrollDelta::LineDelta(1, 2)]);
    assert!(seen.mouse_wheel_with_id(DeviceId(4)).is_empty());
    app.log.push("device 3");
}

fn note_other_share(app: &mut App, _seen: &WindowCallbackData) {
    app.log.push("device 5");
}

#[test]
fn what_a_device_did_to_a_window_is_gathered_for_the_device() {
    let mut callbacks = AllCallbacks::empty();
    callbacks.window.on_device(DeviceId(5), on_window(note_other_share));
    callbacks.window.on_device(DeviceId(3), on_window(note_device_share));
    callbacks.window.on_device(DeviceId(9), on_window(note_other_share));
    let mut helper = Helper::new(App::default());
    let window = WindowId(1);
    let wheel = |device| Event::WindowEvent {
        window_id: window,
        event: WindowEvent::MouseWheel {
            device_id: DeviceId(device),
            delta: MouseScrollDelta::LineDelta(1, 2),
            phase: winit_event_helper::events::TouchPhase::Moved,
        },
    };
    helper.update(&callbacks, &wheel(3));
    helper.update(&callbacks, &Event::WindowEvent { window_id: window, event: WindowEvent::SmartMagnify { device_id: DeviceId(5) } });
    helper.update(&callbacks, &Event::WindowEvent { window_id: window, event: WindowEvent::SmartMagnify { device_id: DeviceId(5) } });
    helper.update(&callbacks, &Event::WindowEvent { window_id: window, event: WindowEvent::CursorEntered { device_id: DeviceId(3) } });
    helper.update(&callbacks, &Event::WindowEvent { window_id: window, event: WindowEvent::CursorLeft { device_id: DeviceId(3) } });
    helper.update(&callbacks, &key_event(7, ElementState::Pressed));
    {
        let gathered = &helper.data().window;
        assert_eq!(gathered.smart_magnify_with_id(DeviceId(5)), Some(2));
        assert_eq!(gathered.smart_magnify_with_id(DeviceId(3)), None);
        assert_eq!(gathered.smart_magnify, Some(2));
        assert_eq!(gathered.cursor_entered_with_id(DeviceId(5)), None);
        assert_eq!(gathered.cursor_moved_with_id(DeviceId(3)), None);
        assert!(gathered.touch_with_id(DeviceId(3)).is_empty());
        assert!(gathered.axis_motion_with_id(DeviceId(3)).is_empty());
        assert!(gathered.touchpad_pressure_with_id(DeviceId(3)).is_empty());
        assert!(gathered.touchpad_magnify_with_id(DeviceId(3)).is_empty());
        assert!(gathered.touchpad_rotate_with_id(DeviceId(3)).is_empty());
        assert_eq!(gathered.with_id.keys(), vec![3, 5]);
        assert!(gathered.share_of(DeviceId(7)).mouse_wheel.is_empty());
    }
    assert!(helper.update(&callbacks, &Event::MainEventsCleared));
    assert_eq!(helper.user_data().log, vec!["device 3", "device 5"]);
    assert!(helper.data().window.with_id.is_empty());
    assert!(helper.update(&callbacks, &Event::MainEventsCleared));
    assert_eq!(helper.user_data().log.len(), 2);
}

fn note_readme(app: &mut App) {
    app.log.push("readme dropped");
}

fn note_readme_hovers(app: &mut App) {
    app.log.push("readme hovers");
}

fn note_drops(app: &mut App, seen: &WindowCallbackData) {
    assert_eq!(seen.dropped_files().len(), 2);
    app.log.push("files dropped");
}

fn note_hovers(app: &mut App, _seen: &WindowCallbackData) {
    app.log.push("files hover");
}

#[test]
fn callbacks_for_single_files_come_before_the_callback_for_all_files() {
    let mut callbacks = AllCallbacks::empty();
    callbacks.window.on(WindowField::DroppedFiles, on_window(note_drops));
    callbacks.window.on(WindowField::HoveredFiles, on_window(note_hovers));
    callbacks.window.on(WindowField::Text, on_window(record_text));
    assert!(callbacks.window.dropped_files_with_key("readme".to_string(), plain(note_deferred)).is_none());
    assert!(callbacks.window.dropped_files_with_key("readme".to_string(), plain(note_readme)).is_some());
    callbacks.window.dropped_files_with_key("other".to_string(), plain(note_deferred));
    callbacks.window.hovered_files_with_key("readme".to_string(), plain(note_readme_hovers));
    let mut helper = Helper::new(App::default());
    let window = WindowId(1);
    let dropped = |path: &str| Event::WindowEvent { window_id: window, event: WindowEvent::DroppedFile(path.to_string()) };
    helper.update(&callbacks, &dropped("readme"));
    helper.update(&callbacks, &dropped("licence"));
    helper.update(&callbacks, &dropped("readme"));
    helper.update(&callbacks, &typed('x'));
    assert!(helper.update(&callbacks, &Event::MainEventsCleared));
    assert_eq!(helper.user_data().log, vec!["text", "readme dropped", "files dropped"]);
    helper.user_data_mut().log.clear();
    helper.update(&callbacks, &Event::WindowEvent { window_id: window, event: WindowEvent::HoveredFile("readme".to_string()) });
    assert!(helper.update(&callbacks, &Event::MainEventsCleared));
    assert_eq!(helper.user_data().log, vec!["readme hovers", "files hover"]);
    assert!(helper.update(&callbacks, &Event::MainEventsCleared));
    assert_eq!(helper.user_data().log.len(), 2);
}

#[derive(Clone, Default)]
struct Count {
    steps: u32,
}

fn count_step(count: &mut Count) {
    count.steps += 1;
}

#[test]
fn a_copy_of_the_helper_goes_its_own_way() {
    type Counting = Action<Count, fn(&mut Count)>;
    type See<S> = Reaction<Count, S, fn(&mut Count, &S)>;
    let callbacks: Callbacks<
        Counting,
        See<Signal<GenericInput>>,
        See<GeneralCallbackData>,
        See<WindowCallbackData>,
        See<DeviceCallbackData>,
    > = Callbacks::empty();
    let mut helper: EventHelper<Count, Counting> = EventHelper::new(Count::default());
    helper.update(&callbacks, &key_event(1, ElementState::Pressed));
    helper.update(&callbacks, &typed('a'));
    helper.update(&callbacks, &Event::WindowEvent { window_id: WindowId(1), event: WindowEvent::DroppedFile("f".to_string()) });
    helper.update(&callbacks, &Event::RedrawRequested(WindowId(3)));
    helper.call_after(Action::new(count_step as fn(&mut Count)));
    helper.request_quit();
    let mut copy = helper.clone();
    assert!(copy.data().window.inputs.pressed(KEY_A));
    assert!(copy.data().window.inputs.just_pressed(KEY_A));
    assert_eq!(copy.data().window.inputs.pressed_since(KEY_A), helper.data().window.inputs.pressed_since(KEY_A));
    assert!(copy.data().window.inputs_with_id.get(1).pressed(KEY_A));
    assert_eq!(copy.data().window.text, vec!['a']);
    assert_eq!(copy.data().window.dropped_files(), vec!["f".to_string()]);
    assert_eq!(copy.data().general.redraw_requested(), vec![3]);
    assert_eq!(copy.data().windows.keys(), vec![1]);
    assert_eq!(copy.data().of_window(WindowId(1)).text, vec!['a']);
    assert_eq!(copy.quit(), helper.quit());
    assert!(copy.update(&callbacks, &Event::MainEventsCleared));
    assert_eq!(copy.user_data().steps, 1);
    assert_eq!(copy.update_count(), 1);
    assert!(copy.data().window.text.is_empty());
    assert_eq!(helper.user_data().steps, 0);
    assert_eq!(helper.update_count(), 0);
    assert_eq!(helper.data().window.text, vec!['a']);
    assert!(helper.update(&callbacks, &Event::MainEventsCleared));
    assert_eq!(helper.user_data().steps, 1);
}

#[test]
fn times_are_counted_from_the_start_and_from_the_step_before_the_last() {
    let callbacks = AllCallbacks::empty();
    let start = std::time::Instant::now();
    let ms = std::time::Duration::from_millis;
    let mut helper = Helper::new_at(App::default(), start);
    assert_eq!(helper.time_since_start_at(start + ms(7)), ms(7));
    assert_eq!(helper.time_since_previous_step_at(start + ms(7)), ms(7));
    assert!(!helper.update_at(&callbacks, &key_event(1, ElementState::Pressed), start + ms(1)));
    assert_eq!(helper.data().window.inputs.pressed_for_at(KEY_A, start + ms(4)), Some(ms(3)));
    assert!(helper.update_at(&callbacks, &Event::MainEventsCleared, start + ms(10)));
    assert_eq!(helper.time_since_previous_step_at(start + ms(12)), ms(12));
    assert!(helper.update_at(&callbacks, &Event::MainEventsCleared, start + ms(20)));
    assert_eq!(helper.time_since_previous_step_at(start + ms(25)), ms(15));
    assert!(helper.update_at(&callbacks, &Event::MainEventsCleared, start + ms(30)));
    assert_eq!(helper.time_since_previous_step_at(start + ms(31)), ms(11));
    assert_eq!(helper.time_since_start_at(start + ms(31)), ms(31));
    assert_eq!(helper.time_since_start_at(start), ms(0));
    assert_eq!(helper.update_count(), 3);
}
