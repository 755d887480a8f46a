use winit_event_helper::callbacks::by_text::TextCallbacks;
use winit_event_helper::default_ahashmap::{copied, Blank, DefaultAHashMap};
use winit_event_helper::definitions::{GenericInput, KeyCode, Modifiers, MouseButton, Quit, QuitWindow};
use winit_event_helper::events::{mouse_button_from_u32, IdLessTouch, PhysicalPosition, Touch, TouchPhase, DeviceId};
use winit_event_helper::input::callbacks::{combination_key, Bindings};
use winit_event_helper::input::data::{filter_keyboard_keys, filter_mouse_buttons, InputData};
use winit_event_helper::input::State;

#[test]
fn reading_an_unknown_key_gives_the_default_and_makes_nothing() {
    let mut map: DefaultAHashMap<Option<u32>> = DefaultAHashMap::new();
    assert!(map.is_empty());
    assert_eq!(map.len(), 0);
    assert_eq!(*map.get(5), None);
    assert!(!map.contains_key(5));
    assert_eq!(*map.default_entry(), None);
    assert_eq!(map.insert(5, Some(50)), None);
    assert_eq!(map.insert(3, Some(30)), None);
    assert_eq!(map.insert(5, Some(51)), Some(Some(50)));
    assert_eq!(*map.get(5), Some(51));
    assert_eq!(*map.get(3), Some(30));
    assert_eq!(*map.get(4), None);
    assert!(map.contains_key(3));
    assert_eq!(map.len(), 2);
    assert!(!map.is_empty());
    assert_eq!(map.keys(), vec![5, 3]);
    assert_eq!(map.values(), &[Some(51), Some(30)]);
    assert_eq!(map.key_at(1), 3);
    assert_eq!(*map.value_at(0), Some(51));
}

#[test]
fn writing_to_an_unknown_key_makes_a_blank_value_first() {
    let mut map: DefaultAHashMap<InputData> = DefaultAHashMap::default();
    let a = GenericInput::KeyCode(KeyCode(1));
    map.get_mut(7).press(a);
    assert!(map.contains_key(7));
    assert!(map.get(7).pressed(a));
    assert!(!map.get(8).pressed(a));
    assert!(!map.contains_key(8));
    assert_eq!(map.touch(8), 1);
    assert_eq!(map.touch(7), 0);
    assert!(map.contains_key(8));
    assert!(!map.get(8).pressed(a));
    map.value_at_mut(1).press(a);
    assert!(map.get(8).pressed(a));
    assert_eq!(map.keys(), vec![7, 8]);
    assert_eq!(Option::<u8>::blank(), None);
}

#[test]
fn removing_moves_the_last_key_into_the_gap() {
    let mut map: DefaultAHashMap<Option<u32>> = DefaultAHashMap::new();
    for key in [10, 20, 30, 40] {
        map.insert(key, Some(key as u32 + 1));
    }
    assert_eq!(map.remove(99), None);
    assert_eq!(map.remove(20), Some(Some(21)));
    assert_eq!(map.keys(), vec![10, 40, 30]);
    assert_eq!(*map.get(20), None);
    assert_eq!(*map.get(40), Some(41));
    assert_eq!(*map.get(30), Some(31));
    assert_eq!(map.remove(30), Some(Some(31)));
    assert_eq!(map.keys(), vec![10, 40]);
    assert_eq!(*map.get(10), Some(11));
    assert_eq!(*map.get(40), Some(41));
    assert_eq!(map.len(), 2);
    map.clear();
    assert!(map.is_empty());
    assert_eq!(*map.get(10), None);
    assert_eq!(map.insert(10, Some(1)), None);
    assert_eq!(map.keys(), vec![10]);
}

#[test]
fn a_combination_has_one_callback_and_keeps_its_place() {
    let a = GenericInput::KeyCode(KeyCode(1));
    let b = GenericInput::MouseButton(MouseButton::Left);
    let ctrl = Modifiers { bits: Modifiers::CTRL };
    let mut bindings: Bindings<&'static str> = Bindings::new();
    assert_eq!(bindings.len(), 0);
    assert_eq!(bindings.insert(vec![a], ctrl, "first"), None);
    assert_eq!(bindings.insert(vec![a, b], ctrl, "second"), None);
    assert_eq!(bindings.insert(vec![a], Modifiers::empty(), "third"), None);
    assert_eq!(bindings.insert(vec![a], ctrl, "fourth"), Some("first"));
    assert_eq!(bindings.len(), 3);
    assert_eq!(bindings.find(&[a], ctrl), 0);
    assert_eq!(bindings.find(&[a, b], ctrl), 1);
    assert_eq!(bindings.find(&[b, a], ctrl), 3);
    assert_eq!(bindings.get(&[a], ctrl), Some(&"fourth"));
    assert_eq!(bindings.get(&[a], Modifiers::empty()), Some(&"third"));
    assert_eq!(bindings.get(&[b], ctrl), None);
    let entry = bindings.entry(1);
    assert_eq!(entry.inputs(), &[a, b]);
    assert_eq!(entry.modifiers(), ctrl);
    assert_eq!(*entry.callback(), "second");
    assert_eq!(combination_key(&[a, b], ctrl), vec![0x1_0000_0001, 0, 0x20]);
    assert_eq!(combination_key(&[b, a], ctrl), vec![0, 0x1_0000_0001, 0x20]);
    assert_eq!(combination_key(&[], Modifiers::empty()), vec![0]);
}

#[test]
fn flag_sets_contain_and_overlap() {
    let both = Modifiers { bits: Modifiers::SHIFT | Modifiers::ALT };
    assert!(both.contains(Modifiers { bits: Modifiers::SHIFT }));
    assert!(both.contains(both));
    assert!(both.contains(Modifiers::empty()));
    assert!(!both.contains(Modifiers { bits: Modifiers::SHIFT | Modifiers::CTRL }));
    assert!(both.shift() && both.alt() && !both.ctrl() && !both.logo());
    assert_eq!(Modifiers::from_bits_truncate(0xffff_ffff).bits(), 0x924);
    assert_eq!(Modifiers::from_bits_truncate(0x1 | 0x4).bits(), 0x4);
    assert!(Modifiers::default().is_empty());
    assert!(!both.is_empty());
    let mut quit = Quit::default();
    assert!(quit.is_empty());
    quit.insert(Quit { bits: Quit::LOOP_DESTROYED });
    quit.insert(Quit { bits: Quit::LOOP_DESTROYED });
    assert_eq!(quit.bits(), 2);
    assert!(quit.contains(Quit { bits: Quit::LOOP_DESTROYED }));
    assert!(!quit.contains(Quit { bits: Quit::LOOP_DESTROYED | Quit::USER_REQUESTED }));
    assert!(quit.intersects(Quit { bits: Quit::LOOP_DESTROYED | Quit::USER_REQUESTED }));
    assert!(!quit.intersects(Quit { bits: Quit::WINDOW_DESTROYED }));
    assert!(!quit.intersects(Quit::empty()));
    let mut window = QuitWindow::empty();
    assert!(window.is_empty());
    window.insert(QuitWindow { bits: QuitWindow::DESTROYED });
    assert!(window.contains(QuitWindow { bits: QuitWindow::DESTROYED }));
    assert!(!window.contains(QuitWindow { bits: QuitWindow::CLOSE_REQUESTED }));
    assert_eq!(window.bits(), 1);
}

#[test]
fn device_buttons_have_names() {
    assert_eq!(mouse_button_from_u32(0), MouseButton::Left);
    assert_eq!(mouse_button_from_u32(1), MouseButton::Middle);
    assert_eq!(mouse_button_from_u32(2), MouseButton::Right);
    assert_eq!(mouse_button_from_u32(3), MouseButton::Other(3));
    assert_eq!(mouse_button_from_u32(0xffff), MouseButton::Other(0xffff));
    assert_eq!(mouse_button_from_u32(0x1_0003), MouseButton::Other(3));
}

#[test]
fn a_touch_without_its_device() {
    let touch = Touch {
        device_id: DeviceId(4),
        phase: TouchPhase::Started,
        location: PhysicalPosition { x: 1, y: 2 },
        force: None,
        id: 9,
    };
    assert_eq!(
        IdLessTouch::from(touch),
        IdLessTouch { phase: TouchPhase::Started, location: PhysicalPosition { x: 1, y: 2 }, force: None, id: 9 }
    );
}

#[test]
fn filters_of_the_union_keep_order() {
    let inputs = [
        GenericInput::ScanCode(8),
        GenericInput::KeyCode(KeyCode(2)),
        GenericInput::MouseButton(MouseButton::Right),
        GenericInput::KeyCode(KeyCode(1)),
    ];
    assert_eq!(filter_keyboard_keys(&inputs), vec![KeyCode(2), KeyCode(1)]);
    assert_eq!(filter_mouse_buttons(&inputs), vec![MouseButton::Right]);
    assert_eq!(State::Pressed.index(), 0);
    assert_eq!(State::Held.index(), 1);
    assert_eq!(State::Released.index(), 2);
}

#[test]
fn a_text_has_at_most_one_callback() {
    let mut registered: TextCallbacks<u32> = TextCallbacks::new();
    assert_eq!(registered.get(&"a".to_string()), None);
    assert_eq!(registered.insert("a".to_string(), 1), None);
    assert_eq!(registered.insert("b".to_string(), 2), None);
    assert_eq!(registered.insert("a".to_string(), 3), Some(1));
    assert_eq!(registered.get(&"a".to_string()), Some(&3));
    assert_eq!(registered.get(&"b".to_string()), Some(&2));
    assert_eq!(registered.get(&"".to_string()), None);
}

#[test]
fn retain_keeps_what_the_test_lets_through() {
    let mut map: DefaultAHashMap<Option<u32>> = DefaultAHashMap::new();
    for key in [1, 2, 3, 4, 5, 6] {
        map.insert(key, Some(key as u32 * 10));
    }
    map.retain(|key: u64, value: &Option<u32>| key % 2 == 0 && *value != Some(40));
    let mut kept = map.keys();
    kept.sort();
    assert_eq!(kept, vec![2, 6]);
    assert_eq!(*map.get(2), Some(20));
    assert_eq!(*map.get(6), Some(60));
    assert_eq!(*map.get(4), None);
    assert_eq!(map.len(), 2);
    map.retain(|_key: u64, _value: &Option<u32>| false);
    assert!(map.is_empty());
}

#[test]
fn a_copy_of_the_bindings_holds_the_same_bindings() {
    let a = GenericInput::KeyCode(KeyCode(1));
    let ctrl = Modifiers { bits: Modifiers::CTRL };
    let mut bindings: Bindings<u8> = Bindings::new();
    bindings.insert(vec![a], ctrl, 1);
    bindings.insert(vec![a, a], ctrl, 2);
    let mut copy = bindings.clone();
    assert_eq!(copy.len(), 2);
    assert_eq!(copy.get(&[a], ctrl), Some(&1));
    assert_eq!(copy.insert(vec![a, a], ctrl, 3), Some(2));
    assert_eq!(copy.insert(vec![], ctrl, 4), None);
    assert_eq!(bindings.get(&[a, a], ctrl), Some(&2));
    assert_eq!(bindings.len(), 2);
    assert_eq!(copy.len(), 3);
}

#[test]
fn a_copy_of_a_map_has_the_same_keys_in_the_same_order() {
    let mut map: DefaultAHashMap<InputData> = DefaultAHashMap::new();
    let a = GenericInput::KeyCode(KeyCode(1));
    map.get_mut(9).press(a);
    map.get_mut(4);
    let mut copy = map.clone();
    assert_eq!(copy.keys(), vec![9, 4]);
    assert!(copy.get(9).pressed(a));
    assert!(!copy.get(4).pressed(a));
    copy.get_mut(9).release(a);
    assert!(map.get(9).pressed(a));
    assert!(!copy.get(9).pressed(a));
    assert_eq!(copied(&vec![3, 1, 2]), vec![3, 1, 2]);
}
