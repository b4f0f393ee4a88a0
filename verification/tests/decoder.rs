use interactive_scrapper::app_events::AppEvent;
use interactive_scrapper::listener::{command_for, AltKeyHandler, HotkeyDecoder, Key, RawKeyEvent};

fn decode_fresh(events: Vec<RawKeyEvent>) -> Vec<AppEvent> {
    let mut decoder = HotkeyDecoder::new();
    decoder.decode_all(&events)
}

#[test]
fn handler_starts_released() {
    let handler = AltKeyHandler::new();
    assert!(!handler.is_pressed());
}

#[test]
fn handler_press_then_release() {
    let mut handler = AltKeyHandler::new();
    handler.press();
    assert!(handler.is_pressed());
    handler.press();
    assert!(handler.is_pressed());
    handler.release();
    assert!(!handler.is_pressed());
    handler.release();
    assert!(!handler.is_pressed());
}

#[test]
fn command_keys_map_to_their_events() {
    assert_eq!(command_for(Key::S), Some(AppEvent::InitializeGadget));
    assert_eq!(command_for(Key::A), Some(AppEvent::GetSelected));
    assert_eq!(command_for(Key::H), Some(AppEvent::GetHelp));
    assert_eq!(command_for(Key::Esc), Some(AppEvent::Quit));
    assert_eq!(command_for(Key::Modifier), None);
    assert_eq!(command_for(Key::Other), None);
}

#[test]
fn new_decoder_is_not_held() {
    let decoder = HotkeyDecoder::new();
    assert!(!decoder.is_held());
}

#[test]
fn modifier_press_arms_and_emits_nothing() {
    let mut decoder = HotkeyDecoder::new();
    assert_eq!(decoder.decode(RawKeyEvent::Press(Key::Modifier)), None);
    assert!(decoder.is_held());
}

#[test]
fn modifier_release_disarms_and_emits_nothing() {
    let mut decoder = HotkeyDecoder::new();
    decoder.decode(RawKeyEvent::Press(Key::Modifier));
    assert_eq!(decoder.decode(RawKeyEvent::Release(Key::Modifier)), None);
    assert!(!decoder.is_held());
}

#[test]
fn each_chord_emits_its_event() {
    let keys = vec![
        (Key::S, AppEvent::InitializeGadget),
        (Key::A, AppEvent::GetSelected),
        (Key::H, AppEvent::GetHelp),
        (Key::Esc, AppEvent::Quit),
    ];
    for (key, expected) in keys {
        let mut decoder = HotkeyDecoder::new();
        assert_eq!(decoder.decode(RawKeyEvent::Press(Key::Modifier)), None);
        assert_eq!(decoder.decode(RawKeyEvent::Press(key)), Some(expected));
        assert!(!decoder.is_held());
    }
}

#[test]
fn command_key_without_modifier_emits_nothing() {
    for key in vec![Key::S, Key::A, Key::H, Key::Esc, Key::Other] {
        let mut decoder = HotkeyDecoder::new();
        assert_eq!(decoder.decode(RawKeyEvent::Press(key)), None);
        assert!(!decoder.is_held());
    }
}

#[test]
fn release_of_other_keys_changes_nothing() {
    let mut decoder = HotkeyDecoder::new();
    assert_eq!(decoder.decode(RawKeyEvent::Release(Key::S)), None);
    assert!(!decoder.is_held());
    decoder.decode(RawKeyEvent::Press(Key::Modifier));
    assert_eq!(decoder.decode(RawKeyEvent::Release(Key::A)), None);
    assert_eq!(decoder.decode(RawKeyEvent::Release(Key::Other)), None);
    assert!(decoder.is_held());
    assert_eq!(decoder.decode(RawKeyEvent::Press(Key::A)), Some(AppEvent::GetSelected));
}

#[test]
fn unrecognized_key_emits_nothing_and_leaves_the_hold() {
    let mut decoder = HotkeyDecoder::new();
    decoder.decode(RawKeyEvent::Press(Key::Modifier));
    assert_eq!(decoder.decode(RawKeyEvent::Press(Key::Other)), None);
    assert!(decoder.is_held());
    assert_eq!(decoder.decode(RawKeyEvent::Press(Key::S)), Some(AppEvent::InitializeGadget));
    assert!(!decoder.is_held());
}

#[test]
fn unrecognized_key_without_modifier_changes_nothing() {
    let mut decoder = HotkeyDecoder::new();
    assert_eq!(decoder.decode(RawKeyEvent::Press(Key::Other)), None);
    assert!(!decoder.is_held());
    assert_eq!(decoder.decode(RawKeyEvent::Press(Key::S)), None);
}

#[test]
fn repeated_modifier_press_stays_held() {
    let mut decoder = HotkeyDecoder::new();
    decoder.decode(RawKeyEvent::Press(Key::Modifier));
    assert_eq!(decoder.decode(RawKeyEvent::Press(Key::Modifier)), None);
    assert!(decoder.is_held());
    assert_eq!(decoder.decode(RawKeyEvent::Press(Key::H)), Some(AppEvent::GetHelp));
}

#[test]
fn release_before_command_key_emits_nothing() {
    let emitted = decode_fresh(vec![
        RawKeyEvent::Press(Key::Modifier),
        RawKeyEvent::Release(Key::Modifier),
        RawKeyEvent::Press(Key::S),
    ]);
    assert_eq!(emitted, Vec::<AppEvent>::new());
}

#[test]
fn same_command_key_twice_emits_once() {
    let emitted = decode_fresh(vec![
        RawKeyEvent::Press(Key::Modifier),
        RawKeyEvent::Press(Key::S),
        RawKeyEvent::Press(Key::S),
    ]);
    assert_eq!(emitted, vec![AppEvent::InitializeGadget]);
}

#[test]
fn key_repeat_does_not_fire_again() {
    let emitted = decode_fresh(vec![
        RawKeyEvent::Press(Key::Modifier),
        RawKeyEvent::Press(Key::A),
        RawKeyEvent::Press(Key::A),
        RawKeyEvent::Press(Key::A),
        RawKeyEvent::Release(Key::A),
        RawKeyEvent::Release(Key::Modifier),
    ]);
    assert_eq!(emitted, vec![AppEvent::GetSelected]);
}

#[test]
fn modifier_must_be_pressed_again_for_the_next_command() {
    let emitted = decode_fresh(vec![
        RawKeyEvent::Press(Key::Modifier),
        RawKeyEvent::Press(Key::S),
        RawKeyEvent::Release(Key::S),
        RawKeyEvent::Press(Key::A),
        RawKeyEvent::Release(Key::Modifier),
        RawKeyEvent::Press(Key::Modifier),
        RawKeyEvent::Press(Key::A),
    ]);
    assert_eq!(emitted, vec![AppEvent::InitializeGadget, AppEvent::GetSelected]);
}

#[test]
fn events_come_out_in_the_order_of_the_chords() {
    let emitted = decode_fresh(vec![
        RawKeyEvent::Press(Key::Modifier),
        RawKeyEvent::Press(Key::H),
        RawKeyEvent::Press(Key::Modifier),
        RawKeyEvent::Press(Key::S),
        RawKeyEvent::Press(Key::Other),
        RawKeyEvent::Press(Key::Modifier),
        RawKeyEvent::Press(Key::A),
        RawKeyEvent::Press(Key::Modifier),
        RawKeyEvent::Press(Key::Esc),
    ]);
    assert_eq!(
        emitted,
        vec![
            AppEvent::GetHelp,
            AppEvent::InitializeGadget,
            AppEvent::GetSelected,
            AppEvent::Quit,
        ]
    );
}

#[test]
fn empty_sequence_emits_nothing() {
    let mut decoder = HotkeyDecoder::new();
    assert_eq!(decoder.decode_all(&Vec::new()), Vec::<AppEvent>::new());
    assert!(!decoder.is_held());
}

#[test]
fn decode_all_leaves_the_modifier_state_of_the_last_event() {
    let mut decoder = HotkeyDecoder::new();
    let emitted = decoder.decode_all(&vec![
        RawKeyEvent::Press(Key::Other),
        RawKeyEvent::Press(Key::Modifier),
        RawKeyEvent::Press(Key::Other),
    ]);
    assert_eq!(emitted, Vec::<AppEvent>::new());
    assert!(decoder.is_held());
    assert_eq!(decoder.decode(RawKeyEvent::Press(Key::Esc)), Some(AppEvent::Quit));
}

#[test]
fn decoding_in_pieces_equals_decoding_whole() {
    let whole = vec![
        RawKeyEvent::Press(Key::Modifier),
        RawKeyEvent::Press(Key::S),
        RawKeyEvent::Press(Key::Modifier),
        RawKeyEvent::Press(Key::A),
        RawKeyEvent::Release(Key::Modifier),
        RawKeyEvent::Press(Key::H),
    ];
    let expected = decode_fresh(whole.clone());
    let mut cut: usize = 0;
    while cut <= whole.len() {
        let mut decoder = HotkeyDecoder::new();
        let mut emitted = decoder.decode_all(&whole[..cut].to_vec());
        emitted.extend(decoder.decode_all(&whole[cut..].to_vec()));
        assert_eq!(emitted, expected);
        cut += 1;
    }
}

#[test]
fn one_event_per_qualifying_press() {
    let events = vec![
        RawKeyEvent::Press(Key::S),
        RawKeyEvent::Press(Key::Modifier),
        RawKeyEvent::Press(Key::S),
        RawKeyEvent::Press(Key::S),
        RawKeyEvent::Release(Key::Modifier),
        RawKeyEvent::Press(Key::A),
        RawKeyEvent::Press(Key::Modifier),
        RawKeyEvent::Release(Key::Other),
        RawKeyEvent::Press(Key::A),
    ];
    let mut decoder = HotkeyDecoder::new();
    let mut qualifying: usize = 0;
    let mut emitted: usize = 0;
    for event in events {
        let held = decoder.is_held();
        let is_command = match event {
            RawKeyEvent::Press(key) => command_for(key).is_some(),
            RawKeyEvent::Release(_) => false,
        };
        let out = decoder.decode(event);
        assert_eq!(out.is_some(), held && is_command);
        if held && is_command {
            qualifying += 1;
        }
        if out.is_some() {
            emitted += 1;
        }
    }
    assert_eq!(qualifying, 2);
    assert_eq!(emitted, 2);
}
