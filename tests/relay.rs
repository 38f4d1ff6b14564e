use key_relay::{
    decode, encode, replay, try_encode, Action, DecodeError, DeviceSession, EncodeError,
    InputEvent, Injection, KeyCode, KeyEvent, KeySpace, KeyWrapped, ReplayError, SessionState,
    SwitchConfig, KEY_A, KEY_COMPOSE, KEY_RIGHTALT, PRESSED, RELEASED, REPEATED,
};

const SWITCH: u16 = 127;

fn ev(code: u16, value: i32) -> KeyEvent {
    KeyEvent::new(KeyCode::new(code), value)
}

fn config(start_active: bool) -> SwitchConfig {
    SwitchConfig { switch_key: KeyCode::new(SWITCH), start_active }
}

fn all_keys() -> KeySpace {
    let mut keys = KeySpace::new();
    for c in 0..=255u8 {
        keys.add(c);
    }
    keys
}

#[test]
fn encode_writes_code_then_value() {
    assert_eq!(encode(ev(30, PRESSED)), [30, 1]);
    assert_eq!(encode(ev(255, RELEASED)), [255, 0]);
    assert_eq!(encode(ev(30, REPEATED)), [30, 2]);
}

#[test]
fn encode_truncates_value_to_a_byte() {
    assert_eq!(encode(ev(30, 258)), [30, 2]);
    assert_eq!(encode(ev(30, -1)), [30, 255]);
}

#[test]
fn try_encode_refuses_wide_codes() {
    assert_eq!(try_encode(ev(256, PRESSED)), Err(EncodeError::CodeOutOfRange(KeyCode::new(256))));
    assert_eq!(try_encode(ev(42, PRESSED)), Ok([42, 1]));
}

#[test]
fn decode_encode_round_trip() {
    let keys = all_keys();
    for c in 0..=255u16 {
        for v in 0..=2i32 {
            let e = ev(c, v);
            assert_eq!(decode(encode(e), &keys), Ok(e));
        }
    }
}

#[test]
fn decode_unknown_code() {
    let mut keys = KeySpace::new();
    keys.add(30);
    assert_eq!(decode([31, 1], &keys), Err(DecodeError::UnknownKeyCode(31)));
    assert_eq!(decode([30, 1], &keys), Ok(ev(30, 1)));
    assert!(!keys.contains(0));
    assert!(keys.contains(30));
}

#[test]
fn decode_passes_any_edge_value() {
    let keys = all_keys();
    assert_eq!(decode([30, 7], &keys), Ok(ev(30, 7)));
    assert_eq!(decode([30, 255], &keys), Ok(ev(30, 255)));
}

#[test]
fn simple_tap_toggles_off() {
    let cfg = config(true);
    let mut s = SessionState::new(&cfg);
    let a1 = s.step(&cfg, ev(SWITCH, PRESSED));
    assert_eq!(a1, Action::none());
    let a2 = s.step(&cfg, ev(SWITCH, RELEASED));
    assert_eq!(a2.forward_prefix, None);
    assert_eq!(a2.forward, None);
    assert_eq!(a2.toggle_capture, Some(false));
    assert!(!s.active);
}

#[test]
fn switch_held_with_other_key_is_forwarded() {
    let cfg = config(true);
    let mut s = SessionState::new(&cfg);
    let a1 = s.step(&cfg, ev(SWITCH, PRESSED));
    assert_eq!(a1, Action::none());
    let a2 = s.step(&cfg, ev(KEY_A, PRESSED));
    assert_eq!(a2.forward_prefix, Some(ev(SWITCH, PRESSED)));
    assert_eq!(a2.forward, Some(ev(KEY_A, PRESSED)));
    assert_eq!(a2.toggle_capture, None);
    let a3 = s.step(&cfg, ev(KEY_A, RELEASED));
    assert_eq!(a3.forward_prefix, None);
    assert_eq!(a3.forward, Some(ev(KEY_A, RELEASED)));
    assert_eq!(a3.toggle_capture, None);
    let a4 = s.step(&cfg, ev(SWITCH, RELEASED));
    assert_eq!(a4.forward_prefix, None);
    assert_eq!(a4.forward, Some(ev(SWITCH, RELEASED)));
    assert_eq!(a4.toggle_capture, None);
    assert!(s.active);
    assert!(!s.hanging_switch);
}

#[test]
fn idle_drops_other_keys() {
    let cfg = config(false);
    let mut s = SessionState::new(&cfg);
    let before = s;
    for v in [RELEASED, PRESSED, REPEATED] {
        assert_eq!(s.step(&cfg, ev(KEY_A, v)), Action::none());
        assert_eq!(s, before);
    }
}

#[test]
fn two_taps_restore_mode() {
    for start in [true, false] {
        let cfg = config(start);
        let mut s = SessionState::new(&cfg);
        for v in [PRESSED, RELEASED, PRESSED, RELEASED] {
            s.step(&cfg, ev(SWITCH, v));
        }
        assert_eq!(s.active, start);
    }
}

#[test]
fn tap_from_idle_toggles_on() {
    let cfg = config(false);
    let mut s = SessionState::new(&cfg);
    assert_eq!(s.step(&cfg, ev(SWITCH, PRESSED)), Action::none());
    let a = s.step(&cfg, ev(SWITCH, RELEASED));
    assert_eq!(a.toggle_capture, Some(true));
    assert!(s.active);
}

#[test]
fn switch_repeat_is_ignored() {
    let cfg = config(true);
    let mut s = SessionState::new(&cfg);
    s.step(&cfg, ev(SWITCH, PRESSED));
    let before = s;
    assert_eq!(s.step(&cfg, ev(SWITCH, REPEATED)), Action::none());
    assert_eq!(s, before);
}

#[test]
fn replay_injects_key_then_sync() {
    let keys = all_keys();
    assert_eq!(
        replay(&[30, 1], &keys),
        Ok(vec![Injection::Key(ev(30, 1)), Injection::Sync])
    );
}

#[test]
fn replay_refuses_bad_datagrams() {
    let mut keys = KeySpace::new();
    keys.add(30);
    assert_eq!(replay(&[30, 1, 0], &keys), Err(ReplayError::BadLength(3)));
    assert_eq!(replay(&[], &keys), Err(ReplayError::BadLength(0)));
    assert_eq!(
        replay(&[31, 1], &keys),
        Err(ReplayError::Decode(DecodeError::UnknownKeyCode(31)))
    );
}

#[test]
fn press_reaches_receiver() {
    let mut session = DeviceSession::new(config(true));
    let out = session.on_event(InputEvent::Key(ev(KEY_A, PRESSED)));
    assert_eq!(out.capture, None);
    assert_eq!(out.datagrams.len(), 1);
    let bytes = out.datagrams[0].unwrap();
    let mut keys = KeySpace::new();
    keys.add(KEY_A as u8);
    assert_eq!(
        replay(&bytes, &keys),
        Ok(vec![Injection::Key(ev(KEY_A, PRESSED)), Injection::Sync])
    );
}

#[test]
fn session_sends_prefix_before_key() {
    let mut session = DeviceSession::new(config(true));
    let out = session.on_event(InputEvent::Key(ev(SWITCH, PRESSED)));
    assert!(out.datagrams.is_empty());
    let out = session.on_event(InputEvent::Key(ev(KEY_A, PRESSED)));
    assert_eq!(out.datagrams, vec![Ok([127, 1]), Ok([30, 1])]);
}

#[test]
fn session_reports_wide_codes() {
    let mut session = DeviceSession::new(config(true));
    let out = session.on_event(InputEvent::Key(ev(300, PRESSED)));
    assert_eq!(out.datagrams, vec![Err(EncodeError::CodeOutOfRange(KeyCode::new(300)))]);
}

#[test]
fn session_ignores_non_key_events() {
    let mut session = DeviceSession::new(config(true));
    let before = session.state;
    let out = session.on_event(InputEvent::Other);
    assert!(out.datagrams.is_empty());
    assert_eq!(out.capture, None);
    assert_eq!(session.state, before);
}

#[test]
fn session_tap_asks_for_release_of_capture() {
    let mut session = DeviceSession::new(config(true));
    session.on_event(InputEvent::Key(ev(SWITCH, PRESSED)));
    let out = session.on_event(InputEvent::Key(ev(SWITCH, RELEASED)));
    assert!(out.datagrams.is_empty());
    assert_eq!(out.capture, Some(false));
}

#[test]
fn key_names_parse() {
    assert_eq!(KeyWrapped::parse("A"), Ok(KeyWrapped { key: KeyCode::new(KEY_A) }));
    assert_eq!(KeyWrapped::parse("KEY_COMPOSE").unwrap().key.code, KEY_COMPOSE);
    assert_eq!("KEY_RIGHTALT".parse::<KeyWrapped>().unwrap().key.code, KEY_RIGHTALT);
    assert_eq!(KEY_A, 30);
    assert_eq!(KEY_RIGHTALT, 100);
    assert_eq!(KEY_COMPOSE, 127);
}

#[test]
fn unknown_key_name_is_quoted() {
    assert_eq!(KeyWrapped::parse("B"), Err(String::from("Unrecognised key: B")));
    assert_eq!(KeyWrapped::parse(""), Err(String::from("Unrecognised key: ")));
    assert_eq!(KeyWrapped::parse("a"), Err(String::from("Unrecognised key: a")));
}

#[test]
fn from_str_matches_parse() {
    assert_eq!("A".parse::<KeyWrapped>(), Ok(KeyWrapped { key: KeyCode::new(KEY_A) }));
    assert_eq!("KEY_COMPOSE".parse::<KeyWrapped>().unwrap().key.code, KEY_COMPOSE);
    assert_eq!("KEY_A".parse::<KeyWrapped>(), Err(String::from("Unrecognised key: KEY_A")));
}

#[test]
fn named_keys_round_trip() {
    let keys = all_keys();
    for name in ["A", "KEY_COMPOSE", "KEY_RIGHTALT"] {
        let k = name.parse::<KeyWrapped>().unwrap().key;
        assert!(k.code < 256);
        for v in [RELEASED, PRESSED, REPEATED] {
            let e = KeyEvent::new(k, v);
            assert_eq!(decode(encode(e), &keys), Ok(e));
        }
    }
}
