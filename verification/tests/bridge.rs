use steam_input_bridge::errors::BridgeError;
use steam_input_bridge::kinds::classify_input_type;
use steam_input_bridge::kinds::ControllerKind;
use steam_input_bridge::registry::action_set_name;
use steam_input_bridge::registry::analog_names;
use steam_input_bridge::registry::digital_names;
use steam_input_bridge::session::ControllerReading;
use steam_input_bridge::session::Session;
use steam_input_bridge::snapshot::build_snapshot;
use steam_input_bridge::snapshot::collect_glyphs;
use steam_input_bridge::snapshot::AnalogPair;

#[test]
fn registry_action_set_name() {
    assert_eq!(action_set_name(), "GameControls");
}

#[test]
fn registry_digital_names_fixed() {
    let names = digital_names();
    let expected = vec![
        "confirm",
        "cancel",
        "end_turn",
        "menu",
        "move_up",
        "move_down",
        "move_left",
        "move_right",
        "zoom_in",
        "zoom_out",
        "gamepad_drag",
        "cursor_speed_down",
        "cursor_speed_up",
    ];
    assert_eq!(names.len(), expected.len());
    for (got, want) in names.iter().zip(expected.iter()) {
        assert_eq!(got, want);
    }
}

#[test]
fn registry_analog_names_fixed() {
    let names = analog_names();
    assert_eq!(names.len(), 2);
    assert_eq!(names[0], "cursor_move");
    assert_eq!(names[1], "map_pan");
}

#[test]
fn classify_recognized_codes() {
    assert_eq!(classify_input_type(5), ControllerKind::Ps4);
    assert_eq!(classify_input_type(13), ControllerKind::Ps5);
    assert_eq!(classify_input_type(2), ControllerKind::Xbox360);
    assert_eq!(classify_input_type(3), ControllerKind::Xbox);
    assert_eq!(classify_input_type(8), ControllerKind::Switch);
    assert_eq!(classify_input_type(9), ControllerKind::Switch);
    assert_eq!(classify_input_type(10), ControllerKind::Switch);
    assert_eq!(classify_input_type(14), ControllerKind::SteamDeck);
    assert_eq!(classify_input_type(1), ControllerKind::SteamController);
}

#[test]
fn classify_unrecognized_codes_map_to_unknown() {
    for code in [0u32, 4, 6, 7, 11, 12, 15, 16, 255, 1000, u32::MAX] {
        assert_eq!(classify_input_type(code), ControllerKind::Unknown);
    }
}

#[test]
fn classify_is_idempotent() {
    for code in 0u32..32 {
        assert_eq!(classify_input_type(code), classify_input_type(code));
    }
}

#[test]
fn kind_labels() {
    assert_eq!(ControllerKind::Ps4.label(), "ps4");
    assert_eq!(ControllerKind::Ps5.label(), "ps5");
    assert_eq!(ControllerKind::Xbox360.label(), "xbox360");
    assert_eq!(ControllerKind::Xbox.label(), "xbox");
    assert_eq!(ControllerKind::Switch.label(), "switch");
    assert_eq!(ControllerKind::SteamDeck.label(), "steamdeck");
    assert_eq!(ControllerKind::SteamController.label(), "steamcontroller");
    assert_eq!(ControllerKind::Unknown.label(), "unknown");
}

#[test]
fn snapshot_single_controller_scenario() {
    let digital = vec!["confirm".to_string()];
    let pressed = vec![true];
    let analog = vec!["cursor_move".to_string()];
    let values = vec![AnalogPair { x_bits: 0.5f32.to_bits(), y_bits: (-0.2f32).to_bits() }];
    let snap = build_snapshot(42, 13, &digital, &pressed, &analog, &values);
    assert_eq!(snap.handle, 42);
    assert_eq!(snap.kind, ControllerKind::Ps5);
    assert_eq!(snap.kind.label(), "ps5");
    assert_eq!(snap.actions, vec![("confirm".to_string(), true)]);
    assert_eq!(snap.analogs.len(), 1);
    assert_eq!(snap.analogs[0].0, "cursor_move");
    assert_eq!(f32::from_bits(snap.analogs[0].1.x_bits), 0.5);
    assert_eq!(f32::from_bits(snap.analogs[0].1.y_bits), -0.2);
}

#[test]
fn snapshot_full_registry_keys() {
    let digital = digital_names();
    let pressed = vec![false; digital.len()];
    let analog = analog_names();
    let values = vec![AnalogPair { x_bits: 0, y_bits: 0 }; analog.len()];
    let snap = build_snapshot(7, 2, &digital, &pressed, &analog, &values);
    assert_eq!(snap.kind, ControllerKind::Xbox360);
    let action_keys: Vec<String> = snap.actions.iter().map(|p| p.0.clone()).collect();
    assert_eq!(action_keys, digital);
    let analog_keys: Vec<String> = snap.analogs.iter().map(|p| p.0.clone()).collect();
    assert_eq!(analog_keys, analog);
}

#[test]
fn glyphs_skip_unbound_and_empty_paths() {
    let names = vec!["confirm".to_string(), "cancel".to_string(), "menu".to_string()];
    let lookups = vec![Some("steam/glyphs/button_a.png".to_string()), None, Some(String::new())];
    let glyphs = collect_glyphs(&names, &lookups);
    assert_eq!(glyphs, vec![("confirm".to_string(), "steam/glyphs/button_a.png".to_string())]);
}

#[test]
fn glyphs_empty_when_nothing_bound() {
    let names = vec!["confirm".to_string(), "cancel".to_string()];
    let lookups = vec![None, None];
    let glyphs = collect_glyphs(&names, &lookups);
    assert!(glyphs.is_empty());
}

#[test]
fn glyphs_keep_registry_order() {
    let names = vec!["confirm".to_string(), "cancel".to_string(), "menu".to_string()];
    let lookups = vec![
        Some("a.png".to_string()),
        Some("b.png".to_string()),
        Some("c.png".to_string()),
    ];
    let glyphs = collect_glyphs(&names, &lookups);
    assert_eq!(
        glyphs,
        vec![
            ("confirm".to_string(), "a.png".to_string()),
            ("cancel".to_string(), "b.png".to_string()),
            ("menu".to_string(), "c.png".to_string()),
        ]
    );
}

#[test]
fn glyphs_are_idempotent() {
    let names = vec!["confirm".to_string(), "cancel".to_string()];
    let lookups = vec![Some("a.png".to_string()), None];
    assert_eq!(collect_glyphs(&names, &lookups), collect_glyphs(&names, &lookups));
}

fn initialized_session() -> Session {
    let mut session = Session::establish("Player One".to_string(), 76561198000000001);
    assert_eq!(session.begin_init(), Ok(()));
    let digital_handles: Vec<u64> = (101..=113).collect();
    let analog_handles: Vec<u64> = vec![201, 202];
    let r = session.finish_init(true, 9, &digital_handles, &analog_handles);
    assert_eq!(r, Ok(true));
    session
}

fn empty_lookups() -> Vec<Option<String>> {
    vec![None; digital_names().len()]
}

#[test]
fn unestablished_session_rejects_identity() {
    let session = Session::unavailable();
    assert_eq!(session.user_name(), Err(BridgeError::SessionUnavailable));
    assert_eq!(session.steam_id(), Err(BridgeError::SessionUnavailable));
}

#[test]
fn established_session_reports_identity() {
    let session = Session::establish("Player One".to_string(), 76561198000000001);
    assert_eq!(session.user_name(), Ok("Player One".to_string()));
    assert_eq!(session.steam_id(), Ok(76561198000000001));
}

#[test]
fn init_without_session_fails_then_poll_not_initialized() {
    let mut session = Session::unavailable();
    assert_eq!(session.begin_init(), Err(BridgeError::SessionUnavailable));
    assert_eq!(
        session.finish_init(true, 9, &(101..=113).collect::<Vec<u64>>(), &vec![201, 202]),
        Err(BridgeError::SessionUnavailable)
    );
    match session.poll(&Vec::new()) {
        Err(e) => assert_eq!(e, BridgeError::NotInitialized),
        Ok(_) => panic!("poll must not succeed before init"),
    }
}

#[test]
fn poll_before_init_fails_not_initialized() {
    for session in [Session::unavailable(), Session::establish("p".to_string(), 1)] {
        match session.poll(&Vec::new()) {
            Err(e) => assert_eq!(e, BridgeError::NotInitialized),
            Ok(_) => panic!("poll must not succeed before init"),
        }
    }
}

#[test]
fn failed_native_startup_reports_init_failure() {
    let mut session = Session::establish("p".to_string(), 1);
    assert_eq!(
        session.finish_init(false, 9, &(101..=113).collect::<Vec<u64>>(), &vec![201, 202]),
        Err(BridgeError::InitFailure)
    );
    // the failed attempt changed nothing: a later one may succeed
    assert_eq!(session.begin_init(), Ok(()));
}

#[test]
fn second_init_is_rejected() {
    let mut session = initialized_session();
    assert_eq!(session.begin_init(), Err(BridgeError::AlreadyInitialized));
    assert_eq!(
        session.finish_init(true, 9, &(101..=113).collect::<Vec<u64>>(), &vec![201, 202]),
        Err(BridgeError::AlreadyInitialized)
    );
}

#[test]
fn handle_cache_holds_exactly_the_registry() {
    let session = initialized_session();
    let cache = session.action_handles().expect("initialized");
    assert_eq!(cache.action_set, 9);
    let digital_names_held: Vec<String> = cache.digital.iter().map(|p| p.0.clone()).collect();
    assert_eq!(digital_names_held, digital_names());
    let digital_handles_held: Vec<u64> = cache.digital.iter().map(|p| p.1).collect();
    assert_eq!(digital_handles_held, (101..=113).collect::<Vec<u64>>());
    let analog_names_held: Vec<String> = cache.analog.iter().map(|p| p.0.clone()).collect();
    assert_eq!(analog_names_held, analog_names());
    let analog_handles_held: Vec<u64> = cache.analog.iter().map(|p| p.1).collect();
    assert_eq!(analog_handles_held, vec![201, 202]);
}

#[test]
fn action_handles_before_init_fail() {
    let session = Session::establish("p".to_string(), 1);
    match session.action_handles() {
        Err(e) => assert_eq!(e, BridgeError::NotInitialized),
        Ok(_) => panic!("no cache exists before init"),
    }
}

#[test]
fn poll_with_no_controllers_returns_empty_list() {
    let session = initialized_session();
    let out = session.poll(&Vec::new()).expect("an empty enumeration is no error");
    assert!(out.is_empty());
}

#[test]
fn poll_single_controller_scenario() {
    let session = initialized_session();
    let mut pressed = vec![false; digital_names().len()];
    pressed[0] = true; // "confirm"
    let mut values = vec![AnalogPair { x_bits: 0, y_bits: 0 }; analog_names().len()];
    values[0] = AnalogPair { x_bits: 0.5f32.to_bits(), y_bits: (-0.2f32).to_bits() };
    let reading = ControllerReading { handle: 42, type_code: 13, pressed, values };
    let out = session.poll(&vec![reading]).expect("initialized");
    assert_eq!(out.len(), 1);
    let snap = &out[0];
    assert_eq!(snap.handle, 42);
    assert_eq!(snap.kind, ControllerKind::Ps5);
    assert_eq!(snap.kind.label(), "ps5");
    assert_eq!(snap.actions[0], ("confirm".to_string(), true));
    assert!(snap.actions[1..].iter().all(|p| !p.1));
    assert_eq!(snap.analogs[0].0, "cursor_move");
    assert_eq!(f32::from_bits(snap.analogs[0].1.x_bits), 0.5);
    assert_eq!(f32::from_bits(snap.analogs[0].1.y_bits), -0.2);
}

#[test]
fn poll_filters_zero_handles() {
    let session = initialized_session();
    let reading_for = |handle: u64| ControllerReading {
        handle,
        type_code: 5,
        pressed: vec![false; digital_names().len()],
        values: vec![AnalogPair { x_bits: 0, y_bits: 0 }; analog_names().len()],
    };
    let out = session
        .poll(&vec![reading_for(0), reading_for(7), reading_for(0), reading_for(8)])
        .expect("initialized");
    let handles: Vec<u64> = out.iter().map(|s| s.handle).collect();
    assert_eq!(handles, vec![7, 8]);
}

#[test]
fn poll_snapshot_keys_match_registry() {
    let session = initialized_session();
    let reading = ControllerReading {
        handle: 3,
        type_code: 2,
        pressed: vec![true; digital_names().len()],
        values: vec![AnalogPair { x_bits: 1, y_bits: 2 }; analog_names().len()],
    };
    let out = session.poll(&vec![reading]).expect("initialized");
    let action_keys: Vec<String> = out[0].actions.iter().map(|p| p.0.clone()).collect();
    assert_eq!(action_keys, digital_names());
    let analog_keys: Vec<String> = out[0].analogs.iter().map(|p| p.0.clone()).collect();
    assert_eq!(analog_keys, analog_names());
}

#[test]
fn session_glyphs_filter_and_gate() {
    let unavailable = Session::unavailable();
    assert_eq!(unavailable.glyphs(&empty_lookups()), Err(BridgeError::SessionUnavailable));
    let established = Session::establish("p".to_string(), 1);
    assert_eq!(established.glyphs(&empty_lookups()), Err(BridgeError::NotInitialized));
    let session = initialized_session();
    let mut lookups = empty_lookups();
    lookups[0] = Some("steam/glyphs/button_a.png".to_string()); // "confirm"
    lookups[1] = Some(String::new()); // "cancel": empty path, omitted
    let glyphs = session.glyphs(&lookups).expect("initialized");
    assert_eq!(
        glyphs,
        vec![("confirm".to_string(), "steam/glyphs/button_a.png".to_string())]
    );
    assert_eq!(session.glyphs(&empty_lookups()), Ok(Vec::new()));
}

#[test]
fn controller_type_gates_and_classifies() {
    let unavailable = Session::unavailable();
    assert_eq!(unavailable.controller_type(13), Err(BridgeError::SessionUnavailable));
    let session = Session::establish("p".to_string(), 1);
    assert_eq!(session.controller_type(13), Ok("ps5".to_string()));
    assert_eq!(session.controller_type(4), Ok("unknown".to_string()));
}

#[test]
fn binding_panel_gates_and_passes_through() {
    let unavailable = Session::unavailable();
    assert_eq!(unavailable.show_binding_panel(true), Err(BridgeError::SessionUnavailable));
    let session = Session::establish("p".to_string(), 1);
    assert_eq!(session.show_binding_panel(true), Ok(true));
    assert_eq!(session.show_binding_panel(false), Ok(false));
}

#[test]
fn error_messages() {
    assert_eq!(BridgeError::LockFailure.message(), "Steam state lock poisoned");
    assert_eq!(BridgeError::SessionUnavailable.message(), "Steam not available");
    assert_eq!(BridgeError::InitFailure.message(), "SteamAPI_ISteamInput_Init returned false");
    assert_eq!(BridgeError::NotInitialized.message(), "Steam Input not initialized");
    assert_eq!(BridgeError::AlreadyInitialized.message(), "Steam Input already initialized");
}

#[test]
fn analog_pair_preserves_values() {
    let pair = AnalogPair { x_bits: 0.25f32.to_bits(), y_bits: (-1.0f32).to_bits() };
    assert_eq!(f32::from_bits(pair.x_bits), 0.25);
    assert_eq!(f32::from_bits(pair.y_bits), -1.0);
}
