use steering_wheel::buttons::{button_name, ButtonEvent, ButtonId, ButtonKind, ButtonState};

/// Electrical levels with the buttons at `pressed` held down (pressed pulls low).
fn levels(pressed: &[usize]) -> [bool; 10] {
    let mut l = [true; 10];
    for &i in pressed {
        l[i] = false;
    }
    l
}

fn poll(state: &mut ButtonState, pressed: &[usize]) -> Vec<ButtonEvent> {
    state.update(&levels(pressed)).as_slice().to_vec()
}

#[test]
fn regular_press_reported_on_fifth_poll() {
    let mut state = ButtonState::new();
    for n in 1..=10 {
        let events = poll(&mut state, &[0]);
        if n == 5 {
            assert_eq!(events, vec![ButtonEvent::Pressed(ButtonId::CruiseDown)]);
        } else {
            assert!(events.is_empty(), "unexpected events on poll {}", n);
        }
    }
    assert!(state.states[0]);
}

#[test]
fn regular_release_reported_on_fifth_poll() {
    let mut state = ButtonState::new();
    for _ in 0..10 {
        poll(&mut state, &[0]);
    }
    for n in 1..=10 {
        let events = poll(&mut state, &[]);
        if n == 5 {
            assert_eq!(events, vec![ButtonEvent::Released(ButtonId::CruiseDown)]);
        } else {
            assert!(events.is_empty(), "unexpected events on poll {}", n);
        }
    }
    assert!(!state.states[0]);
}

#[test]
fn bouncing_input_never_reports() {
    let mut state = ButtonState::new();
    for n in 0..40 {
        let pressed: &[usize] = if (n / 4) % 2 == 0 { &[4] } else { &[] };
        assert!(poll(&mut state, pressed).is_empty());
    }
    assert!(!state.states[4]);
}

#[test]
fn toggle_flips_once_per_press_and_never_on_release() {
    let mut state = ButtonState::new();
    for _ in 0..5 {
        assert!(poll(&mut state, &[]).is_empty());
    }
    let mut all = Vec::new();
    for _ in 0..5 {
        all.extend(poll(&mut state, &[7]));
    }
    assert_eq!(all, vec![ButtonEvent::Toggled(ButtonId::LeftTurn, true)]);
    assert!(state.toggle_states[0]);
    for _ in 0..10 {
        assert!(poll(&mut state, &[]).is_empty());
    }
    assert!(state.toggle_states[0]);
    let mut all = Vec::new();
    for _ in 0..10 {
        all.extend(poll(&mut state, &[7]));
    }
    assert_eq!(all, vec![ButtonEvent::Toggled(ButtonId::LeftTurn, false)]);
    assert!(!state.toggle_states[0]);
    assert!(!state.toggle_states[1]);
    assert!(!state.toggle_states[2]);
}

#[test]
fn simultaneous_presses_reported_in_polling_order() {
    let mut state = ButtonState::new();
    let mut last = Vec::new();
    for _ in 0..5 {
        last = poll(&mut state, &[9, 1, 8, 4]);
    }
    assert_eq!(
        last,
        vec![
            ButtonEvent::Pressed(ButtonId::CruiseUp),
            ButtonEvent::Pressed(ButtonId::Horn),
            ButtonEvent::Toggled(ButtonId::RightTurn, true),
            ButtonEvent::Toggled(ButtonId::Lock, true),
        ]
    );
}

#[test]
fn button_kinds_and_names() {
    assert_eq!(ButtonId::Lock.kind(), ButtonKind::Toggle);
    assert_eq!(ButtonId::Horn.kind(), ButtonKind::Regular);
    assert_eq!(button_name(ButtonId::PushToTalk), "Push-to-Talk");
    assert_eq!(button_name(ButtonId::RightTurn), "Right Turn");
}
