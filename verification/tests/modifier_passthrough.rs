use qwertdvert::keys::{
    EV_KEY, KEY_APOSTROPHE, KEY_COMMA, KEY_LEFTALT, KEY_LEFTCTRL, KEY_LEFTMETA, KEY_Q,
    KEY_RIGHTCTRL, KEY_W, VALUE_PRESS, VALUE_RELEASE,
};
use qwertdvert::modifier::ModifierState;
use qwertdvert::policy::{process_batch, process_event, Event, SendMode};

fn key(code: u16, value: i32) -> Event {
    Event { class: EV_KEY, code, value }
}

#[test]
fn remaps_when_no_modifier_is_held() {
    let mut mods = ModifierState::new();
    let (out, _) = process_event(&mut mods, key(KEY_Q, VALUE_PRESS));
    assert_eq!(out.code, KEY_APOSTROPHE);
    assert_eq!(out.class, EV_KEY);
    assert_eq!(out.value, VALUE_PRESS);
}

#[test]
fn ctrl_held_passes_codes_through() {
    let mut mods = ModifierState::new();
    let (out, _) = process_event(&mut mods, key(KEY_LEFTCTRL, VALUE_PRESS));
    // The modifier key itself is not in the table and passes unchanged.
    assert_eq!(out.code, KEY_LEFTCTRL);
    // While Ctrl is held, a table key keeps its QWERTY code.
    let (out, _) = process_event(&mut mods, key(KEY_Q, VALUE_PRESS));
    assert_eq!(out.code, KEY_Q);
    let (out, _) = process_event(&mut mods, key(KEY_Q, VALUE_RELEASE));
    assert_eq!(out.code, KEY_Q);
    // After the release of Ctrl, remapping resumes.
    let (_, _) = process_event(&mut mods, key(KEY_LEFTCTRL, VALUE_RELEASE));
    let (out, _) = process_event(&mut mods, key(KEY_Q, VALUE_PRESS));
    assert_eq!(out.code, KEY_APOSTROPHE);
}

#[test]
fn alt_and_super_also_gate_remapping() {
    let mut mods = ModifierState::new();
    process_event(&mut mods, key(KEY_LEFTALT, VALUE_PRESS));
    let (out, _) = process_event(&mut mods, key(KEY_W, VALUE_PRESS));
    assert_eq!(out.code, KEY_W);
    process_event(&mut mods, key(KEY_LEFTALT, VALUE_RELEASE));

    process_event(&mut mods, key(KEY_LEFTMETA, VALUE_PRESS));
    let (out, _) = process_event(&mut mods, key(KEY_W, VALUE_PRESS));
    assert_eq!(out.code, KEY_W);
    process_event(&mut mods, key(KEY_LEFTMETA, VALUE_RELEASE));

    let (out, _) = process_event(&mut mods, key(KEY_W, VALUE_PRESS));
    assert_eq!(out.code, KEY_COMMA);
}

#[test]
fn left_and_right_modifiers_are_merged() {
    // The pair follows the most recent press or release of either key:
    // pressing the left Ctrl and then releasing the right one frees the
    // pair.
    let mut mods = ModifierState::new();
    process_event(&mut mods, key(KEY_LEFTCTRL, VALUE_PRESS));
    process_event(&mut mods, key(KEY_RIGHTCTRL, VALUE_RELEASE));
    let (out, _) = process_event(&mut mods, key(KEY_Q, VALUE_PRESS));
    assert_eq!(out.code, KEY_APOSTROPHE);
}

#[test]
fn a_batch_is_processed_in_order_with_evolving_state() {
    // Within one device's batch: Q remaps before Ctrl goes down, passes
    // through while it is held, and remaps again after the release.
    let mut mods = ModifierState::new();
    let batch = vec![
        key(KEY_Q, VALUE_PRESS),
        key(KEY_LEFTCTRL, VALUE_PRESS),
        key(KEY_Q, VALUE_PRESS),
        key(KEY_LEFTCTRL, VALUE_RELEASE),
        key(KEY_Q, VALUE_PRESS),
    ];
    let out = process_batch(&mut mods, &batch);
    let codes: Vec<u16> = out.iter().map(|(ev, _)| ev.code).collect();
    assert_eq!(
        codes,
        vec![KEY_APOSTROPHE, KEY_LEFTCTRL, KEY_Q, KEY_LEFTCTRL, KEY_APOSTROPHE]
    );
    // Presses and releases are all must-deliver.
    assert!(out.iter().all(|(_, mode)| *mode == SendMode::MustDeliver));
    // The batch leaves the tracker with nothing held.
    assert!(!mods.any_held());
}

#[test]
fn non_key_events_pass_through_unchanged() {
    let mut mods = ModifierState::new();
    let ev = Event { class: 0, code: 0, value: 0 };
    let (out, _) = process_event(&mut mods, ev);
    assert_eq!(out, ev);
    let misc = Event { class: 4, code: 4, value: 458756 };
    let (out, _) = process_event(&mut mods, misc);
    assert_eq!(out, misc);
}
