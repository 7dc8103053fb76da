use bevy_ui_widgets::interaction::{
    detect_modifier, key_adjustment, respond, select_by_modifier, Adjustment, Effect, KeyPress,
    ModifierKeys, Reaction, SpinboxEvent, SpinboxKey, SpinboxModifier,
};
use bevy_ui_widgets::spinbox::SpinboxDragState;

fn press(key: SpinboxKey) -> SpinboxEvent {
    SpinboxEvent::Key(KeyPress { key, pressed: true, repeat: false })
}

fn consumed(effect: Effect) -> Reaction {
    Reaction { stop_propagation: true, effect }
}

fn passed_on() -> Reaction {
    Reaction { stop_propagation: false, effect: Effect::Nothing }
}

#[test]
fn no_keyboard_state_means_normal_step() {
    assert_eq!(detect_modifier(None), SpinboxModifier::Normal);
    assert_eq!(detect_modifier(Some(&ModifierKeys::default())), SpinboxModifier::Normal);
}

#[test]
fn shift_selects_fine_even_with_ctrl_and_alt() {
    let keys = ModifierKeys {
        shift_right: true,
        control_left: true,
        alt_right: true,
        ..ModifierKeys::default()
    };
    assert_eq!(detect_modifier(Some(&keys)), SpinboxModifier::Fine);
    let keys = ModifierKeys { shift_left: true, ..ModifierKeys::default() };
    assert_eq!(detect_modifier(Some(&keys)), SpinboxModifier::Fine);
}

#[test]
fn ctrl_or_alt_select_coarse() {
    for keys in [
        ModifierKeys { control_left: true, ..ModifierKeys::default() },
        ModifierKeys { control_right: true, ..ModifierKeys::default() },
        ModifierKeys { alt_left: true, ..ModifierKeys::default() },
        ModifierKeys { alt_right: true, ..ModifierKeys::default() },
    ] {
        assert_eq!(detect_modifier(Some(&keys)), SpinboxModifier::Coarse);
    }
}

#[test]
fn select_by_modifier_picks_matching_setting() {
    assert_eq!(select_by_modifier(SpinboxModifier::Fine, 0.1f32, 1.0, 10.0), 0.1);
    assert_eq!(select_by_modifier(SpinboxModifier::Normal, 0.1f32, 1.0, 10.0), 1.0);
    assert_eq!(select_by_modifier(SpinboxModifier::Coarse, 0.1f32, 1.0, 10.0), 10.0);
}

#[test]
fn keys_map_to_adjustments() {
    let m = SpinboxModifier::Coarse;
    let steps = |count| Some(Adjustment::Steps { count, modifier: m });
    assert_eq!(key_adjustment(SpinboxKey::ArrowUp, m), steps(1));
    assert_eq!(key_adjustment(SpinboxKey::ArrowRight, m), steps(1));
    assert_eq!(key_adjustment(SpinboxKey::ArrowDown, m), steps(-1));
    assert_eq!(key_adjustment(SpinboxKey::ArrowLeft, m), steps(-1));
    assert_eq!(key_adjustment(SpinboxKey::PageUp, m), steps(10));
    assert_eq!(key_adjustment(SpinboxKey::PageDown, m), steps(-10));
    assert_eq!(key_adjustment(SpinboxKey::Home, m), Some(Adjustment::ToStart));
    assert_eq!(key_adjustment(SpinboxKey::End, m), Some(Adjustment::ToEnd));
    assert_eq!(key_adjustment(SpinboxKey::Other, m), None);
}

#[test]
fn click_focuses_enabled_spinbox() {
    let mut drag = SpinboxDragState::default();
    assert_eq!(respond(&mut drag, false, None, SpinboxEvent::Click), consumed(Effect::Focus));
    assert_eq!(respond(&mut drag, true, None, SpinboxEvent::Click), consumed(Effect::Nothing));
    assert!(!drag.dragging);
}

#[test]
fn drag_adjusts_only_while_dragging() {
    let mut drag = SpinboxDragState::default();
    let shift = ModifierKeys { shift_left: true, ..ModifierKeys::default() };
    assert_eq!(respond(&mut drag, false, Some(&shift), SpinboxEvent::Drag), consumed(Effect::Nothing));
    assert_eq!(respond(&mut drag, false, None, SpinboxEvent::DragStart), consumed(Effect::Nothing));
    assert!(drag.dragging);
    assert_eq!(
        respond(&mut drag, false, Some(&shift), SpinboxEvent::Drag),
        consumed(Effect::Adjust(Adjustment::Drag { modifier: SpinboxModifier::Fine }))
    );
    assert!(drag.dragging);
    assert_eq!(respond(&mut drag, false, None, SpinboxEvent::DragEnd), consumed(Effect::Nothing));
    assert!(!drag.dragging);
    assert_eq!(respond(&mut drag, false, None, SpinboxEvent::Drag), consumed(Effect::Nothing));
}

#[test]
fn disabled_spinbox_does_not_start_dragging_but_can_stop() {
    let mut drag = SpinboxDragState::default();
    respond(&mut drag, true, None, SpinboxEvent::DragStart);
    assert!(!drag.dragging);
    respond(&mut drag, false, None, SpinboxEvent::DragStart);
    assert!(drag.dragging);
    assert_eq!(respond(&mut drag, true, None, SpinboxEvent::Drag), consumed(Effect::Nothing));
    assert!(drag.dragging);
    respond(&mut drag, true, None, SpinboxEvent::DragEnd);
    assert!(!drag.dragging);
}

#[test]
fn scroll_adjusts_enabled_spinbox() {
    let mut drag = SpinboxDragState::default();
    let alt = ModifierKeys { alt_left: true, ..ModifierKeys::default() };
    assert_eq!(
        respond(&mut drag, false, Some(&alt), SpinboxEvent::Scroll),
        consumed(Effect::Adjust(Adjustment::Scroll { modifier: SpinboxModifier::Coarse }))
    );
    assert_eq!(respond(&mut drag, true, Some(&alt), SpinboxEvent::Scroll), consumed(Effect::Nothing));
}

#[test]
fn key_presses_adjust_and_stop_propagation() {
    let mut drag = SpinboxDragState::default();
    assert_eq!(
        respond(&mut drag, false, None, press(SpinboxKey::PageDown)),
        consumed(Effect::Adjust(Adjustment::Steps { count: -10, modifier: SpinboxModifier::Normal }))
    );
    assert_eq!(
        respond(&mut drag, false, None, press(SpinboxKey::End)),
        consumed(Effect::Adjust(Adjustment::ToEnd))
    );
}

#[test]
fn ignored_key_events_propagate() {
    let mut drag = SpinboxDragState::default();
    assert_eq!(respond(&mut drag, false, None, press(SpinboxKey::Other)), passed_on());
    assert_eq!(respond(&mut drag, true, None, press(SpinboxKey::ArrowUp)), passed_on());
    let release = SpinboxEvent::Key(KeyPress { key: SpinboxKey::ArrowUp, pressed: false, repeat: false });
    assert_eq!(respond(&mut drag, false, None, release), passed_on());
    let repeat = SpinboxEvent::Key(KeyPress { key: SpinboxKey::ArrowUp, pressed: true, repeat: true });
    assert_eq!(respond(&mut drag, false, None, repeat), passed_on());
}

#[test]
fn disabled_spinbox_ignores_every_event() {
    let events = [
        SpinboxEvent::Click,
        SpinboxEvent::DragStart,
        SpinboxEvent::Drag,
        SpinboxEvent::DragEnd,
        SpinboxEvent::Scroll,
        press(SpinboxKey::ArrowUp),
        press(SpinboxKey::Home),
    ];
    for dragging in [false, true] {
        for event in events {
            let mut drag = SpinboxDragState { dragging };
            let r = respond(&mut drag, true, None, event);
            assert_eq!(r.effect, Effect::Nothing);
            assert!(!drag.dragging || dragging);
        }
    }
}
