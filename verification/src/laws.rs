use vstd::prelude::*;

use crate::interaction::{
    dragging_after, key_adjustment_of, reaction_to, Adjustment, Effect, KeyPress, Reaction,
    ModifierKeys, modifier_for, SpinboxEvent, SpinboxKey, SpinboxModifier,
};

verus! {

/// A disabled spinbox is inert: whatever the event, it neither takes the focus
/// nor changes its value, and no event makes it start a drag.
pub proof fn disabled_spinbox_is_inert(dragging: bool, modifier: SpinboxModifier, event: SpinboxEvent)
    ensures
        reaction_to(dragging, true, modifier, event).effect == Effect::Nothing,
        dragging_after(dragging, true, event) ==> dragging,
{
}

/// Every pointer event that reaches a spinbox stops there: a click, a drag start,
/// a drag, a drag end or a scroll never propagates to the spinbox's ancestors,
/// whether or not the spinbox is disabled.
pub proof fn pointer_events_stop_at_spinbox(
    dragging: bool,
    disabled: bool,
    modifier: SpinboxModifier,
    event: SpinboxEvent,
)
    requires
        !(event is Key),
    ensures
        reaction_to(dragging, disabled, modifier, event).stop_propagation,
{
}

/// A key event propagates on unless the spinbox acts on it: it stops exactly when
/// it changes the value, and it never does anything else.
pub proof fn key_events_stop_only_when_handled(
    dragging: bool,
    disabled: bool,
    modifier: SpinboxModifier,
    press: KeyPress,
)
    ensures
        reaction_to(dragging, disabled, modifier, SpinboxEvent::Key(press)).stop_propagation
            <==> reaction_to(dragging, disabled, modifier, SpinboxEvent::Key(press)).effect is Adjust,
        reaction_to(dragging, disabled, modifier, SpinboxEvent::Key(press)).effect != Effect::Focus,
        dragging_after(dragging, disabled, SpinboxEvent::Key(press)) == dragging,
{
}

/// Releases and automatic repeats of a key never change the value, nor do keys
/// other than the arrows, the page keys, `Home` and `End`.
pub proof fn only_fresh_presses_of_spinbox_keys_act(
    dragging: bool,
    disabled: bool,
    modifier: SpinboxModifier,
    press: KeyPress,
)
    requires
        !press.pressed || press.repeat || press.key == SpinboxKey::Other,
    ensures
        reaction_to(dragging, disabled, modifier, SpinboxEvent::Key(press)).effect
            == Effect::Nothing,
{
}

/// A drag changes the value only between a drag start and a drag end: after a
/// drag end no drag changes the value, and after a drag start on an enabled
/// spinbox every drag does, by the drag distance under the modifier in effect.
pub proof fn drags_act_between_start_and_end(
    dragging: bool,
    disabled: bool,
    modifier: SpinboxModifier,
)
    ensures
        !dragging_after(dragging, disabled, SpinboxEvent::DragEnd),
        reaction_to(
            dragging_after(dragging, disabled, SpinboxEvent::DragEnd),
            disabled,
            modifier,
            SpinboxEvent::Drag,
        ).effect == Effect::Nothing,
        dragging_after(dragging, false, SpinboxEvent::DragStart),
        reaction_to(
            dragging_after(dragging, false, SpinboxEvent::DragStart),
            false,
            modifier,
            SpinboxEvent::Drag,
        ).effect == Effect::Adjust(Adjustment::Drag { modifier }),
{
}

/// Moving the pointer does not change the drag state: only drag starts and drag
/// ends do.
pub proof fn only_drag_start_and_end_change_drag_state(
    dragging: bool,
    disabled: bool,
    event: SpinboxEvent,
)
    requires
        event != SpinboxEvent::DragStart,
        event != SpinboxEvent::DragEnd,
    ensures
        dragging_after(dragging, disabled, event) == dragging,
{
}

/// Shift wins over Ctrl and Alt: with Shift held the fine step applies whatever
/// else is held; Ctrl or Alt without Shift select the coarse step; with none of
/// them, or with no keyboard state at all, the normal step applies.
pub proof fn shift_takes_precedence(keys: ModifierKeys)
    ensures
        keys.shift() ==> keys.modifier() == SpinboxModifier::Fine,
        !keys.shift() && (keys.control() || keys.alt()) ==> keys.modifier()
            == SpinboxModifier::Coarse,
        !keys.shift() && !keys.control() && !keys.alt() ==> keys.modifier()
            == SpinboxModifier::Normal,
{
}

/// Without keyboard state the normal step applies; with it, the modifier is the
/// one its held keys select.
pub proof fn modifier_without_keyboard_is_normal(keys: ModifierKeys)
    ensures
        modifier_for(None) == SpinboxModifier::Normal,
        modifier_for(Some(&keys)) == keys.modifier(),
{
}

/// Opposite keys move by opposite amounts, and a page key moves ten times as far
/// as an arrow key, always under the same modifier.
pub proof fn opposite_keys_move_oppositely(modifier: SpinboxModifier)
    ensures
        key_adjustment_of(SpinboxKey::ArrowUp, modifier) == key_adjustment_of(
            SpinboxKey::ArrowRight,
            modifier,
        ),
        key_adjustment_of(SpinboxKey::ArrowDown, modifier) == key_adjustment_of(
            SpinboxKey::ArrowLeft,
            modifier,
        ),
        key_adjustment_of(SpinboxKey::ArrowUp, modifier) matches Some(Adjustment::Steps { .. }),
        key_adjustment_of(SpinboxKey::ArrowDown, modifier) matches Some(Adjustment::Steps { .. }),
        key_adjustment_of(SpinboxKey::PageUp, modifier) matches Some(Adjustment::Steps { .. }),
        key_adjustment_of(SpinboxKey::PageDown, modifier) matches Some(Adjustment::Steps { .. }),
        key_adjustment_of(SpinboxKey::ArrowUp, modifier)->0->Steps_modifier == modifier,
        key_adjustment_of(SpinboxKey::ArrowDown, modifier)->0->Steps_modifier == modifier,
        key_adjustment_of(SpinboxKey::PageUp, modifier)->0->Steps_modifier == modifier,
        key_adjustment_of(SpinboxKey::PageDown, modifier)->0->Steps_modifier == modifier,
        key_adjustment_of(SpinboxKey::ArrowUp, modifier)->0->count > 0,
        key_adjustment_of(SpinboxKey::ArrowDown, modifier)->0->count == -key_adjustment_of(
            SpinboxKey::ArrowUp,
            modifier,
        )->0->count,
        key_adjustment_of(SpinboxKey::PageUp, modifier)->0->count == 10 * key_adjustment_of(
            SpinboxKey::ArrowUp,
            modifier,
        )->0->count,
        key_adjustment_of(SpinboxKey::PageDown, modifier)->0->count == -key_adjustment_of(
            SpinboxKey::PageUp,
            modifier,
        )->0->count,
{
}

/// An enabled spinbox always reacts to the scroll wheel: whatever its drag state
/// and whichever modifier is in effect (no modifier included), a scroll is consumed
/// and changes the value by the scroll distance times the step of that modifier.
pub proof fn scroll_always_adjusts_enabled_spinbox(dragging: bool, modifier: SpinboxModifier)
    ensures
        reaction_to(dragging, false, modifier, SpinboxEvent::Scroll).stop_propagation,
        reaction_to(dragging, false, modifier, SpinboxEvent::Scroll).effect == Effect::Adjust(
            Adjustment::Scroll { modifier },
        ),
        dragging_after(dragging, false, SpinboxEvent::Scroll) == dragging,
{
}

/// Starting or ending a drag never changes the value, takes the focus or does
/// anything besides updating the drag state, whatever keys are held and whether
/// or not the spinbox is disabled.
pub proof fn drag_start_and_end_only_change_drag_state(
    dragging: bool,
    disabled: bool,
    modifier: SpinboxModifier,
)
    ensures
        reaction_to(dragging, disabled, modifier, SpinboxEvent::DragStart).effect
            == Effect::Nothing,
        reaction_to(dragging, disabled, modifier, SpinboxEvent::DragEnd).effect
            == Effect::Nothing,
        dragging_after(dragging, true, SpinboxEvent::DragStart) == dragging,
        dragging_after(dragging, false, SpinboxEvent::DragStart),
        !dragging_after(dragging, disabled, SpinboxEvent::DragEnd),
{
}

/// While an enabled spinbox is being dragged, every pointer move changes its value
/// by the drag distance under the modifier in effect; when it is not being dragged,
/// no pointer move changes it.
pub proof fn drag_motion_follows_drag_state(disabled: bool, modifier: SpinboxModifier)
    ensures
        reaction_to(true, false, modifier, SpinboxEvent::Drag).effect == Effect::Adjust(
            Adjustment::Drag { modifier },
        ),
        reaction_to(false, disabled, modifier, SpinboxEvent::Drag).effect == Effect::Nothing,
{
}

/// Clicking an enabled spinbox always gives it the input focus, whether or not it
/// is being dragged and whatever keys are held.
pub proof fn click_focuses_enabled_spinbox(dragging: bool, modifier: SpinboxModifier)
    ensures
        reaction_to(dragging, false, modifier, SpinboxEvent::Click) == (Reaction {
            stop_propagation: true,
            effect: Effect::Focus,
        }),
        dragging_after(dragging, false, SpinboxEvent::Click) == dragging,
{
}

/// The keys of a spinbox under any modifier: the arrows up and right move one
/// step up and the arrows down and left one step down, the page keys ten steps,
/// all with the step of that modifier; `Home` and `End` go to the start and the
/// end of the range whatever the modifier; no other key does anything.
pub proof fn key_table(modifier: SpinboxModifier)
    ensures
        key_adjustment_of(SpinboxKey::ArrowUp, modifier) == Some(
            Adjustment::Steps { count: 1i32, modifier },
        ),
        key_adjustment_of(SpinboxKey::ArrowRight, modifier) == Some(
            Adjustment::Steps { count: 1i32, modifier },
        ),
        key_adjustment_of(SpinboxKey::ArrowDown, modifier) == Some(
            Adjustment::Steps { count: -1i32, modifier },
        ),
        key_adjustment_of(SpinboxKey::ArrowLeft, modifier) == Some(
            Adjustment::Steps { count: -1i32, modifier },
        ),
        key_adjustment_of(SpinboxKey::PageUp, modifier) == Some(
            Adjustment::Steps { count: 10i32, modifier },
        ),
        key_adjustment_of(SpinboxKey::PageDown, modifier) == Some(
            Adjustment::Steps { count: -10i32, modifier },
        ),
        key_adjustment_of(SpinboxKey::Home, modifier) == Some(Adjustment::ToStart),
        key_adjustment_of(SpinboxKey::End, modifier) == Some(Adjustment::ToEnd),
        key_adjustment_of(SpinboxKey::Other, modifier) == None::<Adjustment>,
{
}

/// A fresh key press on an enabled spinbox does what the key asks for under the
/// modifier in effect (not under some other modifier), and is consumed exactly when
/// the key asks for something. In particular `ArrowUp` with Shift moves one fine
/// step and with Ctrl or Alt one coarse step.
pub proof fn fresh_key_press_uses_current_modifier(
    dragging: bool,
    modifier: SpinboxModifier,
    key: SpinboxKey,
)
    ensures
        ({
            let r = reaction_to(
                dragging,
                false,
                modifier,
                SpinboxEvent::Key(KeyPress { key, pressed: true, repeat: false }),
            );
            &&& r.stop_propagation <==> key != SpinboxKey::Other
            &&& key == SpinboxKey::Other ==> r.effect == Effect::Nothing
            &&& key != SpinboxKey::Other ==> r.effect == Effect::Adjust(
                key_adjustment_of(key, modifier)->0,
            )
            &&& key == SpinboxKey::ArrowUp ==> r.effect == Effect::Adjust(
                Adjustment::Steps { count: 1i32, modifier },
            )
            &&& key == SpinboxKey::PageDown ==> r.effect == Effect::Adjust(
                Adjustment::Steps { count: -10i32, modifier },
            )
        }),
{
}

} // verus!
