use vstd::prelude::*;

use crate::spinbox::SpinboxDragState;

verus! {

/// Which of the three configured step sizes (or drag sensitivities) applies.
#[derive(Debug, Clone, Copy, PartialEq, Eq, Structural)]
pub enum SpinboxModifier {
    /// Selected while `Shift` is held.
    Fine,
    /// Selected when no modifier is held.
    Normal,
    /// Selected while `Ctrl` or `Alt` is held (and `Shift` is not).
    Coarse,
}

/// The pressed state of the six modifier keys that a spinbox looks at.
#[derive(Debug, Clone, Copy, PartialEq, Eq, Structural, Default)]
pub struct ModifierKeys {
    pub shift_left: bool,
    pub shift_right: bool,
    pub control_left: bool,
    pub control_right: bool,
    pub alt_left: bool,
    pub alt_right: bool,
}

impl ModifierKeys {
    pub open spec fn shift(self) -> bool {
        self.shift_left || self.shift_right
    }

    pub open spec fn control(self) -> bool {
        self.control_left || self.control_right
    }

    pub open spec fn alt(self) -> bool {
        self.alt_left || self.alt_right
    }

    /// Shift selects the fine step; otherwise Ctrl or Alt selects the coarse step.
    pub open spec fn modifier(self) -> SpinboxModifier {
        if self.shift() {
            SpinboxModifier::Fine
        } else if self.control() || self.alt() {
            SpinboxModifier::Coarse
        } else {
            SpinboxModifier::Normal
        }
    }
}

/// The modifier in effect; without keyboard state it is `Normal`.
pub open spec fn modifier_for(keys: Option<&ModifierKeys>) -> SpinboxModifier {
    match keys {
        Some(k) => k.modifier(),
        None => SpinboxModifier::Normal,
    }
}

/// Determines the modifier from the keyboard state, when there is one.
pub fn detect_modifier(keys: Option<&ModifierKeys>) -> (m: SpinboxModifier)
    ensures
        m == modifier_for(keys),
{
    match keys {
        None => SpinboxModifier::Normal,
        Some(k) => {
            if k.shift_left || k.shift_right {
                SpinboxModifier::Fine
            } else if k.control_left || k.control_right || k.alt_left || k.alt_right {
                SpinboxModifier::Coarse
            } else {
                SpinboxModifier::Normal
            }
        },
    }
}

/// Picks the one of three settings that belongs to `modifier`.
pub fn select_by_modifier<T>(modifier: SpinboxModifier, fine: T, normal: T, coarse: T) -> (r: T)
    ensures
        r == (match modifier {
            SpinboxModifier::Fine => fine,
            SpinboxModifier::Normal => normal,
            SpinboxModifier::Coarse => coarse,
        }),
{
    match modifier {
        SpinboxModifier::Fine => fine,
        SpinboxModifier::Normal => normal,
        SpinboxModifier::Coarse => coarse,
    }
}

/// The keys that a focused spinbox reacts to; every other key is `Other`.
#[derive(Debug, Clone, Copy, PartialEq, Eq, Structural)]
pub enum SpinboxKey {
    ArrowUp,
    ArrowRight,
    ArrowDown,
    ArrowLeft,
    PageUp,
    PageDown,
    Home,
    End,
    Other,
}

/// A keyboard event delivered to a focused spinbox.
#[derive(Debug, Clone, Copy, PartialEq, Eq, Structural)]
pub struct KeyPress {
    pub key: SpinboxKey,
    /// `true` for a press, `false` for a release.
    pub pressed: bool,
    /// `true` when the event is an automatic repetition of a held key.
    pub repeat: bool,
}

/// How the value of a spinbox is to change. The new value is then rounded to the
/// precision, if any, and brought into the range by the range policy.
#[derive(Debug, Clone, Copy, PartialEq, Eq, Structural)]
pub enum Adjustment {
    /// Add `count` times the step selected by `modifier`.
    Steps { count: i32, modifier: SpinboxModifier },
    /// Add the difference between the start of the range and the value.
    ToStart,
    /// Add the difference between the end of the range and the value.
    ToEnd,
    /// Add the vertical scroll distance times the step selected by `modifier`.
    Scroll { modifier: SpinboxModifier },
    /// Add the horizontal drag distance times the sensitivity selected by `modifier`.
    Drag { modifier: SpinboxModifier },
}

/// The adjustment a key asks for: arrows move by one step, page keys by ten,
/// `Home` and `End` go to the ends of the range; other keys ask for none.
pub open spec fn key_adjustment_of(key: SpinboxKey, modifier: SpinboxModifier) -> Option<Adjustment> {
    match key {
        SpinboxKey::ArrowUp | SpinboxKey::ArrowRight => Some(
            Adjustment::Steps { count: 1i32, modifier },
        ),
        SpinboxKey::ArrowDown | SpinboxKey::ArrowLeft => Some(
            Adjustment::Steps { count: -1i32, modifier },
        ),
        SpinboxKey::PageUp => Some(Adjustment::Steps { count: 10i32, modifier }),
        SpinboxKey::PageDown => Some(Adjustment::Steps { count: -10i32, modifier }),
        SpinboxKey::Home => Some(Adjustment::ToStart),
        SpinboxKey::End => Some(Adjustment::ToEnd),
        SpinboxKey::Other => None,
    }
}

/// The adjustment that `key` asks for under `modifier`.
pub fn key_adjustment(key: SpinboxKey, modifier: SpinboxModifier) -> (r: Option<Adjustment>)
    ensures
        r == key_adjustment_of(key, modifier),
{
    match key {
        SpinboxKey::ArrowUp | SpinboxKey::ArrowRight => Some(
            Adjustment::Steps { count: 1, modifier },
        ),
        SpinboxKey::ArrowDown | SpinboxKey::ArrowLeft => Some(
            Adjustment::Steps { count: -1, modifier },
        ),
        SpinboxKey::PageUp => Some(Adjustment::Steps { count: 10, modifier }),
        SpinboxKey::PageDown => Some(Adjustment::Steps { count: -10, modifier }),
        SpinboxKey::Home => Some(Adjustment::ToStart),
        SpinboxKey::End => Some(Adjustment::ToEnd),
        SpinboxKey::Other => None,
    }
}

/// An input event aimed at a spinbox entity.
#[derive(Debug, Clone, Copy, PartialEq, Eq, Structural)]
pub enum SpinboxEvent {
    /// The pointer clicked the spinbox.
    Click,
    /// A pointer drag started on the spinbox.
    DragStart,
    /// The pointer moved during a drag.
    Drag,
    /// A pointer drag ended.
    DragEnd,
    /// The pointer scrolled over the spinbox.
    Scroll,
    /// A key event reached the spinbox while it had the input focus.
    Key(KeyPress),
}

/// What a spinbox does in response to an event, besides its drag state.
#[derive(Debug, Clone, Copy, PartialEq, Eq, Structural)]
pub enum Effect {
    /// Nothing.
    Nothing,
    /// Take the input focus and hide the focus indicator.
    Focus,
    /// Change the value.
    Adjust(Adjustment),
}

/// The full response of a spinbox to an event.
#[derive(Debug, Clone, Copy, PartialEq, Eq, Structural)]
pub struct Reaction {
    /// Whether the event stops propagating to the ancestors of the spinbox.
    pub stop_propagation: bool,
    pub effect: Effect,
}

/// The reaction of a spinbox to `event`, given whether it is being dragged,
/// whether it is disabled, and the modifier in effect.
///
/// Pointer events are always consumed. A disabled spinbox does nothing. A click
/// takes the focus; a drag changes the value only between a drag start and a drag
/// end; a scroll changes the value by steps. A key event is consumed, and changes
/// the value, only when it is a fresh press of one of the spinbox keys on an
/// enabled spinbox.
pub open spec fn reaction_to(
    dragging: bool,
    disabled: bool,
    modifier: SpinboxModifier,
    event: SpinboxEvent,
) -> Reaction {
    match event {
        SpinboxEvent::Click => Reaction {
            stop_propagation: true,
            effect: if disabled { Effect::Nothing } else { Effect::Focus },
        },
        SpinboxEvent::DragStart | SpinboxEvent::DragEnd => Reaction {
            stop_propagation: true,
            effect: Effect::Nothing,
        },
        SpinboxEvent::Drag => Reaction {
            stop_propagation: true,
            effect: if !disabled && dragging {
                Effect::Adjust(Adjustment::Drag { modifier })
            } else {
                Effect::Nothing
            },
        },
        SpinboxEvent::Scroll => Reaction {
            stop_propagation: true,
            effect: if disabled {
                Effect::Nothing
            } else {
                Effect::Adjust(Adjustment::Scroll { modifier })
            },
        },
        SpinboxEvent::Key(press) => {
            if disabled || !press.pressed || press.repeat {
                Reaction { stop_propagation: false, effect: Effect::Nothing }
            } else {
                match key_adjustment_of(press.key, modifier) {
                    Some(a) => Reaction { stop_propagation: true, effect: Effect::Adjust(a) },
                    None => Reaction { stop_propagation: false, effect: Effect::Nothing },
                }
            }
        },
    }
}

/// Whether a spinbox is being dragged after `event`: an enabled drag start begins
/// a drag, a drag end (even on a disabled spinbox) finishes it.
pub open spec fn dragging_after(dragging: bool, disabled: bool, event: SpinboxEvent) -> bool {
    match event {
        SpinboxEvent::DragStart => if disabled { dragging } else { true },
        SpinboxEvent::DragEnd => false,
        _ => dragging,
    }
}

/// Handles one event aimed at a spinbox: updates its drag state and returns what
/// else it does. `keys` is the keyboard state, when there is one.
pub fn respond(
    drag: &mut SpinboxDragState,
    disabled: bool,
    keys: Option<&ModifierKeys>,
    event: SpinboxEvent,
) -> (r: Reaction)
    ensures
        r == reaction_to(old(drag).dragging, disabled, modifier_for(keys), event),
        final(drag).dragging == dragging_after(old(drag).dragging, disabled, event),
{
    match event {
        SpinboxEvent::Click => {
            if disabled {
                Reaction { stop_propagation: true, effect: Effect::Nothing }
            } else {
                Reaction { stop_propagation: true, effect: Effect::Focus }
            }
        },
        SpinboxEvent::DragStart => {
            if !disabled {
                drag.dragging = true;
            }
            Reaction { stop_propagation: true, effect: Effect::Nothing }
        },
        SpinboxEvent::Drag => {
            if disabled || !drag.dragging {
                Reaction { stop_propagation: true, effect: Effect::Nothing }
            } else {
                let modifier = detect_modifier(keys);
                Reaction {
                    stop_propagation: true,
                    effect: Effect::Adjust(Adjustment::Drag { modifier }),
                }
            }
        },
        SpinboxEvent::DragEnd => {
            drag.dragging = false;
            Reaction { stop_propagation: true, effect: Effect::Nothing }
        },
        SpinboxEvent::Scroll => {
            if disabled {
                Reaction { stop_propagation: true, effect: Effect::Nothing }
            } else {
                let modifier = detect_modifier(keys);
                Reaction {
                    stop_propagation: true,
                    effect: Effect::Adjust(Adjustment::Scroll { modifier }),
                }
            }
        },
        SpinboxEvent::Key(press) => {
            if disabled || !press.pressed || press.repeat {
                return Reaction { stop_propagation: false, effect: Effect::Nothing };
            }
            let modifier = detect_modifier(keys);
            match key_adjustment(press.key, modifier) {
                Some(a) => Reaction { stop_propagation: true, effect: Effect::Adjust(a) },
                None => Reaction { stop_propagation: false, effect: Effect::Nothing },
            }
        },
    }
}

} // verus!
