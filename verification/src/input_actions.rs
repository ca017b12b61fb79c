//! The input actions of the helicopter controls, by the names the input map gives them,
//! and the state of its fire buttons.

use vstd::prelude::*;

use crate::text::same_text;

verus! {

/// The actions that move the helicopter along an axis.
#[derive(Clone, Copy, Debug, PartialEq, Eq, Structural)]
pub enum AxisAction {
    Forward,
    Back,
    StrafeLeft,
    StrafeRight,
    TurnLeft,
    TurnRight,
    Rise,
    Land,
}

/// The name of an axis action in the input map.
pub open spec fn axis_action_name(a: AxisAction) -> Seq<char> {
    match a {
        AxisAction::Forward => "forward"@,
        AxisAction::Back => "back"@,
        AxisAction::StrafeLeft => "strafe_left"@,
        AxisAction::StrafeRight => "strafe_right"@,
        AxisAction::TurnLeft => "turn_left"@,
        AxisAction::TurnRight => "turn_right"@,
        AxisAction::Rise => "rise"@,
        AxisAction::Land => "land"@,
    }
}

/// The axis action with a name, if one has it.
pub open spec fn axis_action_named(name: Seq<char>) -> Option<AxisAction> {
    if name == "forward"@ {
        Some(AxisAction::Forward)
    } else if name == "back"@ {
        Some(AxisAction::Back)
    } else if name == "strafe_left"@ {
        Some(AxisAction::StrafeLeft)
    } else if name == "strafe_right"@ {
        Some(AxisAction::StrafeRight)
    } else if name == "turn_left"@ {
        Some(AxisAction::TurnLeft)
    } else if name == "turn_right"@ {
        Some(AxisAction::TurnRight)
    } else if name == "rise"@ {
        Some(AxisAction::Rise)
    } else if name == "land"@ {
        Some(AxisAction::Land)
    } else {
        None
    }
}

impl AxisAction {
    /// The name of the action in the input map.
    pub fn as_str(self) -> (r: &'static str)
        ensures
            r@ == axis_action_name(self),
    {
        match self {
            Self::Forward => "forward",
            Self::Back => "back",
            Self::StrafeLeft => "strafe_left",
            Self::StrafeRight => "strafe_right",
            Self::TurnLeft => "turn_left",
            Self::TurnRight => "turn_right",
            Self::Rise => "rise",
            Self::Land => "land",
        }
    }

    /// The action with the given name; none where the name is unknown.
    pub fn try_from_name(name: &str) -> (r: Option<Self>)
        ensures
            r == axis_action_named(name@),
    {
        if same_text(name, "forward") {
            Some(Self::Forward)
        } else if same_text(name, "back") {
            Some(Self::Back)
        } else if same_text(name, "strafe_left") {
            Some(Self::StrafeLeft)
        } else if same_text(name, "strafe_right") {
            Some(Self::StrafeRight)
        } else if same_text(name, "turn_left") {
            Some(Self::TurnLeft)
        } else if same_text(name, "turn_right") {
            Some(Self::TurnRight)
        } else if same_text(name, "rise") {
            Some(Self::Rise)
        } else if same_text(name, "land") {
            Some(Self::Land)
        } else {
            None
        }
    }
}

/// Reading an axis action's name gives back the action, and a name that reads as an
/// action is that action's name.
pub proof fn lemma_axis_action_names(a: AxisAction, name: Seq<char>)
    ensures
        axis_action_named(axis_action_name(a)) == Some(a),
        axis_action_named(name) == Some(a) ==> axis_action_name(a) == name,
{
    reveal_strlit("forward");
    reveal_strlit("back");
    reveal_strlit("strafe_left");
    reveal_strlit("strafe_right");
    reveal_strlit("turn_left");
    reveal_strlit("turn_right");
    reveal_strlit("rise");
    reveal_strlit("land");
    assert("forward"@.len() == 7 && "forward"@[0] == 'f' && "forward"@[6] == 'd');
    assert("back"@.len() == 4 && "back"@[0] == 'b' && "back"@[3] == 'k');
    assert("strafe_left"@.len() == 11 && "strafe_left"@[0] == 's' && "strafe_left"@[10] == 't');
    assert("strafe_right"@.len() == 12 && "strafe_right"@[0] == 's' && "strafe_right"@[11] == 't');
    assert("turn_left"@.len() == 9 && "turn_left"@[0] == 't' && "turn_left"@[8] == 't');
    assert("turn_right"@.len() == 10 && "turn_right"@[0] == 't' && "turn_right"@[9] == 't');
    assert("rise"@.len() == 4 && "rise"@[0] == 'r' && "rise"@[3] == 'e');
    assert("land"@.len() == 4 && "land"@[0] == 'l' && "land"@[3] == 'd');
}

/// The actions of the fire buttons.
#[derive(Clone, Copy, Debug, PartialEq, Eq, Structural)]
pub enum ButtonAction {
    FirePrimary,
    FireSecondary,
}

/// The name of a button action in the input map.
pub open spec fn button_action_name(a: ButtonAction) -> Seq<char> {
    match a {
        ButtonAction::FirePrimary => "fire_primary"@,
        ButtonAction::FireSecondary => "fire_secondary"@,
    }
}

/// The button action with a name, if one has it.
pub open spec fn button_action_named(name: Seq<char>) -> Option<ButtonAction> {
    if name == "fire_primary"@ {
        Some(ButtonAction::FirePrimary)
    } else if name == "fire_secondary"@ {
        Some(ButtonAction::FireSecondary)
    } else {
        None
    }
}

impl ButtonAction {
    /// The name of the action in the input map.
    pub fn as_str(self) -> (r: &'static str)
        ensures
            r@ == button_action_name(self),
    {
        match self {
            Self::FirePrimary => "fire_primary",
            Self::FireSecondary => "fire_secondary",
        }
    }

    /// The action with the given name; none where the name is unknown.
    pub fn try_from_name(name: &str) -> (r: Option<Self>)
        ensures
            r == button_action_named(name@),
    {
        if same_text(name, "fire_primary") {
            Some(Self::FirePrimary)
        } else if same_text(name, "fire_secondary") {
            Some(Self::FireSecondary)
        } else {
            None
        }
    }
}

/// Reading a button action's name gives back the action, and a name that reads as an
/// action is that action's name.
pub proof fn lemma_button_action_names(a: ButtonAction, name: Seq<char>)
    ensures
        button_action_named(button_action_name(a)) == Some(a),
        button_action_named(name) == Some(a) ==> button_action_name(a) == name,
{
    reveal_strlit("fire_primary");
    reveal_strlit("fire_secondary");
    assert("fire_primary"@.len() == 12 && "fire_secondary"@.len() == 14);
}

/// Whether each fire button is held down.
#[derive(Clone, Copy, Debug, Default)]
pub struct FireButtons {
    pub primary: bool,
    pub secondary: bool,
}

/// The state of one button after an event for it, and whether its change is announced:
/// a change is announced with the new state, an event that repeats the state is not.
pub open spec fn button_update(held: bool, pressed: bool) -> (bool, Option<bool>) {
    (pressed, if held != pressed { Some(pressed) } else { None })
}

impl FireButtons {
    /// Takes an event of a button: stores whether it is pressed, and returns the new state
    /// where it changed.
    pub fn press(&mut self, action: ButtonAction, pressed: bool) -> (r: Option<bool>)
        ensures
            action == ButtonAction::FirePrimary ==> (final(self).primary, r) == button_update(
                old(self).primary,
                pressed,
            ) && final(self).secondary == old(self).secondary,
            action == ButtonAction::FireSecondary ==> (final(self).secondary, r) == button_update(
                old(self).secondary,
                pressed,
            ) && final(self).primary == old(self).primary,
    {
        let held = match action {
            ButtonAction::FirePrimary => self.primary,
            ButtonAction::FireSecondary => self.secondary,
        };
        match action {
            ButtonAction::FirePrimary => {
                self.primary = pressed;
            },
            ButtonAction::FireSecondary => {
                self.secondary = pressed;
            },
        }
        if held != pressed {
            Some(pressed)
        } else {
            None
        }
    }
}

} // verus!
