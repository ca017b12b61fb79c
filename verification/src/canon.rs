//! The helicopter's canon upgrade: which of its modes is active, and how the fire buttons
//! switch between them.

use vstd::prelude::*;

use crate::text::same_text;

verus! {

/// What the canon sprays.
#[derive(Clone, Copy, Debug, PartialEq, Eq, Structural)]
pub enum CanonMode {
    Inactive,
    Water,
    Teargas,
}

impl Default for CanonMode {
    /// A canon starts out inactive.
    fn default() -> (r: Self)
        ensures
            r == CanonMode::Inactive,
    {
        CanonMode::Inactive
    }
}

/// The fire buttons as the canon sees them.
#[derive(Clone, Copy, Debug, PartialEq, Eq, Structural)]
pub enum CanonAction {
    FirePrimary,
    FireSecondary,
}

/// The canon action with a name, if one has it.
pub open spec fn canon_action_named(name: Seq<char>) -> Option<CanonAction> {
    if name == "fire_primary"@ {
        Some(CanonAction::FirePrimary)
    } else if name == "fire_secondary"@ {
        Some(CanonAction::FireSecondary)
    } else {
        None
    }
}

impl CanonAction {
    /// The action with the given input name; none where the name is not a fire button.
    pub fn try_from_name(name: &str) -> (r: Option<Self>)
        ensures
            r == canon_action_named(name@),
    {
        if same_text(name, "fire_primary") {
            Some(Self::FirePrimary)
        } else if same_text(name, "fire_secondary") {
            Some(Self::FireSecondary)
        } else {
            None
        }
    }
}

/// The mode after a fire button is pressed: an inactive canon starts spraying water with
/// the primary button and teargas with the secondary one; otherwise nothing changes.
pub open spec fn mode_after_start(mode: CanonMode, action: CanonAction) -> CanonMode {
    match (action, mode) {
        (CanonAction::FirePrimary, CanonMode::Inactive) => CanonMode::Water,
        (CanonAction::FireSecondary, CanonMode::Inactive) => CanonMode::Teargas,
        _ => mode,
    }
}

/// The mode after a fire button is released: the button that started the spray stops it.
pub open spec fn mode_after_end(mode: CanonMode, action: CanonAction) -> CanonMode {
    match (action, mode) {
        (CanonAction::FireSecondary, CanonMode::Teargas) => CanonMode::Inactive,
        (CanonAction::FirePrimary, CanonMode::Water) => CanonMode::Inactive,
        _ => mode,
    }
}

/// The mode after the single fire button of the game's canon is pressed or released.
pub open spec fn mode_after_button(mode: CanonMode, pressed: bool) -> CanonMode {
    match (pressed, mode) {
        (true, CanonMode::Inactive) => CanonMode::Water,
        (false, CanonMode::Water) => CanonMode::Inactive,
        _ => mode,
    }
}

/// The canon: its mode, and whether its node is in the scene so that the water jet can be
/// switched.
#[derive(Clone, Copy, Debug)]
pub struct CanonUpgrade {
    pub mode: CanonMode,
    pub node_ready: bool,
}

impl CanonUpgrade {
    /// Sets the mode. Where the node is ready, returns whether the water jet emits now:
    /// only while spraying water.
    pub fn set_mode(&mut self, value: CanonMode) -> (r: Option<bool>)
        ensures
            final(self).mode == value,
            final(self).node_ready == old(self).node_ready,
            r == (if old(self).node_ready {
                Some(value == CanonMode::Water)
            } else {
                None::<bool>
            }),
    {
        self.mode = value;
        if !self.node_ready {
            return None;
        }
        Some(matches!(value, CanonMode::Water))
    }

    /// Applies the mode the canon was given once its node is ready.
    pub fn ready(&mut self) -> (r: bool)
        ensures
            final(self).mode == old(self).mode,
            final(self).node_ready,
            r == (old(self).mode == CanonMode::Water),
    {
        self.node_ready = true;
        let mode = self.mode;
        match self.set_mode(mode) {
            Some(emitting) => emitting,
            None => false,
        }
    }

    /// A fire button is pressed.
    pub fn action_start(&mut self, action: CanonAction) -> (r: Option<bool>)
        ensures
            final(self).mode == mode_after_start(old(self).mode, action),
            final(self).node_ready == old(self).node_ready,
            r == (if mode_after_start(old(self).mode, action) != old(self).mode && old(self).node_ready {
                Some(final(self).mode == CanonMode::Water)
            } else {
                None::<bool>
            }),
    {
        match (action, self.mode) {
            (CanonAction::FirePrimary, CanonMode::Inactive) => self.set_mode(CanonMode::Water),
            (CanonAction::FireSecondary, CanonMode::Inactive) => self.set_mode(CanonMode::Teargas),
            _ => None,
        }
    }

    /// A fire button is released.
    pub fn action_end(&mut self, action: CanonAction) -> (r: Option<bool>)
        ensures
            final(self).mode == mode_after_end(old(self).mode, action),
            final(self).node_ready == old(self).node_ready,
            r == (if mode_after_end(old(self).mode, action) != old(self).mode && old(self).node_ready {
                Some(false)
            } else {
                None::<bool>
            }),
    {
        match (action, self.mode) {
            (CanonAction::FireSecondary, CanonMode::Teargas) | (
                CanonAction::FirePrimary,
                CanonMode::Water,
            ) => self.set_mode(CanonMode::Inactive),
            _ => None,
        }
    }

    /// The game's single fire button is pressed or released.
    pub fn action(&mut self, pressed: bool) -> (r: Option<bool>)
        ensures
            final(self).mode == mode_after_button(old(self).mode, pressed),
            final(self).node_ready == old(self).node_ready,
            r == (if mode_after_button(old(self).mode, pressed) != old(self).mode && old(self).node_ready {
                Some(final(self).mode == CanonMode::Water)
            } else {
                None::<bool>
            }),
    {
        match (pressed, self.mode) {
            (true, CanonMode::Inactive) => self.set_mode(CanonMode::Water),
            (false, CanonMode::Water) => self.set_mode(CanonMode::Inactive),
            _ => None,
        }
    }
}

/// Releasing the button that started a spray ends it: from an inactive canon, a press and
/// a release of the same button leave it inactive again, and a release alone changes
/// nothing.
pub proof fn lemma_press_release_returns_to_inactive(action: CanonAction)
    ensures
        mode_after_end(mode_after_start(CanonMode::Inactive, action), action) == CanonMode::Inactive,
        mode_after_end(CanonMode::Inactive, action) == CanonMode::Inactive,
        mode_after_button(mode_after_button(CanonMode::Inactive, true), false) == CanonMode::Inactive,
{
}

/// While one spray is on, the other button neither starts nor stops anything.
pub proof fn lemma_other_button_ignored(mode: CanonMode, action: CanonAction)
    requires
        mode != CanonMode::Inactive,
    ensures
        mode_after_start(mode, action) == mode,
{
}

} // verus!
