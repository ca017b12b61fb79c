//! The title menu's start of the game: what the menu waits for while the main scene
//! loads in the background.

use vstd::prelude::*;

verus! {

/// How far the background load of a scene is.
#[derive(Clone, Copy, Debug, PartialEq, Eq, Structural)]
pub enum SceneLoadStatus {
    InvalidResource,
    InProgress,
    Failed,
    Loaded,
}

/// What the menu does next while the main scene loads.
#[derive(Clone, Copy, Debug, PartialEq, Eq, Structural)]
pub enum SceneLoadAction {
    /// Wait for the fade-out animation to finish.
    AwaitAnimation,
    /// Wait for the next frame.
    AwaitFrame,
    /// Switch to the loaded scene; loading is done.
    ChangeScene,
    /// The scene path is no resource; loading stops.
    InvalidResource,
    /// The load failed; loading stops.
    Failed,
}

/// What the menu does next: while the fade-out plays it waits for it, also once the
/// scene is loaded; otherwise it waits a frame while loading, and switches once loaded.
pub open spec fn scene_load_action(status: SceneLoadStatus, animation_playing: bool) -> SceneLoadAction {
    match status {
        SceneLoadStatus::InProgress => if animation_playing {
            SceneLoadAction::AwaitAnimation
        } else {
            SceneLoadAction::AwaitFrame
        },
        SceneLoadStatus::Loaded => if animation_playing {
            SceneLoadAction::AwaitAnimation
        } else {
            SceneLoadAction::ChangeScene
        },
        SceneLoadStatus::InvalidResource => SceneLoadAction::InvalidResource,
        SceneLoadStatus::Failed => SceneLoadAction::Failed,
    }
}

/// Decides the next step of starting the game.
pub fn next_load_action(status: SceneLoadStatus, animation_playing: bool) -> (r: SceneLoadAction)
    ensures
        r == scene_load_action(status, animation_playing),
{
    match status {
        SceneLoadStatus::InProgress if animation_playing => SceneLoadAction::AwaitAnimation,
        SceneLoadStatus::Loaded if animation_playing => SceneLoadAction::AwaitAnimation,
        SceneLoadStatus::InProgress => SceneLoadAction::AwaitFrame,
        SceneLoadStatus::Loaded => SceneLoadAction::ChangeScene,
        SceneLoadStatus::InvalidResource => SceneLoadAction::InvalidResource,
        SceneLoadStatus::Failed => SceneLoadAction::Failed,
    }
}

/// The menu never switches scenes while the fade-out still plays, and it always switches
/// once the scene is loaded and the fade-out is over.
pub proof fn lemma_switch_waits_for_fade_out(status: SceneLoadStatus, animation_playing: bool)
    ensures
        scene_load_action(status, animation_playing) == SceneLoadAction::ChangeScene <==> (status
            == SceneLoadStatus::Loaded && !animation_playing),
{
}

} // verus!
