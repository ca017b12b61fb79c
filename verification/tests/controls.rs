use simchopper::canon::{CanonAction, CanonMode, CanonUpgrade};
use simchopper::input_actions::{AxisAction, ButtonAction, FireButtons};
use simchopper::title_menu::{next_load_action, SceneLoadAction, SceneLoadStatus};

const AXES: [AxisAction; 8] = [
    AxisAction::Forward,
    AxisAction::Back,
    AxisAction::StrafeLeft,
    AxisAction::StrafeRight,
    AxisAction::TurnLeft,
    AxisAction::TurnRight,
    AxisAction::Rise,
    AxisAction::Land,
];

#[test]
fn axis_action_names_read_back() {
    for a in AXES {
        assert_eq!(AxisAction::try_from_name(a.as_str()), Some(a));
    }
    assert_eq!(AxisAction::Forward.as_str(), "forward");
    assert_eq!(AxisAction::StrafeRight.as_str(), "strafe_right");
    assert_eq!(AxisAction::try_from_name("jump"), None);
}

#[test]
fn button_action_names_read_back() {
    for a in [ButtonAction::FirePrimary, ButtonAction::FireSecondary] {
        assert_eq!(ButtonAction::try_from_name(a.as_str()), Some(a));
    }
    assert_eq!(ButtonAction::FireSecondary.as_str(), "fire_secondary");
    assert_eq!(ButtonAction::try_from_name("fire"), None);
}

#[test]
fn fire_buttons_announce_changes_only() {
    let mut b = FireButtons::default();
    assert_eq!(b.press(ButtonAction::FirePrimary, true), Some(true));
    assert_eq!(b.press(ButtonAction::FirePrimary, true), None);
    assert!(b.primary && !b.secondary);
    assert_eq!(b.press(ButtonAction::FirePrimary, false), Some(false));
    assert_eq!(b.press(ButtonAction::FireSecondary, false), None);
}

#[test]
fn canon_actions_by_name() {
    assert_eq!(CanonAction::try_from_name("fire_primary"), Some(CanonAction::FirePrimary));
    assert_eq!(CanonAction::try_from_name("fire_secondary"), Some(CanonAction::FireSecondary));
    assert_eq!(CanonAction::try_from_name("forward"), None);
}

#[test]
fn canon_sprays_while_its_button_is_held() {
    let mut canon = CanonUpgrade { mode: CanonMode::default(), node_ready: false };
    assert!(!canon.ready());
    assert_eq!(canon.action_start(CanonAction::FirePrimary), Some(true));
    assert_eq!(canon.mode, CanonMode::Water);
    assert_eq!(canon.action_start(CanonAction::FireSecondary), None);
    assert_eq!(canon.action_end(CanonAction::FireSecondary), None);
    assert_eq!(canon.mode, CanonMode::Water);
    assert_eq!(canon.action_end(CanonAction::FirePrimary), Some(false));
    assert_eq!(canon.mode, CanonMode::Inactive);
    assert_eq!(canon.action_start(CanonAction::FireSecondary), Some(false));
    assert_eq!(canon.mode, CanonMode::Teargas);
}

#[test]
fn canon_mode_is_kept_until_ready() {
    let mut canon = CanonUpgrade { mode: CanonMode::Inactive, node_ready: false };
    assert_eq!(canon.set_mode(CanonMode::Water), None);
    assert!(canon.ready());
}

#[test]
fn game_canon_has_one_button() {
    let mut canon = CanonUpgrade { mode: CanonMode::Inactive, node_ready: true };
    assert_eq!(canon.action(false), None);
    assert_eq!(canon.action(true), Some(true));
    assert_eq!(canon.action(true), None);
    assert_eq!(canon.action(false), Some(false));
    assert_eq!(canon.mode, CanonMode::Inactive);
}

#[test]
fn title_menu_waits_for_fade_and_load() {
    assert_eq!(next_load_action(SceneLoadStatus::InProgress, true), SceneLoadAction::AwaitAnimation);
    assert_eq!(next_load_action(SceneLoadStatus::InProgress, false), SceneLoadAction::AwaitFrame);
    assert_eq!(next_load_action(SceneLoadStatus::Loaded, true), SceneLoadAction::AwaitAnimation);
    assert_eq!(next_load_action(SceneLoadStatus::Loaded, false), SceneLoadAction::ChangeScene);
    assert_eq!(next_load_action(SceneLoadStatus::Failed, true), SceneLoadAction::Failed);
    assert_eq!(
        next_load_action(SceneLoadStatus::InvalidResource, false),
        SceneLoadAction::InvalidResource
    );
}
