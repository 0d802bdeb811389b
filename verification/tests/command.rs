use player_window::command::{open_player_window, plan, settle, Action, Outcome, PlayerState};
use player_window::registry::WindowRegistry;
use player_window::window::WindowConfig;

fn main_window() -> WindowConfig {
    WindowConfig {
        label: String::from("main"),
        title: String::from("VTT"),
        width: 800,
        height: 600,
        content: String::from("index.html"),
    }
}

#[test]
fn fresh_state_opens_the_player_view() {
    let mut registry = WindowRegistry::new();
    let result = open_player_window(&mut registry, Outcome::Created);
    assert_eq!(result, Ok(()));
    assert_eq!(registry.count("player"), 1);
    assert!(registry.contains("player"));
    assert_eq!(registry.len(), 1);
    assert_eq!(registry.player_state(), PlayerState::Present);
}

#[test]
fn created_window_has_the_fixed_description() {
    let mut registry = WindowRegistry::new();
    assert_eq!(open_player_window(&mut registry, Outcome::Created), Ok(()));
    let window = registry.get("player").expect("the player view is open");
    assert_eq!(window.label, "player");
    assert_eq!(window.title, "VTT - Player View");
    assert_eq!(window.width, 1920);
    assert_eq!(window.height, 1080);
    assert_eq!(window.content, "index.html");
}

#[test]
fn present_window_is_left_alone() {
    let mut registry = WindowRegistry::new();
    let existing = WindowConfig {
        label: String::from("player"),
        title: String::from("Already here"),
        width: 640,
        height: 480,
        content: String::from("index.html"),
    };
    assert!(registry.register(existing.clone()));
    let result = open_player_window(&mut registry, Outcome::Created);
    assert_eq!(result, Ok(()));
    assert_eq!(registry.count("player"), 1);
    assert_eq!(registry.len(), 1);
    assert_eq!(registry.get("player"), Some(&existing));
}

#[test]
fn present_window_never_reaches_the_runtime() {
    let mut registry = WindowRegistry::new();
    assert_eq!(open_player_window(&mut registry, Outcome::Created), Ok(()));
    let result = open_player_window(&mut registry, Outcome::Failed(String::from("unreachable")));
    assert_eq!(result, Ok(()));
    assert_eq!(registry.len(), 1);
}

#[test]
fn failed_creation_is_reported_and_registers_nothing() {
    let mut registry = WindowRegistry::new();
    let result = open_player_window(
        &mut registry,
        Outcome::Failed(String::from("failed to create webview")),
    );
    assert_eq!(result, Err(String::from("failed to create webview")));
    assert!(!result.unwrap_err().is_empty());
    assert_eq!(registry.count("player"), 0);
    assert!(!registry.contains("player"));
    assert_eq!(registry.len(), 0);
    assert_eq!(registry.player_state(), PlayerState::Absent);
}

#[test]
fn invoking_twice_opens_one_window() {
    let mut registry = WindowRegistry::new();
    assert_eq!(open_player_window(&mut registry, Outcome::Created), Ok(()));
    assert_eq!(open_player_window(&mut registry, Outcome::Created), Ok(()));
    assert_eq!(registry.count("player"), 1);
    assert_eq!(registry.len(), 1);
}

#[test]
fn success_after_a_failure_opens_the_window() {
    let mut registry = WindowRegistry::new();
    let first = open_player_window(&mut registry, Outcome::Failed(String::from("busy")));
    assert_eq!(first, Err(String::from("busy")));
    assert_eq!(registry.count("player"), 0);
    let second = open_player_window(&mut registry, Outcome::Created);
    assert_eq!(second, Ok(()));
    assert_eq!(registry.count("player"), 1);
}

#[test]
fn other_windows_stay_open() {
    let mut registry = WindowRegistry::new();
    assert!(registry.register(main_window()));
    assert_eq!(open_player_window(&mut registry, Outcome::Created), Ok(()));
    assert_eq!(registry.len(), 2);
    assert_eq!(registry.get("main"), Some(&main_window()));
    assert_eq!(registry.count("main"), 1);
    assert_eq!(registry.count("player"), 1);
}

#[test]
fn failure_leaves_other_windows_as_they_were() {
    let mut registry = WindowRegistry::new();
    assert!(registry.register(main_window()));
    let result = open_player_window(&mut registry, Outcome::Failed(String::from("no display")));
    assert_eq!(result, Err(String::from("no display")));
    assert_eq!(registry.len(), 1);
    assert_eq!(registry.get("main"), Some(&main_window()));
    assert_eq!(registry.get("player"), None);
}

#[test]
fn plan_asks_for_nothing_while_present() {
    assert_eq!(plan(PlayerState::Present), Action::Nothing);
}

#[test]
fn plan_asks_for_the_player_view_while_absent() {
    let expected = WindowConfig {
        label: String::from("player"),
        title: String::from("VTT - Player View"),
        width: 1920,
        height: 1080,
        content: String::from("index.html"),
    };
    assert_eq!(plan(PlayerState::Absent), Action::Create(expected));
}

#[test]
fn settle_turns_creation_into_success() {
    assert_eq!(settle(Outcome::Created), Ok(()));
}

#[test]
fn settle_hands_the_description_on_unchanged() {
    assert_eq!(
        settle(Outcome::Failed(String::from("window limit reached"))),
        Err(String::from("window limit reached"))
    );
    assert_eq!(settle(Outcome::Failed(String::new())), Err(String::new()));
}

#[test]
fn observed_state_follows_presence() {
    assert_eq!(PlayerState::observed(true), PlayerState::Present);
    assert_eq!(PlayerState::observed(false), PlayerState::Absent);
}

#[test]
fn advance_follows_the_state_machine() {
    let failed = Outcome::Failed(String::from("refused"));
    assert_eq!(PlayerState::Present.advance(&Outcome::Created), PlayerState::Present);
    assert_eq!(PlayerState::Present.advance(&failed), PlayerState::Present);
    assert_eq!(PlayerState::Absent.advance(&Outcome::Created), PlayerState::Present);
    assert_eq!(PlayerState::Absent.advance(&failed), PlayerState::Absent);
}

#[test]
fn registry_state_agrees_with_advance() {
    let mut registry = WindowRegistry::new();
    let before = registry.player_state();
    let outcome = Outcome::Created;
    let predicted = before.advance(&outcome);
    assert_eq!(open_player_window(&mut registry, outcome), Ok(()));
    assert_eq!(registry.player_state(), predicted);
}

#[test]
fn clones_are_equal_to_their_source() {
    let failed = Outcome::Failed(String::from("refused"));
    assert_eq!(failed.clone(), failed);
    assert_eq!(Outcome::Created.clone(), Outcome::Created);
    let action = plan(PlayerState::Absent);
    assert_eq!(action.clone(), action);
    assert_eq!(Action::Nothing.clone(), Action::Nothing);
}
