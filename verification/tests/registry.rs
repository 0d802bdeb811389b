use player_window::registry::WindowRegistry;
use player_window::window::WindowConfig;

fn window(label: &str, title: &str) -> WindowConfig {
    WindowConfig {
        label: String::from(label),
        title: String::from(title),
        width: 1024,
        height: 768,
        content: String::from("index.html"),
    }
}

#[test]
fn new_registry_is_empty() {
    let registry = WindowRegistry::new();
    assert_eq!(registry.len(), 0);
    assert!(!registry.contains("player"));
    assert_eq!(registry.count("player"), 0);
    assert_eq!(registry.get("player"), None);
}

#[test]
fn register_adds_a_new_label() {
    let mut registry = WindowRegistry::new();
    assert!(registry.register(window("main", "Main")));
    assert_eq!(registry.len(), 1);
    assert!(registry.contains("main"));
    assert_eq!(registry.get("main"), Some(&window("main", "Main")));
}

#[test]
fn register_refuses_a_taken_label() {
    let mut registry = WindowRegistry::new();
    assert!(registry.register(window("main", "First")));
    assert!(!registry.register(window("main", "Second")));
    assert_eq!(registry.len(), 1);
    assert_eq!(registry.count("main"), 1);
    assert_eq!(registry.get("main"), Some(&window("main", "First")));
}

#[test]
fn lookup_tells_labels_apart() {
    let mut registry = WindowRegistry::new();
    assert!(registry.register(window("main", "Main")));
    assert!(registry.register(window("player", "Player")));
    assert!(registry.register(window("", "Unnamed")));
    assert_eq!(registry.len(), 3);
    assert_eq!(registry.get("player"), Some(&window("player", "Player")));
    assert_eq!(registry.get(""), Some(&window("", "Unnamed")));
    assert_eq!(registry.get("Player"), None);
    assert_eq!(registry.count("play"), 0);
    assert!(!registry.contains("players"));
}

#[test]
fn player_description_is_fixed() {
    let config = WindowConfig::player();
    assert_eq!(config.label, "player");
    assert_eq!(config.title, "VTT - Player View");
    assert_eq!(config.width, 1920);
    assert_eq!(config.height, 1080);
    assert_eq!(config.content, "index.html");
    assert_eq!(WindowConfig::player_label(), "player");
    assert_eq!(config.clone(), config);
}
