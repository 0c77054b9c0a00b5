use guessing_game::config::Difficulty;
use guessing_game::config::GameConfig;

#[test]
fn config_test_easy_valid_range() {
    let config = GameConfig::new(Difficulty::Easy);
    assert!(!config.is_valid_range(0));
    assert!(config.is_valid_range(1));
    assert!(config.is_valid_range(50));
    assert!(!config.is_valid_range(51));
}

#[test]
fn config_test_normal_valid_range() {
    let config = GameConfig::new(Difficulty::Normal);
    assert!(!config.is_valid_range(0));
    assert!(config.is_valid_range(1));
    assert!(config.is_valid_range(100));
    assert!(!config.is_valid_range(101));
}

#[test]
fn config_test_hard_valid_range() {
    let config = GameConfig::new(Difficulty::Hard);
    assert!(!config.is_valid_range(0));
    assert!(config.is_valid_range(1));
    assert!(config.is_valid_range(200));
    assert!(!config.is_valid_range(201));
}

#[test]
fn main_test_easy_valid_range() {
    let config = GameConfig::new(Difficulty::Easy);
    assert!(!config.is_valid_range(0));
    assert!(config.is_valid_range(1));
    assert!(config.is_valid_range(50));
    assert!(!config.is_valid_range(51));
}

#[test]
fn main_test_normal_valid_range() {
    let config = GameConfig::new(Difficulty::Normal);
    assert!(!config.is_valid_range(0));
    assert!(config.is_valid_range(1));
    assert!(config.is_valid_range(100));
    assert!(!config.is_valid_range(101));
}

#[test]
fn main_test_hard_valid_range() {
    let config = GameConfig::new(Difficulty::Hard);
    assert!(!config.is_valid_range(0));
    assert!(config.is_valid_range(1));
    assert!(config.is_valid_range(200));
    assert!(!config.is_valid_range(201));
}

#[test]
fn resolve_matches_preset_table() {
    let easy = GameConfig::new(Difficulty::Easy);
    assert_eq!(easy.min, 1);
    assert_eq!(easy.max, 50);
    assert_eq!(easy.name, "Beginner");

    let normal = GameConfig::new(Difficulty::Normal);
    assert_eq!(normal.min, 1);
    assert_eq!(normal.max, 100);
    assert_eq!(normal.name, "Intermediate");

    let hard = GameConfig::new(Difficulty::Hard);
    assert_eq!(hard.min, 1);
    assert_eq!(hard.max, 200);
    assert_eq!(hard.name, "Advanced");
}

#[test]
fn valid_range_is_interval_membership() {
    let config = GameConfig {
        min: 10,
        max: 20,
        name: String::from("Custom"),
    };
    assert!(!config.is_valid_range(9));
    assert!(config.is_valid_range(10));
    assert!(config.is_valid_range(15));
    assert!(config.is_valid_range(20));
    assert!(!config.is_valid_range(21));
}
