use guessing_game::config::Difficulty;
use guessing_game::config::GameConfig;
use guessing_game::error::GameError;
use guessing_game::parse::parse_difficulty;
use guessing_game::parse::parse_guess;
use guessing_game::parse::parse_retry;
use guessing_game::parse::parse_u32;

#[test]
fn guess_in_range_is_accepted() {
    let config = GameConfig::new(Difficulty::Normal);
    assert_eq!(parse_guess("50", &config), Ok(50));
    assert_eq!(parse_guess("1", &config), Ok(1));
    assert_eq!(parse_guess("100", &config), Ok(100));
}

#[test]
fn guess_outside_range_is_rejected() {
    let config = GameConfig::new(Difficulty::Normal);
    assert_eq!(
        parse_guess("0", &config),
        Err(GameError::OutOfRange { min: 1, max: 100 })
    );
    assert_eq!(
        parse_guess("101", &config),
        Err(GameError::OutOfRange { min: 1, max: 100 })
    );
}

#[test]
fn non_numeral_guess_is_a_parse_error() {
    let config = GameConfig::new(Difficulty::Normal);
    assert_eq!(parse_guess("abc", &config), Err(GameError::ParseError));
    assert_eq!(parse_guess("", &config), Err(GameError::ParseError));
    assert_eq!(parse_guess("12.5", &config), Err(GameError::ParseError));
    assert_eq!(parse_guess("１０", &config), Err(GameError::ParseError));
    assert_eq!(parse_guess("-1", &config), Err(GameError::ParseError));
    assert_eq!(parse_guess(" 50", &config), Err(GameError::ParseError));
    assert_eq!(parse_guess("50 ", &config), Err(GameError::ParseError));
}

#[test]
fn numeral_parsing_is_strict_base_10() {
    assert_eq!(parse_u32("0"), Some(0));
    assert_eq!(parse_u32("42"), Some(42));
    assert_eq!(parse_u32("+42"), Some(42));
    assert_eq!(parse_u32("007"), Some(7));
    assert_eq!(parse_u32("4294967295"), Some(u32::MAX));
    assert_eq!(parse_u32("4294967296"), None);
    assert_eq!(parse_u32("99999999999999999999"), None);
    assert_eq!(parse_u32("+"), None);
    assert_eq!(parse_u32("++1"), None);
    assert_eq!(parse_u32("1e3"), None);
    assert_eq!(parse_u32("0x10"), None);
}

#[test]
fn menu_lines_select_difficulties() {
    assert_eq!(parse_difficulty("1"), Some(Difficulty::Easy));
    assert_eq!(parse_difficulty("2"), Some(Difficulty::Normal));
    assert_eq!(parse_difficulty("3"), Some(Difficulty::Hard));
    assert_eq!(parse_difficulty("4"), None);
    assert_eq!(parse_difficulty(""), None);
    assert_eq!(parse_difficulty("12"), None);
    assert_eq!(parse_difficulty("one"), None);
}

#[test]
fn retry_answers_are_case_insensitive() {
    assert_eq!(parse_retry("y"), Some(true));
    assert_eq!(parse_retry("Y"), Some(true));
    assert_eq!(parse_retry("yes"), Some(true));
    assert_eq!(parse_retry("YES"), Some(true));
    assert_eq!(parse_retry("yEs"), Some(true));
    assert_eq!(parse_retry("n"), Some(false));
    assert_eq!(parse_retry("N"), Some(false));
    assert_eq!(parse_retry("no"), Some(false));
    assert_eq!(parse_retry("NO"), Some(false));
    assert_eq!(parse_retry("maybe"), None);
    assert_eq!(parse_retry(""), None);
    assert_eq!(parse_retry("yess"), None);
    assert_eq!(parse_retry("ye"), None);
}
