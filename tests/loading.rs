use terminal_tarot::default_files::{default_dir_name, default_file_names, should_write_file, ElementType};
use terminal_tarot::stored_element::{candidate_pick, format_for_extension, take_candidate, FileFormat, LoadError, Pick};

#[test]
fn json_extension_selects_json() {
    assert_eq!(format_for_extension(&Some("json".to_string())), Ok(FileFormat::Json));
}

#[test]
fn other_extensions_are_refused() {
    assert_eq!(format_for_extension(&Some("txt".to_string())), Err(LoadError::UnsupportedExtension));
    assert_eq!(format_for_extension(&Some("JSON".to_string())), Err(LoadError::UnsupportedExtension));
    assert_eq!(format_for_extension(&Some(String::new())), Err(LoadError::UnsupportedExtension));
    assert_eq!(format_for_extension(&None), Err(LoadError::MissingExtension));
}

#[test]
fn single_candidate_is_taken_without_menu() {
    assert_eq!(candidate_pick(1), Ok(Pick::Only));
    assert_eq!(take_candidate(vec!["only"], 0), Ok("only"));
    assert_eq!(take_candidate(vec!["only"], 5), Ok("only"));
}

#[test]
fn several_candidates_need_a_menu() {
    assert_eq!(candidate_pick(2), Ok(Pick::Menu));
    assert_eq!(candidate_pick(9), Ok(Pick::Menu));
    assert_eq!(take_candidate(vec!["a", "b", "c"], 1), Ok("b"));
    assert_eq!(take_candidate(vec!["a", "b", "c"], 3), Err(LoadError::SelectionOutOfRange));
}

#[test]
fn no_candidates_is_an_error() {
    assert_eq!(candidate_pick(0), Err(LoadError::NoCandidates));
    assert_eq!(take_candidate(Vec::<u8>::new(), 0), Err(LoadError::NoCandidates));
}

#[test]
fn default_locations() {
    assert_eq!(default_dir_name(ElementType::Deck), "default_decks");
    assert_eq!(default_dir_name(ElementType::Spread), "default_spreads");
    assert_eq!(default_file_names(ElementType::Deck), vec!["standard_deck.json"]);
    assert_eq!(default_file_names(ElementType::Spread), vec!["debug_spread.json", "celtic_cross.json"]);
}

#[test]
fn default_files_written_when_missing_or_asked() {
    assert!(should_write_file(false, false));
    assert!(should_write_file(false, true));
    assert!(should_write_file(true, true));
    assert!(!should_write_file(true, false));
}
