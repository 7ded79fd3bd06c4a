use buddytype::data::themes::{dark_theme, get_theme, get_theme_names, light_theme, parse_hex};
use buddytype::engine::input_processor::create_input_state;
use buddytype::screens::menu::{
    apply_field_change, cycle_time_limit, cycle_word_count, field_count, get_fields, handle_key,
    move_selection, MenuAction, MenuField, MenuState, PickerKind,
};
use buddytype::text::{
    capitalize_word, chars_eq, contains_sub, lower_chars, str_eq, str_to_chars, to_lower_chars,
    u64_to_string,
};
use buddytype::types::{Key, Rgb, TestConfig, TestMode};
use buddytype::ui::picker::{PickerResult, PickerState};
use buddytype::ui::word_display::{compute_lines, compute_tape_range};

// ── Text helpers ────────────────────────────────────────────────────

#[test]
fn splits_a_string_into_characters() {
    assert_eq!(str_to_chars("abc"), vec!['a', 'b', 'c']);
    assert_eq!(str_to_chars(""), Vec::<char>::new());
}

#[test]
fn compares_strings_character_by_character() {
    assert!(str_eq("hello", "hello"));
    assert!(!str_eq("hello", "hellp"));
    assert!(!str_eq("hello", "hell"));
    assert!(str_eq("", ""));
}

#[test]
fn compares_character_vectors() {
    assert!(chars_eq(&vec!['h', 'i'], &vec!['h', 'i']));
    assert!(!chars_eq(&vec!['h', 'i'], &vec!['h', 'o']));
    assert!(!chars_eq(&vec!['h'], &vec!['h', 'i']));
}

#[test]
fn spells_numbers_in_decimal() {
    assert_eq!(u64_to_string(0), "0");
    assert_eq!(u64_to_string(7), "7");
    assert_eq!(u64_to_string(1234), "1234");
    assert_eq!(u64_to_string(1000), "1000");
}

#[test]
fn capitalizes_the_first_letter_only() {
    assert_eq!(capitalize_word(&"hello".to_string()), "Hello");
    assert_eq!(capitalize_word(&"Hello".to_string()), "Hello");
    assert_eq!(capitalize_word(&"123".to_string()), "123");
    assert_eq!(capitalize_word(&"".to_string()), "");
}

#[test]
fn lowers_ascii_letters() {
    assert_eq!(to_lower_chars("HeLLo"), vec!['h', 'e', 'l', 'l', 'o']);
    assert_eq!(lower_chars(&vec!['A', '1', 'z']), vec!['a', '1', 'z']);
}

#[test]
fn finds_substrings() {
    let hay: Vec<char> = "typewriter".chars().collect();
    assert!(contains_sub(&hay, &"write".chars().collect()));
    assert!(contains_sub(&hay, &Vec::new()));
    assert!(!contains_sub(&hay, &"writer x".chars().collect()));
}

// ── Themes and colors ───────────────────────────────────────────────

#[test]
fn decodes_hex_colors() {
    assert_eq!(
        parse_hex("#ff8000"),
        Rgb { red: 255, green: 128, blue: 0 }
    );
    assert_eq!(
        parse_hex("323437"),
        Rgb { red: 0x32, green: 0x34, blue: 0x37 }
    );
}

#[test]
fn short_hex_reads_white() {
    assert_eq!(
        parse_hex("#fff"),
        Rgb { red: 255, green: 255, blue: 255 }
    );
    assert_eq!(parse_hex(""), Rgb { red: 255, green: 255, blue: 255 });
}

#[test]
fn bad_hex_digits_read_zero_per_channel() {
    assert_eq!(parse_hex("#zzff00"), Rgb { red: 0, green: 255, blue: 0 });
}

#[test]
fn extra_leading_hashes_are_skipped() {
    assert_eq!(parse_hex("##102030"), Rgb { red: 0x10, green: 0x20, blue: 0x30 });
}

#[test]
fn theme_lookup_falls_back_to_dark() {
    assert_eq!(get_theme("light").name, light_theme().name);
    assert_eq!(get_theme("dark").name, dark_theme().name);
    assert_eq!(get_theme("no_such_theme").name, "dark");
}

#[test]
fn theme_names_are_sorted() {
    assert_eq!(get_theme_names(), vec!["dark", "light"]);
}

#[test]
fn theme_colors_decode_to_real_colors() {
    // Every registered color must decode, not fall back to white.
    let white = Rgb { red: 255, green: 255, blue: 255 };
    for t in [dark_theme(), light_theme()] {
        assert_ne!(parse_hex(&t.bg), white);
        assert_ne!(parse_hex(&t.accent), white);
        assert_ne!(parse_hex(&t.incorrect), white);
    }
}

// ── Menu ────────────────────────────────────────────────────────────

#[test]
fn menu_starts_on_the_mode_row() {
    let config = TestConfig::default();
    let m = MenuState::new(&config);
    assert_eq!(m.selected_field, MenuField::Mode);
    assert!(m.picker.is_none());
}

#[test]
fn menu_shows_eight_rows_for_each_mode() {
    let mut config = TestConfig::default();
    assert_eq!(field_count(&config), 8);
    let fields = get_fields(&config);
    assert_eq!(fields[1], MenuField::Time);
    config.mode = TestMode::Words;
    let fields = get_fields(&config);
    assert_eq!(field_count(&config), 8);
    assert_eq!(fields[1], MenuField::Words);
}

#[test]
fn time_limits_cycle_both_ways() {
    assert_eq!(cycle_time_limit(15, true), 30);
    assert_eq!(cycle_time_limit(120, true), 15);
    assert_eq!(cycle_time_limit(15, false), 120);
    assert_eq!(cycle_time_limit(999, true), 30);
}

#[test]
fn word_counts_cycle_both_ways() {
    assert_eq!(cycle_word_count(10, true), 25);
    assert_eq!(cycle_word_count(100, true), 10);
    assert_eq!(cycle_word_count(10, false), 100);
    assert_eq!(cycle_word_count(999, false), 100);
}

#[test]
fn stepping_a_row_changes_only_that_setting() {
    let config = TestConfig::default();
    let c = apply_field_change(&config, MenuField::Punctuation, true);
    assert!(c.punctuation);
    assert_eq!(c.mode, config.mode);
    assert_eq!(c.time_limit, config.time_limit);
    assert!(!c.numbers);

    let c = apply_field_change(&config, MenuField::Mode, true);
    assert_eq!(c.mode, TestMode::Words);
    assert!(!c.punctuation);

    let c = apply_field_change(&config, MenuField::Time, true);
    assert_eq!(c.time_limit, 60);
}

#[test]
fn selection_moves_within_the_rows() {
    let down = move_selection(MenuField::Mode, TestMode::Time, true);
    assert_eq!(down, MenuField::Time);
    let up = move_selection(MenuField::Mode, TestMode::Time, false);
    assert_eq!(up, MenuField::Mode);
    let last = move_selection(MenuField::Backspace, TestMode::Time, true);
    assert_eq!(last, MenuField::Backspace);
}

// ── Picker ──────────────────────────────────────────────────────────

fn sample_picker() -> PickerState {
    PickerState::new(
        vec![
            "english".to_string(),
            "french".to_string(),
            "german".to_string(),
        ],
        "french".to_string(),
    )
}

#[test]
fn picker_starts_on_the_selected_item() {
    let p = sample_picker();
    assert_eq!(p.cursor, 1);
    assert_eq!(p.filtered, vec![0, 1, 2]);
    assert_eq!(p.current_highlighted(), Some("french"));
}

#[test]
fn picker_search_filters_case_insensitively() {
    let mut p = sample_picker();
    p.search = vec!['E', 'N'];
    p.refilter();
    // "english" and "french" contain "en"; "german" does not.
    assert_eq!(p.filtered, vec![0, 1]);
    p.search = vec!['m', 'a'];
    p.refilter();
    assert_eq!(p.filtered, vec![2]);
    assert_eq!(p.current_highlighted(), Some("german"));
}

#[test]
fn picker_with_no_matches_highlights_nothing() {
    let mut p = sample_picker();
    p.search = vec!['z', 'z'];
    p.refilter();
    assert!(p.filtered.is_empty());
    assert_eq!(p.current_highlighted(), None);
}

#[test]
fn picker_enter_selects_the_highlight() {
    let mut p = sample_picker();
    match p.handle_key(Key::Enter, false) {
        PickerResult::Selected(s) => assert_eq!(s, "french"),
        _ => panic!("expected a selection"),
    }
}

#[test]
fn picker_esc_cancels() {
    let mut p = sample_picker();
    assert!(matches!(p.handle_key(Key::Esc, false), PickerResult::Cancelled));
}

#[test]
fn picker_arrows_move_the_highlight() {
    let mut p = sample_picker();
    match p.handle_key(Key::Down, false) {
        PickerResult::Highlighted(s) => assert_eq!(s, "german"),
        _ => panic!("expected a highlight"),
    }
    match p.handle_key(Key::Down, false) {
        PickerResult::Highlighted(s) => assert_eq!(s, "german"),
        _ => panic!("expected a highlight"),
    }
    match p.handle_key(Key::Up, false) {
        PickerResult::Highlighted(s) => assert_eq!(s, "french"),
        _ => panic!("expected a highlight"),
    }
}

#[test]
fn picker_typing_narrows_and_backspace_widens() {
    let mut p = sample_picker();
    match p.handle_key(Key::Character('g'), false) {
        PickerResult::Highlighted(s) => assert_eq!(s, "english"),
        _ => panic!("expected a highlight"),
    }
    // "english" and "german" contain 'g'.
    assert_eq!(p.filtered, vec![0, 2]);
    p.handle_key(Key::Character('e'), false);
    assert_eq!(p.filtered, vec![2]); // only "german" contains "ge"
    p.handle_key(Key::Backspace, false);
    assert_eq!(p.filtered, vec![0, 2]);
}

// ── Word display layout ─────────────────────────────────────────────

#[test]
fn lines_partition_all_words() {
    let state = create_input_state(&[
        "alpha".to_string(),
        "beta".to_string(),
        "gamma".to_string(),
        "delta".to_string(),
    ]);
    let lines = compute_lines(&state.words, 12);
    assert!(!lines.is_empty());
    assert_eq!(lines[0].start_index, 0);
    assert_eq!(lines[lines.len() - 1].end_index, 4);
    for w in lines.windows(2) {
        assert_eq!(w[0].end_index, w[1].start_index);
    }
    for l in &lines {
        assert!(l.start_index < l.end_index);
    }
}

#[test]
fn one_long_word_still_gets_a_line() {
    let state = create_input_state(&["extraordinarily".to_string(), "ok".to_string()]);
    let lines = compute_lines(&state.words, 5);
    assert_eq!(lines[0].start_index, 0);
    assert_eq!(lines[lines.len() - 1].end_index, 2);
}

#[test]
fn tape_window_contains_the_current_word() {
    let state = create_input_state(&[
        "one".to_string(),
        "two".to_string(),
        "three".to_string(),
        "four".to_string(),
        "five".to_string(),
    ]);
    let tape = compute_tape_range(&state.words, 2, 0, 40);
    assert!(tape.start_index <= 2);
    assert!(2 < tape.end_index);
    assert!(tape.end_index <= 5);
    assert!(tape.leading_pad <= 20);
}

// ── Menu key handling ───────────────────────────────────────────────

#[test]
fn enter_on_a_plain_row_starts_with_the_current_config() {
    let config = TestConfig::default();
    let mut m = MenuState::new(&config);
    match handle_key(&mut m, Key::Enter, false, &config) {
        MenuAction::Start(c) => {
            assert_eq!(c.language, config.language);
            assert_eq!(c.time_limit, config.time_limit);
        }
        _ => panic!("expected a start action"),
    }
}

#[test]
fn s_opens_the_scores() {
    let config = TestConfig::default();
    let mut m = MenuState::new(&config);
    assert!(matches!(
        handle_key(&mut m, Key::Character('s'), false, &config),
        MenuAction::Scores
    ));
}

#[test]
fn right_on_a_toggle_row_updates_the_config() {
    let config = TestConfig::default();
    let mut m = MenuState::new(&config);
    m.selected_field = MenuField::Numbers;
    match handle_key(&mut m, Key::Right, false, &config) {
        MenuAction::UpdateConfig(c) => {
            assert!(c.numbers);
            assert_eq!(c.mode, config.mode);
        }
        _ => panic!("expected a config update"),
    }
}

#[test]
fn enter_on_the_language_row_opens_a_picker() {
    let config = TestConfig::default();
    let mut m = MenuState::new(&config);
    m.selected_field = MenuField::Language;
    assert!(matches!(
        handle_key(&mut m, Key::Enter, false, &config),
        MenuAction::Idle
    ));
    assert!(matches!(m.picker, Some(PickerKind::Language(_))));

    // Choosing an entry lands it in the configuration and closes the picker.
    match handle_key(&mut m, Key::Enter, false, &config) {
        MenuAction::UpdateConfig(c) => assert_eq!(c.language, "english"),
        _ => panic!("expected a config update"),
    }
    assert!(m.picker.is_none());
}

#[test]
fn cancelling_a_theme_picker_restores_the_theme() {
    let config = TestConfig::default();
    let mut m = MenuState::new(&config);
    m.selected_field = MenuField::Theme;
    handle_key(&mut m, Key::Enter, false, &config);
    assert!(matches!(m.picker, Some(PickerKind::Theme(_))));

    // Moving the highlight previews the highlighted theme.
    let mut previewed = config.clone();
    if let MenuAction::UpdateConfig(c) = handle_key(&mut m, Key::Down, false, &config) {
        previewed = c;
    }
    assert_eq!(previewed.theme, "light");

    // Cancelling restores the theme that was current when the picker opened.
    match handle_key(&mut m, Key::Esc, false, &previewed) {
        MenuAction::UpdateConfig(c) => assert_eq!(c.theme, "dark"),
        other => panic!(
        "expected a config update, not {}",
        match other {
            MenuAction::Idle => "idle",
            MenuAction::Start(_) => "start",
            MenuAction::Scores => "scores",
            MenuAction::UpdateConfig(_) => "update",
        }
    ),
    }
    assert!(m.picker.is_none());
}

#[test]
fn arrows_move_the_menu_highlight() {
    let config = TestConfig::default();
    let mut m = MenuState::new(&config);
    handle_key(&mut m, Key::Down, false, &config);
    assert_eq!(m.selected_field, MenuField::Time);
    handle_key(&mut m, Key::Up, false, &config);
    assert_eq!(m.selected_field, MenuField::Mode);
}
