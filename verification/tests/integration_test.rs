use buddytype::engine::input_processor::{
    create_input_state, process_backspace, process_char, process_ctrl_backspace, process_space,
};
use buddytype::engine::stats_calculator::{
    build_test_result, calculate_consistency, calculate_stats,
};
use buddytype::engine::timer::{create_timer, remaining_ms, start_timer, tick_timer};
use buddytype::engine::word_generator::generate_words;
use buddytype::types::{GeneratorConfig, TestConfig};

fn text(chars: &[char]) -> String {
    chars.iter().collect()
}

#[test]
fn simulates_complete_word_mode_test() {
    // 1. Generate words
    let words = generate_words(&GeneratorConfig {
        language: "english".to_string(),
        count: 3,
        punctuation: false,
        numbers: false,
    });
    assert_eq!(words.len(), 3);

    // 2. Create input state
    let mut state = create_input_state(&words);
    assert!(!state.finished);

    // 3. Type each word perfectly + space
    for w in &words {
        for ch in w.chars() {
            state = process_char(state, ch);
        }
        state = process_space(state);
    }

    // 4. Should be finished
    assert!(state.finished);

    // 5. Calculate stats
    let stats = calculate_stats(&state, 10_000);
    assert!(stats.wpm_hundredths > 0);
    assert_eq!(stats.accuracy_hundredths, 10000);
    assert_eq!(stats.incorrect_chars, 0);
    assert_eq!(stats.extra_chars, 0);
    assert_eq!(stats.missed_chars, 0);
}

#[test]
fn simulates_test_with_errors_and_corrections() {
    let words: Vec<String> = vec!["hello".to_string(), "world".to_string()];
    let mut state = create_input_state(&words);

    // Type "hello" with a mistake, then fix it
    state = process_char(state, 'h');
    state = process_char(state, 'x'); // typo
    state = process_backspace(state);
    state = process_char(state, 'e');
    state = process_char(state, 'l');
    state = process_char(state, 'l');
    state = process_char(state, 'o');
    state = process_space(state);

    // Type "world" correctly
    for ch in "world".chars() {
        state = process_char(state, ch);
    }
    state = process_space(state);

    assert!(state.finished);

    let stats = calculate_stats(&state, 30_000);
    assert!(stats.wpm_hundredths > 0);
    assert!(stats.accuracy_hundredths < 10000);
    assert!(stats.accuracy_hundredths > 0);
}

#[test]
fn simulates_ctrl_backspace_during_typing() {
    let mut state = create_input_state(&["test".to_string(), "word".to_string()]);

    state = process_char(state, 't');
    state = process_char(state, 'x');
    state = process_char(state, 'y');
    state = process_ctrl_backspace(state);

    assert_eq!(text(&state.words[0].typed), "");
    assert_eq!(state.cursor_position, 0);
    assert_eq!(state.current_word_index, 0);

    for ch in "test".chars() {
        state = process_char(state, ch);
    }
    state = process_space(state);
    assert_eq!(state.current_word_index, 1);
}

#[test]
fn calculates_consistency_from_wpm_history() {
    let steady = calculate_consistency(&[6000, 6200, 5800, 6100, 5900, 6000]);
    assert!(steady > 9000);

    let erratic = calculate_consistency(&[2000, 8000, 1500, 9000, 2500, 7500]);
    assert!(erratic < 4000);

    assert!(steady > erratic);
}

#[test]
fn timer_works_with_full_test_flow() {
    let timer = create_timer(Some(30));
    let now: u64 = 100_000;
    let started = start_timer(timer, now);

    assert!(started.running);
    assert_eq!(started.elapsed_ms, 0);
    assert_eq!(remaining_ms(&started), Some(30_000));

    // Simulate some elapsed time
    let midway = tick_timer(started, now + 15_000);
    assert_eq!(midway.elapsed_ms, 15_000);
    assert_eq!(remaining_ms(&midway), Some(15_000));
}

#[test]
fn handles_extra_characters_in_stats() {
    let mut state = create_input_state(&["hi".to_string()]);
    state = process_char(state, 'h');
    state = process_char(state, 'i');
    state = process_char(state, 'x'); // extra
    state = process_char(state, 'y'); // extra
    state = process_space(state);

    let stats = calculate_stats(&state, 10_000);
    assert_eq!(stats.extra_chars, 2);
    assert_eq!(stats.wpm_hundredths, 0); // extra chars means word not correct
    assert!(stats.raw_wpm_hundredths > 0);
}

#[test]
fn handles_missed_characters_in_stats() {
    let mut state = create_input_state(&["hello".to_string(), "ok".to_string()]);
    state = process_char(state, 'h');
    state = process_char(state, 'e');
    state = process_space(state);

    let stats = calculate_stats(&state, 10_000);
    assert_eq!(stats.missed_chars, 3); // l, l, o
}

#[test]
fn going_back_to_previous_word_preserves_state() {
    let mut state = create_input_state(&["hello".to_string(), "world".to_string()]);

    for ch in "hello".chars() {
        state = process_char(state, ch);
    }
    state = process_space(state);
    assert_eq!(state.current_word_index, 1);

    state = process_backspace(state);
    assert_eq!(state.current_word_index, 0);
    assert_eq!(text(&state.words[0].typed), "hello");
    assert!(!state.words[0].completed);
    assert_eq!(state.cursor_position, 5);
}

// ── Session scenarios ───────────────────────────────────────────────

#[test]
fn wrong_word_sealed_by_space_scores_one_third() {
    // Words "hi", "ok"; type 'x', 'i', then space.
    let state = create_input_state(&["hi".to_string(), "ok".to_string()]);
    let state = process_char(state, 'x');
    let state = process_char(state, 'i');
    let state = process_space(state);

    assert!(state.words[0].completed);
    assert_eq!(text(&state.words[0].typed), "xi");
    assert_ne!(text(&state.words[0].typed), text(&state.words[0].word));
    assert_eq!(state.keypress_correct, 1);
    assert_eq!(state.keypress_incorrect, 2);

    let stats = calculate_stats(&state, 10_000);
    assert!((stats.accuracy_hundredths as i64 - 3333).abs() < 1);
    assert_eq!(stats.wpm_hundredths, 0); // no fully-correct completed words
    assert!(stats.raw_wpm_hundredths > 0);
}

#[test]
fn skipping_most_of_a_word_counts_its_missed_chars() {
    // Words "hello", "world"; type 'h', 'e', then space.
    let mut state = create_input_state(&["hello".to_string(), "world".to_string()]);
    state = process_char(state, 'h');
    state = process_char(state, 'e');
    state = process_space(state);

    let stats = calculate_stats(&state, 10_000);
    assert_eq!(stats.missed_chars, 3);
}

#[test]
fn timer_scenario_expiry_and_midway_reading() {
    // Limit 1000 ms, started at T.
    let start: u64 = 50_000;

    // A tick 1500 ms in expires and stops the timer.
    let timer = start_timer(create_timer(Some(1)), start);
    let late = tick_timer(timer, start + 1_500);
    assert!(late.expired);
    assert!(!late.running);

    // A tick 500 ms in leaves it running with about half a second left.
    let timer = start_timer(create_timer(Some(1)), start);
    let early = tick_timer(timer, start + 500);
    assert!(!early.expired);
    assert!(early.running);
    assert_eq!(remaining_ms(&early), Some(500));
}

#[test]
fn builds_the_final_record_from_a_finished_session() {
    let mut state = create_input_state(&["hi".to_string(), "no".to_string()]);
    for ch in "hi".chars() {
        state = process_char(state, ch);
    }
    state = process_space(state);
    state = process_char(state, 'x');
    state = process_char(state, 'o');
    state = process_space(state);
    assert!(state.finished);

    let config = TestConfig::default();
    let history: Vec<u64> = vec![4000, 4000, 4000];
    let result = build_test_result(&state, 60_000, &history, &config);

    // "hi" + its space are the only fully-correct word characters:
    // (3/5)/1 = 0.6 wpm, which rounds to 1 whole wpm.
    assert_eq!(result.wpm, 1);
    assert_eq!(result.total_words, 2);
    assert_eq!(result.correct_words, 1);
    assert_eq!(result.consistency_hundredths, 10000);
    assert_eq!(result.elapsed_ms, 60_000);
    // 3 correct chars + 1 correct space vs 1 wrong char + 1 wrong space:
    // 4 of 6 keypresses, 66.67%.
    assert!((result.accuracy_hundredths as i64 - 6667).abs() < 1);
    assert_eq!(result.config.language, config.language);
}

#[test]
fn identical_final_records_for_identical_inputs() {
    let mut state = create_input_state(&["ab".to_string()]);
    state = process_char(state, 'a');
    state = process_char(state, 'b');
    state = process_space(state);
    let config = TestConfig::default();
    let history: Vec<u64> = vec![3000, 3100];
    let a = build_test_result(&state, 12_345, &history, &config);
    let b = build_test_result(&state, 12_345, &history, &config);
    assert_eq!(a.wpm, b.wpm);
    assert_eq!(a.raw_wpm, b.raw_wpm);
    assert_eq!(a.accuracy_hundredths, b.accuracy_hundredths);
    assert_eq!(a.consistency_hundredths, b.consistency_hundredths);
    assert_eq!(a.correct_chars, b.correct_chars);
    assert_eq!(a.missed_chars, b.missed_chars);
}
