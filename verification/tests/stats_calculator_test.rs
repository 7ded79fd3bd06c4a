use buddytype::engine::input_processor::{
    create_input_state, process_backspace, process_char, process_space,
};
use buddytype::engine::stats_calculator::{calculate_consistency, calculate_stats};

// ── calculate_stats ─────────────────────────────────────────────────
// Rates carry two decimals as hundredths; elapsed time is in milliseconds.

#[test]
fn returns_zeros_for_zero_elapsed_time() {
    let state = create_input_state(&["hello".to_string()]);
    let stats = calculate_stats(&state, 0);
    assert_eq!(stats.wpm_hundredths, 0);
    assert_eq!(stats.raw_wpm_hundredths, 0);
    assert_eq!(stats.accuracy_hundredths, 0);
}

#[test]
fn calculates_wpm_correctly_for_perfect_typing() {
    let state = create_input_state(&["hello".to_string(), "world".to_string()]);
    // Type "hello" correctly
    let mut state = state;
    for c in "hello".chars() {
        state = process_char(state, c);
    }
    state = process_space(state);
    // Type "world" correctly
    for c in "world".chars() {
        state = process_char(state, c);
    }

    // "hello" (5 chars) + 1 space = 6 correct word chars
    // In 12 seconds: (6 / 5) / (12 / 60) = 1.2 / 0.2 = 6 WPM
    let stats = calculate_stats(&state, 12_000);
    assert!((stats.wpm_hundredths as i64 - 600).abs() < 100);
    assert!((stats.raw_wpm_hundredths as i64 - 1100).abs() < 100);
    assert_eq!(stats.accuracy_hundredths, 10000);
}

#[test]
fn calculates_wpm_only_for_entirely_correct_words() {
    let state = create_input_state(&[
        "hello".to_string(),
        "world".to_string(),
        "test".to_string(),
    ]);
    let mut state = state;
    for c in "hello".chars() {
        state = process_char(state, c);
    }
    state = process_space(state);
    // "world" with a typo
    for c in "worxd".chars() {
        state = process_char(state, c);
    }
    state = process_space(state);
    for c in "test".chars() {
        state = process_char(state, c);
    }
    state = process_space(state);

    // WPM: "hello"(5)+space(1) + "test"(4)+space(1) = 11 correct word chars
    // In 60 seconds: (11/5)/1 = 2.2 WPM
    let stats = calculate_stats(&state, 60_000);
    assert!((stats.wpm_hundredths as i64 - 220).abs() < 10);
}

#[test]
fn tracks_incorrect_characters() {
    let state = create_input_state(&["hi".to_string()]);
    let state = process_char(state, 'x'); // incorrect
    let state = process_char(state, 'i'); // correct

    let stats = calculate_stats(&state, 10_000);
    assert_eq!(stats.correct_chars, 1);
    assert_eq!(stats.incorrect_chars, 1);
    assert_eq!(stats.accuracy_hundredths, 5000);
}

#[test]
fn tracks_extra_characters() {
    let state = create_input_state(&["hi".to_string()]);
    let state = process_char(state, 'h');
    let state = process_char(state, 'i');
    let state = process_char(state, 'x'); // extra

    let stats = calculate_stats(&state, 10_000);
    assert_eq!(stats.extra_chars, 1);
    assert_eq!(stats.correct_chars, 2);
}

#[test]
fn tracks_missed_characters() {
    let state = create_input_state(&["hello".to_string(), "world".to_string()]);
    let state = process_char(state, 'h');
    let state = process_space(state); // skip rest of "hello"

    let stats = calculate_stats(&state, 10_000);
    assert_eq!(stats.missed_chars, 4); // missed e, l, l, o
}

#[test]
fn keeps_accuracy_penalty_for_corrected_mistakes() {
    let state = create_input_state(&["hi".to_string()]);
    let state = process_char(state, 'x'); // incorrect
    let state = process_backspace(state);
    let state = process_char(state, 'h'); // correct
    let state = process_char(state, 'i'); // correct

    let stats = calculate_stats(&state, 10_000);
    assert_eq!(stats.correct_chars, 2);
    assert_eq!(stats.incorrect_chars, 0);
    // 2 correct / 3 total = 66.67%
    assert!((stats.accuracy_hundredths as i64 - 6667).abs() < 1);
}

#[test]
fn counts_space_as_incorrect_when_word_has_errors() {
    let state = create_input_state(&["hi".to_string(), "ok".to_string()]);
    let state = process_char(state, 'x');
    let state = process_char(state, 'i');
    let state = process_space(state);

    // x(incorrect), i(correct), space(incorrect) = 1 correct, 2 incorrect
    let stats = calculate_stats(&state, 10_000);
    assert!((stats.accuracy_hundredths as i64 - 3333).abs() < 1);
}

#[test]
fn counts_space_as_correct_when_word_is_perfect() {
    let state = create_input_state(&["hi".to_string(), "ok".to_string()]);
    let state = process_char(state, 'h');
    let state = process_char(state, 'i');
    let state = process_space(state);

    let stats = calculate_stats(&state, 10_000);
    assert_eq!(stats.accuracy_hundredths, 10000);
}

#[test]
fn raw_wpm_includes_all_typed_chars_including_spaces() {
    let state = create_input_state(&["hi".to_string(), "ok".to_string()]);
    let mut state = state;
    for c in "hi".chars() {
        state = process_char(state, c);
    }
    state = process_space(state);
    for c in "ok".chars() {
        state = process_char(state, c);
    }

    // Raw: 4 chars + 1 space = 5 total
    // In 60 seconds: (5/5)/1 = 1 raw WPM
    let stats = calculate_stats(&state, 60_000);
    assert_eq!(stats.raw_wpm_hundredths, 100);
}

#[test]
fn wpm_is_zero_when_no_words_completed() {
    let state = create_input_state(&["hello".to_string()]);
    let state = process_char(state, 'h');
    let state = process_char(state, 'e');
    let stats = calculate_stats(&state, 10_000);
    assert_eq!(stats.wpm_hundredths, 0);
    assert!(stats.raw_wpm_hundredths > 0);
}

#[test]
fn wpm_is_zero_when_all_completed_words_have_errors() {
    let state = create_input_state(&["hi".to_string(), "ok".to_string()]);
    let state = process_char(state, 'x');
    let state = process_char(state, 'y');
    let state = process_space(state);
    let stats = calculate_stats(&state, 10_000);
    assert_eq!(stats.wpm_hundredths, 0);
}

#[test]
fn handles_multiple_completed_words() {
    let state = create_input_state(&[
        "a".to_string(),
        "b".to_string(),
        "c".to_string(),
        "d".to_string(),
    ]);
    let mut state = state;
    for w in ["a", "b", "c", "d"] {
        for c in w.chars() {
            state = process_char(state, c);
        }
        state = process_space(state);
    }
    let stats = calculate_stats(&state, 60_000);
    assert!(stats.wpm_hundredths > 0);
    assert_eq!(stats.accuracy_hundredths, 10000);
}

#[test]
fn counts_multiple_missed_chars_across_words() {
    let state = create_input_state(&[
        "hello".to_string(),
        "world".to_string(),
        "test".to_string(),
    ]);
    let mut state = state;
    // Type only 2 chars of "hello"
    state = process_char(state, 'h');
    state = process_char(state, 'e');
    state = process_space(state); // missed l, l, o = 3
    // Type only 1 char of "world"
    state = process_char(state, 'w');
    state = process_space(state); // missed o, r, l, d = 4

    let stats = calculate_stats(&state, 10_000);
    assert_eq!(stats.missed_chars, 7);
}

#[test]
fn accuracy_is_100_when_nothing_typed() {
    let state = create_input_state(&["hello".to_string()]);
    let stats = calculate_stats(&state, 10_000);
    assert_eq!(stats.accuracy_hundredths, 10000);
}

#[test]
fn elapsed_seconds_is_reflected_in_stats() {
    let state = create_input_state(&["hello".to_string()]);
    let stats = calculate_stats(&state, 42_000);
    assert_eq!(stats.elapsed_ms, 42_000);
}

#[test]
fn identical_inputs_give_identical_snapshots() {
    let state = create_input_state(&["hi".to_string(), "ok".to_string()]);
    let state = process_char(state, 'h');
    let state = process_char(state, 'x');
    let state = process_space(state);
    let a = calculate_stats(&state, 7_300);
    let b = calculate_stats(&state, 7_300);
    assert_eq!(a, b);
}

// ── calculate_consistency ───────────────────────────────────────────
// Samples and scores are both in hundredths.

#[test]
fn consistency_100_for_uniform_wpm() {
    let consistency = calculate_consistency(&[5000, 5000, 5000, 5000]);
    assert_eq!(consistency, 10000);
}

#[test]
fn consistency_100_for_single_sample() {
    assert_eq!(calculate_consistency(&[5000]), 10000);
}

#[test]
fn consistency_lower_for_variable_wpm() {
    let consistency = calculate_consistency(&[2000, 8000, 3000, 7000]);
    assert!(consistency < 5500);
    assert!(consistency > 4000);
}

#[test]
fn consistency_0_for_zero_mean() {
    assert_eq!(calculate_consistency(&[0, 0, 0]), 0);
}

#[test]
fn consistency_bounded_0_to_100() {
    let result = calculate_consistency(&[100, 10000, 100, 10000]);
    assert!(result <= 10000);
}

#[test]
fn highly_consistent_typing_above_90() {
    let consistency = calculate_consistency(&[5800, 6200, 6000, 6100, 5900, 6000]);
    assert!(consistency > 9000);
}

#[test]
fn very_erratic_typing_below_30() {
    let consistency = calculate_consistency(&[1000, 9000, 500, 9500, 1500, 8500]);
    assert!(consistency < 3000);
}

#[test]
fn consistency_100_for_empty_array() {
    assert_eq!(calculate_consistency(&[]), 10000);
}

#[test]
fn moderate_variation_between_50_and_90() {
    let consistency = calculate_consistency(&[4000, 6000, 4500, 5500, 5000]);
    assert!(consistency > 5000);
    assert!(consistency < 9000);
}

#[test]
fn consistency_is_zero_past_the_transform_tail() {
    // One lone nonzero sample: the coefficient of variation is sqrt(3),
    // past the point where the transform has decayed to zero.
    assert_eq!(calculate_consistency(&[0, 0, 0, 1]), 0);
}
