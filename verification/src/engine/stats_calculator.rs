use crate::arith::{
    isqrt_spec, isqrt_u128, lemma_div_rational_ordered, lemma_isqrt_monotonic, lemma_mul_div_le,
};
use crate::engine::input_processor::{
    lemma_type_word_exactly, spec_process_space, spec_type_chars,
};
use crate::text::chars_eq;
use crate::types::{
    CharResult, InputModel, InputState, StatsSnapshot, TestConfig, TestResult, WordModel,
};
use vstd::arithmetic::div_mod::{
    lemma_div_is_ordered, lemma_div_of0, lemma_div_pos_is_pos, lemma_fundamental_div_mod,
    lemma_fundamental_div_mod_converse,
};
use vstd::prelude::*;

verus! {

// ── Keystroke counting ──────────────────────────────────────────────

/// Keystrokes that hit the expected character (and were not extra).
pub open spec fn n_correct(cs: Seq<CharResult>) -> nat
    decreases cs.len(),
{
    if cs.len() == 0 {
        0
    } else {
        n_correct(cs.drop_last()) + if !cs.last().extra && cs.last().correct {
            1nat
        } else {
            0nat
        }
    }
}

/// Keystrokes that missed the expected character (and were not extra).
pub open spec fn n_incorrect(cs: Seq<CharResult>) -> nat
    decreases cs.len(),
{
    if cs.len() == 0 {
        0
    } else {
        n_incorrect(cs.drop_last()) + if !cs.last().extra && !cs.last().correct {
            1nat
        } else {
            0nat
        }
    }
}

/// Keystrokes typed past the end of the target word.
pub open spec fn n_extra(cs: Seq<CharResult>) -> nat
    decreases cs.len(),
{
    if cs.len() == 0 {
        0
    } else {
        n_extra(cs.drop_last()) + if cs.last().extra {
            1nat
        } else {
            0nat
        }
    }
}

// ── Per-word and per-session tallies ────────────────────────────────

/// Everything the stats scan collects from the words up to the caret.
#[verifier::ext_equal]
pub ghost struct CharTally {
    /// Correct keystrokes recorded in the logs.
    pub correct: nat,
    /// Incorrect (non-extra) keystrokes recorded in the logs.
    pub incorrect: nat,
    /// Extra keystrokes recorded in the logs.
    pub extra: nat,
    /// Target characters never typed in words that were sealed anyway.
    pub missed: nat,
    /// One per completed word: the space that sealed it.
    pub spaces: nat,
    /// Characters of completed words typed exactly right, whole-word.
    pub correct_word_chars: nat,
    /// Spaces of completed words typed exactly right, whole-word.
    pub correct_spaces: nat,
}

impl CharTally {
    pub open spec fn zero() -> CharTally {
        CharTally {
            correct: 0,
            incorrect: 0,
            extra: 0,
            missed: 0,
            spaces: 0,
            correct_word_chars: 0,
            correct_spaces: 0,
        }
    }

    pub open spec fn add(self, o: CharTally) -> CharTally {
        CharTally {
            correct: self.correct + o.correct,
            incorrect: self.incorrect + o.incorrect,
            extra: self.extra + o.extra,
            missed: self.missed + o.missed,
            spaces: self.spaces + o.spaces,
            correct_word_chars: self.correct_word_chars + o.correct_word_chars,
            correct_spaces: self.correct_spaces + o.correct_spaces,
        }
    }

    /// Sum of all counters; a bound on it bounds every counter.
    pub open spec fn total(self) -> nat {
        self.correct + self.incorrect + self.extra + self.missed + self.spaces
            + self.correct_word_chars + self.correct_spaces
    }
}

/// What one word contributes to the scan.
pub open spec fn word_tally(w: WordModel) -> CharTally {
    CharTally {
        correct: n_correct(w.chars),
        incorrect: n_incorrect(w.chars),
        extra: n_extra(w.chars),
        missed: if w.completed && w.typed.len() < w.word.len() {
            (w.word.len() - w.typed.len()) as nat
        } else {
            0
        },
        spaces: if w.completed {
            1nat
        } else {
            0nat
        },
        correct_word_chars: if w.completed && w.typed == w.word {
            w.word.len()
        } else {
            0
        },
        correct_spaces: if w.completed && w.typed == w.word {
            1nat
        } else {
            0nat
        },
    }
}

/// Tally of the first `n` words.
pub open spec fn tally_upto(words: Seq<WordModel>, n: int) -> CharTally
    decreases n,
{
    if n <= 0 {
        CharTally::zero()
    } else {
        tally_upto(words, n - 1).add(word_tally(words[n - 1]))
    }
}

/// The scan covers every word from the first through the caret's, inclusive.
pub open spec fn session_tally(s: InputModel) -> CharTally {
    tally_upto(s.words, s.current_word_index as int + 1)
}

proof fn lemma_tally_total_monotonic(words: Seq<WordModel>, i: int, j: int)
    requires
        0 <= i <= j,
    ensures
        tally_upto(words, i).total() <= tally_upto(words, j).total(),
    decreases j - i,
{
    if i < j {
        lemma_tally_total_monotonic(words, i, j - 1);
    }
}

// ── Rounded rates, in hundredths ────────────────────────────────────

/// Characters-per-five-per-minute, in hundredths, rounded half away from
/// zero: the exact value is `1_200_000 * chars / ms` hundredths.
pub open spec fn round_rate_hundredths(chars: nat, ms: nat) -> nat {
    (2_400_000 * chars + ms) / (2 * ms)
}

/// Share of correct keypresses as a percentage in hundredths, rounded half
/// away from zero; an empty tally counts as perfect.
pub open spec fn round_accuracy_hundredths(kc: nat, ki: nat) -> nat {
    if kc + ki == 0 {
        10000
    } else {
        (20000 * kc + (kc + ki)) / (2 * (kc + ki))
    }
}

pub open spec fn sat_u64(x: nat) -> u64 {
    if x > u64::MAX {
        u64::MAX
    } else {
        x as u64
    }
}

// ── The snapshot ────────────────────────────────────────────────────

/// The full statistics derived from a session state and an elapsed time.
/// Zero elapsed time gives the all-zero snapshot (accuracy zero too, unlike
/// the untouched-session case, which reads 100).
pub open spec fn spec_stats(s: InputModel, elapsed_ms: u64) -> StatsSnapshot {
    if elapsed_ms == 0 {
        StatsSnapshot {
            wpm_hundredths: 0,
            raw_wpm_hundredths: 0,
            accuracy_hundredths: 0,
            correct_chars: 0,
            incorrect_chars: 0,
            extra_chars: 0,
            missed_chars: 0,
            elapsed_ms: 0,
        }
    } else {
        let t = session_tally(s);
        StatsSnapshot {
            wpm_hundredths: sat_u64(
                round_rate_hundredths(t.correct_word_chars + t.correct_spaces, elapsed_ms as nat),
            ),
            raw_wpm_hundredths: sat_u64(
                round_rate_hundredths(
                    t.correct + t.incorrect + t.extra + t.spaces,
                    elapsed_ms as nat,
                ),
            ),
            accuracy_hundredths: round_accuracy_hundredths(
                s.keypress_correct,
                s.keypress_incorrect,
            ) as u64,
            correct_chars: t.correct as usize,
            incorrect_chars: t.incorrect as usize,
            extra_chars: t.extra as usize,
            missed_chars: t.missed as usize,
            elapsed_ms,
        }
    }
}

proof fn lemma_accuracy_le_10000(kc: nat, ki: nat)
    ensures
        round_accuracy_hundredths(kc, ki) <= 10000,
{
    if kc + ki > 0 {
        let d = (kc + ki) as int;
        let x = 20000 * kc + d;
        assert(x <= 20001 * d) by (nonlinear_arith)
            requires
                d > 0,
                kc <= d,
                x == 20000 * kc + d,
        ;
        assert(20001 * d < 10001 * (2 * d)) by (nonlinear_arith)
            requires
                d > 0,
        ;
        lemma_div_is_ordered(x, 20001 * d, 2 * d);
        lemma_fundamental_div_mod(20001 * d, 2 * d);
        assert((20001 * d) / (2 * d) <= 10000) by (nonlinear_arith)
            requires
                d > 0,
                20001 * d == 2 * d * ((20001 * d) / (2 * d)) + (20001 * d) % (2 * d),
                0 <= (20001 * d) % (2 * d),
        ;
    }
}

/// With no incorrect keypress on record, accuracy reads exactly 100.
pub proof fn lemma_accuracy_perfect(s: InputModel, elapsed_ms: u64)
    requires
        s.keypress_incorrect == 0,
        elapsed_ms > 0,
    ensures
        spec_stats(s, elapsed_ms).accuracy_hundredths == 10000,
{
    let kc = s.keypress_correct;
    if kc > 0 {
        lemma_fundamental_div_mod_converse((20000 * kc + kc) as int, (2 * kc) as int, 10000, kc as int);
    }
}

/// The snapshot is a pure function of the session state and the elapsed
/// time: two results computed from identical inputs are identical.
pub proof fn lemma_stats_deterministic(
    s: InputModel,
    elapsed_ms: u64,
    a: StatsSnapshot,
    b: StatsSnapshot,
)
    requires
        a == spec_stats(s, elapsed_ms),
        b == spec_stats(s, elapsed_ms),
    ensures
        a == b,
{
}

/// Typing the current word exactly and sealing it with a space keeps a
/// perfect accuracy reading perfect.
pub proof fn lemma_perfect_word_keeps_accuracy(s: InputModel, elapsed_ms: u64)
    requires
        s.wf(),
        !s.finished,
        s.current().typed.len() == 0,
        s.current().word.len() > 0,
        s.keypress_incorrect == 0,
        elapsed_ms > 0,
    ensures
        spec_stats(
            spec_process_space(spec_type_chars(s, s.current().word)),
            elapsed_ms,
        ).accuracy_hundredths == 10000,
{
    lemma_type_word_exactly(s);
    lemma_accuracy_perfect(spec_process_space(spec_type_chars(s, s.current().word)), elapsed_ms);
}

// ── Executable scan ─────────────────────────────────────────────────

/// Count the three keystroke kinds in one word's log.
fn count_keystrokes(cs: &Vec<CharResult>) -> (r: (usize, usize, usize))
    ensures
        r.0 == n_correct(cs@),
        r.1 == n_incorrect(cs@),
        r.2 == n_extra(cs@),
{
    let n = cs.len();
    let mut correct: usize = 0;
    let mut incorrect: usize = 0;
    let mut extra: usize = 0;
    let mut i: usize = 0;
    while i < n
        invariant
            n == cs@.len(),
            i <= n,
            correct == n_correct(cs@.subrange(0, i as int)),
            incorrect == n_incorrect(cs@.subrange(0, i as int)),
            extra == n_extra(cs@.subrange(0, i as int)),
            correct <= i,
            incorrect <= i,
            extra <= i,
        decreases n - i,
    {
        let ghost pre = cs@.subrange(0, i as int);
        let ghost post = cs@.subrange(0, i + 1);
        proof {
            assert(post.drop_last() =~= pre);
            assert(post.last() == cs@[i as int]);
        }
        let c = cs[i];
        if c.extra {
            extra = extra + 1;
        } else if c.correct {
            correct = correct + 1;
        } else {
            incorrect = incorrect + 1;
        }
        i = i + 1;
    }
    proof {
        assert(cs@.subrange(0, n as int) =~= cs@);
    }
    (correct, incorrect, extra)
}

/// Compute the statistics snapshot for a session state at `elapsed_ms`.
/// Scans every word from the first through the caret's, then derives the
/// rounded rates. The tally bound is what the machine forces: the counters
/// live in `usize`.
pub fn calculate_stats(state: &InputState, elapsed_ms: u64) -> (stats: StatsSnapshot)
    requires
        state.wf(),
        session_tally(state@).total() <= usize::MAX,
    ensures
        stats == spec_stats(state@, elapsed_ms),
{
    if elapsed_ms == 0 {
        return StatsSnapshot {
            wpm_hundredths: 0,
            raw_wpm_hundredths: 0,
            accuracy_hundredths: 0,
            correct_chars: 0,
            incorrect_chars: 0,
            extra_chars: 0,
            missed_chars: 0,
            elapsed_ms: 0,
        };
    }
    let ghost s = state@;
    let n = state.words.len();
    proof {
        assert(state.current_word_index < n);
    }
    let upto = state.current_word_index + 1;
    let mut correct: usize = 0;
    let mut incorrect: usize = 0;
    let mut extra: usize = 0;
    let mut missed: usize = 0;
    let mut spaces: usize = 0;
    let mut correct_word_chars: usize = 0;
    let mut correct_spaces: usize = 0;
    let mut i: usize = 0;
    while i < upto
        invariant
            state.wf(),
            s == state@,
            session_tally(s).total() <= usize::MAX,
            upto == state.current_word_index + 1,
            upto <= state.words@.len(),
            i <= upto,
            correct == tally_upto(s.words, i as int).correct,
            incorrect == tally_upto(s.words, i as int).incorrect,
            extra == tally_upto(s.words, i as int).extra,
            missed == tally_upto(s.words, i as int).missed,
            spaces == tally_upto(s.words, i as int).spaces,
            correct_word_chars == tally_upto(s.words, i as int).correct_word_chars,
            correct_spaces == tally_upto(s.words, i as int).correct_spaces,
        decreases upto - i,
    {
        proof {
            lemma_tally_total_monotonic(s.words, i + 1, upto as int);
            assert(tally_upto(s.words, i + 1) == tally_upto(s.words, i as int).add(
                word_tally(s.words[i as int]),
            ));
        }
        let w = &state.words[i];
        let (wc, wi, we) = count_keystrokes(&w.chars);
        correct = correct + wc;
        incorrect = incorrect + wi;
        extra = extra + we;
        if w.completed && w.typed.len() < w.word.len() {
            missed = missed + (w.word.len() - w.typed.len());
        }
        if w.completed {
            spaces = spaces + 1;
            if chars_eq(&w.typed, &w.word) {
                correct_word_chars = correct_word_chars + w.word.len();
                correct_spaces = correct_spaces + 1;
            }
        }
        i = i + 1;
    }
    proof {
        assert(tally_upto(s.words, upto as int) == session_tally(s));
    }
    let wpm_hundredths = rate_hundredths(correct_word_chars + correct_spaces, elapsed_ms);
    proof {
        assert(correct + incorrect <= usize::MAX);
        assert(correct + incorrect + extra <= usize::MAX);
        assert(correct + incorrect + extra + spaces <= usize::MAX);
    }
    let raw_wpm_hundredths = rate_hundredths(correct + incorrect + extra + spaces, elapsed_ms);
    let accuracy_hundredths = accuracy_hundredths(
        state.keypress_correct,
        state.keypress_incorrect,
    );
    StatsSnapshot {
        wpm_hundredths,
        raw_wpm_hundredths,
        accuracy_hundredths,
        correct_chars: correct,
        incorrect_chars: incorrect,
        extra_chars: extra,
        missed_chars: missed,
        elapsed_ms,
    }
}

/// The rounded rate, saturated at `u64::MAX` hundredths.
fn rate_hundredths(chars: usize, ms: u64) -> (r: u64)
    requires
        ms > 0,
    ensures
        r == sat_u64(round_rate_hundredths(chars as nat, ms as nat)),
{
    let num: u128 = 2_400_000u128 * (chars as u128) + (ms as u128);
    let den: u128 = 2u128 * (ms as u128);
    let q: u128 = num / den;
    if q > u64::MAX as u128 {
        u64::MAX
    } else {
        q as u64
    }
}

/// The rounded accuracy percentage in hundredths.
fn accuracy_hundredths(kc: usize, ki: usize) -> (r: u64)
    ensures
        r == round_accuracy_hundredths(kc as nat, ki as nat),
{
    if kc == 0 && ki == 0 {
        return 10000;
    }
    let d: u128 = kc as u128 + ki as u128;
    let q: u128 = (20000u128 * (kc as u128) + d) / (2u128 * d);
    proof {
        lemma_accuracy_le_10000(kc as nat, ki as nat);
    }
    q as u64
}


// ── The final session record ────────────────────────────────────────

/// Words sealed by a space.
pub open spec fn n_completed_words(words: Seq<WordModel>) -> nat
    decreases words.len(),
{
    if words.len() == 0 {
        0
    } else {
        n_completed_words(words.drop_last()) + if words.last().completed {
            1nat
        } else {
            0nat
        }
    }
}

/// Words sealed by a space and typed exactly right.
pub open spec fn n_correct_words(words: Seq<WordModel>) -> nat
    decreases words.len(),
{
    if words.len() == 0 {
        0
    } else {
        n_correct_words(words.drop_last()) + if words.last().completed && words.last().typed
            == words.last().word {
            1nat
        } else {
            0nat
        }
    }
}

/// Round a rate in hundredths to whole units, half away from zero, saturated
/// at `u32::MAX` as a float-to-integer conversion would be.
pub open spec fn whole_of_hundredths(h: u64) -> u32 {
    if (h + 50) / 100 > u32::MAX {
        u32::MAX
    } else {
        ((h + 50) / 100) as u32
    }
}

fn whole_of_hundredths_exec(h: u64) -> (r: u32)
    ensures
        r == whole_of_hundredths(h),
{
    let w = (h as u128 + 50) / 100;
    if w > u32::MAX as u128 {
        u32::MAX
    } else {
        w as u32
    }
}

/// Assemble the final record of a finished session: the snapshot's figures
/// with speeds rounded to whole words per minute, the consistency of the
/// collected rate series, and the word-level tallies over every slot.
pub fn build_test_result(
    state: &InputState,
    elapsed_ms: u64,
    wpm_history: &[u64],
    config: &TestConfig,
) -> (r: TestResult)
    requires
        state.wf(),
        session_tally(state@).total() <= usize::MAX,
        wpm_history@.len() <= 0x10_0000,
        forall|i: int| 0 <= i < wpm_history@.len() ==> wpm_history@[i] <= 0x4000_0000,
    ensures
        r.wpm == whole_of_hundredths(spec_stats(state@, elapsed_ms).wpm_hundredths),
        r.raw_wpm == whole_of_hundredths(spec_stats(state@, elapsed_ms).raw_wpm_hundredths),
        r.accuracy_hundredths == spec_stats(state@, elapsed_ms).accuracy_hundredths,
        r.consistency_hundredths == spec_consistency(wpm_history@),
        r.correct_chars == spec_stats(state@, elapsed_ms).correct_chars,
        r.incorrect_chars == spec_stats(state@, elapsed_ms).incorrect_chars,
        r.extra_chars == spec_stats(state@, elapsed_ms).extra_chars,
        r.missed_chars == spec_stats(state@, elapsed_ms).missed_chars,
        r.total_words == n_completed_words(state@.words),
        r.correct_words == n_correct_words(state@.words),
        r.elapsed_ms == elapsed_ms,
        r.config == *config,
{
    let stats = calculate_stats(state, elapsed_ms);
    let consistency_hundredths = calculate_consistency(wpm_history);
    let n = state.words.len();
    let mut total_words: usize = 0;
    let mut correct_words: usize = 0;
    let mut i: usize = 0;
    while i < n
        invariant
            n == state.words@.len(),
            n == state@.words.len(),
            i <= n,
            total_words == n_completed_words(state@.words.subrange(0, i as int)),
            correct_words == n_correct_words(state@.words.subrange(0, i as int)),
            total_words <= i,
            correct_words <= i,
        decreases n - i,
    {
        let ghost pre = state@.words.subrange(0, i as int);
        let ghost post = state@.words.subrange(0, i + 1);
        proof {
            assert(post.drop_last() =~= pre);
            assert(post.last() == state@.words[i as int]);
        }
        let w = &state.words[i];
        if w.completed {
            total_words = total_words + 1;
            if chars_eq(&w.typed, &w.word) {
                correct_words = correct_words + 1;
            }
        }
        i = i + 1;
    }
    proof {
        assert(state@.words.subrange(0, n as int) =~= state@.words);
    }
    TestResult {
        wpm: whole_of_hundredths_exec(stats.wpm_hundredths),
        raw_wpm: whole_of_hundredths_exec(stats.raw_wpm_hundredths),
        accuracy_hundredths: stats.accuracy_hundredths,
        consistency_hundredths,
        correct_chars: stats.correct_chars,
        incorrect_chars: stats.incorrect_chars,
        extra_chars: stats.extra_chars,
        missed_chars: stats.missed_chars,
        total_words,
        correct_words,
        elapsed_ms,
        config: config.duplicate(),
    }
}

// ── Consistency ─────────────────────────────────────────────────────
//
// The consistency score compresses the coefficient of variation of a series
// of rate samples through `100 * (1 - tanh(c + c^3/3 + c^5/5))`. The
// transform is evaluated by linear interpolation between precomputed nodes,
// one every 0.025 of the coefficient; past the last node the score is zero,
// which the transform reaches (to two decimal places) just as fast.

/// Node `i` of the consistency transform: the transform at a coefficient of
/// variation of `i / 40`, in hundredths of a point.
pub open spec fn kogasa_node(i: int) -> int {
    if i <= 0 {
        10000
    } else if i == 1 {
        9750
    } else if i == 2 {
        9500
    } else if i == 3 {
        9250
    } else if i == 4 {
        9000
    } else if i == 5 {
        8750
    } else if i == 6 {
        8500
    } else if i == 7 {
        8250
    } else if i == 8 {
        8000
    } else if i == 9 {
        7750
    } else if i == 10 {
        7500
    } else if i == 11 {
        7250
    } else if i == 12 {
        7000
    } else if i == 13 {
        6751
    } else if i == 14 {
        6501
    } else if i == 15 {
        6251
    } else if i == 16 {
        6002
    } else if i == 17 {
        5753
    } else if i == 18 {
        5505
    } else if i == 19 {
        5257
    } else if i == 20 {
        5010
    } else if i == 21 {
        4765
    } else if i == 22 {
        4520
    } else if i == 23 {
        4277
    } else if i == 24 {
        4036
    } else if i == 25 {
        3797
    } else if i == 26 {
        3561
    } else if i == 27 {
        3329
    } else if i == 28 {
        3100
    } else if i == 29 {
        2876
    } else if i == 30 {
        2657
    } else if i == 31 {
        2443
    } else if i == 32 {
        2236
    } else if i == 33 {
        2036
    } else if i == 34 {
        1844
    } else if i == 35 {
        1661
    } else if i == 36 {
        1486
    } else if i == 37 {
        1322
    } else if i == 38 {
        1167
    } else if i == 39 {
        1023
    } else if i == 40 {
        890
    } else if i == 41 {
        768
    } else if i == 42 {
        657
    } else if i == 43 {
        557
    } else if i == 44 {
        468
    } else if i == 45 {
        389
    } else if i == 46 {
        320
    } else if i == 47 {
        261
    } else if i == 48 {
        210
    } else if i == 49 {
        167
    } else if i == 50 {
        131
    } else if i == 51 {
        101
    } else if i == 52 {
        77
    } else if i == 53 {
        58
    } else if i == 54 {
        43
    } else if i == 55 {
        32
    } else if i == 56 {
        23
    } else if i == 57 {
        16
    } else if i == 58 {
        11
    } else if i == 59 {
        8
    } else if i == 60 {
        5
    } else if i == 61 {
        3
    } else if i == 62 {
        2
    } else if i == 63 {
        1
    } else if i == 64 {
        1
    } else if i == 65 {
        0
    } else if i == 66 {
        0
    } else if i == 67 {
        0
    } else if i == 68 {
        0
    } else if i == 69 {
        0
    } else {
        0
    }
}

fn kogasa_node_exec(i: u64) -> (r: u64)
    ensures
        r == kogasa_node(i as int),
{
    match i {
        0 => 10000,
        1 => 9750,
        2 => 9500,
        3 => 9250,
        4 => 9000,
        5 => 8750,
        6 => 8500,
        7 => 8250,
        8 => 8000,
        9 => 7750,
        10 => 7500,
        11 => 7250,
        12 => 7000,
        13 => 6751,
        14 => 6501,
        15 => 6251,
        16 => 6002,
        17 => 5753,
        18 => 5505,
        19 => 5257,
        20 => 5010,
        21 => 4765,
        22 => 4520,
        23 => 4277,
        24 => 4036,
        25 => 3797,
        26 => 3561,
        27 => 3329,
        28 => 3100,
        29 => 2876,
        30 => 2657,
        31 => 2443,
        32 => 2236,
        33 => 2036,
        34 => 1844,
        35 => 1661,
        36 => 1486,
        37 => 1322,
        38 => 1167,
        39 => 1023,
        40 => 890,
        41 => 768,
        42 => 657,
        43 => 557,
        44 => 468,
        45 => 389,
        46 => 320,
        47 => 261,
        48 => 210,
        49 => 167,
        50 => 131,
        51 => 101,
        52 => 77,
        53 => 58,
        54 => 43,
        55 => 32,
        56 => 23,
        57 => 16,
        58 => 11,
        59 => 8,
        60 => 5,
        61 => 3,
        62 => 2,
        63 => 1,
        64 => 1,
        65 => 0,
        66 => 0,
        67 => 0,
        68 => 0,
        69 => 0,
        _ => 0,
    }
}

/// Every node lies between 0 and 100.00.
proof fn lemma_node_in_range(i: int)
    ensures
        0 <= kogasa_node(i) <= 10000,
{
}

proof fn lemma_node_step(i: int)
    requires
        0 <= i,
    ensures
        kogasa_node(i + 1) <= kogasa_node(i),
{
}

/// The nodes never increase.
proof fn lemma_node_monotonic(i: int, j: int)
    requires
        0 <= i <= j,
    ensures
        kogasa_node(j) <= kogasa_node(i),
    decreases j - i,
{
    if i < j {
        lemma_node_monotonic(i, j - 1);
        lemma_node_step(j - 1);
    }
}

/// The consistency transform at `c` thousandths of the coefficient of
/// variation, in hundredths of a point: linear interpolation between the
/// two neighbouring nodes, zero past the last node.
pub open spec fn kogasa_hundredths_spec(c: int) -> int {
    let i = c / 25;
    if i >= 70 {
        0
    } else {
        kogasa_node(i) - (kogasa_node(i) - kogasa_node(i + 1)) * (c % 25) / 25
    }
}

/// The transform stays between its neighbouring nodes, hence within 0..10000.
proof fn lemma_kogasa_in_range(c: int)
    requires
        0 <= c,
    ensures
        0 <= kogasa_hundredths_spec(c) <= 10000,
        c / 25 < 70 ==> kogasa_node(c / 25 + 1) <= kogasa_hundredths_spec(c) <= kogasa_node(
            c / 25,
        ),
{
    let i = c / 25;
    lemma_div_pos_is_pos(c, 25);
    if i < 70 {
        lemma_node_step(i);
        lemma_node_in_range(i);
        lemma_node_in_range(i + 1);
        let d = kogasa_node(i) - kogasa_node(i + 1);
        lemma_mul_div_le(d, c % 25, 25);
    }
}

/// The transform never increases: the score of a larger coefficient of
/// variation is never above the score of a smaller one.
pub proof fn lemma_kogasa_monotonic(c1: int, c2: int)
    requires
        0 <= c1 <= c2,
    ensures
        kogasa_hundredths_spec(c2) <= kogasa_hundredths_spec(c1),
{
    let i1 = c1 / 25;
    let i2 = c2 / 25;
    lemma_div_pos_is_pos(c1, 25);
    lemma_div_is_ordered(c1, c2, 25);
    lemma_kogasa_in_range(c1);
    lemma_kogasa_in_range(c2);
    if i1 < 70 && i2 < 70 {
        if i1 == i2 {
            lemma_fundamental_div_mod(c1, 25);
            lemma_fundamental_div_mod(c2, 25);
            let d = kogasa_node(i1) - kogasa_node(i1 + 1);
            lemma_node_step(i1);
            assert(d * (c1 % 25) <= d * (c2 % 25)) by (nonlinear_arith)
                requires
                    d >= 0,
                    c1 % 25 <= c2 % 25,
            ;
            lemma_div_is_ordered(d * (c1 % 25), d * (c2 % 25), 25);
        } else {
            lemma_node_monotonic(i1 + 1, i2);
        }
    }
}

// ── The coefficient of variation of a series ────────────────────────

/// Sum of a series of samples.
pub open spec fn sum_of(s: Seq<u64>) -> int
    decreases s.len(),
{
    if s.len() == 0 {
        0
    } else {
        sum_of(s.drop_last()) + s.last()
    }
}

/// Sum of the squared samples.
pub open spec fn sum_sq_of(s: Seq<u64>) -> int
    decreases s.len(),
{
    if s.len() == 0 {
        0
    } else {
        sum_sq_of(s.drop_last()) + s.last() * s.last()
    }
}

/// Numerator of the squared coefficient of variation: with `n` samples
/// summing to `S` with squares summing to `Q`, the population variance over
/// the squared mean is `(n*Q - S*S) / (S*S)`. The numerator is never
/// negative; the guard only shields the subtraction.
pub open spec fn cov_sq_num(s: Seq<u64>) -> int {
    if s.len() * sum_sq_of(s) >= sum_of(s) * sum_of(s) {
        s.len() * sum_sq_of(s) - sum_of(s) * sum_of(s)
    } else {
        0
    }
}

/// Denominator of the squared coefficient of variation: the squared sum.
pub open spec fn cov_sq_den(s: Seq<u64>) -> int {
    sum_of(s) * sum_of(s)
}

/// The coefficient of variation in thousandths, rounded down.
pub open spec fn cov_thousandths(s: Seq<u64>) -> int {
    isqrt_spec(((1_000_000 * cov_sq_num(s)) / cov_sq_den(s)) as nat) as int
}

/// The consistency score of a rate series, in hundredths of a point: 100
/// outright for fewer than two samples, 0 for a series whose mean is zero,
/// and otherwise the transform of its coefficient of variation.
pub open spec fn spec_consistency(s: Seq<u64>) -> int {
    if s.len() < 2 {
        10000
    } else if sum_of(s) == 0 {
        0
    } else {
        kogasa_hundredths_spec(cov_thousandths(s))
    }
}

// ── Laws of the consistency score ───────────────────────────────────

proof fn lemma_sum_of_constant(s: Seq<u64>, v: u64)
    requires
        forall|i: int| 0 <= i < s.len() ==> s[i] == v,
    ensures
        sum_of(s) == s.len() * v,
        sum_sq_of(s) == s.len() * (v * v),
    decreases s.len(),
{
    if s.len() > 0 {
        lemma_sum_of_constant(s.drop_last(), v);
        assert((s.len() - 1) * v + v == s.len() * v) by (nonlinear_arith);
        assert((s.len() - 1) * (v * v) + v * v == s.len() * (v * v)) by (nonlinear_arith);
    }
}

/// A constant series with a nonzero value scores exactly 100. (A constant
/// zero series scores 0 instead: the zero-mean rule takes precedence.)
pub proof fn lemma_consistency_constant(s: Seq<u64>, v: u64)
    requires
        s.len() >= 2,
        v > 0,
        forall|i: int| 0 <= i < s.len() ==> s[i] == v,
    ensures
        spec_consistency(s) == 10000,
{
    lemma_sum_of_constant(s, v);
    let n = s.len() as int;
    assert(sum_of(s) > 0) by (nonlinear_arith)
        requires
            sum_of(s) == n * v,
            n >= 2,
            v > 0,
    ;
    assert(n * (n * (v * v)) == (n * v) * (n * v)) by (nonlinear_arith);
    assert(cov_sq_num(s) == 0);
    assert(cov_sq_den(s) > 0) by (nonlinear_arith)
        requires
            sum_of(s) > 0,
            cov_sq_den(s) == sum_of(s) * sum_of(s),
    ;
    lemma_div_of0(cov_sq_den(s));
    assert(cov_thousandths(s) == isqrt_spec(0));
    lemma_fundamental_div_mod_converse(0, 25, 0, 0);
    assert(kogasa_hundredths_spec(0) == 10000);
}

/// The score always lies between 0 and 100.
pub proof fn lemma_consistency_in_range(s: Seq<u64>)
    ensures
        0 <= spec_consistency(s) <= 10000,
{
    if s.len() >= 2 && sum_of(s) != 0 {
        lemma_kogasa_in_range(cov_thousandths(s));
    }
}

/// The score is monotone in the coefficient of variation: of two series with
/// nonzero mean, the one whose squared coefficient of variation is at least
/// as large (compared cross-multiplied, as exact rationals) never scores
/// higher. Together with `lemma_consistency_constant` this is the shape of
/// the score: 100 at zero variation, falling as variation grows against the
/// mean. Quantisation makes the fall weakly monotone: two coefficients equal
/// to the same thousandth score alike.
pub proof fn lemma_consistency_monotonic(a: Seq<u64>, b: Seq<u64>)
    requires
        a.len() >= 2,
        b.len() >= 2,
        sum_of(a) > 0,
        sum_of(b) > 0,
        cov_sq_num(a) * cov_sq_den(b) <= cov_sq_num(b) * cov_sq_den(a),
    ensures
        spec_consistency(b) <= spec_consistency(a),
{
    let na = 1_000_000 * cov_sq_num(a);
    let nb = 1_000_000 * cov_sq_num(b);
    let da = cov_sq_den(a);
    let db = cov_sq_den(b);
    assert(da > 0 && db > 0) by (nonlinear_arith)
        requires
            sum_of(a) > 0,
            sum_of(b) > 0,
            da == sum_of(a) * sum_of(a),
            db == sum_of(b) * sum_of(b),
    ;
    assert(cov_sq_num(a) >= 0 && cov_sq_num(b) >= 0);
    assert(na >= 0 && na * db <= nb * da) by (nonlinear_arith)
        requires
            cov_sq_num(a) * db <= cov_sq_num(b) * da,
            cov_sq_num(a) >= 0,
            cov_sq_num(b) >= 0,
            na == 1_000_000 * cov_sq_num(a),
            nb == 1_000_000 * cov_sq_num(b),
            da > 0,
            db > 0,
    ;
    lemma_div_rational_ordered(na, da, nb, db);
    lemma_div_pos_is_pos(na, da);
    lemma_div_pos_is_pos(nb, db);
    lemma_isqrt_monotonic((na / da) as nat, (nb / db) as nat);
    lemma_kogasa_monotonic(cov_thousandths(a), cov_thousandths(b));
}

// ── Executable consistency ──────────────────────────────────────────

/// Interpolated consistency transform at `c` thousandths of the coefficient
/// of variation.
fn kogasa_hundredths(c: u64) -> (r: u64)
    ensures
        r == kogasa_hundredths_spec(c as int),
{
    let i = c / 25;
    if i >= 70 {
        return 0;
    }
    let a = kogasa_node_exec(i);
    let b = kogasa_node_exec(i + 1);
    let frac = c % 25;
    proof {
        lemma_node_step(i as int);
        lemma_node_in_range(i as int);
        lemma_mul_div_le((a - b) as int, frac as int, 25);
    }
    a - ((a - b) * frac) / 25
}

/// Consistency score of a rate series, in hundredths of a point. The bounds
/// on length and sample size keep every intermediate sum within 128 bits.
pub fn calculate_consistency(wpm_history: &[u64]) -> (r: u64)
    requires
        wpm_history@.len() <= 0x10_0000,
        forall|i: int| 0 <= i < wpm_history@.len() ==> wpm_history@[i] <= 0x4000_0000,
    ensures
        r == spec_consistency(wpm_history@),
        0 <= r <= 10000,
{
    proof {
        lemma_consistency_in_range(wpm_history@);
    }
    let n = wpm_history.len();
    if n < 2 {
        return 10000;
    }
    let mut s: u128 = 0;
    let mut q: u128 = 0;
    let mut i: usize = 0;
    while i < n
        invariant
            n == wpm_history@.len(),
            n <= 0x10_0000,
            i <= n,
            forall|j: int| 0 <= j < wpm_history@.len() ==> wpm_history@[j] <= 0x4000_0000,
            s == sum_of(wpm_history@.subrange(0, i as int)),
            q == sum_sq_of(wpm_history@.subrange(0, i as int)),
            s <= i * 0x4000_0000,
            q <= i * 0x1000_0000_0000_0000,
        decreases n - i,
    {
        let ghost pre = wpm_history@.subrange(0, i as int);
        let ghost post = wpm_history@.subrange(0, i + 1);
        proof {
            assert(post.drop_last() =~= pre);
            assert(post.last() == wpm_history@[i as int]);
        }
        let v = wpm_history[i];
        proof {
            assert((v as int) * (v as int) <= 0x1000_0000_0000_0000) by (nonlinear_arith)
                requires
                    0 <= v <= 0x4000_0000,
            ;
        }
        s = s + v as u128;
        q = q + (v as u128) * (v as u128);
        i = i + 1;
    }
    proof {
        assert(wpm_history@.subrange(0, n as int) =~= wpm_history@);
    }
    if s == 0 {
        return 0;
    }
    let nn = n as u128;
    proof {
        assert((nn as int) * (q as int) <= 0x10_0000_0000_0000_0000_0000_0000) by (nonlinear_arith)
            requires
                0 <= nn <= 0x10_0000,
                0 <= q <= 0x1_0000_0000_0000_0000_0000,
        ;
        assert((s as int) * (s as int) <= 0x10_0000_0000_0000_0000_0000_0000) by (nonlinear_arith)
            requires
                0 <= s <= 0x4_0000_0000_0000,
        ;
    }
    let nq = nn * q;
    let s2 = s * s;
    proof {
        assert((s as int) * (s as int) > 0) by (nonlinear_arith)
            requires
                s > 0,
        ;
    }
    let num = if nq >= s2 {
        nq - s2
    } else {
        0
    };
    proof {
        assert((num as int) * 1_000_000 <= 0x10_0000_0000_0000_0000_0000_0000 * 1_000_000) by (
        nonlinear_arith)
            requires
                0 <= num <= 0x10_0000_0000_0000_0000_0000_0000,
        ;
    }
    let scaled = num * 1_000_000u128;
    let c128 = isqrt_u128(scaled / s2);
    let c = c128 as u64;
    proof {
        lemma_div_pos_is_pos(scaled as int, s2 as int);
    }
    kogasa_hundredths(c)
}


} // verus!
