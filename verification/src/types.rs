use vstd::prelude::*;

verus! {

// ── Character / Word state ──────────────────────────────────────────

/// Outcome of a single keystroke: was it the expected character, and was it
/// typed beyond the end of the target word.
#[derive(Debug, Clone, Copy, PartialEq, Eq, Structural)]
pub struct CharResult {
    pub correct: bool,
    pub extra: bool,
}

/// One slot of the session: the target word, what has been typed against it,
/// the per-keystroke log, and whether a space has sealed it.
#[derive(Debug, Clone)]
pub struct WordState {
    pub word: Vec<char>,
    pub typed: Vec<char>,
    pub chars: Vec<CharResult>,
    pub completed: bool,
}

/// Mathematical model of a word slot.
#[verifier::ext_equal]
pub ghost struct WordModel {
    pub word: Seq<char>,
    pub typed: Seq<char>,
    pub chars: Seq<CharResult>,
    pub completed: bool,
}

impl View for WordState {
    type V = WordModel;

    open spec fn view(&self) -> WordModel {
        WordModel {
            word: self.word@,
            typed: self.typed@,
            chars: self.chars@,
            completed: self.completed,
        }
    }
}

impl WordModel {
    /// The keystroke log always runs parallel to the typed text.
    pub open spec fn wf(self) -> bool {
        self.chars.len() == self.typed.len()
    }
}

// ── Input state ─────────────────────────────────────────────────────

/// The session's typing state: every word slot, the position of the caret,
/// and the monotonic keypress tallies.
#[derive(Debug, Clone)]
pub struct InputState {
    pub words: Vec<WordState>,
    pub current_word_index: usize,
    pub cursor_position: usize,
    pub finished: bool,
    pub historical_error_chars: usize,
    pub keypress_correct: usize,
    pub keypress_incorrect: usize,
}

/// Mathematical model of the typing state.
#[verifier::ext_equal]
pub ghost struct InputModel {
    pub words: Seq<WordModel>,
    pub current_word_index: nat,
    pub cursor_position: nat,
    pub finished: bool,
    pub historical_error_chars: nat,
    pub keypress_correct: nat,
    pub keypress_incorrect: nat,
}

impl View for InputState {
    type V = InputModel;

    open spec fn view(&self) -> InputModel {
        InputModel {
            words: self.words@.map_values(|w: WordState| w@),
            current_word_index: self.current_word_index as nat,
            cursor_position: self.cursor_position as nat,
            finished: self.finished,
            historical_error_chars: self.historical_error_chars as nat,
            keypress_correct: self.keypress_correct as nat,
            keypress_incorrect: self.keypress_incorrect as nat,
        }
    }
}

impl InputModel {
    pub open spec fn current(self) -> WordModel {
        self.words[self.current_word_index as int]
    }

    /// Invariant of every session state: there is at least one word, the
    /// caret's word exists, each keystroke log runs parallel to its typed
    /// text, and — until the session finishes — the caret sits at the end of
    /// its word's typed text and no word past the caret has been touched.
    pub open spec fn wf(self) -> bool {
        &&& self.words.len() > 0
        &&& self.current_word_index < self.words.len()
        &&& !self.finished ==> self.cursor_position == self.current().typed.len()
        &&& !self.finished ==> forall|i: int|
            self.current_word_index < i < self.words.len() ==> (
            #[trigger] self.words[i]).typed.len() == 0
        &&& forall|i: int| 0 <= i < self.words.len() ==> (#[trigger] self.words[i]).wf()
    }
}

impl InputState {
    pub open spec fn wf(self) -> bool {
        self@.wf()
    }
}

// ── Stats snapshot ──────────────────────────────────────────────────

/// Derived speed and accuracy figures. Rates carry two decimal places and are
/// therefore held in hundredths: `wpm_hundredths == 612` means 6.12 words per
/// minute.
#[derive(Debug, Clone, Copy, PartialEq, Eq, Structural, Default)]
pub struct StatsSnapshot {
    pub wpm_hundredths: u64,
    pub raw_wpm_hundredths: u64,
    pub accuracy_hundredths: u64,
    pub correct_chars: usize,
    pub incorrect_chars: usize,
    pub extra_chars: usize,
    pub missed_chars: usize,
    pub elapsed_ms: u64,
}

// ── Test configuration ──────────────────────────────────────────────

#[derive(Debug, Clone, Copy, PartialEq, Eq, Structural)]
pub enum TestMode {
    Time,
    Words,
}

#[derive(Debug, Clone)]
#[verifier::ext_equal]
pub struct TestConfig {
    pub mode: TestMode,
    pub time_limit: u32,
    pub word_count: u32,
    pub language: String,
    pub theme: String,
    pub one_line: bool,
    pub punctuation: bool,
    pub numbers: bool,
    pub backspace: bool,
}

impl TestConfig {
    /// An exact copy of this configuration.
    pub fn duplicate(&self) -> (r: TestConfig)
        ensures
            r == *self,
    {
        let r = TestConfig {
            mode: self.mode,
            time_limit: self.time_limit,
            word_count: self.word_count,
            language: self.language.clone(),
            theme: self.theme.clone(),
            one_line: self.one_line,
            punctuation: self.punctuation,
            numbers: self.numbers,
            backspace: self.backspace,
        };
        proof {
            assert(r =~= *self);
        }
        r
    }
}

impl Default for TestConfig {
    fn default() -> (c: Self)
        ensures
            c.mode == TestMode::Time,
            c.time_limit == 30,
            c.word_count == 25,
            c.language@ == "english"@,
            c.theme@ == "dark"@,
            !c.one_line,
            !c.punctuation,
            !c.numbers,
            c.backspace,
    {
        TestConfig {
            mode: TestMode::Time,
            time_limit: 30,
            word_count: 25,
            language: "english".to_owned(),
            theme: "dark".to_owned(),
            one_line: false,
            punctuation: false,
            numbers: false,
            backspace: true,
        }
    }
}

#[derive(Debug, Clone, Copy, PartialEq, Eq, Structural)]
pub enum TestPhase {
    Idle,
    Active,
    Finished,
}

/// Final record of a finished session, handed to the score store.
#[derive(Debug, Clone)]
pub struct TestResult {
    pub wpm: u32,
    pub raw_wpm: u32,
    pub accuracy_hundredths: u64,
    pub consistency_hundredths: u64,
    pub correct_chars: usize,
    pub incorrect_chars: usize,
    pub extra_chars: usize,
    pub missed_chars: usize,
    pub total_words: usize,
    pub correct_words: usize,
    pub elapsed_ms: u64,
    pub config: TestConfig,
}

/// One line of the persisted score history.
#[derive(Debug, Clone)]
pub struct ScoreEntry {
    pub wpm: u32,
    pub raw_wpm: u32,
    pub accuracy_hundredths: u64,
    pub consistency_hundredths: u64,
    pub language: String,
    pub mode: TestMode,
    pub duration: u32,
    pub date: String,
}

// ── Language ────────────────────────────────────────────────────────

/// A registered word list.
#[derive(Debug, Clone)]
pub struct Language {
    pub name: String,
    pub ordered_by_frequency: Option<bool>,
    pub no_lazy_mode: Option<bool>,
    pub words: Vec<String>,
}

impl Language {
    /// Every registered list has at least one word, no empty word, and a
    /// length the generator's fixed-point draw can index.
    pub open spec fn wf(self) -> bool {
        &&& 1 <= self.words@.len() <= 0xffff_ffff
        &&& forall|i: int| 0 <= i < self.words@.len() ==> (#[trigger] self.words@[i])@.len() > 0
    }
}

// ── Theme ───────────────────────────────────────────────────────────

#[derive(Debug, Clone)]
pub struct ThemeColors {
    pub name: String,
    pub bg: String,
    pub text: String,
    pub text_dim: String,
    pub correct: String,
    pub incorrect: String,
    pub extra: String,
    pub cursor: String,
    pub accent: String,
    pub stats: String,
}

/// A decoded color, one byte per channel.
#[derive(Debug, Clone, Copy, PartialEq, Eq, Structural)]
pub struct Rgb {
    pub red: u8,
    pub green: u8,
    pub blue: u8,
}

// ── Timer state ─────────────────────────────────────────────────────

/// Session clock. All figures are integral milliseconds; `limit_ms == None`
/// means a count-up timer that never expires.
#[derive(Debug, Clone)]
pub struct TimerState {
    pub start_ms: Option<u64>,
    pub elapsed_ms: u64,
    pub limit_ms: Option<u64>,
    pub running: bool,
    pub expired: bool,
}

// ── Generator config ────────────────────────────────────────────────

#[derive(Debug, Clone)]
pub struct GeneratorConfig {
    pub language: String,
    pub count: usize,
    pub punctuation: bool,
    pub numbers: bool,
}

// ── Key events ──────────────────────────────────────────────────────

/// The keys the menu and picker navigation reads, decoded from the host's
/// event stream.
#[derive(Debug, Clone, Copy, PartialEq, Eq, Structural)]
pub enum Key {
    Up,
    Down,
    Left,
    Right,
    Enter,
    Esc,
    Backspace,
    Tab,
    Character(char),
}

// ── Screen enum ─────────────────────────────────────────────────────

#[derive(Debug, Clone, Copy, PartialEq, Eq, Structural)]
pub enum Screen {
    Menu,
    Test,
    Results,
    Scores,
}

} // verus!
