use crate::data::languages::get_available_languages;
use crate::data::themes::get_theme_names;
use crate::types::{Key, TestConfig, TestMode};
use crate::ui::picker::{PickerResult, PickerState};
use vstd::prelude::*;

verus! {

// ── The menu's data ─────────────────────────────────────────────────

/// One row of the settings menu.
#[derive(Debug, Clone, Copy, PartialEq, Eq, Structural)]
pub enum MenuField {
    Mode,
    Time,
    Words,
    Language,
    Theme,
    OneLine,
    Punctuation,
    Numbers,
    Backspace,
}

/// An open overlay list: which setting it picks for.
pub enum PickerKind {
    Language(PickerState),
    Theme(PickerState),
}

/// What the menu asks the host loop to do after a key.
pub enum MenuAction {
    Idle,
    Start(TestConfig),
    UpdateConfig(TestConfig),
    Scores,
}

/// The settings menu: the highlighted row, an overlay picker when one is
/// open, and the theme that was current before a theme picker opened, to
/// restore on cancel.
pub struct MenuState {
    pub selected_field: MenuField,
    pub picker: Option<PickerKind>,
    pub theme_preview_base: Option<String>,
}

impl MenuState {
    /// An open picker always satisfies the picker invariant.
    pub open spec fn wf(self) -> bool {
        match self.picker {
            Some(PickerKind::Language(ps)) => ps.wf(),
            Some(PickerKind::Theme(ps)) => ps.wf(),
            None => true,
        }
    }

    /// A fresh menu: the first row highlighted, no picker open.
    pub fn new(_config: &TestConfig) -> (m: MenuState)
        ensures
            m.selected_field == MenuField::Mode,
            m.picker is None,
            m.theme_preview_base is None,
            m.wf(),
    {
        MenuState { selected_field: MenuField::Mode, picker: None, theme_preview_base: None }
    }
}

// ── The rows ────────────────────────────────────────────────────────

/// The rows the menu shows for a configuration: always eight, with the
/// second row picking a time limit in time mode and a word count in words
/// mode.
pub open spec fn spec_fields(mode: TestMode) -> Seq<MenuField> {
    seq![
        MenuField::Mode,
        if mode == TestMode::Time {
            MenuField::Time
        } else {
            MenuField::Words
        },
        MenuField::Language,
        MenuField::Theme,
        MenuField::OneLine,
        MenuField::Punctuation,
        MenuField::Numbers,
        MenuField::Backspace,
    ]
}

/// The menu rows for this configuration, in display order.
pub fn get_fields(config: &TestConfig) -> (fields: Vec<MenuField>)
    ensures
        fields@ == spec_fields(config.mode),
{
    let mut fields: Vec<MenuField> = Vec::new();
    fields.push(MenuField::Mode);
    match config.mode {
        TestMode::Time => fields.push(MenuField::Time),
        TestMode::Words => fields.push(MenuField::Words),
    }
    fields.push(MenuField::Language);
    fields.push(MenuField::Theme);
    fields.push(MenuField::OneLine);
    fields.push(MenuField::Punctuation);
    fields.push(MenuField::Numbers);
    fields.push(MenuField::Backspace);
    proof {
        assert(fields@ =~= spec_fields(config.mode));
    }
    fields
}

/// How many rows the menu shows.
pub fn field_count(config: &TestConfig) -> (n: usize)
    ensures
        n == spec_fields(config.mode).len(),
{
    let fields = get_fields(config);
    fields.len()
}

/// The first position of `f` among `fields`, or 0 when it is absent.
pub open spec fn first_field_index(fields: Seq<MenuField>, f: MenuField, i: int) -> int
    decreases fields.len() - i,
{
    if i < 0 || i >= fields.len() {
        0
    } else if fields[i] == f {
        i
    } else {
        first_field_index(fields, f, i + 1)
    }
}

/// The row highlighted after moving up or down from `current` within the
/// rows for `mode`: one step along the rows, clamped at both ends; a row not
/// among them moves as the first row would.
pub open spec fn spec_move_selection(mode: TestMode, current: MenuField, down: bool) -> MenuField {
    let fields = spec_fields(mode);
    let idx = first_field_index(fields, current, 0);
    let new_idx = if down {
        if idx + 1 < fields.len() {
            idx + 1
        } else {
            fields.len() - 1
        }
    } else {
        if idx > 0 {
            idx - 1
        } else {
            0
        }
    };
    fields[new_idx]
}

/// Move the highlight one row up or down.
pub fn move_selection(current: MenuField, mode: TestMode, down: bool) -> (f: MenuField)
    ensures
        f == spec_move_selection(mode, current, down),
{
    let m = TestConfig { mode, ..TestConfig::default() };
    let fields = get_fields(&m);
    let n = fields.len();
    let mut i: usize = 0;
    while i < n && fields[i] != current
        invariant
            n == spec_fields(mode).len(),
            fields@ == spec_fields(mode),
            i <= n,
            first_field_index(fields@, current, i as int) == first_field_index(
                fields@,
                current,
                0,
            ),
        decreases n - i,
    {
        proof {
            assert(first_field_index(fields@, current, i as int) == first_field_index(
                fields@,
                current,
                i + 1,
            ));
        }
        i = i + 1;
    }
    let idx: usize = if i < n {
        i
    } else {
        0
    };
    proof {
        if i < n {
            assert(first_field_index(fields@, current, i as int) == i as int);
        } else {
            assert(first_field_index(fields@, current, i as int) == 0);
        }
        assert(idx as int == first_field_index(fields@, current, 0));
    }
    let new_idx: usize = if down {
        if idx + 1 < n {
            idx + 1
        } else {
            n - 1
        }
    } else {
        if idx > 0 {
            idx - 1
        } else {
            0
        }
    };
    fields[new_idx]
}

// ── Cycling and toggling the settings ───────────────────────────────

/// The next time limit in the cycle 15, 30, 60, 120 (wrapping); a limit
/// outside the cycle steps as the first entry would.
pub fn cycle_time_limit(current: u32, forward: bool) -> (next: u32)
    ensures
        next == cycled_time(current, forward),
{
    if forward {
        if current == 15 {
            30
        } else if current == 30 {
            60
        } else if current == 60 {
            120
        } else if current == 120 {
            15
        } else {
            30
        }
    } else {
        if current == 15 {
            120
        } else if current == 30 {
            15
        } else if current == 60 {
            30
        } else if current == 120 {
            60
        } else {
            120
        }
    }
}

/// The next word count in the cycle 10, 25, 50, 100 (wrapping); a count
/// outside the cycle steps as the first entry would.
pub fn cycle_word_count(current: u32, forward: bool) -> (next: u32)
    ensures
        next == cycled_words(current, forward),
{
    if forward {
        if current == 10 {
            25
        } else if current == 25 {
            50
        } else if current == 50 {
            100
        } else if current == 100 {
            10
        } else {
            25
        }
    } else {
        if current == 10 {
            100
        } else if current == 25 {
            10
        } else if current == 50 {
            25
        } else if current == 100 {
            50
        } else {
            100
        }
    }
}

/// What a left or right step on a row does to the configuration: the mode
/// flips, the time limit and word count cycle, the switches toggle, the two
/// picker rows (language, theme) change nothing, and every other setting is
/// preserved.
pub open spec fn stepped_config(
    old: TestConfig,
    new: TestConfig,
    field: MenuField,
    forward: bool,
) -> bool {
    &&& new.mode == (if field == MenuField::Mode {
        if old.mode == TestMode::Time {
            TestMode::Words
        } else {
            TestMode::Time
        }
    } else {
        old.mode
    })
    &&& new.time_limit == (if field == MenuField::Time {
        cycled_time(old.time_limit, forward)
    } else {
        old.time_limit
    })
    &&& new.word_count == (if field == MenuField::Words {
        cycled_words(old.word_count, forward)
    } else {
        old.word_count
    })
    &&& new.one_line == (old.one_line != (field == MenuField::OneLine))
    &&& new.punctuation == (old.punctuation != (field == MenuField::Punctuation))
    &&& new.numbers == (old.numbers != (field == MenuField::Numbers))
    &&& new.backspace == (old.backspace != (field == MenuField::Backspace))
    &&& new.language@ == old.language@
    &&& new.theme@ == old.theme@
}

/// Apply a left or right step on a row to the configuration.
pub fn apply_field_change(config: &TestConfig, field: MenuField, forward: bool) -> (c: TestConfig)
    ensures
        stepped_config(*config, c, field, forward),
{
    let mut c = TestConfig {
        mode: config.mode,
        time_limit: config.time_limit,
        word_count: config.word_count,
        language: config.language.clone(),
        theme: config.theme.clone(),
        one_line: config.one_line,
        punctuation: config.punctuation,
        numbers: config.numbers,
        backspace: config.backspace,
    };
    match field {
        MenuField::Mode => {
            c.mode = match config.mode {
                TestMode::Time => TestMode::Words,
                TestMode::Words => TestMode::Time,
            };
        },
        MenuField::Time => {
            c.time_limit = cycle_time_limit(config.time_limit, forward);
        },
        MenuField::Words => {
            c.word_count = cycle_word_count(config.word_count, forward);
        },
        MenuField::OneLine => {
            c.one_line = !config.one_line;
        },
        MenuField::Punctuation => {
            c.punctuation = !config.punctuation;
        },
        MenuField::Numbers => {
            c.numbers = !config.numbers;
        },
        MenuField::Backspace => {
            c.backspace = !config.backspace;
        },
        MenuField::Language => {},
        MenuField::Theme => {},
    }
    c
}

/// What `cycle_time_limit` steps to.
pub open spec fn cycled_time(current: u32, forward: bool) -> u32 {
    if forward {
        if current == 15 {
            30u32
        } else if current == 30 {
            60u32
        } else if current == 60 {
            120u32
        } else if current == 120 {
            15u32
        } else {
            30u32
        }
    } else {
        if current == 15 {
            120u32
        } else if current == 30 {
            15u32
        } else if current == 60 {
            30u32
        } else if current == 120 {
            60u32
        } else {
            120u32
        }
    }
}

/// What `cycle_word_count` steps to.
pub open spec fn cycled_words(current: u32, forward: bool) -> u32 {
    if forward {
        if current == 10 {
            25u32
        } else if current == 25 {
            50u32
        } else if current == 50 {
            100u32
        } else if current == 100 {
            10u32
        } else {
            25u32
        }
    } else {
        if current == 10 {
            100u32
        } else if current == 25 {
            10u32
        } else if current == 50 {
            25u32
        } else if current == 100 {
            50u32
        } else {
            100u32
        }
    }
}


// ── Driving the menu by one key ─────────────────────────────────────

fn open_language_picker(state: &mut MenuState, config: &TestConfig)
    ensures
        final(state).picker is Some,
        final(state).wf(),
        final(state).selected_field == old(state).selected_field,
        final(state).theme_preview_base == old(state).theme_preview_base,
{
    let names = get_available_languages();
    let n = names.len();
    let mut items: Vec<String> = Vec::new();
    let mut i: usize = 0;
    while i < n
        invariant
            n == names@.len(),
            i <= n,
        decreases n - i,
    {
        items.push(names[i].to_owned());
        i = i + 1;
    }
    state.picker = Some(PickerKind::Language(PickerState::new(items, config.language.clone())));
}

fn open_theme_picker(state: &mut MenuState, config: &TestConfig)
    ensures
        final(state).picker is Some,
        final(state).wf(),
        final(state).selected_field == old(state).selected_field,
{
    state.theme_preview_base = Some(config.theme.clone());
    let names = get_theme_names();
    let n = names.len();
    let mut items: Vec<String> = Vec::new();
    let mut i: usize = 0;
    while i < n
        invariant
            n == names@.len(),
            i <= n,
        decreases n - i,
    {
        items.push(names[i].to_owned());
        i = i + 1;
    }
    state.picker = Some(PickerKind::Theme(PickerState::new(items, config.theme.clone())));
}

/// A left or right step on the highlighted row: the two picker rows open
/// their picker; every other row steps its setting.
fn step_selected_field(state: &mut MenuState, config: &TestConfig, forward: bool) -> (action:
    MenuAction)
    requires
        old(state).wf(),
    ensures
        final(state).wf(),
        final(state).selected_field == old(state).selected_field,
        old(state).selected_field == MenuField::Language || old(state).selected_field
            == MenuField::Theme ==> (action is Idle) && final(state).picker is Some,
        old(state).selected_field != MenuField::Language && old(state).selected_field
            != MenuField::Theme ==> (action is UpdateConfig) && stepped_config(
            *config,
            action->UpdateConfig_0,
            old(state).selected_field,
            forward,
        ),
{
    match state.selected_field {
        MenuField::Language => {
            open_language_picker(state, config);
            MenuAction::Idle
        },
        MenuField::Theme => {
            open_theme_picker(state, config);
            MenuAction::Idle
        },
        field => MenuAction::UpdateConfig(apply_field_change(config, field, forward)),
    }
}

/// Drive the menu by one key. With a picker open, the key goes to it: a
/// choice lands in the configuration (a theme choice also clears the saved
/// preview base), cancelling a theme preview restores the saved theme, and a
/// moving theme highlight previews it. Otherwise 's' opens the scores, Enter
/// starts a session with the current configuration (or opens the picker of
/// the highlighted row), Up/Down (and 'k'/'j') move the highlight, and
/// Left/Right/space step the highlighted setting.
pub fn handle_key(state: &mut MenuState, key: Key, ctrl: bool, config: &TestConfig) -> (action:
    MenuAction)
    requires
        old(state).wf(),
    ensures
        final(state).wf(),
        old(state).picker is Some ==> {
            &&& (action is Idle) || (action is UpdateConfig)
            &&& (action is UpdateConfig) ==> {
                let c = action->UpdateConfig_0;
                &&& c.mode == config.mode
                &&& c.time_limit == config.time_limit
                &&& c.word_count == config.word_count
                &&& c.one_line == config.one_line
                &&& c.punctuation == config.punctuation
                &&& c.numbers == config.numbers
                &&& c.backspace == config.backspace
                &&& (old(state).picker matches Some(PickerKind::Language(_)) ==> c.theme@
                    == config.theme@)
                &&& (old(state).picker matches Some(PickerKind::Theme(_)) ==> c.language@
                    == config.language@)
            }
            &&& key == Key::Esc ==> final(state).picker is None
        },
        old(state).picker is None ==> {
            &&& (key == Key::Character('s') && !ctrl) ==> (action is Scores)
            &&& (key == Key::Enter && old(state).selected_field != MenuField::Language && old(
                state,
            ).selected_field != MenuField::Theme) ==> (action is Start) && action->Start_0
                == *config
            &&& (key == Key::Enter && (old(state).selected_field == MenuField::Language || old(
                state,
            ).selected_field == MenuField::Theme)) ==> (action is Idle) && final(state).picker
                is Some
            &&& ((key == Key::Left || key == Key::Right || key == Key::Character(' ')) && old(
                state,
            ).selected_field != MenuField::Language && old(state).selected_field
                != MenuField::Theme) ==> (action is UpdateConfig) && stepped_config(
                *config,
                action->UpdateConfig_0,
                old(state).selected_field,
                key == Key::Right,
            )
            &&& (key == Key::Up || key == Key::Character('k')) ==> (action is Idle)
                && final(state).picker is None && final(state).selected_field
                == spec_move_selection(config.mode, old(state).selected_field, false)
            &&& (key == Key::Down || key == Key::Character('j')) ==> (action is Idle)
                && final(state).picker is None && final(state).selected_field
                == spec_move_selection(config.mode, old(state).selected_field, true)
        },
{
    let picker_is_open = state.picker.is_some();
    if picker_is_open {
        let is_theme = matches!(&state.picker, Some(PickerKind::Theme(_)));
        let result = match &mut state.picker {
            Some(PickerKind::Language(ps)) => ps.handle_key(key, ctrl),
            Some(PickerKind::Theme(ps)) => ps.handle_key(key, ctrl),
            None => PickerResult::Active,
        };
        match result {
            PickerResult::Selected(val) => {
                let mut c = config.duplicate();
                if is_theme {
                    c.theme = val;
                    state.theme_preview_base = None;
                } else {
                    c.language = val;
                }
                state.picker = None;
                MenuAction::UpdateConfig(c)
            },
            PickerResult::Cancelled => {
                if is_theme {
                    if let Some(base) = &state.theme_preview_base {
                        let mut c = config.duplicate();
                        c.theme = base.clone();
                        state.theme_preview_base = None;
                        state.picker = None;
                        return MenuAction::UpdateConfig(c);
                    }
                }
                state.picker = None;
                MenuAction::Idle
            },
            PickerResult::Highlighted(val) => {
                if is_theme {
                    let mut c = config.duplicate();
                    c.theme = val;
                    MenuAction::UpdateConfig(c)
                } else {
                    MenuAction::Idle
                }
            },
            PickerResult::Active => MenuAction::Idle,
        }
    } else {
        match key {
            Key::Enter => {
                match state.selected_field {
                    MenuField::Language => {
                        open_language_picker(state, config);
                        MenuAction::Idle
                    },
                    MenuField::Theme => {
                        open_theme_picker(state, config);
                        MenuAction::Idle
                    },
                    _ => MenuAction::Start(config.duplicate()),
                }
            },
            Key::Up => {
                state.selected_field = move_selection(state.selected_field, config.mode, false);
                MenuAction::Idle
            },
            Key::Down => {
                state.selected_field = move_selection(state.selected_field, config.mode, true);
                MenuAction::Idle
            },
            Key::Left => step_selected_field(state, config, false),
            Key::Right => step_selected_field(state, config, true),
            Key::Character(c) => {
                if c == 's' && !ctrl {
                    MenuAction::Scores
                } else if c == 'k' {
                    state.selected_field = move_selection(
                        state.selected_field,
                        config.mode,
                        false,
                    );
                    MenuAction::Idle
                } else if c == 'j' {
                    state.selected_field = move_selection(state.selected_field, config.mode, true);
                    MenuAction::Idle
                } else if c == ' ' {
                    step_selected_field(state, config, false)
                } else {
                    MenuAction::Idle
                }
            },
            _ => MenuAction::Idle,
        }
    }
}

} // verus!
