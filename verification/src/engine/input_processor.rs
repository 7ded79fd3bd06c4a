use crate::text::{chars_eq, str_to_chars};
use crate::types::{CharResult, InputModel, InputState, WordModel, WordState};
use vstd::prelude::*;
use vstd::string::*;

verus! {

// ── Session creation ────────────────────────────────────────────────

/// A fresh session over the given words: nothing typed, caret on the first
/// word, every tally at zero.
pub fn create_input_state(words: &[String]) -> (state: InputState)
    requires
        words@.len() > 0,
    ensures
        state.wf(),
        state@.words.len() == words@.len(),
        forall|i: int|
            0 <= i < words@.len() ==> (#[trigger] state@.words[i]) == (WordModel {
                word: words@[i]@,
                typed: Seq::<char>::empty(),
                chars: Seq::<CharResult>::empty(),
                completed: false,
            }),
        state@.current_word_index == 0,
        state@.cursor_position == 0,
        !state@.finished,
        state@.historical_error_chars == 0,
        state@.keypress_correct == 0,
        state@.keypress_incorrect == 0,
{
    let n = words.len();
    let mut slots: Vec<WordState> = Vec::new();
    let mut i: usize = 0;
    while i < n
        invariant
            n == words@.len(),
            i <= n,
            slots@.len() == i,
            forall|j: int|
                0 <= j < i ==> (#[trigger] slots@[j])@ == (WordModel {
                    word: words@[j]@,
                    typed: Seq::<char>::empty(),
                    chars: Seq::<CharResult>::empty(),
                    completed: false,
                }),
        decreases n - i,
    {
        let slot = WordState {
            word: str_to_chars(&words[i]),
            typed: Vec::new(),
            chars: Vec::new(),
            completed: false,
        };
        slots.push(slot);
        i = i + 1;
    }
    InputState {
        words: slots,
        current_word_index: 0,
        cursor_position: 0,
        finished: false,
        historical_error_chars: 0,
        keypress_correct: 0,
        keypress_incorrect: 0,
    }
}

// ── Typing one character ────────────────────────────────────────────

/// What typing `ch` does to the state: appends to the current word's typed
/// text and keystroke log, moves the caret, and bumps exactly one tally.
/// A keystroke is correct when it matches the target character at its
/// position; one typed past the target's end is extra and always incorrect.
pub open spec fn spec_process_char(s: InputModel, ch: char) -> InputModel {
    if s.finished {
        s
    } else {
        let w = s.current();
        let pos = w.typed.len();
        let is_extra = pos >= w.word.len();
        let correct = !is_extra && ch == w.word[pos as int];
        let w2 = WordModel {
            typed: w.typed.push(ch),
            chars: w.chars.push(CharResult { correct, extra: is_extra }),
            ..w
        };
        InputModel {
            words: s.words.update(s.current_word_index as int, w2),
            cursor_position: pos + 1,
            historical_error_chars: if correct {
                s.historical_error_chars
            } else {
                s.historical_error_chars + 1
            },
            keypress_correct: if correct {
                s.keypress_correct + 1
            } else {
                s.keypress_correct
            },
            keypress_incorrect: if correct {
                s.keypress_incorrect
            } else {
                s.keypress_incorrect + 1
            },
            ..s
        }
    }
}

/// Record one typed character against the current word. No-op once finished.
pub fn process_char(state: InputState, ch: char) -> (result: InputState)
    requires
        state.wf(),
        state.keypress_correct < usize::MAX,
        state.keypress_incorrect < usize::MAX,
        state.historical_error_chars < usize::MAX,
    ensures
        result@ == spec_process_char(state@, ch),
        result.wf(),
{
    let mut st = state;
    if st.finished {
        return st;
    }
    let ghost s0 = st@;
    let idx = st.current_word_index;
    let w = &mut st.words[idx];
    let pos = w.typed.len();
    let is_extra = pos >= w.word.len();
    let correct = if is_extra {
        false
    } else {
        ch == w.word[pos]
    };
    w.typed.push(ch);
    w.chars.push(CharResult { correct, extra: is_extra });
    let cursor = w.typed.len();
    st.cursor_position = cursor;
    if correct {
        st.keypress_correct = st.keypress_correct + 1;
    } else {
        st.historical_error_chars = st.historical_error_chars + 1;
        st.keypress_incorrect = st.keypress_incorrect + 1;
    }
    proof {
        assert(st@.words =~= spec_process_char(s0, ch).words);
        assert(st@ =~= spec_process_char(s0, ch));
    }
    st
}

// ── Advancing with a space ──────────────────────────────────────────

/// What a space does: nothing on an untouched word; otherwise it seals the
/// current word, scores the space as one keypress — correct exactly when the
/// whole word was typed exactly — and moves the caret on, or finishes the
/// session if this was the last word (the index then stays on it).
pub open spec fn spec_process_space(s: InputModel) -> InputModel {
    if s.finished {
        s
    } else if s.current().typed.len() == 0 {
        s
    } else {
        let w = s.current();
        let space_correct = w.typed == w.word;
        let w2 = WordModel { completed: true, ..w };
        let now_finished = s.current_word_index + 1 >= s.words.len();
        InputModel {
            words: s.words.update(s.current_word_index as int, w2),
            current_word_index: if now_finished {
                s.current_word_index
            } else {
                s.current_word_index + 1
            },
            cursor_position: 0,
            finished: now_finished,
            keypress_correct: if space_correct {
                s.keypress_correct + 1
            } else {
                s.keypress_correct
            },
            keypress_incorrect: if space_correct {
                s.keypress_incorrect
            } else {
                s.keypress_incorrect + 1
            },
            ..s
        }
    }
}

/// Seal the current word with a space and advance. No-op once finished or
/// while the current word is untouched.
pub fn process_space(state: InputState) -> (result: InputState)
    requires
        state.wf(),
        state.keypress_correct < usize::MAX,
        state.keypress_incorrect < usize::MAX,
    ensures
        result@ == spec_process_space(state@),
        result.wf(),
{
    let mut st = state;
    if st.finished {
        return st;
    }
    let ghost s0 = st@;
    let idx = st.current_word_index;
    if st.words[idx].typed.len() == 0 {
        return st;
    }
    let n = st.words.len();
    proof {
        assert(idx < n);
    }
    let space_correct = chars_eq(&st.words[idx].typed, &st.words[idx].word);
    let w = &mut st.words[idx];
    w.completed = true;
    let next_index = idx + 1;
    let now_finished = next_index >= n;
    st.current_word_index = if now_finished {
        idx
    } else {
        next_index
    };
    st.cursor_position = 0;
    st.finished = now_finished;
    if space_correct {
        st.keypress_correct = st.keypress_correct + 1;
    } else {
        st.keypress_incorrect = st.keypress_incorrect + 1;
    }
    proof {
        assert(st@.words =~= spec_process_space(s0).words);
        assert(st@ =~= spec_process_space(s0));
    }
    st
}

// ── Backspace ───────────────────────────────────────────────────────

/// What backspace does: removes the last typed character of the current word
/// together with its log entry; on an untouched word it instead reopens the
/// previous word when that word is completed, resuming at the end of its
/// typed text. It never changes any keypress tally.
pub open spec fn spec_process_backspace(s: InputModel) -> InputModel {
    if s.finished {
        s
    } else {
        let w = s.current();
        if w.typed.len() > 0 {
            let w2 = WordModel { typed: w.typed.drop_last(), chars: w.chars.drop_last(), ..w };
            InputModel {
                words: s.words.update(s.current_word_index as int, w2),
                cursor_position: (w.typed.len() - 1) as nat,
                ..s
            }
        } else if s.current_word_index > 0 && s.words[s.current_word_index as int - 1].completed {
            let prev = s.words[s.current_word_index as int - 1];
            let w2 = WordModel { completed: false, ..prev };
            InputModel {
                words: s.words.update(s.current_word_index as int - 1, w2),
                current_word_index: (s.current_word_index - 1) as nat,
                cursor_position: prev.typed.len(),
                ..s
            }
        } else {
            s
        }
    }
}

/// Delete one character, or step back into the previous completed word when
/// the current one is untouched. Tallies are monotonic: this never lowers
/// `keypress_correct`, `keypress_incorrect` or `historical_error_chars`.
pub fn process_backspace(state: InputState) -> (result: InputState)
    requires
        state.wf(),
    ensures
        result@ == spec_process_backspace(state@),
        result.wf(),
        result@.historical_error_chars == state@.historical_error_chars,
        result@.keypress_correct == state@.keypress_correct,
        result@.keypress_incorrect == state@.keypress_incorrect,
{
    let mut st = state;
    if st.finished {
        return st;
    }
    let ghost s0 = st@;
    let idx = st.current_word_index;
    if st.words[idx].typed.len() > 0 {
        let w = &mut st.words[idx];
        w.typed.pop();
        w.chars.pop();
        let cursor = w.typed.len();
        st.cursor_position = cursor;
        proof {
            assert(st@.words =~= spec_process_backspace(s0).words);
            assert(st@ =~= spec_process_backspace(s0));
        }
        return st;
    }
    if idx > 0 && st.words[idx - 1].completed {
        let prev = &mut st.words[idx - 1];
        prev.completed = false;
        let cursor = prev.typed.len();
        st.current_word_index = idx - 1;
        st.cursor_position = cursor;
        proof {
            assert(st@.words =~= spec_process_backspace(s0).words);
            assert(st@ =~= spec_process_backspace(s0));
        }
        return st;
    }
    st
}

// ── Clearing the current word ───────────────────────────────────────

/// What ctrl+backspace does: empties the current word's typed text and log,
/// touching neither the caret's word index, other words, nor any tally.
pub open spec fn spec_process_ctrl_backspace(s: InputModel) -> InputModel {
    if s.finished {
        s
    } else {
        let w = s.current();
        let w2 = WordModel { typed: Seq::<char>::empty(), chars: Seq::<CharResult>::empty(), ..w };
        InputModel {
            words: s.words.update(s.current_word_index as int, w2),
            cursor_position: 0,
            ..s
        }
    }
}

/// Clear the current word entirely. No-op once finished.
pub fn process_ctrl_backspace(state: InputState) -> (result: InputState)
    requires
        state.wf(),
    ensures
        result@ == spec_process_ctrl_backspace(state@),
        result.wf(),
        result@.historical_error_chars == state@.historical_error_chars,
        result@.keypress_correct == state@.keypress_correct,
        result@.keypress_incorrect == state@.keypress_incorrect,
{
    let mut st = state;
    if st.finished {
        return st;
    }
    let ghost s0 = st@;
    let idx = st.current_word_index;
    let w = &mut st.words[idx];
    w.typed.clear();
    w.chars.clear();
    st.cursor_position = 0;
    proof {
        assert(st@.words =~= spec_process_ctrl_backspace(s0).words);
        assert(st@ =~= spec_process_ctrl_backspace(s0));
    }
    st
}

// ── Routing a raw keystroke ─────────────────────────────────────────

/// Routing rule for a raw keystroke: ctrl+backspace clears the word,
/// backspace deletes, a lone space advances, any other single printable
/// character (code point at or above the space) is typed, and everything
/// else — empty input, several characters, control characters — is ignored.
pub open spec fn spec_process_keystroke(
    s: InputModel,
    input: Seq<char>,
    backspace: bool,
    ctrl: bool,
) -> InputModel {
    if backspace {
        if ctrl {
            spec_process_ctrl_backspace(s)
        } else {
            spec_process_backspace(s)
        }
    } else if input.len() == 1 && input[0] == ' ' {
        spec_process_space(s)
    } else if input.len() == 1 && input[0] >= ' ' {
        spec_process_char(s, input[0])
    } else {
        s
    }
}

// ── Laws ────────────────────────────────────────────────────────────

/// Folding a run of typed characters over the state, first character first.
pub open spec fn spec_type_chars(s: InputModel, cs: Seq<char>) -> InputModel
    decreases cs.len(),
{
    if cs.len() == 0 {
        s
    } else {
        spec_type_chars(spec_process_char(s, cs[0]), cs.drop_first())
    }
}

/// Typing a character preserves the state invariant.
pub proof fn lemma_process_char_wf(s: InputModel, ch: char)
    requires
        s.wf(),
    ensures
        spec_process_char(s, ch).wf(),
{
}

/// Typing out the rest of the current word, exactly as the target spells it,
/// scores every keystroke correct: `keypress_correct` grows by the number of
/// characters typed and nothing else moves.
proof fn lemma_type_suffix(s: InputModel)
    requires
        s.wf(),
        !s.finished,
        s.current().typed == s.current().word.subrange(0, s.current().typed.len() as int),
        s.current().typed.len() <= s.current().word.len(),
    ensures
        ({
            let w = s.current();
            let s2 = spec_type_chars(s, w.word.skip(w.typed.len() as int));
            &&& s2.wf()
            &&& !s2.finished
            &&& s2.current_word_index == s.current_word_index
            &&& s2.words.len() == s.words.len()
            &&& s2.current().word == w.word
            &&& s2.current().typed == w.word
            &&& s2.current().completed == w.completed
            &&& s2.keypress_correct == s.keypress_correct + (w.word.len() - w.typed.len())
            &&& s2.keypress_incorrect == s.keypress_incorrect
            &&& s2.historical_error_chars == s.historical_error_chars
        }),
    decreases s.current().word.len() - s.current().typed.len(),
{
    let w = s.current();
    let rest = w.word.skip(w.typed.len() as int);
    if w.typed.len() == w.word.len() {
        assert(rest.len() == 0);
        assert(w.typed =~= w.word);
    } else {
        let pos = w.typed.len();
        let ch = w.word[pos as int];
        assert(rest[0] == ch);
        let s1 = spec_process_char(s, ch);
        lemma_process_char_wf(s, ch);
        assert(s1.current().typed =~= s1.current().word.subrange(
            0,
            s1.current().typed.len() as int,
        ));
        lemma_type_suffix(s1);
        assert(s1.current().word.skip(s1.current().typed.len() as int) =~= rest.drop_first());
        assert(spec_type_chars(s, rest) == spec_type_chars(s1, rest.drop_first()));
    }
}

/// Typing the current word exactly and then advancing with a space raises
/// `keypress_correct` by the word's length plus one (the sealing space) and
/// leaves `keypress_incorrect` and `historical_error_chars` untouched.
pub proof fn lemma_type_word_exactly(s: InputModel)
    requires
        s.wf(),
        !s.finished,
        s.current().typed.len() == 0,
        s.current().word.len() > 0,
    ensures
        ({
            let w = s.current().word;
            let s2 = spec_process_space(spec_type_chars(s, w));
            &&& s2.keypress_correct == s.keypress_correct + w.len() + 1
            &&& s2.keypress_incorrect == s.keypress_incorrect
            &&& s2.historical_error_chars == s.historical_error_chars
            &&& s2.words[s.current_word_index as int].completed
        }),
{
    let w = s.current();
    assert(w.typed =~= w.word.subrange(0, 0));
    assert(w.word.skip(0) =~= w.word);
    lemma_type_suffix(s);
}

/// Dispatch one raw keystroke to the operation it stands for.
pub fn process_keystroke(state: InputState, input: &str, backspace: bool, ctrl: bool) -> (result:
    InputState)
    requires
        state.wf(),
        state.keypress_correct < usize::MAX,
        state.keypress_incorrect < usize::MAX,
        state.historical_error_chars < usize::MAX,
    ensures
        result@ == spec_process_keystroke(state@, input@, backspace, ctrl),
        result.wf(),
{
    if backspace {
        if ctrl {
            return process_ctrl_backspace(state);
        }
        return process_backspace(state);
    }
    if input.unicode_len() == 1 {
        let c = input.get_char(0);
        if c == ' ' {
            return process_space(state);
        }
        if c >= ' ' {
            return process_char(state, c);
        }
        return state;
    }
    state
}

} // verus!
