use crate::types::WordState;
use vstd::prelude::*;

verus! {

/// One display line of the word area: the slots from `start_index` up to but
/// not including `end_index`.
#[derive(Debug, Clone, Copy, PartialEq, Eq, Structural)]
pub struct LineRange {
    pub start_index: usize,
    pub end_index: usize,
}

/// Whether `lines` splits the indices `0 .. n` into consecutive, non-empty
/// ranges in order.
pub open spec fn lines_partition(lines: Seq<LineRange>, n: nat) -> bool {
    &&& (n == 0 ==> lines.len() == 0)
    &&& (n > 0 ==> lines.len() > 0 && lines[0].start_index == 0
        && lines.last().end_index == n)
    &&& forall|k: int|
        0 <= k < lines.len() ==> (#[trigger] lines[k]).start_index < lines[k].end_index
    &&& forall|k: int|
        0 <= k < lines.len() - 1 ==> (#[trigger] lines[k]).end_index == lines[k
            + 1].start_index
}

/// The display cells one slot takes: its target characters plus one space.
pub open spec fn slot_width(w: WordState) -> int {
    w.word@.len() as int + 1
}

/// The display cells the slots `a .. b` take together.
pub open spec fn line_width_of(words: Seq<WordState>, a: int, b: int) -> int
    decreases b - a,
{
    if a >= b {
        0
    } else {
        slot_width(words[a]) + line_width_of(words, a + 1, b)
    }
}

proof fn lemma_line_width_snoc(words: Seq<WordState>, a: int, b: int)
    requires
        a <= b,
    ensures
        line_width_of(words, a, b + 1) == line_width_of(words, a, b) + slot_width(words[b]),
    decreases b - a,
{
    if a == b {
        assert(line_width_of(words, a, b) == 0);
        assert(line_width_of(words, b + 1, b + 1) == 0);
        assert(line_width_of(words, a, b + 1) == slot_width(words[b]));
    } else {
        lemma_line_width_snoc(words, a + 1, b);
        assert(line_width_of(words, a, b + 1) == slot_width(words[a]) + line_width_of(
            words,
            a + 1,
            b + 1,
        ));
        assert(line_width_of(words, a, b) == slot_width(words[a]) + line_width_of(
            words,
            a + 1,
            b,
        ));
    }
}

/// Word-wrap the slots into greedy display lines of at most `max_width`
/// cells — each word takes its length plus one for its space. The result
/// splits the slot indices into consecutive non-empty ranges covering all of
/// them; a line only exceeds the width when a single word does, and no line
/// but the last could have taken its successor's first word too.
#[verifier::rlimit(60)]
pub fn compute_lines(words: &[WordState], max_width: usize) -> (lines: Vec<LineRange>)
    ensures
        lines_partition(lines@, words@.len()),
        forall|k: int|
            0 <= k < lines@.len() && (#[trigger] lines@[k]).end_index > lines@[k].start_index + 1
                ==> line_width_of(
                words@,
                lines@[k].start_index as int,
                lines@[k].end_index as int,
            ) <= max_width,
        forall|k: int|
            0 <= k < lines@.len() - 1 ==> line_width_of(
                words@,
                (#[trigger] lines@[k]).start_index as int,
                lines@[k].end_index as int,
            ) + slot_width(words@[lines@[k].end_index as int]) > max_width,
{
    let n = words.len();
    let mut lines: Vec<LineRange> = Vec::new();
    let mut line_start: usize = 0;
    let mut line_width: u128 = 0;
    let mut i: usize = 0;
    while i < n
        invariant
            n == words@.len(),
            i <= n,
            line_start <= i,
            (line_width > 0) == (i > line_start),
            line_width as int <= i as int * 0x1_0000_0000_0000_0000,
            line_width as int == line_width_of(words@, line_start as int, i as int),
            i > line_start + 1 ==> line_width as int <= max_width,
            lines@.len() == 0 ==> line_start == 0,
            lines@.len() > 0 ==> lines@[0].start_index == 0 && lines@.last().end_index
                == line_start && line_start > 0,
            forall|k: int|
                0 <= k < lines@.len() ==> (#[trigger] lines@[k]).start_index
                    < lines@[k].end_index,
            forall|k: int|
                0 <= k < lines@.len() - 1 ==> (#[trigger] lines@[k]).end_index == lines@[k
                    + 1].start_index,
            forall|k: int|
                0 <= k < lines@.len() && (#[trigger] lines@[k]).end_index > lines@[k].start_index
                    + 1 ==> line_width_of(
                    words@,
                    lines@[k].start_index as int,
                    lines@[k].end_index as int,
                ) <= max_width,
            forall|k: int|
                0 <= k < lines@.len() ==> line_width_of(
                    words@,
                    (#[trigger] lines@[k]).start_index as int,
                    lines@[k].end_index as int,
                ) + slot_width(words@[lines@[k].end_index as int]) > max_width,
        decreases n - i,
    {
        let word_len = words[i].word.len() as u128 + 1;
        proof {
            lemma_line_width_snoc(words@, line_start as int, i as int);
        }
        if line_width + word_len > max_width as u128 && line_width > 0 {
            lines.push(LineRange { start_index: line_start, end_index: i });
            line_start = i;
            line_width = 0;
            proof {
                assert(line_width_of(words@, i as int, i as int) == 0);
                lemma_line_width_snoc(words@, line_start as int, i as int);
            }
        }
        line_width = line_width + word_len;
        i = i + 1;
    }
    if line_start < n {
        lines.push(LineRange { start_index: line_start, end_index: n });
    }
    lines
}

/// The window of slots shown in single-line (tape) mode: the slots from
/// `start_index` up to `end_index`, drawn after `leading_pad` blank cells so
/// that the caret sits near the middle of the width.
#[derive(Debug, Clone, Copy, PartialEq, Eq, Structural)]
pub struct TapeRange {
    pub start_index: usize,
    pub end_index: usize,
    pub leading_pad: usize,
}

/// The display cells one slot takes on the tape, where typed overflow also
/// shows: the longer of target and typed, plus one space.
pub open spec fn display_slot_width(w: WordState) -> int {
    if w.word@.len() >= w.typed@.len() {
        w.word@.len() as int + 1
    } else {
        w.typed@.len() as int + 1
    }
}

/// The display cells the slots `a .. b` take together on the tape.
pub open spec fn display_width_of(words: Seq<WordState>, a: int, b: int) -> int
    decreases b - a,
{
    if a >= b {
        0
    } else {
        display_slot_width(words[a]) + display_width_of(words, a + 1, b)
    }
}

proof fn lemma_display_width_cons(words: Seq<WordState>, a: int, b: int)
    requires
        a <= b,
    ensures
        display_width_of(words, a - 1, b) == display_slot_width(words[a - 1]) + display_width_of(
            words,
            a,
            b,
        ),
{
}

/// The space left of the anchor column for past words: the anchor (half the
/// width) less the caret's column within the current word.
pub open spec fn tape_left_budget(
    words: Seq<WordState>,
    current: int,
    cursor: int,
    max_width: int,
) -> int {
    let anchor = max_width / 2;
    let col = if cursor <= display_slot_width(words[current]) - 1 {
        cursor
    } else {
        display_slot_width(words[current]) - 1
    };
    if anchor >= col {
        anchor - col
    } else {
        0
    }
}

/// The space right of the anchor for upcoming words: the rest of the width,
/// less what the current word still takes right of the caret.
pub open spec fn tape_right_budget(
    words: Seq<WordState>,
    current: int,
    cursor: int,
    max_width: int,
) -> int {
    let anchor = max_width / 2;
    let dlen = display_slot_width(words[current]) - 1;
    let col = if cursor <= dlen {
        cursor
    } else {
        dlen
    };
    if max_width - anchor + col >= dlen + 1 {
        max_width - anchor + col - (dlen + 1)
    } else {
        0
    }
}

/// Choose the tape window around the current word: past words fill the space
/// left of the anchor column greedily, upcoming words fill the right. The
/// window contains the current word; what it takes on each side fits its
/// budget, no further word would have fit, and the leading pad is exactly
/// the left budget that went unused.
#[verifier::rlimit(60)]
pub fn compute_tape_range(
    words: &[WordState],
    current_word_index: usize,
    cursor_position: usize,
    max_width: usize,
) -> (tape: TapeRange)
    requires
        current_word_index < words@.len(),
    ensures
        tape.start_index <= current_word_index,
        current_word_index < tape.end_index <= words@.len(),
        ({
            let cwi = current_word_index as int;
            let cur = cursor_position as int;
            let mw = max_width as int;
            let left = tape_left_budget(words@, cwi, cur, mw);
            let right = tape_right_budget(words@, cwi, cur, mw);
            &&& display_width_of(words@, tape.start_index as int, cwi) <= left
            &&& tape.start_index > 0 ==> display_width_of(
                words@,
                tape.start_index as int - 1,
                cwi,
            ) > left
            &&& tape.leading_pad == left - display_width_of(words@, tape.start_index as int, cwi)
            &&& line_width_of(words@, cwi + 1, tape.end_index as int) <= right
            &&& tape.end_index < words@.len() ==> line_width_of(
                words@,
                cwi + 1,
                tape.end_index as int + 1,
            ) > right
        }),
{
    let n = words.len();
    let anchor = max_width / 2;
    let current_word_len = words[current_word_index].word.len();
    let typed_len = words[current_word_index].typed.len();
    let display_len: usize = if current_word_len >= typed_len {
        current_word_len
    } else {
        typed_len
    };
    let cursor_col: usize = if cursor_position <= display_len {
        cursor_position
    } else {
        display_len
    };
    let ghost cwi = current_word_index as int;
    let ghost mw = max_width as int;

    // Fill the left of the anchor with past words.
    let budget0: u128 = if anchor >= cursor_col {
        (anchor - cursor_col) as u128
    } else {
        0
    };
    proof {
        assert(budget0 as int == tape_left_budget(words@, cwi, cursor_position as int, mw));
    }
    let mut left_budget = budget0;
    let mut start_index = current_word_index;
    while start_index > 0
        invariant
            n == words@.len(),
            cwi == current_word_index as int,
            current_word_index < n,
            start_index <= current_word_index,
            budget0 <= max_width / 2,
            left_budget as int == budget0 as int - display_width_of(
                words@,
                start_index as int,
                cwi,
            ),
            0 <= left_budget <= budget0,
        ensures
            start_index <= current_word_index,
            left_budget as int == budget0 as int - display_width_of(
                words@,
                start_index as int,
                cwi,
            ),
            start_index > 0 ==> display_width_of(words@, start_index as int - 1, cwi)
                > budget0 as int,
        decreases start_index,
    {
        let prev = start_index - 1;
        let wl = words[prev].word.len();
        let tl = words[prev].typed.len();
        let w_len = (if wl >= tl {
            wl
        } else {
            tl
        }) as u128 + 1;
        proof {
            lemma_display_width_cons(words@, start_index as int, cwi);
        }
        if w_len > left_budget {
            break ;
        }
        left_budget = left_budget - w_len;
        start_index = prev;
    }
    let leading_pad = left_budget as usize;

    // Fill the right of the anchor with upcoming words.
    let right_anchor = (max_width - anchor) as u128 + cursor_col as u128;
    let rbudget0: u128 = if right_anchor >= display_len as u128 + 1 {
        right_anchor - (display_len as u128 + 1)
    } else {
        0
    };
    proof {
        assert(rbudget0 as int == tape_right_budget(words@, cwi, cursor_position as int, mw));
    }
    let mut right_budget = rbudget0;
    let mut end_index = current_word_index + 1;
    while end_index < n
        invariant
            n == words@.len(),
            cwi == current_word_index as int,
            current_word_index < end_index <= n,
            right_budget as int == rbudget0 as int - line_width_of(
                words@,
                cwi + 1,
                end_index as int,
            ),
            0 <= right_budget <= rbudget0,
        ensures
            current_word_index < end_index <= n,
            line_width_of(words@, cwi + 1, end_index as int) <= rbudget0 as int,
            end_index < n ==> line_width_of(words@, cwi + 1, end_index as int + 1)
                > rbudget0 as int,
        decreases n - end_index,
    {
        let w_len = words[end_index].word.len() as u128 + 1;
        proof {
            lemma_line_width_snoc(words@, cwi + 1, end_index as int);
        }
        if w_len > right_budget {
            break ;
        }
        right_budget = right_budget - w_len;
        end_index = end_index + 1;
    }
    proof {
        if end_index < n {
            lemma_line_width_snoc(words@, cwi + 1, end_index as int);
        }
        if start_index > 0 {
            lemma_display_width_cons(words@, start_index as int, cwi);
        }
    }
    TapeRange { start_index, end_index, leading_pad }
}

} // verus!
