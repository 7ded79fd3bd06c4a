use crate::text::{contains_sub, lower_chars, lower_seq, spec_contains_sub, str_eq, to_lower_chars};
use crate::types::Key;
use vstd::prelude::*;
use vstd::string::*;

verus! {

// ── State ───────────────────────────────────────────────────────────

/// A filterable selection list: all items, the one currently persisted as
/// selected, the typed search text, the cursor within the filtered view, and
/// the filtered view itself as indices into `items`.
pub struct PickerState {
    pub items: Vec<String>,
    pub selected: String,
    pub search: Vec<char>,
    pub cursor: usize,
    pub filtered: Vec<usize>,
}

/// What the picker hands back for one key.
pub enum PickerResult {
    /// The highlighted item was chosen.
    Selected(String),
    /// The picker was dismissed.
    Cancelled,
    /// The highlight moved to this item.
    Highlighted(String),
    /// The key was consumed with nothing to report.
    Active,
}

/// Whether an item's text matches the search text, case-insensitively: the
/// lowered search occurs in the lowered item.
pub open spec fn matches_search(item: Seq<char>, search: Seq<char>) -> bool {
    spec_contains_sub(lower_seq(item), lower_seq(search))
}

/// The indices of the items among the first `n` that match the search, in
/// increasing order.
pub open spec fn matching_indices(items: Seq<String>, search: Seq<char>, n: int) -> Seq<usize>
    decreases n,
{
    if n <= 0 {
        Seq::<usize>::empty()
    } else if matches_search(items[n - 1]@, search) {
        matching_indices(items, search, n - 1).push((n - 1) as usize)
    } else {
        matching_indices(items, search, n - 1)
    }
}

impl PickerState {
    /// The standing invariant: the filtered view is exactly the matches of
    /// the current search, and the cursor points into it whenever it is
    /// nonempty.
    pub open spec fn wf(self) -> bool {
        &&& self.filtered@ == matching_indices(self.items@, self.search@, self.items@.len() as int)
        &&& self.filtered@.len() > 0 ==> self.cursor < self.filtered@.len()
        &&& self.filtered@.len() == 0 ==> self.cursor == 0
    }

    /// A fresh picker over `items`: empty search (so everything shows), the
    /// cursor on the first item whose text equals `selected`, or the first
    /// item if none does.
    pub fn new(items: Vec<String>, selected: String) -> (p: PickerState)
        ensures
            p.wf(),
            p.items@ == items@,
            p.selected@ == selected@,
            p.search@ == Seq::<char>::empty(),
            p.filtered@.len() == items@.len(),
            forall|k: int| 0 <= k < items@.len() ==> #[trigger] p.filtered@[k] == k,
            forall|j: int| 0 <= j < p.cursor ==> (#[trigger] items@[j])@ != selected@,
            p.cursor < items@.len() ==> (items@[p.cursor as int]@ == selected@ || p.cursor == 0),
    {
        let n = items.len();
        let empty_search: Vec<char> = Vec::new();
        let mut filtered: Vec<usize> = Vec::new();
        let mut i: usize = 0;
        while i < n
            invariant
                n == items@.len(),
                i <= n,
                filtered@.len() == i,
                forall|k: int| 0 <= k < i ==> #[trigger] filtered@[k] == k,
                filtered@ == matching_indices(items@, Seq::<char>::empty(), i as int),
            decreases n - i,
        {
            proof {
                let lowered = lower_seq(items@[i as int]@);
                assert(lowered.subrange(0, 0 + lower_seq(Seq::<char>::empty()).len() as int)
                    =~= lower_seq(Seq::<char>::empty()));
                assert(matches_search(items@[i as int]@, Seq::<char>::empty()));
            }
            filtered.push(i);
            i = i + 1;
        }
        let mut cursor: usize = 0;
        let mut j: usize = 0;
        let mut found = false;
        while j < n
            invariant
                n == items@.len(),
                j <= n,
                cursor <= j,
                !found ==> cursor == 0,
                forall|k: int| 0 <= k < j ==> (#[trigger] items@[k])@ != selected@,
                found ==> cursor < n && items@[cursor as int]@ == selected@,
            decreases n - j,
        {
            if str_eq(items[j].as_str(), selected.as_str()) {
                cursor = j;
                found = true;
                break ;
            }
            j = j + 1;
        }
        PickerState { items, selected, search: empty_search, cursor, filtered }
    }

    /// Recompute the filtered view for the current search and clamp the
    /// cursor into it.
    pub fn refilter(&mut self)
        ensures
            final(self).items@ == old(self).items@,
            final(self).selected == old(self).selected,
            final(self).search@ == old(self).search@,
            final(self).wf(),
            final(self).cursor == (if final(self).filtered@.len() == 0 {
                0int
            } else if old(self).cursor < final(self).filtered@.len() {
                old(self).cursor as int
            } else {
                final(self).filtered@.len() - 1
            }),
    {
        let n = self.items.len();
        let needle = lower_chars(&self.search);
        let mut filtered: Vec<usize> = Vec::new();
        let mut i: usize = 0;
        while i < n
            invariant
                n == self.items@.len(),
                i <= n,
                needle@ == lower_seq(self.search@),
                filtered@ == matching_indices(self.items@, self.search@, i as int),
                filtered@.len() <= i,
            decreases n - i,
        {
            let lowered = to_lower_chars(self.items[i].as_str());
            if contains_sub(&lowered, &needle) {
                filtered.push(i);
            }
            i = i + 1;
        }
        let flen = filtered.len();
        self.filtered = filtered;
        if flen == 0 {
            self.cursor = 0;
        } else if self.cursor >= flen {
            self.cursor = flen - 1;
        }
    }

    /// The text under the cursor, if the filtered view shows anything.
    pub fn current_highlighted(&self) -> (r: Option<&str>)
        requires
            self.wf(),
        ensures
            (r is Some) == (self.filtered@.len() > 0),
            r is Some ==> self.filtered@[self.cursor as int] < self.items@.len() && r->0@
                == self.items@[self.filtered@[self.cursor as int] as int]@,
    {
        proof {
            vstd::std_specs::vec::axiom_spec_len(&self.items);
            lemma_matching_indices_in_range(
                self.items@,
                self.search@,
                self.items@.len() as int,
            );
        }
        if self.filtered.len() > 0 {
            let idx = self.filtered[self.cursor];
            Some(self.items[idx].as_str())
        } else {
            None
        }
    }

    /// Drive the picker by one key: Esc cancels; Enter chooses the
    /// highlighted item (or cancels when nothing shows); Up and Down move the
    /// highlight; Backspace erases one search character and any other
    /// non-control character extends the search, both refiltering from the
    /// start of the list. Anything else is consumed silently.
    pub fn handle_key(&mut self, key: Key, ctrl: bool) -> (r: PickerResult)
        requires
            old(self).wf(),
        ensures
            final(self).wf(),
            final(self).items@ == old(self).items@,
            final(self).selected == old(self).selected,
            key == Key::Esc ==> (r is Cancelled) && *final(self) == *old(self),
            key == Key::Enter && old(self).filtered@.len() > 0 ==> (r is Selected)
                && r->Selected_0@ == old(self).items@[old(self).filtered@[old(
                self,
            ).cursor as int] as int]@ && *final(self) == *old(self),
            key == Key::Enter && old(self).filtered@.len() == 0 ==> (r is Cancelled)
                && *final(self) == *old(self),
            key == Key::Up ==> final(self).search@ == old(self).search@ && final(self).cursor == (
            if old(self).cursor > 0 {
                old(self).cursor - 1
            } else {
                0int
            }),
            key == Key::Down ==> final(self).search@ == old(self).search@ && final(self).cursor
                == (if old(self).filtered@.len() == 0 {
                0int
            } else if old(self).cursor + 1 < old(self).filtered@.len() {
                old(self).cursor + 1
            } else {
                old(self).filtered@.len() - 1
            }),
            key == Key::Backspace ==> final(self).search@ == (if old(self).search@.len() == 0 {
                old(self).search@
            } else {
                old(self).search@.drop_last()
            }),
            key is Character && !ctrl ==> final(self).search@ == old(self).search@.push(
                key->0,
            ),
            key == Key::Left || key == Key::Right || key == Key::Tab ==> *final(self) == *old(self)
                && (r is Active),
    {
        match key {
            Key::Esc => PickerResult::Cancelled,
            Key::Enter => {
                proof {
                    vstd::std_specs::vec::axiom_spec_len(&self.items);
                    lemma_matching_indices_in_range(
                        self.items@,
                        self.search@,
                        self.items@.len() as int,
                    );
                }
                if self.filtered.len() > 0 {
                    let idx = self.filtered[self.cursor];
                    PickerResult::Selected(self.items[idx].clone())
                } else {
                    PickerResult::Cancelled
                }
            },
            Key::Up => {
                if self.cursor > 0 {
                    self.cursor = self.cursor - 1;
                }
                match self.current_highlighted() {
                    Some(h) => PickerResult::Highlighted(h.to_owned()),
                    None => PickerResult::Active,
                }
            },
            Key::Down => {
                if self.filtered.len() > 0 {
                    if self.cursor + 1 < self.filtered.len() {
                        self.cursor = self.cursor + 1;
                    } else {
                        self.cursor = self.filtered.len() - 1;
                    }
                }
                match self.current_highlighted() {
                    Some(h) => PickerResult::Highlighted(h.to_owned()),
                    None => PickerResult::Active,
                }
            },
            Key::Backspace => {
                self.search.pop();
                self.cursor = 0;
                self.refilter();
                match self.current_highlighted() {
                    Some(h) => PickerResult::Highlighted(h.to_owned()),
                    None => PickerResult::Active,
                }
            },
            Key::Character(c) => {
                if !ctrl {
                    self.search.push(c);
                    self.cursor = 0;
                    self.refilter();
                    match self.current_highlighted() {
                        Some(h) => PickerResult::Highlighted(h.to_owned()),
                        None => PickerResult::Active,
                    }
                } else {
                    PickerResult::Active
                }
            },
            _ => PickerResult::Active,
        }
    }
}

/// Every index the filter keeps points into the items.
proof fn lemma_matching_indices_in_range(items: Seq<String>, search: Seq<char>, n: int)
    requires
        n <= items.len(),
        n <= usize::MAX,
    ensures
        forall|k: int|
            0 <= k < matching_indices(items, search, n).len() ==> (#[trigger] matching_indices(
                items,
                search,
                n,
            )[k]) < n,
    decreases n,
{
    if n > 0 {
        lemma_matching_indices_in_range(items, search, n - 1);
        let pre = matching_indices(items, search, n - 1);
        let cur = matching_indices(items, search, n);
        assert forall|k: int| 0 <= k < cur.len() implies cur[k] < n by {
            if matches_search(items[n - 1]@, search) {
                if k < pre.len() {
                    assert(cur[k] == pre[k]);
                } else {
                    assert(cur[k] == n - 1);
                }
            } else {
                assert(cur[k] == pre[k]);
            }
        }
    }
}

} // verus!
