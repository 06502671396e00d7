//! The back/forward history: a list of visited entries and a cursor naming
//! the current one.
use vstd::prelude::*;
use crate::location::{same_url, Address};
use crate::protocol::Protocol;

verus! {

pub struct HistoryEntry {
    pub url: Address,
    pub protocol: Protocol,
}

impl Clone for HistoryEntry {
    fn clone(&self) -> (r: HistoryEntry)
        ensures
            r == *self,
    {
        HistoryEntry { url: self.url.clone(), protocol: self.protocol }
    }
}

/// The entries and the cursor, kept as one unit.
pub struct History {
    entries: Vec<HistoryEntry>,
    cursor: usize,
}

/// The model of a history: its entries and the index of the current one.
pub struct HistoryView {
    pub entries: Seq<HistoryEntry>,
    pub cursor: int,
}

/// The cursor names an entry whenever there is one, and is 0 otherwise.
pub open spec fn history_wf(h: HistoryView) -> bool {
    if h.entries.len() == 0 {
        h.cursor == 0
    } else {
        0 <= h.cursor < h.entries.len()
    }
}

/// Pushing an entry: entries after the cursor are dropped; the entry is
/// appended, and becomes current, unless its URL is that of the (new) last
/// entry.
pub open spec fn history_push(h: HistoryView, e: HistoryEntry) -> HistoryView {
    let kept = if h.entries.len() == 0 {
        h.entries
    } else {
        h.entries.take(h.cursor + 1)
    };
    if kept.len() > 0 && same_url(kept.last().url, e.url) {
        HistoryView { entries: kept, cursor: kept.len() - 1 }
    } else {
        HistoryView { entries: kept.push(e), cursor: kept.len() as int }
    }
}

/// Going back moves the cursor one entry toward the start, when it can.
pub open spec fn history_back(h: HistoryView) -> HistoryView {
    if h.cursor > 0 {
        HistoryView { entries: h.entries, cursor: h.cursor - 1 }
    } else {
        h
    }
}

/// Going forward moves the cursor one entry toward the end, when it can.
pub open spec fn history_forward(h: HistoryView) -> HistoryView {
    if h.cursor + 1 < h.entries.len() {
        HistoryView { entries: h.entries, cursor: h.cursor + 1 }
    } else {
        h
    }
}

/// Removing the last entry; the cursor stays on an entry.
pub open spec fn history_pop(h: HistoryView) -> HistoryView {
    if h.entries.len() == 0 {
        h
    } else {
        let e = h.entries.drop_last();
        HistoryView {
            entries: e,
            cursor: if h.cursor < e.len() {
                h.cursor
            } else if e.len() > 0 {
                e.len() - 1
            } else {
                0
            },
        }
    }
}

/// Removing the entry at `index`; the cursor keeps naming the same entry
/// when that one stays, and an entry in any case.
pub open spec fn history_remove(h: HistoryView, index: int) -> HistoryView {
    let e = h.entries.remove(index);
    let c = if h.cursor > index {
        h.cursor - 1
    } else {
        h.cursor
    };
    HistoryView {
        entries: e,
        cursor: if c < e.len() {
            c
        } else if e.len() > 0 {
            e.len() - 1
        } else {
            0
        },
    }
}

impl View for History {
    type V = HistoryView;

    closed spec fn view(&self) -> HistoryView {
        HistoryView { entries: self.entries@, cursor: self.cursor as int }
    }
}

impl History {
    pub open spec fn wf(&self) -> bool {
        history_wf(self@)
    }

    pub fn new() -> (r: History)
        ensures
            r.wf(),
            r@.entries.len() == 0,
    {
        History { entries: Vec::new(), cursor: 0 }
    }

    pub fn len(&self) -> (r: usize)
        ensures
            r == self@.entries.len(),
    {
        self.entries.len()
    }

    pub fn cursor(&self) -> (r: usize)
        ensures
            r == self@.cursor,
    {
        self.cursor
    }

    /// The current entry, if any.
    pub fn current(&self) -> (r: Option<HistoryEntry>)
        requires
            self.wf(),
        ensures
            self@.entries.len() == 0 ==> r is None,
            self@.entries.len() > 0 ==> r == Some(self@.entries[self@.cursor]),
    {
        if self.entries.len() == 0 {
            None
        } else {
            Some(self.entries[self.cursor].clone())
        }
    }
}

/// Records a navigation to `url`.
pub fn add_entry(history: &mut History, url: Address, protocol: Protocol)
    requires
        old(history).wf(),
    ensures
        final(history).wf(),
        final(history)@ == history_push(old(history)@, HistoryEntry { url, protocol }),
{
    let ghost e = HistoryEntry { url, protocol };
    if history.entries.len() > 0 && history.cursor < history.entries.len() - 1 {
        history.entries.truncate(history.cursor + 1);
    }
    proof {
        let h = old(history)@;
        if h.entries.len() > 0 {
            assert(history.entries@ =~= h.entries.take(h.cursor + 1));
        }
    }
    let n = history.entries.len();
    if n > 0 && history.entries[n - 1].url.same_as(&url) {
        history.cursor = n - 1;
    } else {
        history.entries.push(HistoryEntry { url, protocol });
        history.cursor = n;
    }
}

/// Removes the entry at `index` and returns it.
pub fn remove_entry(history: &mut History, index: usize) -> (r: HistoryEntry)
    requires
        old(history).wf(),
        index < old(history)@.entries.len(),
    ensures
        final(history).wf(),
        r == old(history)@.entries[index as int],
        final(history)@ == history_remove(old(history)@, index as int),
{
    let r = history.entries.remove(index);
    if history.cursor > index {
        history.cursor = history.cursor - 1;
    }
    let n = history.entries.len();
    if history.cursor >= n {
        history.cursor = if n > 0 {
            n - 1
        } else {
            0
        };
    }
    r
}

/// Removes the last entry and returns it; `None` when there is none.
pub fn remove_latest_entry(history: &mut History) -> (r: Option<HistoryEntry>)
    requires
        old(history).wf(),
    ensures
        final(history).wf(),
        final(history)@ == history_pop(old(history)@),
        old(history)@.entries.len() == 0 ==> r is None,
        old(history)@.entries.len() > 0 ==> r == Some(old(history)@.entries.last()),
{
    let r = history.entries.pop();
    let n = history.entries.len();
    if history.cursor >= n {
        history.cursor = if n > 0 {
            n - 1
        } else {
            0
        };
    }
    r
}

/// Moves to the previous entry and returns it; `None` at the start.
pub fn back(history: &mut History) -> (r: Option<HistoryEntry>)
    requires
        old(history).wf(),
    ensures
        final(history).wf(),
        final(history)@ == history_back(old(history)@),
        old(history)@.cursor > 0 ==> r == Some(final(history)@.entries[final(history)@.cursor]),
        old(history)@.cursor == 0 ==> r is None,
{
    if history.cursor > 0 {
        history.cursor = history.cursor - 1;
        Some(history.entries[history.cursor].clone())
    } else {
        None
    }
}

/// Moves to the next entry and returns it; `None` at the end.
pub fn forward(history: &mut History) -> (r: Option<HistoryEntry>)
    requires
        old(history).wf(),
    ensures
        final(history).wf(),
        final(history)@ == history_forward(old(history)@),
        old(history)@.cursor + 1 < old(history)@.entries.len() ==> r == Some(
            final(history)@.entries[final(history)@.cursor],
        ),
        old(history)@.cursor + 1 >= old(history)@.entries.len() ==> r is None,
{
    if history.entries.len() > 0 && history.cursor < history.entries.len() - 1 {
        history.cursor = history.cursor + 1;
        Some(history.entries[history.cursor].clone())
    } else {
        None
    }
}

/// Whether there is an entry after the current one.
pub fn can_go_forward(history: &History) -> (r: bool)
    requires
        history.wf(),
    ensures
        r == (history@.cursor + 1 < history@.entries.len()),
{
    history.entries.len() > 0 && history.cursor < history.entries.len() - 1
}

/// Whether there is an entry before the current one.
pub fn can_go_back(history: &History) -> (r: bool)
    ensures
        r == (history@.cursor > 0),
{
    history.cursor > 0
}

/// Pushing keeps the cursor on an entry: after a push the history is never
/// empty and the cursor is below its length.
pub proof fn lemma_push_cursor_in_bounds(h: HistoryView, e: HistoryEntry)
    requires
        history_wf(h),
    ensures
        history_wf(history_push(h, e)),
        0 <= history_push(h, e).cursor < history_push(h, e).entries.len(),
{
}

/// Pushing the same URL twice in a row grows the history at most once.
pub proof fn lemma_push_same_url_twice(h: HistoryView, e1: HistoryEntry, e2: HistoryEntry)
    requires
        history_wf(h),
        same_url(e1.url, e2.url),
    ensures
        history_push(history_push(h, e1), e2) == history_push(h, e1),
{
    let h1 = history_push(h, e1);
    assert(h1.entries.take(h1.cursor + 1) =~= h1.entries);
}

/// Pushing after going back drops every entry that stood after the cursor:
/// what remains is the entries up to the cursor, and the new entry.
pub proof fn lemma_push_after_back_truncates(h: HistoryView, e: HistoryEntry)
    requires
        history_wf(h),
        h.cursor > 0,
    ensures
        ({
            let b = history_back(h);
            let p = history_push(b, e);
            &&& p.entries.len() <= b.cursor + 2
            &&& p.entries.take(b.cursor + 1) == h.entries.take(b.cursor + 1)
        }),
{
    let b = history_back(h);
    let p = history_push(b, e);
    let kept = h.entries.take(b.cursor + 1);
    if !(kept.len() > 0 && same_url(kept.last().url, e.url)) {
        assert(p.entries.take(b.cursor + 1) =~= kept);
    }
}

} // verus!
