//! Bookkeeping of the per-window thumbnail cache: one entry per window,
//! found again by the window, and dropped once its window leaves the
//! planets. The entry itself (texture and damage tracker) is the renderer's.
use vstd::prelude::*;
use crate::orbit::WindowId;

verus! {

/// Cached entries, one per window, in the order they were created.
pub struct ThumbnailCache<E> {
    pub entries: Vec<(WindowId, E)>,
}

/// The windows of the entries, in order.
pub open spec fn entry_windows<E>(entries: Seq<(WindowId, E)>) -> Seq<WindowId> {
    entries.map_values(|e: (WindowId, E)| e.0)
}

/// Keep an entry whose window is among `windows`.
pub open spec fn kept_by<E>(windows: Seq<WindowId>) -> spec_fn((WindowId, E)) -> bool {
    |e: (WindowId, E)| windows.contains(e.0)
}

impl<E> ThumbnailCache<E> {
    pub fn new() -> (c: Self)
        ensures
            c.entries@ == Seq::<(WindowId, E)>::empty(),
    {
        ThumbnailCache { entries: Vec::new() }
    }

    /// Index of the first entry for `window`.
    pub fn position(&self, window: WindowId) -> (idx: Option<usize>)
        ensures
            match idx {
                Some(i) => entry_windows(self.entries@).index_of_first(window) == Some(i as int),
                None => entry_windows(self.entries@).index_of_first(window) is None,
            },
    {
        let ghost ws = entry_windows(self.entries@);
        let mut i: usize = 0;
        while i < self.entries.len()
            invariant
                ws == entry_windows(self.entries@),
                i <= self.entries@.len(),
                forall|j: int| 0 <= j < i ==> ws[j] != window,
            decreases self.entries@.len() - i,
        {
            if self.entries[i].0 == window {
                proof {
                    assert(ws[i as int] == window);
                    ws.index_of_first_ensures(window);
                    match ws.index_of_first(window) {
                        Some(k) => {
                            assert(k == i);
                        },
                        None => {
                            assert(ws.contains(window));
                        },
                    }
                }
                return Some(i);
            }
            assert(ws[i as int] != window);
            i += 1;
        }
        proof {
            ws.index_of_first_ensures(window);
            if ws.contains(window) {
                let k = choose|k: int| 0 <= k < ws.len() && ws[k] == window;
                assert(ws[k] != window);
            }
        }
        None
    }

    /// Adds an entry for `window`.
    pub fn insert(&mut self, window: WindowId, entry: E)
        ensures
            final(self).entries@ == old(self).entries@.push((window, entry)),
    {
        self.entries.push((window, entry));
    }

    /// The entry for `window`, if one was created.
    pub fn get(&self, window: WindowId) -> (e: Option<&E>)
        ensures
            match entry_windows(self.entries@).index_of_first(window) {
                Some(i) => e == Some(&self.entries@[i].1),
                None => e is None,
            },
    {
        proof {
            entry_windows(self.entries@).index_of_first_ensures(window);
        }
        match self.position(window) {
            Some(i) => Some(&self.entries[i].1),
            None => None,
        }
    }

    /// Mutable access to the entry at `idx`.
    pub fn entry_mut(&mut self, idx: usize) -> (e: &mut E)
        requires
            idx < old(self).entries@.len(),
        ensures
            *e == old(self).entries@[idx as int].1,
            final(self).entries@ == old(self).entries@.update(
                idx as int,
                (old(self).entries@[idx as int].0, *final(e)),
            ),
    {
        &mut self.entries[idx].1
    }

    /// Drops the entries of windows that are not among `windows`, keeping
    /// the others in order.
    pub fn retain(&mut self, windows: &[WindowId])
        ensures
            final(self).entries@ == old(self).entries@.filter(kept_by::<E>(windows@)),
    {
        let ghost orig = self.entries@;
        let ghost pred = kept_by::<E>(windows@);
        let mut rest: Vec<(WindowId, E)> = Vec::new();
        std::mem::swap(&mut rest, &mut self.entries);
        let mut kept: Vec<(WindowId, E)> = Vec::new();
        let ghost mut i: int = 0;
        assert(orig.skip(0) =~= orig);
        while rest.len() > 0
            invariant
                0 <= i <= orig.len(),
                rest@ == orig.skip(i),
                kept@ == orig.take(i).filter(pred),
                pred == kept_by::<E>(windows@),
            decreases rest@.len(),
        {
            let e = rest.remove(0);
            proof {
                reveal(Seq::filter);
                assert(orig.take(i + 1).drop_last() =~= orig.take(i));
                assert(orig.take(i + 1).last() == e);
                assert(orig.skip(i + 1) =~= orig.skip(i).drop_first());
            }
            if contains_window(windows, e.0) {
                kept.push(e);
            }
            proof {
                i = i + 1;
            }
        }
        assert(orig.take(i) =~= orig);
        self.entries = kept;
    }
}

/// Whether `window` is among `windows`.
fn contains_window(windows: &[WindowId], window: WindowId) -> (b: bool)
    ensures
        b == windows@.contains(window),
{
    let mut i: usize = 0;
    while i < windows.len()
        invariant
            i <= windows@.len(),
            forall|j: int| 0 <= j < i ==> windows@[j] != window,
        decreases windows@.len() - i,
    {
        if windows[i] == window {
            assert(windows@[i as int] == window);
            return true;
        }
        i += 1;
    }
    false

}

/// After `retain`, the cache holds entries only for listed windows, and
/// still holds every entry whose window is listed.
pub proof fn lemma_retain_keeps_listed<E>(entries: Seq<(WindowId, E)>, windows: Seq<WindowId>, i: int)
    ensures
        0 <= i < entries.filter(kept_by::<E>(windows)).len() ==> windows.contains(
            entries.filter(kept_by::<E>(windows))[i].0,
        ),
        0 <= i < entries.len() && windows.contains(entries[i].0) ==> entries.filter(
            kept_by::<E>(windows),
        ).contains(entries[i]),
{
    broadcast use vstd::seq_lib::group_filter_ensures;

    if 0 <= i < entries.filter(kept_by::<E>(windows)).len() {
        assert(kept_by::<E>(windows)(entries.filter(kept_by::<E>(windows))[i]));
    }
    if 0 <= i < entries.len() && windows.contains(entries[i].0) {
        assert(kept_by::<E>(windows)(entries[i]));
    }
}

} // verus!
