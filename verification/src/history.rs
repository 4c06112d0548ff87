//! Undo/redo history: a bounded linear stack of document snapshots, with the
//! last saved snapshot against which edits are detected.

use vstd::prelude::*;

use crate::str_eq;

verus! {

/// The most undo snapshots kept; the oldest is dropped beyond that.
pub const MAX_UNDO: usize = 100;

/// Undo/redo snapshots of a document, and the snapshot the stacks were last
/// synchronized with.
#[derive(Debug)]
pub struct History {
    pub undo_stack: Vec<String>,
    pub redo_stack: Vec<String>,
    pub last_saved: String,
}

/// The two histories hold the same snapshots: equal stack contents and the
/// same last-saved snapshot.
pub open spec fn same_history(a: History, b: History) -> bool {
    &&& a.undo_stack@ == b.undo_stack@
    &&& a.redo_stack@ == b.redo_stack@
    &&& a.last_saved == b.last_saved
}

impl History {
    /// Empty history over an empty document.
    pub fn new() -> (h: History)
        ensures
            h.undo_stack@.len() == 0,
            h.redo_stack@.len() == 0,
            h.last_saved@ == Seq::<char>::empty(),
    {
        History { undo_stack: Vec::new(), redo_stack: Vec::new(), last_saved: String::new() }
    }

    /// Records an edit: when the document differs from the last snapshot, the
    /// old snapshot is pushed for undo (dropping the oldest past `MAX_UNDO`),
    /// redo history is discarded, and the document becomes the new snapshot.
    /// A document equal to the snapshot changes nothing.
    pub fn save_undo(&mut self, text: &str)
        ensures
            old(self).last_saved@ == text@ ==> final(self).undo_stack@ == old(self).undo_stack@
                && final(self).redo_stack@ == old(self).redo_stack@ && final(self).last_saved
                == old(self).last_saved,
            old(self).last_saved@ != text@ ==> {
                &&& final(self).last_saved@ == text@
                &&& final(self).redo_stack@.len() == 0
                &&& final(self).undo_stack@ == if old(self).undo_stack@.len() < MAX_UNDO {
                    old(self).undo_stack@.push(old(self).last_saved)
                } else {
                    old(self).undo_stack@.push(old(self).last_saved).drop_first()
                }
            },
    {
        if !str_eq(text, self.last_saved.as_str()) {
            let snapshot = self.last_saved.clone();
            self.undo_stack.push(snapshot);
            if self.undo_stack.len() > MAX_UNDO {
                self.undo_stack.remove(0);
                proof {
                    assert(self.undo_stack@ =~= old(self).undo_stack@.push(
                        old(self).last_saved,
                    ).drop_first());
                }
            }
            self.redo_stack.clear();
            self.last_saved = String::from_str(text);
        }
    }

    /// Steps back one snapshot: hands back the previous document, pushing the
    /// current one onto the redo stack and making the previous one the
    /// snapshot. `None`, changing nothing, when there is nothing to undo.
    pub fn undo(&mut self, text: &str) -> (r: Option<String>)
        ensures
            old(self).undo_stack@.len() == 0 ==> r is None && final(self).undo_stack@ == old(self).undo_stack@ && final(self).redo_stack@ == old(self).redo_stack@ && final(self).last_saved == old(self).last_saved,
            old(self).undo_stack@.len() > 0 ==> {
                &&& r is Some
                &&& r->0 == old(self).undo_stack@.last()
                &&& final(self).undo_stack@ == old(self).undo_stack@.drop_last()
                &&& final(self).redo_stack@.len() == old(self).redo_stack@.len() + 1
                &&& final(self).redo_stack@.last()@ == text@
                &&& forall|k: int|
                    0 <= k < old(self).redo_stack@.len() ==> final(self).redo_stack@[k] == old(self).redo_stack@[k]
                &&& final(self).last_saved == old(self).undo_stack@.last()
            },
    {
        match self.undo_stack.pop() {
            None => None,
            Some(p) => {
                self.redo_stack.push(String::from_str(text));
                self.last_saved = p.clone();
                Some(p)
            },
        }
    }

    /// Steps forward one snapshot: hands back the next document, pushing the
    /// current one onto the undo stack and making the next one the snapshot.
    /// `None`, changing nothing, when there is nothing to redo.
    pub fn redo(&mut self, text: &str) -> (r: Option<String>)
        ensures
            old(self).redo_stack@.len() == 0 ==> r is None && final(self).undo_stack@ == old(self).undo_stack@ && final(self).redo_stack@ == old(self).redo_stack@ && final(self).last_saved == old(self).last_saved,
            old(self).redo_stack@.len() > 0 ==> {
                &&& r is Some
                &&& r->0 == old(self).redo_stack@.last()
                &&& final(self).redo_stack@ == old(self).redo_stack@.drop_last()
                &&& final(self).undo_stack@.len() == old(self).undo_stack@.len() + 1
                &&& final(self).undo_stack@.last()@ == text@
                &&& forall|k: int|
                    0 <= k < old(self).undo_stack@.len() ==> final(self).undo_stack@[k] == old(self).undo_stack@[k]
                &&& final(self).last_saved == old(self).redo_stack@.last()
            },
    {
        match self.redo_stack.pop() {
            None => None,
            Some(p) => {
                self.undo_stack.push(String::from_str(text));
                self.last_saved = p.clone();
                Some(p)
            },
        }
    }

    /// Forgets all history and synchronizes the snapshot with the document,
    /// as when a file is loaded or the document is replaced wholesale.
    pub fn reset(&mut self, text: &str)
        ensures
            final(self).undo_stack@.len() == 0,
            final(self).redo_stack@.len() == 0,
            final(self).last_saved@ == text@,
    {
        self.undo_stack.clear();
        self.redo_stack.clear();
        self.last_saved = String::from_str(text);
    }
}

} // verus!
