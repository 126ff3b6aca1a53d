//! The settings app's queue of configuration edits. Every change is kept as
//! an edit and, after a short debounce, replayed onto a fresh read of the
//! configuration file, so fields changed behind the app's back survive. A
//! failed write keeps its edits for the next attempt.

use vstd::prelude::*;

verus! {

/// Edits waiting to be written, and whether writing is allowed at all (it
/// is not while the configuration file failed to parse).
pub struct EditQueue<E> {
    pub pending: Vec<E>,
    pub enabled: bool,
}

impl<E> EditQueue<E> {
    /// An empty queue.
    pub fn new(enabled: bool) -> (r: Self)
        ensures
            r.pending@.len() == 0,
            r.enabled == enabled,
    {
        EditQueue { pending: Vec::new(), enabled }
    }

    /// Allow or forbid writing.
    pub fn set_enabled(&mut self, enabled: bool)
        ensures
            final(self).enabled == enabled,
            final(self).pending@ == old(self).pending@,
    {
        self.enabled = enabled;
    }

    /// Queue an edit already applied to the in-memory copy. Returns whether
    /// a write should be scheduled; with writing forbidden the edit is not
    /// kept.
    pub fn record(&mut self, edit: E) -> (schedule: bool)
        ensures
            schedule == old(self).enabled,
            final(self).enabled == old(self).enabled,
            final(self).pending@ == if old(self).enabled {
                old(self).pending@.push(edit)
            } else {
                old(self).pending@
            },
    {
        if !self.enabled {
            return false;
        }
        self.pending.push(edit);
        true
    }

    /// Forget every queued edit (the in-memory copy was replaced).
    pub fn clear(&mut self)
        ensures
            final(self).pending@.len() == 0,
            final(self).enabled == old(self).enabled,
    {
        self.pending = Vec::new();
    }

    /// Take the queued edits for a write: `None` when there is nothing to
    /// write or writing is forbidden. The queue is empty afterwards either
    /// way.
    pub fn take_for_write(&mut self) -> (r: Option<Vec<E>>)
        ensures
            final(self).pending@.len() == 0,
            final(self).enabled == old(self).enabled,
            match r {
                Some(edits) => taken(old(self).pending@, old(self).enabled) == Some(edits@),
                None => taken(old(self).pending@, old(self).enabled) is None,
            },
    {
        let mut edits: Vec<E> = Vec::new();
        std::mem::swap(&mut edits, &mut self.pending);
        if edits.len() == 0 || !self.enabled {
            None
        } else {
            Some(edits)
        }
    }

    /// Put back the edits of a failed write, ahead of any queued since, so
    /// the next write retries them in order.
    pub fn restore(&mut self, failed: Vec<E>)
        ensures
            final(self).pending@ == failed@ + old(self).pending@,
            final(self).enabled == old(self).enabled,
    {
        let mut all = failed;
        let mut newer: Vec<E> = Vec::new();
        std::mem::swap(&mut newer, &mut self.pending);
        all.append(&mut newer);
        self.pending = all;
    }
}

/// What a write takes from the queue: nothing when it is empty or writing
/// is forbidden, else every queued edit.
pub open spec fn taken<E>(pending: Seq<E>, enabled: bool) -> Option<Seq<E>> {
    if pending.len() == 0 || !enabled {
        None
    } else {
        Some(pending)
    }
}

/// No edit is lost to a failed write: whatever a write took, put back with
/// the edits recorded meanwhile, is the queue as it was followed by those
/// newer edits, in order.
pub proof fn law_failed_writes_lose_no_edit<E>(queued: Seq<E>, enabled: bool, meanwhile: Seq<E>)
    ensures
        taken(queued, enabled) matches Some(t) ==> t + meanwhile == queued + meanwhile,
        taken(queued, enabled) is None ==> queued.len() == 0 || !enabled,
{
}

} // verus!
