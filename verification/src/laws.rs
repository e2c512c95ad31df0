//! The session's laws, proved once and for all over the spec-level
//! transitions that every executable method is bound to by its `ensures`.

use vstd::prelude::*;

use crate::model::{
    buf_clear, buf_delete, buf_insert, buf_left, buf_reset, buf_right, buf_wf, session_wf,
    spec_step, spec_submit, BufferModel, Key, KeyKind, SessionModel,
};

verus! {

/// Every single edit keeps the cursor within `[0, length of the secret]`,
/// so any sequence of inserts, deletes and moves does too.
pub proof fn lemma_edits_preserve_cursor_bounds(b: BufferModel, c: char)
    requires
        buf_wf(b),
    ensures
        buf_wf(buf_insert(b, c)),
        buf_wf(buf_delete(b)),
        buf_wf(buf_left(b)),
        buf_wf(buf_right(b)),
        buf_wf(buf_clear()),
        buf_wf(buf_reset(b)),
{
}

/// Every key event keeps the session well formed: the cursor never leaves
/// the secret, whatever sequence of events arrives.
pub proof fn lemma_step_preserves_wf(s: SessionModel, key: Key, kind: KeyKind)
    requires
        session_wf(s),
    ensures
        session_wf(spec_step(s, key, kind)),
{
}

/// Either verdict of a submit leaves the session well formed.
pub proof fn lemma_submit_preserves_wf(s: SessionModel, accepted: bool)
    ensures
        session_wf(spec_submit(s, accepted)),
{
}

/// Deleting before the cursor when the cursor is at 0 changes nothing:
/// neither the secret nor the cursor.
pub proof fn lemma_delete_at_zero_is_noop(b: BufferModel)
    requires
        b.cursor == 0,
    ensures
        buf_delete(b) == b,
{
}

/// Moving left at cursor 0 changes nothing, so repeating it any number of
/// times leaves the buffer exactly as it was.
pub proof fn lemma_move_left_at_zero_is_noop(b: BufferModel)
    requires
        b.cursor == 0,
    ensures
        buf_left(b) == b,
{
    assert(buf_left(b) =~= b);
}

/// Moving right with the cursor at the end of the secret changes nothing,
/// so repeating it any number of times leaves the buffer exactly as it was.
pub proof fn lemma_move_right_at_end_is_noop(b: BufferModel)
    requires
        b.cursor == b.text.len(),
    ensures
        buf_right(b) == b,
{
    assert(buf_right(b) =~= b);
}

/// After any submit, success or failure, the secret is empty and the cursor
/// is back at 0: no credential survives an attempt.
pub proof fn lemma_submit_clears_buffer(s: SessionModel, accepted: bool)
    ensures
        spec_submit(s, accepted).buffer.text.len() == 0,
        spec_submit(s, accepted).buffer.cursor == 0,
{
}

/// The failure counter never decreases, and a submit moves it by exactly 1
/// on rejection and not at all on acceptance.
pub proof fn lemma_submit_failed_count(s: SessionModel, accepted: bool)
    ensures
        spec_submit(s, accepted).failed >= s.failed,
        !accepted ==> spec_submit(s, accepted).failed == s.failed + 1,
        accepted ==> spec_submit(s, accepted).failed == s.failed,
{
}

/// No key event on its own touches the failure counter: it moves only
/// through a verifier verdict, and then only upward.
pub proof fn lemma_step_keeps_failed_count(s: SessionModel, key: Key, kind: KeyKind)
    ensures
        spec_step(s, key, kind).failed == s.failed,
{
}

/// Only an accepting verdict unlocks: a key event never changes the
/// unlocked flag, and a submit sets it exactly when the verifier accepted.
pub proof fn lemma_only_acceptance_unlocks(s: SessionModel, key: Key, kind: KeyKind, accepted: bool)
    ensures
        spec_step(s, key, kind).unlocked == s.unlocked,
        spec_submit(s, accepted).unlocked == (s.unlocked || accepted),
{
}

/// An unlocked session is terminal: every further key event leaves it
/// exactly as it is, so it can never re-enter editing or relock.
pub proof fn lemma_unlocked_is_terminal(s: SessionModel, key: Key, kind: KeyKind)
    requires
        s.unlocked,
    ensures
        spec_step(s, key, kind) == s,
{
}

} // verus!
