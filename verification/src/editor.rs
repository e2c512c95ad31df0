//! The input editor: the in-progress credential buffer and its cursor, under
//! character-level edits. The buffer is a sequence of characters (code
//! points), so cursor arithmetic is in character units and never splits a
//! multi-byte character.

use vstd::prelude::*;

use crate::model::{buf_clear, buf_delete, buf_insert, buf_left, buf_right, buf_wf, BufferModel};

verus! {

/// The in-progress credential: the literal secret and the cursor position.
/// The secret exists only transiently; it is cleared after every submit
/// attempt and on cancel.
#[derive(Debug)]
pub struct CredentialBuffer {
    raw: Vec<char>,
    cursor: usize,
}

impl View for CredentialBuffer {
    type V = BufferModel;

    closed spec fn view(&self) -> BufferModel {
        BufferModel { text: self.raw@, cursor: self.cursor as nat }
    }
}

impl CredentialBuffer {
    /// The cursor stays within `[0, length of the secret]`.
    pub open spec fn wf(&self) -> bool {
        buf_wf(self@)
    }

    /// An empty buffer with the cursor at 0.
    pub fn new() -> (b: CredentialBuffer)
        ensures
            b@ == buf_clear(),
            b.wf(),
    {
        let b = CredentialBuffer { raw: Vec::new(), cursor: 0 };
        proof {
            assert(b@ =~= buf_clear());
        }
        b
    }

    /// Number of characters currently in the secret.
    pub fn len(&self) -> (n: usize)
        ensures
            n == self@.text.len(),
    {
        self.raw.len()
    }

    /// The cursor position, in character units.
    pub fn cursor_index(&self) -> (i: usize)
        ensures
            i == self@.cursor,
    {
        self.cursor
    }

    /// Inserts the character at the cursor position and advances the cursor
    /// by one. Always succeeds.
    pub fn insert(&mut self, c: char)
        requires
            old(self).wf(),
            old(self)@.text.len() < usize::MAX,
        ensures
            final(self)@ == buf_insert(old(self)@, c),
            final(self).wf(),
    {
        self.raw.insert(self.cursor, c);
        self.cursor = self.cursor + 1;
    }

    /// Removes the character immediately left of the cursor, if any, and
    /// moves the cursor left by one. A no-op when the cursor is at 0.
    pub fn delete_before_cursor(&mut self)
        requires
            old(self).wf(),
        ensures
            final(self)@ == buf_delete(old(self)@),
            final(self).wf(),
            old(self)@.cursor == 0 ==> final(self)@ == old(self)@,
    {
        if self.cursor != 0 {
            self.raw.remove(self.cursor - 1);
            self.cursor = self.cursor - 1;
        }
    }

    /// Moves the cursor one character left, saturating at 0.
    pub fn move_left(&mut self)
        requires
            old(self).wf(),
        ensures
            final(self)@ == buf_left(old(self)@),
            final(self).wf(),
            old(self)@.cursor == 0 ==> final(self)@ == old(self)@,
    {
        if self.cursor != 0 {
            self.cursor = self.cursor - 1;
        }
    }

    /// Moves the cursor one character right, saturating at the length of the
    /// secret.
    pub fn move_right(&mut self)
        requires
            old(self).wf(),
        ensures
            final(self)@ == buf_right(old(self)@),
            final(self).wf(),
            old(self)@.cursor == old(self)@.text.len() ==> final(self)@ == old(self)@,
    {
        if self.cursor < self.raw.len() {
            self.cursor = self.cursor + 1;
        }
    }

    /// Empties the secret and resets the cursor to 0. Used after every
    /// submit attempt and on cancel.
    pub fn clear(&mut self)
        ensures
            final(self)@ == buf_clear(),
            final(self).wf(),
    {
        self.raw.clear();
        self.cursor = 0;
        proof {
            assert(self@ =~= buf_clear());
        }
    }

    /// Moves the cursor back to 0 without touching the secret.
    pub fn reset_cursor(&mut self)
        ensures
            final(self)@ == crate::model::buf_reset(old(self)@),
            final(self).wf(),
    {
        self.cursor = 0;
        proof {
            assert(self@ =~= crate::model::buf_reset(old(self)@));
        }
    }

    /// The character at position `i` of the secret.
    pub fn char_at(&self, i: usize) -> (c: char)
        requires
            i < self@.text.len(),
        ensures
            c == self@.text[i as int],
    {
        self.raw[i]
    }
}

} // verus!
