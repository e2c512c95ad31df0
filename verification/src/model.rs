//! Mathematical model of the lock session: the mode, key-event and action
//! types, the ghost state of the credential buffer and the session, and the
//! spec-level transition functions that the executable code is proved against.

use vstd::prelude::*;

verus! {

/// The two interactive states of the lock session.
#[derive(Debug, Clone, Copy, PartialEq, Eq, Structural)]
pub enum Mode {
    /// Lock screen shown; no input accepted except "begin editing".
    Idle,
    /// Credential buffer active; edit operations and submit accepted.
    Editing,
}

impl Default for Mode {
    /// A session starts idle: the lock screen is shown and no credential is
    /// being collected.
    fn default() -> (m: Mode)
        ensures
            m == Mode::Idle,
    {
        Mode::Idle
    }
}

/// The logical identity of a key, independent of any terminal backend.
#[derive(Debug, Clone, Copy, PartialEq, Eq, Structural)]
pub enum Key {
    /// A printable character.
    Char(char),
    Enter,
    Backspace,
    Left,
    Right,
    Esc,
    /// Any key the session does not react to.
    Other,
}

/// Whether a key event is a press; the session ignores everything else.
#[derive(Debug, Clone, Copy, PartialEq, Eq, Structural)]
pub enum KeyKind {
    Press,
    Release,
}

/// What the event loop must do after a key event has been applied: nothing,
/// or run the credential through the external verifier and hand the verdict
/// back to the session.
#[derive(Debug, Clone, Copy, PartialEq, Eq, Structural)]
pub enum Action {
    Nothing,
    Submit,
}

/// Ghost state of the credential buffer: the secret as a sequence of
/// characters and the cursor as a character index.
#[verifier::ext_equal]
pub ghost struct BufferModel {
    pub text: Seq<char>,
    pub cursor: nat,
}

/// Ghost state of the whole lock session.
#[verifier::ext_equal]
pub ghost struct SessionModel {
    pub service: Seq<char>,
    pub username: Seq<char>,
    pub mode: Mode,
    pub failed: nat,
    pub unlocked: bool,
    pub buffer: BufferModel,
    pub status: Seq<char>,
}

/// The cursor never leaves `[0, text.len()]`.
pub open spec fn buf_wf(b: BufferModel) -> bool {
    b.cursor <= b.text.len()
}

/// Insert a character at the cursor and advance the cursor by one.
pub open spec fn buf_insert(b: BufferModel, c: char) -> BufferModel {
    BufferModel { text: b.text.insert(b.cursor as int, c), cursor: b.cursor + 1 }
}

/// Remove the character left of the cursor, if any, and move the cursor left.
pub open spec fn buf_delete(b: BufferModel) -> BufferModel {
    if b.cursor == 0 {
        b
    } else {
        BufferModel { text: b.text.remove(b.cursor - 1), cursor: (b.cursor - 1) as nat }
    }
}

/// Move the cursor one character left, saturating at 0.
pub open spec fn buf_left(b: BufferModel) -> BufferModel {
    BufferModel { text: b.text, cursor: if b.cursor == 0 { 0 } else { (b.cursor - 1) as nat } }
}

/// Move the cursor one character right, saturating at the buffer length.
pub open spec fn buf_right(b: BufferModel) -> BufferModel {
    BufferModel {
        text: b.text,
        cursor: if b.cursor + 1 <= b.text.len() { b.cursor + 1 } else { b.text.len() },
    }
}

/// The empty buffer with the cursor at 0.
pub open spec fn buf_clear() -> BufferModel {
    BufferModel { text: Seq::empty(), cursor: 0 }
}

/// The same secret with the cursor back at 0.
pub open spec fn buf_reset(b: BufferModel) -> BufferModel {
    BufferModel { text: b.text, cursor: 0 }
}

/// The masked display of a buffer: one placeholder mark per character of the
/// secret, so the mask always tracks the true length exactly.
pub open spec fn mask_of(b: BufferModel) -> Seq<char> {
    Seq::new(b.text.len(), |i: int| '*')
}

/// The decimal digits of `n`, most significant first.
pub open spec fn spec_decimal(n: nat) -> Seq<char>
    decreases n,
{
    if n < 10 {
        seq![digit_char(n)]
    } else {
        spec_decimal(n / 10).push(digit_char(n % 10))
    }
}

/// The character for a single decimal digit.
pub open spec fn digit_char(d: nat) -> char {
    if d == 0 { '0' }
    else if d == 1 { '1' }
    else if d == 2 { '2' }
    else if d == 3 { '3' }
    else if d == 4 { '4' }
    else if d == 5 { '5' }
    else if d == 6 { '6' }
    else if d == 7 { '7' }
    else if d == 8 { '8' }
    else if d == 9 { '9' }
    else { ' ' }
}

/// The failure notice shown after the `n`-th rejected attempt.
pub open spec fn status_of(n: nat) -> Seq<char> {
    ("Invalid Password (")@ + spec_decimal(n) + (")")@
}

/// A session is well formed when its buffer is.
pub open spec fn session_wf(s: SessionModel) -> bool {
    buf_wf(s.buffer)
}

/// The session as constructed at process start: locked, idle, no failures,
/// empty buffer, no status message.
pub open spec fn initial_session(service: Seq<char>, username: Seq<char>) -> SessionModel {
    SessionModel {
        service: service,
        username: username,
        mode: Mode::Idle,
        failed: 0,
        unlocked: false,
        buffer: buf_clear(),
        status: Seq::empty(),
    }
}

/// The same session with another buffer.
pub open spec fn with_buffer(s: SessionModel, b: BufferModel) -> SessionModel {
    SessionModel { buffer: b, ..s }
}

/// The state after one submit attempt with the verifier's verdict `accepted`:
/// on rejection the failure counter grows by one and the failure notice shows
/// the new count; on acceptance the session unlocks. Either way the buffer is
/// cleared and identity, service and mode are untouched.
pub open spec fn spec_submit(s: SessionModel, accepted: bool) -> SessionModel {
    if accepted {
        SessionModel { unlocked: true, buffer: buf_clear(), ..s }
    } else {
        SessionModel {
            failed: s.failed + 1,
            status: status_of(s.failed + 1),
            buffer: buf_clear(),
            ..s
        }
    }
}

/// The state after one key event, before any verifier verdict is applied.
/// An unlocked session is terminal and ignores everything; so do key
/// releases. In `Idle`, Enter begins editing and every other key is ignored.
/// In `Editing`, Enter leaves the state for the verifier round trip (see
/// `spec_submit`), printable characters are inserted (clearing a stale
/// failure notice), Backspace deletes before the cursor, the arrows move the
/// cursor, and Esc cancels back to `Idle`, clearing the buffer.
pub open spec fn spec_step(s: SessionModel, key: Key, kind: KeyKind) -> SessionModel {
    if s.unlocked || kind != KeyKind::Press {
        s
    } else {
        match s.mode {
            Mode::Idle => match key {
                Key::Enter => SessionModel { mode: Mode::Editing, ..s },
                _ => s,
            },
            Mode::Editing => match key {
                Key::Enter => s,
                Key::Char(c) => SessionModel {
                    buffer: buf_insert(s.buffer, c),
                    status: Seq::empty(),
                    ..s
                },
                Key::Backspace => SessionModel { buffer: buf_delete(s.buffer), ..s },
                Key::Left => SessionModel { buffer: buf_left(s.buffer), ..s },
                Key::Right => SessionModel { buffer: buf_right(s.buffer), ..s },
                Key::Esc => SessionModel { mode: Mode::Idle, buffer: buf_clear(), ..s },
                Key::Other => s,
            },
        }
    }
}

/// The action the event loop owes after one key event: a verifier round trip
/// exactly when Enter is pressed while editing and the session is not yet
/// unlocked; nothing otherwise.
pub open spec fn spec_action(s: SessionModel, key: Key, kind: KeyKind) -> Action {
    if !s.unlocked && kind == KeyKind::Press && s.mode == Mode::Editing && key == Key::Enter {
        Action::Submit
    } else {
        Action::Nothing
    }
}

} // verus!
