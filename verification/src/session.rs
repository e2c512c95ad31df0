//! The lock-session state machine: the `App` owns the mode, the failure
//! counter, the status message and the credential buffer, and decides every
//! transition. The external verifier's verdict comes in as a plain boolean;
//! the event loop around the library performs the verification round trip
//! when a step asks for it.

use vstd::prelude::*;

use crate::editor::CredentialBuffer;
use crate::model::{
    buf_delete, buf_insert, buf_left, buf_reset, buf_right, initial_session, mask_of,
    session_wf, spec_action, spec_step, spec_submit, with_buffer, Action, Key, KeyKind, Mode,
    SessionModel,
};
use crate::text::{buffer_text, mask_string, status_message};

verus! {

/// One lock session: created once at process start with a resolved identity,
/// mutated only in response to key events and verifier verdicts, done when
/// the session unlocks.
#[derive(Debug)]
pub struct App {
    service: String,
    current_username: String,
    failed_counter: u64,
    exit: bool,
    input_mode: Mode,
    status_text: String,
    buffer: CredentialBuffer,
}

impl View for App {
    type V = SessionModel;

    closed spec fn view(&self) -> SessionModel {
        SessionModel {
            service: self.service@,
            username: self.current_username@,
            mode: self.input_mode,
            failed: self.failed_counter as nat,
            unlocked: self.exit,
            buffer: self.buffer@,
            status: self.status_text@,
        }
    }
}

impl App {
    /// The session's one invariant: the cursor never leaves the secret.
    pub open spec fn wf(&self) -> bool {
        session_wf(self@)
    }

    /// A fresh, locked session for the given service and identity.
    pub fn new(service: String, current_username: String) -> (app: App)
        ensures
            app@ == initial_session(service@, current_username@),
            app.wf(),
    {
        let app = App {
            service,
            current_username,
            failed_counter: 0,
            exit: false,
            input_mode: Mode::Idle,
            status_text: String::new(),
            buffer: CredentialBuffer::new(),
        };
        proof {
            assert(app@ =~= initial_session(app.service@, app.current_username@));
        }
        app
    }

    /// Moves the cursor one character left, saturating at 0.
    pub fn move_cursor_left(&mut self)
        requires
            old(self).wf(),
        ensures
            final(self)@ == with_buffer(old(self)@, buf_left(old(self)@.buffer)),
            final(self).wf(),
    {
        self.buffer.move_left();
        proof {
            assert(self@ =~= with_buffer(old(self)@, buf_left(old(self)@.buffer)));
        }
    }

    /// Moves the cursor one character right, saturating at the secret's
    /// length.
    pub fn move_cursor_right(&mut self)
        requires
            old(self).wf(),
        ensures
            final(self)@ == with_buffer(old(self)@, buf_right(old(self)@.buffer)),
            final(self).wf(),
    {
        self.buffer.move_right();
        proof {
            assert(self@ =~= with_buffer(old(self)@, buf_right(old(self)@.buffer)));
        }
    }

    /// Inserts a character at the cursor and advances the cursor.
    pub fn enter_char(&mut self, new_char: char)
        requires
            old(self).wf(),
            old(self)@.buffer.text.len() < usize::MAX,
        ensures
            final(self)@ == with_buffer(old(self)@, buf_insert(old(self)@.buffer, new_char)),
            final(self).wf(),
    {
        self.buffer.insert(new_char);
        proof {
            assert(self@ =~= with_buffer(old(self)@, buf_insert(old(self)@.buffer, new_char)));
        }
    }

    /// Removes the character left of the cursor, if any. A no-op at 0.
    pub fn delete_char(&mut self)
        requires
            old(self).wf(),
        ensures
            final(self)@ == with_buffer(old(self)@, buf_delete(old(self)@.buffer)),
            final(self).wf(),
            old(self)@.buffer.cursor == 0 ==> final(self)@ == old(self)@,
    {
        self.buffer.delete_before_cursor();
        proof {
            assert(self@ =~= with_buffer(old(self)@, buf_delete(old(self)@.buffer)));
            if old(self)@.buffer.cursor == 0 {
                assert(self@ =~= old(self)@);
            }
        }
    }

    /// Clamps a prospective cursor position into `[0, secret length]`.
    pub fn clamp_cursor(&self, new_cursor_pos: usize) -> (r: usize)
        ensures
            r == if new_cursor_pos <= self@.buffer.text.len() {
                new_cursor_pos as int
            } else {
                self@.buffer.text.len() as int
            },
    {
        let n = self.buffer.len();
        if new_cursor_pos <= n {
            new_cursor_pos
        } else {
            n
        }
    }

    /// Moves the cursor back to 0 without touching the secret.
    pub fn reset_cursor(&mut self)
        ensures
            final(self)@ == with_buffer(old(self)@, buf_reset(old(self)@.buffer)),
            final(self).wf(),
    {
        self.buffer.reset_cursor();
        proof {
            assert(self@ =~= with_buffer(old(self)@, buf_reset(old(self)@.buffer)));
        }
    }

    /// Marks the session unlocked: the process may exit.
    pub fn exit(&mut self)
        ensures
            final(self)@ == (SessionModel { unlocked: true, ..old(self)@ }),
            final(self).wf() == old(self).wf(),
    {
        self.exit = true;
        proof {
            assert(self@ =~= (SessionModel { unlocked: true, ..old(self)@ }));
        }
    }

    /// Adds one to the failure counter.
    pub fn increment_failed_counter(&mut self)
        requires
            old(self)@.failed < u64::MAX,
        ensures
            final(self)@ == (SessionModel { failed: old(self)@.failed + 1, ..old(self)@ }),
            final(self).wf() == old(self).wf(),
    {
        self.failed_counter = self.failed_counter + 1;
        proof {
            assert(self@ =~= (SessionModel { failed: old(self)@.failed + 1, ..old(self)@ }));
        }
    }

    /// Applies the verifier's verdict for the attempt that was just
    /// submitted: on rejection the failure counter grows by one and the
    /// status message reports the new count; on acceptance the session
    /// unlocks. Either way the secret is cleared and the cursor reset, so no
    /// stale credential survives an attempt.
    pub fn submit_message(&mut self, accepted: bool)
        requires
            old(self).wf(),
            old(self)@.failed < u64::MAX,
        ensures
            final(self)@ == spec_submit(old(self)@, accepted),
            final(self).wf(),
    {
        if !accepted {
            self.increment_failed_counter();
            self.status_text = status_message(self.failed_counter);
        } else {
            self.exit();
        }
        self.buffer.clear();
        proof {
            assert(self@ =~= spec_submit(old(self)@, accepted));
        }
    }

    /// Applies one key event to the session and says what the event loop
    /// owes in return: `Action::Submit` exactly when a credential must be
    /// run through the external verifier (whose verdict then comes back via
    /// `submit_message`), `Action::Nothing` otherwise. An unlocked session
    /// is terminal; key releases and unrecognized keys are ignored.
    pub fn handle_key_event(&mut self, key: Key, kind: KeyKind) -> (a: Action)
        requires
            old(self).wf(),
            old(self)@.buffer.text.len() < usize::MAX,
        ensures
            final(self)@ == spec_step(old(self)@, key, kind),
            a == spec_action(old(self)@, key, kind),
            final(self).wf(),
    {
        let a = if self.exit {
            Action::Nothing
        } else if !(kind == KeyKind::Press) {
            Action::Nothing
        } else {
            match self.input_mode {
                Mode::Idle => {
                    if key == Key::Enter {
                        self.input_mode = Mode::Editing;
                    }
                    Action::Nothing
                },
                Mode::Editing => {
                    match key {
                        Key::Enter => Action::Submit,
                        Key::Char(to_insert) => {
                            self.status_text = String::new();
                            self.enter_char(to_insert);
                            Action::Nothing
                        },
                        Key::Backspace => {
                            self.delete_char();
                            Action::Nothing
                        },
                        Key::Left => {
                            self.move_cursor_left();
                            Action::Nothing
                        },
                        Key::Right => {
                            self.move_cursor_right();
                            Action::Nothing
                        },
                        Key::Esc => {
                            self.buffer.clear();
                            self.input_mode = Mode::Idle;
                            Action::Nothing
                        },
                        Key::Other => Action::Nothing,
                    }
                },
            }
        };
        proof {
            assert(self@ =~= spec_step(old(self)@, key, kind));
        }
        a
    }

    /// The current mode.
    pub fn mode(&self) -> (m: Mode)
        ensures
            m == self@.mode,
    {
        self.input_mode
    }

    /// How many attempts the verifier has rejected so far.
    pub fn failed_counter(&self) -> (n: u64)
        ensures
            n == self@.failed,
    {
        self.failed_counter
    }

    /// Whether the session has unlocked and the process may exit.
    pub fn should_exit(&self) -> (b: bool)
        ensures
            b == self@.unlocked,
    {
        self.exit
    }

    /// The transient status message (the failure notice, or empty).
    pub fn status_text(&self) -> (s: &String)
        ensures
            s@ == self@.status,
    {
        &self.status_text
    }

    /// The identity whose credential this session checks.
    pub fn current_username(&self) -> (s: &String)
        ensures
            s@ == self@.username,
    {
        &self.current_username
    }

    /// The authentication policy this session checks against.
    pub fn service(&self) -> (s: &String)
        ensures
            s@ == self@.service,
    {
        &self.service
    }

    /// The cursor position, in character units.
    pub fn cursor_index(&self) -> (i: usize)
        ensures
            i == self@.buffer.cursor,
    {
        self.buffer.cursor_index()
    }

    /// The credential buffer, for inspection.
    pub fn buffer(&self) -> (b: &CredentialBuffer)
        ensures
            b@ == self@.buffer,
    {
        &self.buffer
    }

    /// The masked display of the secret: one mark per character, so the mask
    /// always tracks the true length exactly.
    pub fn mask_text(&self) -> (s: String)
        ensures
            s@ == mask_of(self@.buffer),
    {
        mask_string(&self.buffer)
    }

    /// The secret as a plain string, for the verification request only.
    /// Built at submit time and discarded right after the verifier returns.
    pub fn input_text(&self) -> (s: String)
        ensures
            s@ == self@.buffer.text,
    {
        buffer_text(&self.buffer)
    }
}

} // verus!
