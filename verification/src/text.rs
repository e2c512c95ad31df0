//! Verified construction of the strings the session exposes: the decimal
//! rendering of the failure counter, the failure notice, the masked display
//! of the secret, and the plain text handed to the verifier.

use vstd::prelude::*;

use crate::model::{digit_char, mask_of, spec_decimal, status_of};
use crate::editor::CredentialBuffer;
use vstd::string::StringExecFns;

verus! {

/// Relies on `String::push`: appends the character to the end of the string.
pub assume_specification[ String::push ](s: &mut String, ch: char)
    ensures
        final(s)@ == old(s)@.push(ch),
;

/// The character for one decimal digit.
fn digit_to_char(d: u64) -> (c: char)
    requires
        d < 10,
    ensures
        c == digit_char(d as nat),
{
    if d == 0 { '0' }
    else if d == 1 { '1' }
    else if d == 2 { '2' }
    else if d == 3 { '3' }
    else if d == 4 { '4' }
    else if d == 5 { '5' }
    else if d == 6 { '6' }
    else if d == 7 { '7' }
    else if d == 8 { '8' }
    else { '9' }
}

/// Appends the decimal digits of `n`, most significant first, to `out`.
fn push_decimal(out: &mut String, n: u64)
    ensures
        final(out)@ == old(out)@ + spec_decimal(n as nat),
    decreases n,
{
    if n < 10 {
        out.push(digit_to_char(n));
        proof {
            assert(out@ =~= old(out)@ + spec_decimal(n as nat));
        }
    } else {
        push_decimal(out, n / 10);
        out.push(digit_to_char(n % 10));
        proof {
            assert(out@ =~= old(out)@ + spec_decimal(n as nat));
        }
    }
}

/// The decimal rendering of `n`.
pub fn decimal_string(n: u64) -> (s: String)
    ensures
        s@ == spec_decimal(n as nat),
{
    let mut s = String::new();
    push_decimal(&mut s, n);
    proof {
        assert(s@ =~= spec_decimal(n as nat));
    }
    s
}

/// The failure notice for a failure count of `n`.
pub fn status_message(n: u64) -> (s: String)
    ensures
        s@ == status_of(n as nat),
{
    let mut s = String::from_str("Invalid Password (");
    push_decimal(&mut s, n);
    s.push(')');
    proof {
        reveal_strlit(")");
        assert(s@ =~= status_of(n as nat));
    }
    s
}

/// The masked display of the buffer: exactly one placeholder mark per
/// character of the secret.
pub fn mask_string(b: &CredentialBuffer) -> (s: String)
    ensures
        s@ == mask_of(b@),
{
    let n = b.len();
    let mut s = String::new();
    let mut i: usize = 0;
    while i < n
        invariant
            i <= n,
            n == b@.text.len(),
            s@ =~= Seq::new(i as nat, |j: int| '*'),
        decreases n - i,
    {
        s.push('*');
        i = i + 1;
        proof {
            assert(s@ =~= Seq::new(i as nat, |j: int| '*'));
        }
    }
    proof {
        assert(s@ =~= mask_of(b@));
    }
    s
}

/// The secret as a plain string, in buffer order: what the verification
/// request carries. Built only at submit time and discarded immediately
/// after.
pub fn buffer_text(b: &CredentialBuffer) -> (s: String)
    ensures
        s@ == b@.text,
{
    let n = b.len();
    let mut s = String::new();
    let mut i: usize = 0;
    while i < n
        invariant
            i <= n,
            n == b@.text.len(),
            s@ =~= b@.text.subrange(0, i as int),
        decreases n - i,
    {
        s.push(b.char_at(i));
        i = i + 1;
        proof {
            assert(s@ =~= b@.text.subrange(0, i as int));
        }
    }
    proof {
        assert(s@ =~= b@.text);
    }
    s
}

} // verus!
