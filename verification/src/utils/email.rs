//! The shape of a caller's identity.

use crate::models::{ErrorKind, PipelineError};
use crate::text::to_chars;
use vstd::prelude::*;
use vstd::string::StringExecFns;

verus! {

/// An ASCII letter.
pub open spec fn is_letter(c: char) -> bool {
    ('a' <= c && c <= 'z') || ('A' <= c && c <= 'Z')
}

/// An ASCII letter or digit.
pub open spec fn is_letter_or_digit(c: char) -> bool {
    is_letter(c) || ('0' <= c && c <= '9')
}

/// A character that may stand before the `@`.
pub open spec fn is_local_char(c: char) -> bool {
    is_letter_or_digit(c) || c == '.' || c == '_' || c == '%' || c == '+' || c == '-'
}

/// A character that may stand between the `@` and the last dot.
pub open spec fn is_domain_char(c: char) -> bool {
    is_letter_or_digit(c) || c == '.' || c == '-'
}

/// `s` is an address with its `@` at index `at` and its last dot at index
/// `dot`: one or more local characters, `@`, one or more domain characters,
/// a dot, and two or more letters.
pub open spec fn is_email_split(s: Seq<char>, at: int, dot: int) -> bool {
    &&& 1 <= at
    &&& at + 2 <= dot
    &&& dot + 3 <= s.len()
    &&& s[at] == '@'
    &&& s[dot] == '.'
    &&& forall|k: int| 0 <= k < at ==> is_local_char(#[trigger] s[k])
    &&& forall|k: int| at < k < dot ==> is_domain_char(#[trigger] s[k])
    &&& forall|k: int| dot < k < s.len() ==> is_letter(#[trigger] s[k])
}

/// `s` has the shape of an e-mail address.
pub open spec fn is_valid_email(s: Seq<char>) -> bool {
    exists|at: int, dot: int| is_email_split(s, at, dot)
}

/// The text of the error for an identity of the wrong shape.
pub open spec fn invalid_email_message(email: Seq<char>) -> Seq<char> {
    "Invalid email format: "@ + email
}

fn letter(c: char) -> (r: bool)
    ensures
        r == is_letter(c),
{
    ('a' <= c && c <= 'z') || ('A' <= c && c <= 'Z')
}

fn letter_or_digit(c: char) -> (r: bool)
    ensures
        r == is_letter_or_digit(c),
{
    letter(c) || ('0' <= c && c <= '9')
}

/// Tells whether `email` has the shape of an e-mail address.
pub fn has_email_shape(email: &str) -> (r: bool)
    ensures
        r == is_valid_email(email@),
{
    let v = to_chars(email);
    let ghost s = email@;
    let n: usize = v.len();
    let mut at: usize = 0;
    while at < n && v[at] != '@'
        invariant
            v@ == s,
            n == v.len(),
            at <= n,
            forall|k: int| 0 <= k < at ==> #[trigger] s[k] != '@',
        decreases n - at,
    {
        at += 1;
    }
    let mut dot: usize = n;
    while dot > 0 && v[dot - 1] != '.'
        invariant
            v@ == s,
            n == v.len(),
            dot <= n,
            forall|k: int| dot <= k < n ==> #[trigger] s[k] != '.',
        decreases dot,
    {
        dot -= 1;
    }
    proof {
        assert forall|a: int, d: int| is_email_split(s, a, d) implies a == at && d == dot - 1 by {
            if a < at {
                assert(s[a] == '@');
            }
            if a > at {
                assert(is_local_char(s[at as int]));
            }
            if d >= dot {
                assert(s[d] == '.');
            }
            if d < dot - 1 {
                assert(is_letter(s[dot - 1]));
            }
        }
    }
    if at >= n || dot == 0 {
        return false;
    }
    let dot: usize = dot - 1;
    if at < 1 || dot < at || dot - at < 2 || n - dot < 3 {
        return false;
    }
    let mut k: usize = 0;
    while k < at
        invariant
            v@ == s,
            k <= at < n,
            n == v.len(),
            forall|j: int| 0 <= j < k ==> is_local_char(#[trigger] s[j]),
            s == email@,
            forall|a: int, d: int| is_email_split(s, a, d) ==> a == at && d == dot,
        decreases at - k,
    {
        let c = v[k];
        if !(letter_or_digit(c) || c == '.' || c == '_' || c == '%' || c == '+' || c == '-') {
            assert(!is_local_char(s[k as int]));
            return false;
        }
        k += 1;
    }
    let mut k: usize = at + 1;
    while k < dot
        invariant
            v@ == s,
            at < k <= dot < n,
            n == v.len(),
            forall|j: int| at < j < k ==> is_domain_char(#[trigger] s[j]),
            s == email@,
            forall|a: int, d: int| is_email_split(s, a, d) ==> a == at && d == dot,
        decreases dot - k,
    {
        let c = v[k];
        if !(letter_or_digit(c) || c == '.' || c == '-') {
            assert(!is_domain_char(s[k as int]));
            return false;
        }
        k += 1;
    }
    let mut k: usize = dot + 1;
    while k < n
        invariant
            v@ == s,
            dot < k <= n,
            n == v.len(),
            forall|j: int| dot < j < k ==> is_letter(#[trigger] s[j]),
            s == email@,
            forall|a: int, d: int| is_email_split(s, a, d) ==> a == at && d == dot,
        decreases n - k,
    {
        if !letter(v[k]) {
            assert(!is_letter(s[k as int]));
            return false;
        }
        k += 1;
    }
    assert(is_email_split(s, at as int, dot as int));
    true
}

/// Checks the caller's identity `email`.
///
/// An empty identity and one that has not the shape of an e-mail address are
/// errors of class [`ErrorKind::Validation`].
pub fn validate_email(email: &str) -> (r: Result<(), PipelineError>)
    ensures
        match r {
            Ok(()) => is_valid_email(email@),
            Err(e) => {
                &&& !is_valid_email(email@)
                &&& e.kind == ErrorKind::Validation
                &&& e.message@ == if email@.len() == 0 {
                    "Email is required and cannot be empty"@
                } else {
                    invalid_email_message(email@)
                }
            },
        },
{
    if email.unicode_len() == 0 {
        assert(!is_valid_email(email@));
        return Err(PipelineError::new(ErrorKind::Validation, "Email is required and cannot be empty"));
    }
    if !has_email_shape(email) {
        let mut message = String::from_str("Invalid email format: ");
        message.append(email);
        return Err(PipelineError { kind: ErrorKind::Validation, message });
    }
    Ok(())
}

} // verus!
