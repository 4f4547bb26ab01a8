//! Fresh random identifiers for subscriptions and messages.
//!
//! Nothing is promised of which characters come out, only that they are
//! ASCII letters or digits: a random value has no function of its
//! inputs to state.

use vstd::prelude::*;

verus! {

/// Is `c` an ASCII letter?
pub open spec fn is_ascii_letter(c: char) -> bool {
    ('a' <= c && c <= 'z') || ('A' <= c && c <= 'Z')
}

/// Is `c` an ASCII letter or digit?
pub open spec fn is_ascii_alphanumeric(c: char) -> bool {
    is_ascii_letter(c) || ('0' <= c && c <= '9')
}

/// Relies on fastrand::alphabetic: every outcome is an ASCII letter.
#[verifier::external_body]
fn rand_alphabetic() -> (c: char)
    ensures
        is_ascii_letter(c),
{
    fastrand::alphabetic()
}

/// Relies on fastrand::alphanumeric: every outcome is an ASCII letter
/// or digit.
#[verifier::external_body]
fn rand_alphanumeric() -> (c: char)
    ensures
        is_ascii_alphanumeric(c),
{
    fastrand::alphanumeric()
}

/// Relies on String::push: appends exactly the one character.
#[verifier::external_body]
fn push_char(s: &mut String, c: char)
    ensures
        final(s)@ == old(s)@.push(c),
{
    s.push(c);
}

/// A fresh id of `len` random ASCII letters.
pub fn random_id(len: usize) -> (s: String)
    ensures
        s@.len() == len as int,
        forall|i: int| 0 <= i < s@.len() ==> is_ascii_letter(#[trigger] s@[i]),
{
    let mut s = String::new();
    let mut i: usize = 0;
    while i < len
        invariant
            i <= len,
            s@.len() == i as int,
            forall|k: int| 0 <= k < s@.len() ==> is_ascii_letter(#[trigger] s@[k]),
        decreases len - i,
    {
        let c = rand_alphabetic();
        push_char(&mut s, c);
        i += 1;
    }
    s
}

/// A fresh id of `len` random ASCII letters and digits.
pub fn random_alphanumeric_id(len: usize) -> (s: String)
    ensures
        s@.len() == len as int,
        forall|i: int| 0 <= i < s@.len() ==> is_ascii_alphanumeric(#[trigger] s@[i]),
{
    let mut s = String::new();
    let mut i: usize = 0;
    while i < len
        invariant
            i <= len,
            s@.len() == i as int,
            forall|k: int| 0 <= k < s@.len() ==> is_ascii_alphanumeric(#[trigger] s@[k]),
        decreases len - i,
    {
        let c = rand_alphanumeric();
        push_char(&mut s, c);
        i += 1;
    }
    s
}

} // verus!
