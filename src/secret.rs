//! A string kept in the zeroizing container of the `secrecy` crate, as the
//! rest of the library sees it: an opaque box whose contents have a name.
use vstd::prelude::*;
use secrecy::ExposeSecret;

verus! {

/// A string that is wiped from memory when dropped, and whose `Debug` form
/// never shows it.
#[verifier::external_body]
#[derive(Debug)]
pub struct SecretText {
    inner: secrecy::SecretString,
}

/// The text that a secret holds.
pub uninterp spec fn secret_text(s: SecretText) -> Seq<char>;

/// Relies on `secrecy::Secret::new`: the new secret holds exactly the string
/// it was given, and wipes it when dropped.
#[verifier::external_body]
pub(crate) fn seal(text: String) -> (r: SecretText)
    ensures
        secret_text(r) == text@,
{
    SecretText { inner: secrecy::Secret::new(text) }
}

impl SecretText {
    /// Takes ownership of `text` and keeps it secret from now on.
    pub fn new(text: String) -> (r: SecretText)
        ensures
            secret_text(r) == text@,
    {
        seal(text)
    }
}

/// Relies on `secrecy::ExposeSecret::expose_secret`: a borrow of the string
/// held inside, unchanged.
#[verifier::external_body]
pub(crate) fn expose(s: &SecretText) -> (r: &String)
    ensures
        r@ == secret_text(*s),
{
    s.inner.expose_secret()
}

} // verus!
