//! A password to be memorised, and the verdict on each attempt at it.
use vstd::prelude::*;
use crate::secret::{secret_text, SecretText};
use crate::secure_eq::SecureEq;

verus! {

/// Indicates if a user-provided password matched a stored value.
#[derive(Debug, PartialEq, Eq, Structural)]
pub enum Matches {
    Correct,
    Incorrect,
}

/// The verdict on `candidate` as an attempt at `secret`.
pub open spec fn verdict(secret: Seq<char>, candidate: Seq<char>) -> Matches {
    if secret == candidate {
        Matches::Correct
    } else {
        Matches::Incorrect
    }
}

/// A password, to be checked against user submissions.
#[derive(Debug)]
pub struct Password {
    password: SecretText,
}

impl View for Password {
    type V = Seq<char>;

    closed spec fn view(&self) -> Seq<char> {
        secret_text(self.password)
    }
}

impl From<String> for Password {
    fn from(password: String) -> (r: Self)
        ensures
            r@ == password@,
    {
        Password { password: SecretText::new(password) }
    }
}

impl vstd::std_specs::convert::FromSpecImpl<String> for Password {
    open spec fn obeys_from_spec() -> bool {
        false
    }

    open spec fn from_spec(v: String) -> Password {
        arbitrary()
    }
}

impl Password {
    /// Tests user input against the stored password.
    pub fn test(&self, input: &str) -> (r: Matches)
        ensures
            r == verdict(self@, input@),
    {
        if self.password.eq_secure(input) {
            Matches::Correct
        } else {
            Matches::Incorrect
        }
    }
}

/// A password is accepted when it is typed back exactly as it was given,
/// the empty one included.
pub proof fn lemma_password_accepts_itself(s: Seq<char>)
    ensures
        verdict(s, s) == Matches::Correct,
{
}

/// An attempt is accepted exactly when its UTF-8 bytes are those of the
/// password, byte for byte and of the same length.
pub proof fn lemma_accepted_iff_same_bytes(secret: Seq<char>, candidate: Seq<char>)
    ensures
        (verdict(secret, candidate) == Matches::Correct) <==> (vstd::utf8::encode_utf8(secret)
            == vstd::utf8::encode_utf8(candidate)),
{
    vstd::utf8::encode_utf8_decode_utf8(secret);
    vstd::utf8::encode_utf8_decode_utf8(candidate);
}

} // verus!
