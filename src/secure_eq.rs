//! Equality tests whose running time does not depend on where two values
//! first differ.
use vstd::prelude::*;
use crate::secret::{expose, secret_text, SecretText};

verus! {

/// Stands in for the bytes that the shorter of two sequences lacks. It never
/// occurs in UTF-8 text.
pub const PAD: u8 = 0xff;

/// The byte at `i`, or `PAD` past the end.
pub open spec fn padded_at(s: Seq<u8>, i: int) -> u8 {
    if 0 <= i < s.len() {
        s[i]
    } else {
        PAD
    }
}

/// Number of positions a comparison of `secret` with `candidate` visits: the
/// length of the longer of the two.
pub open spec fn comparison_steps(secret: Seq<u8>, candidate: Seq<u8>) -> nat {
    if secret.len() >= candidate.len() {
        secret.len()
    } else {
        candidate.len()
    }
}

/// Compares `secret` with `candidate` over every position of the longer one,
/// padding the shorter one with `PAD`, and checks the lengths apart. Returns
/// whether the two are equal and how many positions were compared.
pub fn compare_counted(secret: &[u8], candidate: &[u8]) -> (r: (bool, usize))
    ensures
        r.0 == (secret@ == candidate@),
        r.1 == comparison_steps(secret@, candidate@),
{
    let n: usize = if secret.len() >= candidate.len() {
        secret.len()
    } else {
        candidate.len()
    };
    let mut diff: u8 = 0;
    let mut steps: usize = 0;
    let mut i: usize = 0;
    while i < n
        invariant
            i <= n,
            n == comparison_steps(secret@, candidate@),
            steps == i,
            (diff == 0) == (forall|j: int| 0 <= j < i ==> padded_at(secret@, j) == padded_at(candidate@, j)),
        decreases n - i,
    {
        let a: u8 = if i < candidate.len() {
            candidate[i]
        } else {
            PAD
        };
        let b: u8 = if i < secret.len() {
            secret[i]
        } else {
            PAD
        };
        let d = diff;
        assert(a == padded_at(candidate@, i as int));
        assert(b == padded_at(secret@, i as int));
        assert((forall|j: int| 0 <= j < i + 1 ==> padded_at(secret@, j) == padded_at(candidate@, j))
            == ((forall|j: int| 0 <= j < i ==> padded_at(secret@, j) == padded_at(candidate@, j))
            && a == b));
        assert(((d | (a ^ b)) == 0) == (d == 0 && a == b)) by (bit_vector);
        diff = d | (a ^ b);
        steps = steps + 1;
        i = i + 1;
    }
    let same_len = match candidate.len().checked_sub(secret.len()) {
        Some(d) => d == 0,
        None => false,
    };
    let eq = diff == 0;
    proof {
        if eq && same_len {
            assert(secret@ =~= candidate@) by {
                assert forall|j: int| 0 <= j < secret@.len() implies secret@[j] == candidate@[j] by {
                    assert(padded_at(secret@, j) == padded_at(candidate@, j));
                }
            }
        }
    }
    (eq && same_len, steps)
}

/// Whether `secret` equals `candidate`, in time that depends on their lengths
/// alone.
pub fn eq_bytes_secure(secret: &[u8], candidate: &[u8]) -> (r: bool)
    ensures
        r == (secret@ == candidate@),
{
    compare_counted(secret, candidate).0
}

/// An equality test robust against timing attacks.
pub trait SecureEq<Rhs: ?Sized> {
    /// When `self` and `other` count as equal.
    spec fn secure_eq_spec(&self, other: &Rhs) -> bool;

    /// Is this value equal to `other`?
    fn eq_secure(&self, other: &Rhs) -> (r: bool)
        ensures
            r == self.secure_eq_spec(other),
    ;

    /// Is this value not equal to `other`?
    fn ne(&self, other: &Rhs) -> (r: bool)
        ensures
            r == !self.secure_eq_spec(other),
    {
        !self.eq_secure(other)
    }
}

/// A secret string equals a candidate when the two hold the same characters.
impl SecureEq<str> for SecretText {
    open spec fn secure_eq_spec(&self, other: &str) -> bool {
        secret_text(*self) == other@
    }

    fn eq_secure(&self, other: &str) -> (r: bool) {
        let secret = expose(self).as_str();
        let r = eq_bytes_secure(secret.as_bytes(), other.as_bytes());
        proof {
            vstd::utf8::encode_utf8_decode_utf8(secret@);
            vstd::utf8::encode_utf8_decode_utf8(other@);
        }
        r
    }
}

/// How many positions a comparison visits depends on the two lengths alone:
/// where, or whether, the inputs differ makes no difference.
pub proof fn lemma_steps_depend_on_lengths_only(
    secret1: Seq<u8>,
    candidate1: Seq<u8>,
    secret2: Seq<u8>,
    candidate2: Seq<u8>,
)
    requires
        secret1.len() == secret2.len(),
        candidate1.len() == candidate2.len(),
    ensures
        comparison_steps(secret1, candidate1) == comparison_steps(secret2, candidate2),
{
}

} // verus!
