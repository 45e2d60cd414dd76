//! Helps memorise a password: the password is held in a zeroizing container
//! and every guess is checked against it by a comparison whose work depends
//! on the lengths of the two strings alone.
pub mod password;
pub mod secret;
pub mod secure_eq;

pub use password::{Matches, Password};
pub use secret::SecretText;
pub use secure_eq::SecureEq;
