//! Secret text: wiped from memory when dropped, and never printed.

use secrecy::{ExposeSecret, SecretString};
use vstd::prelude::*;

verus! {

/// A `secrecy::SecretString`: text that is wiped from memory when dropped and
/// that `Debug` does not print. Nothing inside it is visible to the
/// verifier; what it holds is read only through `expose_secret`.
#[verifier::external_body]
#[derive(Debug)]
pub struct SecretText {
    inner: SecretString,
}

/// The text that a secret holds.
pub uninterp spec fn secret_text(secret: SecretText) -> Seq<char>;

impl View for SecretText {
    type V = Seq<char>;

    open spec fn view(&self) -> Seq<char> {
        secret_text(*self)
    }
}

impl SecretText {
    /// `SecretString::from` a `String`: the secret holds the text.
    #[verifier::external_body]
    pub(crate) fn new(text: String) -> (secret: SecretText)
        ensures
            secret_text(secret) == text@,
    {
        SecretText { inner: SecretString::from(text) }
    }

    /// `ExposeSecret::expose_secret`: the text that the secret holds.
    #[verifier::external_body]
    pub(crate) fn expose_secret(&self) -> (text: &str)
        ensures
            text@ == secret_text(*self),
    {
        self.inner.expose_secret()
    }
}

impl SecretText {
    /// `Clone::clone` of the secret string: the copy holds the same text.
    #[verifier::external_body]
    pub(crate) fn duplicate(&self) -> (copy: SecretText)
        ensures
            secret_text(copy) == secret_text(*self),
    {
        SecretText { inner: self.inner.clone() }
    }
}

} // verus!
