use secrecy::ExposeSecret;
use secrecy::Secret;
use vstd::prelude::*;

verus! {

/// A string that must not leak: it is never printed, and its memory is wiped
/// when it is dropped. The text is reached only through `expose_secret`.
#[verifier::external_body]
#[derive(Debug)]
pub struct SecretString {
    inner: Secret<String>,
}

/// The text that a secret string carries.
pub uninterp spec fn secret_text(s: SecretString) -> Seq<char>;

impl View for SecretString {
    type V = Seq<char>;

    open spec fn view(&self) -> Seq<char> {
        secret_text(*self)
    }
}

/// `secrecy::Secret::new`: takes ownership of the string and keeps it as it is.
#[verifier::external_body]
fn secret_new(text: String) -> (r: SecretString)
    ensures
        secret_text(r) == text@,
{
    SecretString { inner: Secret::new(text) }
}

/// `secrecy::ExposeSecret::expose_secret`: a reference to the string inside.
#[verifier::external_body]
fn secret_expose(s: &SecretString) -> (r: &String)
    ensures
        r@ == secret_text(*s),
{
    s.inner.expose_secret()
}

/// `Clone::clone` of `secrecy::Secret<String>`: a secret with a copy of the
/// string inside.
#[verifier::external_body]
fn secret_clone(s: &SecretString) -> (r: SecretString)
    ensures
        secret_text(r) == secret_text(*s),
{
    SecretString { inner: s.inner.clone() }
}

impl SecretString {
    /// Wraps `text`.
    pub fn new(text: String) -> (r: SecretString)
        ensures
            r@ == text@,
    {
        secret_new(text)
    }

    /// The one way to read the text.
    pub fn expose_secret(&self) -> (r: &String)
        ensures
            r@ == self@,
    {
        secret_expose(self)
    }
}

impl Clone for SecretString {
    fn clone(&self) -> (r: SecretString)
        ensures
            r@ == self@,
    {
        secret_clone(self)
    }
}

} // verus!
