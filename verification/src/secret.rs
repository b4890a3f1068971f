//! Credentials, kept behind `secrecy::SecretString`.

use secrecy::ExposeSecret;
use vstd::prelude::*;

verus! {

/// A credential of the API. The text is held by a `secrecy::SecretString`,
/// which wipes it when the credential is dropped and keeps it out of `Debug`
/// output. The verifier does not look inside: what a credential holds is
/// known through [`secret_text`] alone.
#[verifier::external_body]
#[derive(Debug)]
pub struct Credential {
    inner: secrecy::SecretString,
}

/// The text that a credential holds.
pub uninterp spec fn secret_text(secret: Credential) -> Seq<char>;

/// `SecretString::from(String)`: a secret that holds the given text.
#[verifier::external_body]
fn seal(text: String) -> (secret: Credential)
    ensures
        secret_text(secret) == text@,
{
    Credential { inner: secrecy::SecretString::from(text) }
}

/// `ExposeSecret::expose_secret`: the text that the secret holds.
#[verifier::external_body]
fn unseal(secret: &Credential) -> (text: &str)
    ensures
        text@ == secret_text(*secret),
{
    secret.inner.expose_secret()
}

/// `SecretString`'s `Clone`: another secret that holds the same text.
#[verifier::external_body]
fn copy_of(secret: &Credential) -> (copy: Credential)
    ensures
        secret_text(copy) == secret_text(*secret),
{
    Credential { inner: secret.inner.clone() }
}

impl View for Credential {
    type V = Seq<char>;

    /// The text of the credential.
    open spec fn view(&self) -> Seq<char> {
        secret_text(*self)
    }
}

impl Credential {
    /// A credential that holds `text`.
    pub fn new(text: String) -> (secret: Credential)
        ensures
            secret@ == text@,
    {
        seal(text)
    }

    /// The text of the credential, for the moment in which it is needed.
    pub fn expose_secret(&self) -> (text: &str)
        ensures
            text@ == self@,
    {
        unseal(self)
    }
}

impl Clone for Credential {
    /// A credential that holds the same text.
    fn clone(&self) -> (copy: Credential)
        ensures
            copy@ == self@,
    {
        copy_of(self)
    }
}

} // verus!
