//! The webhook token, kept in memory that is wiped when the token is dropped.
use vstd::prelude::*;
use zeroize::Zeroizing;

verus! {

/// A text held in a `zeroize::Zeroizing` container, which overwrites the text
/// in memory when the container is dropped.
#[verifier::external_body]
pub struct SecretText {
    sealed: Zeroizing<String>,
}

/// The characters that a secret holds.
pub uninterp spec fn secret_chars(secret: SecretText) -> Seq<char>;

/// `zeroize::Zeroizing::new` moves the text into the container unchanged.
#[verifier::external_body]
pub(crate) fn seal(text: String) -> (secret: SecretText)
    ensures
        secret_chars(secret) == text@,
{
    SecretText { sealed: Zeroizing::new(text) }
}

/// `<zeroize::Zeroizing<String> as Deref>::deref` lends the text that the
/// container holds.
#[verifier::external_body]
pub(crate) fn unseal(secret: &SecretText) -> (text: &String)
    ensures
        text@ == secret_chars(*secret),
{
    std::ops::Deref::deref(&secret.sealed)
}

} // verus!
