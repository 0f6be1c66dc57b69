//! The authentication token of a request, kept in a `secrecy::SecretString`.

use vstd::prelude::*;
use secrecy::ExposeSecret;

verus! {

/// An API token held in a `secrecy::SecretString`: zeroed when dropped and
/// redacted in debug output. Its only content is the secret, whose text
/// `secret_text` names.
#[verifier::external_body]
#[derive(Debug)]
pub struct AuthToken {
    secret: secrecy::SecretString,
}

impl AuthToken {
    /// `SecretString::from(String)`: moves the token text into a secret,
    /// which then holds that text.
    #[verifier::external_body]
    pub(crate) fn new(secret: String) -> (token: AuthToken)
        ensures
            secret_text(token) == secret@,
    {
        AuthToken { secret: secrecy::SecretString::from(secret) }
    }

    /// `ExposeSecret::expose_secret`: the text the secret holds.
    #[verifier::external_body]
    pub(crate) fn expose(&self) -> (text: &str)
        ensures
            text@ == secret_text(*self),
    {
        self.secret.expose_secret()
    }

    /// `Debug` of `SecretBox<str>`, which writes `SecretBox<`, the type name
    /// of `str`, and `>([REDACTED])`: the text `redacted_debug` names. It
    /// depends on the secret's type only, so every token gives the same text.
    /// std does not fix the type name's text, so only the frame around it is
    /// spelled out.
    #[verifier::external_body]
    pub(crate) fn debug_text(&self) -> (text: String)
        ensures
            text@ == redacted_debug(*self),
            forall|other: AuthToken| #[trigger] redacted_debug(other) == text@,
            exists|kind: Seq<char>| text@ == redacted_text(kind),
    {
        format!("{:?}", self.secret)
    }
}

/// The text of the secret a token holds.
pub uninterp spec fn secret_text(token: AuthToken) -> Seq<char>;

/// The text secrecy's `Debug` writes for a token.
pub uninterp spec fn redacted_debug(token: AuthToken) -> Seq<char>;

/// `SecretBox<kind>([REDACTED])`, where `kind` names the secret's type.
pub open spec fn redacted_text(kind: Seq<char>) -> Seq<char> {
    seq!['S', 'e', 'c', 'r', 'e', 't', 'B', 'o', 'x', '<'] + kind + seq![
        '>',
        '(',
        '[',
        'R',
        'E',
        'D',
        'A',
        'C',
        'T',
        'E',
        'D',
        ']',
        ')',
    ]
}

} // verus!
