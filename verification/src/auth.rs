//! Authentication of ingestion requests: one shared key, compared byte for byte.

use vstd::prelude::*;
use vstd::utf8::encode_utf8;

verus! {

/// The name of the request header that carries the key.
pub const API_KEY_HEADER: &'static str = "x-api-key";

/// The outcome of checking one request.
#[derive(Clone, Copy, Debug, PartialEq, Eq, Structural)]
pub enum Verdict {
    /// The presented key is the configured one.
    Authorized,
    /// A key is configured and the request did not present it.
    Unauthorized,
    /// No key is configured, so nothing can be let through.
    Misconfigured,
}

/// The check in front of ingestion, holding the key that the server was
/// configured with, if any.
#[derive(Clone, Debug)]
pub struct AuthGate {
    secret: Option<String>,
}

/// The bytes of a presented credential.
pub open spec fn credential_bytes(credential: Option<&[u8]>) -> Option<Seq<u8>> {
    match credential {
        Some(c) => Some(c@),
        None => None,
    }
}

/// The verdict on `credential`, the raw value of the key header, under the
/// configured `secret`.
///
/// With an unset or empty secret nobody is let through, whatever is
/// presented. Otherwise only the bytes of the secret itself, in its UTF-8
/// encoding, are accepted.
pub open spec fn verdict_for(secret: Option<Seq<char>>, credential: Option<Seq<u8>>) -> Verdict {
    match secret {
        None => Verdict::Misconfigured,
        Some(s) => if s.len() == 0 {
            Verdict::Misconfigured
        } else if credential == Some(encode_utf8(s)) {
            Verdict::Authorized
        } else {
            Verdict::Unauthorized
        },
    }
}

/// Whether two byte strings are equal, position by position.
pub fn same_bytes(a: &[u8], b: &[u8]) -> (same: bool)
    ensures
        same == (a@ == b@),
{
    if a.len() != b.len() {
        return false;
    }
    let mut i: usize = 0;
    while i < a.len()
        invariant
            a@.len() == b@.len(),
            i <= a@.len(),
            forall|k: int| 0 <= k < i ==> a@[k] == b@[k],
        decreases a@.len() - i,
    {
        if a[i] != b[i] {
            return false;
        }
        i += 1;
    }
    assert(a@ =~= b@);
    true
}

impl View for AuthGate {
    type V = Option<Seq<char>>;

    closed spec fn view(&self) -> Option<Seq<char>> {
        match self.secret {
            Some(s) => Some(s@),
            None => None,
        }
    }
}

impl AuthGate {
    /// A check against the configured secret; `None` when the server has none.
    pub fn new(secret: Option<String>) -> (gate: AuthGate)
        ensures
            gate@ == crate::reading::text_of(secret),
    {
        AuthGate { secret }
    }

    /// Judges the credential that a request presented: the value of its key
    /// header, `None` when it carried none.
    pub fn check(&self, credential: Option<&[u8]>) -> (verdict: Verdict)
        ensures
            verdict == verdict_for(self@, credential_bytes(credential)),
    {
        match &self.secret {
            None => Verdict::Misconfigured,
            Some(secret) => {
                let expected: &str = secret.as_str();
                if expected.is_empty() {
                    return Verdict::Misconfigured;
                }
                match credential {
                    None => Verdict::Unauthorized,
                    Some(provided) => {
                        if same_bytes(provided, expected.as_bytes()) {
                            Verdict::Authorized
                        } else {
                            Verdict::Unauthorized
                        }
                    },
                }
            },
        }
    }
}

} // verus!
