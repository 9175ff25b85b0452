use vstd::prelude::*;

verus! {

/// A username and secret, built for one login attempt and consumed by it.
#[derive(Debug, PartialEq, Eq)]
pub struct Credential {
    pub username: String,
    pub password: String,
}

/// Where a credential may come from, in the order a policy lists them.
#[derive(Clone, Copy, Debug, PartialEq, Eq)]
pub enum SourceKind {
    /// The operating system's secure credential store.
    SecureStore,
    /// Username and password typed by the operator.
    Prompt,
    /// A fixed pair for development setups; never part of a production policy.
    Fixed,
}

/// Why a source could not produce a credential.
#[derive(Clone, Copy, Debug, PartialEq, Eq)]
pub enum CredentialError {
    /// The source holds no entry.
    NotFound,
    /// The secure store could not be reached or unlocked.
    AccessDenied,
    /// The input stream of the operator is closed.
    InputClosed,
}

/// A source that can be asked again after a rejected login, because it may
/// then give different values. The others would repeat what was rejected.
pub open spec fn asks_afresh(k: SourceKind) -> bool {
    k == SourceKind::Prompt
}

pub fn can_ask_afresh(k: SourceKind) -> (r: bool)
    ensures
        r == asks_afresh(k),
{
    match k {
        SourceKind::Prompt => true,
        _ => false,
    }
}

/// A missing entry, or a store that cannot be opened, lets the next source
/// be tried; a closed input stream ends the search.
pub open spec fn falls_through(e: CredentialError) -> bool {
    e != CredentialError::InputClosed
}

pub fn may_fall_through(e: CredentialError) -> (r: bool)
    ensures
        r == falls_through(e),
{
    match e {
        CredentialError::InputClosed => false,
        _ => true,
    }
}

/// `part` is `whole` with some characters dropped at either end.
pub open spec fn contiguous_part(part: Seq<char>, whole: Seq<char>) -> bool {
    exists|i: int, j: int| 0 <= i <= j <= whole.len() && part == whole.subrange(i, j)
}

/// What `str::trim` gives for a text.
pub uninterp spec fn trimmed(s: Seq<char>) -> Seq<char>;

/// Relies on `str::trim`: it drops leading and trailing white space, so the
/// result is a contiguous part of the input and depends on the input alone.
#[verifier::external_body]
fn trim(s: &str) -> (r: String)
    ensures
        r@ == trimmed(s@),
        contiguous_part(r@, s@),
{
    s.trim().to_string()
}

impl Credential {
    /// Builds a credential from what the operator typed, without the white
    /// space around either part.
    pub fn from_input(username: &str, password: &str) -> (r: Credential)
        ensures
            r.username@ == trimmed(username@),
            r.password@ == trimmed(password@),
    {
        let u = trim(username);
        let p = trim(password);
        Credential { username: u, password: p }
    }
}

} // verus!
