use vstd::prelude::*;

verus! {

/// The failures a run can report, one per stage that can go wrong.
#[derive(Clone, Copy, Debug, PartialEq, Eq, Structural)]
pub enum SiteError {
    /// A required credential was absent from the given settings.
    MissingCredentials,
    /// The site answered the login request without authenticating the session.
    LoginFailed,
    /// The member page held no check-in token.
    NonceNotFound,
    /// The check-in endpoint did not report the success status.
    CheckInFailed,
}

} // verus!
