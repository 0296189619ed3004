use crate::error::SiteError;
use vstd::prelude::*;

verus! {

/// The site origin used when the caller supplies none.
pub open spec fn default_base_url() -> Seq<char> {
    "https://www.bugutv.vip"@
}

/// The settings of one run: the login identity, its secret, and the site
/// origin that every request URL is built from.
///
/// `base_url` is a bare origin (scheme and host, no trailing slash): request
/// URLs are formed by appending a path that starts with `/`.
#[derive(Clone, Debug)]
pub struct AppConfig {
    pub username: String,
    pub password: String,
    pub base_url: String,
}

impl AppConfig {
    /// Builds the settings for a run from optionally-present values.
    ///
    /// Both credentials are required; the run cannot proceed without them.
    /// The site origin falls back to the built-in default when none is given.
    pub fn resolve(
        username: Option<String>,
        password: Option<String>,
        base_url: Option<String>,
    ) -> (r: Result<AppConfig, SiteError>)
        ensures
            r is Ok <==> (username is Some && password is Some),
            r matches Err(e) ==> e == SiteError::MissingCredentials,
            r matches Ok(c) ==> {
                &&& (username matches Some(u) ==> c.username@ == u@)
                &&& (password matches Some(p) ==> c.password@ == p@)
                &&& (base_url matches Some(b) ==> c.base_url@ == b@)
                &&& (base_url is None ==> c.base_url@ == default_base_url())
            },
    {
        match (username, password) {
            (Some(u), Some(p)) => {
                let origin = match base_url {
                    Some(b) => b,
                    None => "https://www.bugutv.vip".to_owned(),
                };
                Ok(AppConfig { username: u, password: p, base_url: origin })
            },
            _ => Err(SiteError::MissingCredentials),
        }
    }
}

} // verus!
