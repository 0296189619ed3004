//! The three-step site workflow: log in, fetch the member page for the
//! check-in token, submit the check-in. The workflow decides; its caller
//! performs the HTTP round trips it asks for and feeds back each answer.

use crate::checkin::interpret_checkin_response;
use crate::checkin::json_status_string;
use crate::config::AppConfig;
use crate::error::SiteError;
use crate::pattern::balance_pattern_present;
use crate::pattern::extract_balance;
use crate::pattern::extract_nonce;
use crate::pattern::has_nonce;
use crate::pattern::nonce_capture;
use vstd::prelude::*;
use vstd::string::*;

verus! {

/// Reads the login answer. A redirect (status 302) means the site
/// authenticated the session, whatever the body holds; a rendered page
/// (status 200) means success only when it already shows the wallet label
/// followed by the balance label and a digit; any other status is a failed
/// login.
pub fn interpret_login_response(status: u16, body: &str) -> (r: bool)
    ensures
        r == (status == 302 || (status == 200 && balance_pattern_present(body@))),
{
    if status == 302 {
        true
    } else if status == 200 {
        extract_balance(body).is_some()
    } else {
        false
    }
}

#[derive(Clone, Copy, Debug, PartialEq, Eq, Structural)]
pub enum HttpMethod {
    Get,
    Post,
}

/// One HTTP round trip the workflow asks its caller to perform: a URL and,
/// for a form POST, the fields to send, plus the two headers some WordPress
/// setups want on the login step.
#[derive(Clone, Debug)]
pub struct HttpRequest {
    pub method: HttpMethod,
    pub url: String,
    pub form: Vec<(String, String)>,
    pub referer: Option<String>,
    pub origin: Option<String>,
}

/// The login round trip: a form POST to the WordPress login endpoint
/// carrying the credentials, the site's literal login-button label, the
/// redirect target and the test-cookie marker, with `Referer` and `Origin`
/// pointing at the site.
pub open spec fn is_login_request(r: HttpRequest, cfg: AppConfig) -> bool {
    &&& r.method == HttpMethod::Post
    &&& r.url@ == cfg.base_url@ + "/wp-login.php"@
    &&& r.form@.len() == 5
    &&& r.form@[0].0@ == "log"@ && r.form@[0].1@ == cfg.username@
    &&& r.form@[1].0@ == "pwd"@ && r.form@[1].1@ == cfg.password@
    &&& r.form@[2].0@ == "wp-submit"@ && r.form@[2].1@ == "登录"@
    &&& r.form@[3].0@ == "redirect_to"@ && r.form@[3].1@ == cfg.base_url@
    &&& r.form@[4].0@ == "testcookie"@ && r.form@[4].1@ == "1"@
    &&& (r.referer matches Some(u) && u@ == cfg.base_url@ + "/wp-login.php"@)
    &&& (r.origin matches Some(u) && u@ == cfg.base_url@)
}

/// The member-page round trip, whose answer carries the check-in token.
pub open spec fn is_nonce_request(r: HttpRequest, cfg: AppConfig) -> bool {
    &&& r.method == HttpMethod::Get
    &&& r.url@ == cfg.base_url@ + "/user"@
    &&& r.form@.len() == 0
    &&& r.referer is None
    &&& r.origin is None
}

/// The check-in round trip: the AJAX action and the token just obtained.
pub open spec fn is_checkin_request(r: HttpRequest, cfg: AppConfig, nonce: Seq<char>) -> bool {
    &&& r.method == HttpMethod::Post
    &&& r.url@ == cfg.base_url@ + "/wp-admin/admin-ajax.php"@
    &&& r.form@.len() == 2
    &&& r.form@[0].0@ == "action"@ && r.form@[0].1@ == "user_qiandao"@
    &&& r.form@[1].0@ == "nonce"@ && r.form@[1].1@ == nonce
    &&& r.referer is None
    &&& r.origin is None
}

/// Builds the login round trip for the given settings.
pub fn login_request(cfg: &AppConfig) -> (r: HttpRequest)
    ensures
        is_login_request(r, *cfg),
{
    let url = cfg.base_url.clone().concat("/wp-login.php");
    let mut form: Vec<(String, String)> = Vec::new();
    form.push((String::from_str("log"), cfg.username.clone()));
    form.push((String::from_str("pwd"), cfg.password.clone()));
    form.push((String::from_str("wp-submit"), String::from_str("登录")));
    form.push((String::from_str("redirect_to"), cfg.base_url.clone()));
    form.push((String::from_str("testcookie"), String::from_str("1")));
    HttpRequest {
        method: HttpMethod::Post,
        url: url.clone(),
        form,
        referer: Some(url),
        origin: Some(cfg.base_url.clone()),
    }
}

/// Builds the member-page round trip for the given settings.
pub fn nonce_request(cfg: &AppConfig) -> (r: HttpRequest)
    ensures
        is_nonce_request(r, *cfg),
{
    HttpRequest {
        method: HttpMethod::Get,
        url: cfg.base_url.clone().concat("/user"),
        form: Vec::new(),
        referer: None,
        origin: None,
    }
}

/// Builds the check-in round trip for the given settings and token.
pub fn checkin_request(cfg: &AppConfig, nonce: &String) -> (r: HttpRequest)
    ensures
        is_checkin_request(r, *cfg, nonce@),
{
    let mut form: Vec<(String, String)> = Vec::new();
    form.push((String::from_str("action"), String::from_str("user_qiandao")));
    form.push((String::from_str("nonce"), nonce.clone()));
    HttpRequest {
        method: HttpMethod::Post,
        url: cfg.base_url.clone().concat("/wp-admin/admin-ajax.php"),
        form,
        referer: None,
        origin: None,
    }
}

/// Where a run stands in the linear pipeline.
#[derive(Debug)]
pub enum Step {
    /// Nothing answered yet: the login answer is awaited.
    Login,
    /// Logged in: the member page's answer is awaited.
    FetchNonce,
    /// The token in hand: the check-in answer is awaited.
    CheckIn { nonce: String },
    /// The check-in counted: nothing left to send.
    Done,
}

/// One run of the site workflow. It hands out the round trip to perform
/// next and moves one step forward on each successful answer; it never
/// retries and never goes back.
#[derive(Debug)]
pub struct Workflow {
    pub cfg: AppConfig,
    pub step: Step,
}

impl Workflow {
    /// A fresh run that will log in first.
    pub fn new(cfg: AppConfig) -> (w: Workflow)
        ensures
            w.cfg == cfg,
            w.step is Login,
    {
        Workflow { cfg, step: Step::Login }
    }

    /// The round trip to perform next, `None` once the run is complete.
    pub fn next_request(&self) -> (r: Option<HttpRequest>)
        ensures
            (match self.step {
                Step::Login => r matches Some(q) && is_login_request(q, self.cfg),
                Step::FetchNonce => r matches Some(q) && is_nonce_request(q, self.cfg),
                Step::CheckIn { nonce } => r matches Some(q) && is_checkin_request(
                    q,
                    self.cfg,
                    nonce@,
                ),
                Step::Done => r is None,
            }),
    {
        match &self.step {
            Step::Login => Some(login_request(&self.cfg)),
            Step::FetchNonce => Some(nonce_request(&self.cfg)),
            Step::CheckIn { nonce } => Some(checkin_request(&self.cfg, nonce)),
            Step::Done => None,
        }
    }

    /// Feeds back the answer of the round trip just performed. On success
    /// the run moves one step forward; otherwise it stays where it is and
    /// reports the step's failure, so the caller stops and surfaces it.
    /// An answer fed to a finished run is ignored.
    pub fn on_response(&mut self, status: u16, body: &str) -> (r: Result<(), SiteError>)
        ensures
            final(self).cfg == old(self).cfg,
            (match old(self).step {
                Step::Login => {
                    &&& (r is Ok <==> (status == 302 || (status == 200
                        && balance_pattern_present(body@))))
                    &&& (r is Ok ==> final(self).step is FetchNonce)
                    &&& (r is Err ==> r == Err::<(), SiteError>(SiteError::LoginFailed)
                        && final(self).step is Login)
                },
                Step::FetchNonce => {
                    &&& (r is Ok <==> has_nonce(body@))
                    &&& (r is Ok ==> (final(self).step matches Step::CheckIn { nonce }
                        && nonce_capture(body@, nonce@)))
                    &&& (r is Err ==> r == Err::<(), SiteError>(SiteError::NonceNotFound)
                        && final(self).step is FetchNonce)
                },
                Step::CheckIn { nonce } => {
                    &&& (r is Ok <==> json_status_string(body@) == Some("1"@))
                    &&& (r is Ok ==> final(self).step is Done)
                    &&& (r is Err ==> r == Err::<(), SiteError>(SiteError::CheckInFailed)
                        && (final(self).step matches Step::CheckIn { nonce: n2 } && n2 == nonce))
                },
                Step::Done => r is Ok && final(self).step is Done,
            }),
    {
        if matches!(self.step, Step::Login) {
            if interpret_login_response(status, body) {
                self.step = Step::FetchNonce;
                Ok(())
            } else {
                Err(SiteError::LoginFailed)
            }
        } else if matches!(self.step, Step::FetchNonce) {
            match extract_nonce(body) {
                Some(nonce) => {
                    self.step = Step::CheckIn { nonce };
                    Ok(())
                },
                None => Err(SiteError::NonceNotFound),
            }
        } else if matches!(self.step, Step::CheckIn { .. }) {
            match interpret_checkin_response(body) {
                Ok(u) => {
                    self.step = Step::Done;
                    Ok(u)
                },
                Err(e) => Err(e),
            }
        } else {
            Ok(())
        }
    }
}

} // verus!
