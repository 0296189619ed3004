use bugutv_checkin::checkin::{interpret_checkin_response, status_is_success};
use bugutv_checkin::config::AppConfig;
use bugutv_checkin::error::SiteError;
use bugutv_checkin::pattern::{extract_balance, extract_nonce};
use bugutv_checkin::site::{
    checkin_request, interpret_login_response, login_request, nonce_request, HttpMethod, Step,
    Workflow,
};

fn test_config() -> AppConfig {
    AppConfig {
        username: "user1".to_string(),
        password: "passwd1".to_string(),
        base_url: "http://127.0.0.1:8080".to_string(),
    }
}

#[test]
fn resolve_requires_both_credentials() {
    let missing_user = AppConfig::resolve(None, Some("pw".to_string()), None);
    assert!(matches!(missing_user, Err(SiteError::MissingCredentials)));
    let missing_password = AppConfig::resolve(Some("u".to_string()), None, None);
    assert!(matches!(missing_password, Err(SiteError::MissingCredentials)));
}

#[test]
fn resolve_falls_back_to_default_origin() {
    let cfg = AppConfig::resolve(Some("u".to_string()), Some("pw".to_string()), None).unwrap();
    assert_eq!(cfg.username, "u");
    assert_eq!(cfg.password, "pw");
    assert_eq!(cfg.base_url, "https://www.bugutv.vip");
}

#[test]
fn resolve_keeps_given_origin() {
    let cfg = AppConfig::resolve(
        Some("u".to_string()),
        Some("pw".to_string()),
        Some("http://example.invalid".to_string()),
    )
    .unwrap();
    assert_eq!(cfg.base_url, "http://example.invalid");
}

#[test]
fn login_request_carries_the_form() {
    let cfg = test_config();
    let q = login_request(&cfg);
    assert_eq!(q.method, HttpMethod::Post);
    assert_eq!(q.url, "http://127.0.0.1:8080/wp-login.php");
    let form: Vec<(String, String)> = q.form;
    assert_eq!(form.len(), 5);
    assert_eq!(form[0], ("log".to_string(), "user1".to_string()));
    assert_eq!(form[1], ("pwd".to_string(), "passwd1".to_string()));
    assert_eq!(form[2], ("wp-submit".to_string(), "登录".to_string()));
    assert_eq!(form[3], ("redirect_to".to_string(), "http://127.0.0.1:8080".to_string()));
    assert_eq!(form[4], ("testcookie".to_string(), "1".to_string()));
    assert_eq!(q.referer, Some("http://127.0.0.1:8080/wp-login.php".to_string()));
    assert_eq!(q.origin, Some("http://127.0.0.1:8080".to_string()));
}

#[test]
fn nonce_request_is_a_bare_get() {
    let cfg = test_config();
    let q = nonce_request(&cfg);
    assert_eq!(q.method, HttpMethod::Get);
    assert_eq!(q.url, "http://127.0.0.1:8080/user");
    assert!(q.form.is_empty());
    assert_eq!(q.referer, None);
    assert_eq!(q.origin, None);
}

#[test]
fn checkin_request_posts_action_and_token() {
    let cfg = test_config();
    let q = checkin_request(&cfg, &"xxxx".to_string());
    assert_eq!(q.method, HttpMethod::Post);
    assert_eq!(q.url, "http://127.0.0.1:8080/wp-admin/admin-ajax.php");
    assert_eq!(q.form.len(), 2);
    assert_eq!(q.form[0], ("action".to_string(), "user_qiandao".to_string()));
    assert_eq!(q.form[1], ("nonce".to_string(), "xxxx".to_string()));
}

#[test]
fn balance_figure_is_the_digit_run() {
    let body = "……积分钱包……当前余额：12345点";
    assert_eq!(extract_balance(body), Some("12345".to_string()));
    assert!(interpret_login_response(200, body));
}

#[test]
fn balance_needs_wallet_label_first() {
    let body = "当前余额：12345点";
    assert_eq!(extract_balance(body), None);
    let reversed = "当前余额：7 和 积分钱包";
    assert_eq!(extract_balance(reversed), None);
}

#[test]
fn balance_label_needs_a_digit() {
    let body = "积分钱包 当前余额：无";
    assert_eq!(extract_balance(body), None);
    assert!(!interpret_login_response(200, body));
}

#[test]
fn nonce_takes_the_earliest_token() {
    let body = r#"x data-nonce="one" y data-nonce="two" z"#;
    assert_eq!(extract_nonce(body), Some("one".to_string()));
}

#[test]
fn balance_skips_a_label_without_digits() {
    let body = "积分钱包 当前余额：x 当前余额：8";
    assert_eq!(extract_balance(body), Some("8".to_string()));
}

#[test]
fn balance_counts_only_labels_after_the_wallet() {
    let body = "当前余额：3 积分钱包 当前余额：9";
    assert_eq!(extract_balance(body), Some("9".to_string()));
}

#[test]
fn nonce_may_be_empty() {
    assert_eq!(extract_nonce(r#"<a data-nonce="">"#), Some("".to_string()));
}

#[test]
fn nonce_stops_at_the_first_quote() {
    let body = r#"data-nonce="data-nonce="x""#;
    assert_eq!(extract_nonce(body), Some("data-nonce=".to_string()));
}

#[test]
fn nonce_skips_an_unclosed_line() {
    let body = "data-nonce=\"a\nzz data-nonce=\"tok\">";
    assert_eq!(extract_nonce(body), Some("tok".to_string()));
    let unclosed = "data-nonce=\"a\nzz";
    assert_eq!(extract_nonce(unclosed), None);
}

#[test]
fn checkin_success_needs_the_status_string_one() {
    assert!(interpret_checkin_response("{\"status\":\"1\"}").is_ok());
    assert!(interpret_checkin_response("{\"status\":\"1\",\"msg\":\"签到成功\"}").is_ok());
    assert!(interpret_checkin_response("{\"status\":\"2\"}").is_err());
    assert!(interpret_checkin_response("{\"status\":1}").is_err());
    assert!(interpret_checkin_response("{\"Status\":\"1\"}").is_err());
    assert!(interpret_checkin_response("not json at all").is_err());
    assert!(interpret_checkin_response("").is_err());
}

#[test]
fn status_marker_comparison_is_exact() {
    assert!(status_is_success(&Some("1".to_string())));
    assert!(!status_is_success(&Some("11".to_string())));
    assert!(!status_is_success(&Some("".to_string())));
    assert!(!status_is_success(&None));
}

#[test]
fn full_run_completes_on_good_answers() {
    let cfg = AppConfig::resolve(
        Some("user1".to_string()),
        Some("passwd1".to_string()),
        Some("http://127.0.0.1:8080".to_string()),
    )
    .unwrap();
    let mut w = Workflow::new(cfg);

    let login = w.next_request().unwrap();
    assert_eq!(login.url, "http://127.0.0.1:8080/wp-login.php");
    assert!(w.on_response(302, "").is_ok());

    let member = w.next_request().unwrap();
    assert_eq!(member.url, "http://127.0.0.1:8080/user");
    assert!(w.on_response(200, r#"<a data-nonce="abc123">"#).is_ok());
    assert!(matches!(&w.step, Step::CheckIn { nonce } if nonce.as_str() == "abc123"));

    let ajax = w.next_request().unwrap();
    assert_eq!(ajax.url, "http://127.0.0.1:8080/wp-admin/admin-ajax.php");
    assert_eq!(ajax.form[1], ("nonce".to_string(), "abc123".to_string()));
    assert!(w.on_response(200, "{\"status\":\"1\"}").is_ok());

    assert!(w.next_request().is_none());
}

#[test]
fn failed_login_stops_the_run() {
    let mut w = Workflow::new(test_config());
    let r = w.on_response(403, "<html></html>");
    assert_eq!(r, Err(SiteError::LoginFailed));
    assert!(matches!(w.step, Step::Login));
}

#[test]
fn missing_token_stops_the_run() {
    let mut w = Workflow::new(test_config());
    assert!(w.on_response(302, "").is_ok());
    let r = w.on_response(503, "<html></html>");
    assert_eq!(r, Err(SiteError::NonceNotFound));
    assert!(matches!(w.step, Step::FetchNonce));
}

#[test]
fn second_checkin_may_be_refused_by_the_site() {
    let mut first = Workflow::new(test_config());
    assert!(first.on_response(302, "").is_ok());
    assert!(first.on_response(200, r#"<a data-nonce="abc123">"#).is_ok());
    assert!(first.on_response(200, "{\"status\":\"1\"}").is_ok());

    let mut second = Workflow::new(test_config());
    assert!(second.on_response(302, "").is_ok());
    assert!(second.on_response(200, r#"<a data-nonce="def456">"#).is_ok());
    let refused = second.on_response(200, "{\"msg\":\"签到失败\",\"status\":0}");
    assert_eq!(refused, Err(SiteError::CheckInFailed));
}
