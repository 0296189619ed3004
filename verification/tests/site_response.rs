use bugutv_checkin::checkin::interpret_checkin_response;
use bugutv_checkin::error::SiteError;
use bugutv_checkin::pattern::extract_nonce;
use bugutv_checkin::site::interpret_login_response;

#[test]
fn test_site_login_status200() {
    assert!(!interpret_login_response(200, "<html></html>"));
}

#[test]
fn test_site_login_status302() {
    assert!(interpret_login_response(302, "<html></html>"));
}

#[test]
fn test_site_login_some_status() {
    let statuses: [u16; 9] = [200, 201, 401, 403, 500, 501, 502, 503, 504];
    for status in statuses {
        assert!(!interpret_login_response(status, "<html></html>"));
    }
}

#[test]
fn test_site_login_with_content() {
    let body = r#"
            <div class="menu-card-box-1">
            <span class="small"><i class="fas fa-coins mr-1"></i>积分钱包</span>
            <p class="small m-0">当前余额：1</p><p class="small">累计消费：3</p>
            <a class="btn btn-sm btn-block btn-rounded btn-light" href="https://www.bugutv.vip/user/vip" rel="nofollow noopener noreferrer">我的会员</a></div>
            "#;
    assert!(interpret_login_response(200, body));
}

#[test]
fn test_site_check_in() {
    struct Validate {
        result: bool,
        body: String,
    }
    let mock_bodys = vec![
        Validate { result: false, body: "{\"msg\":\"签到失败\",\"status\":0}".to_string() },
        Validate { result: false, body: "{\"msg\":\"签到成功\",\"status\":1}".to_string() },
        Validate { result: false, body: "\"<html></html>\"".to_string() },
    ];
    for mock_body in mock_bodys {
        let resp = interpret_checkin_response(&mock_body.body);
        if mock_body.result {
            assert!(resp.is_ok());
        } else {
            assert!(resp.is_err());
            assert_eq!(resp, Err(SiteError::CheckInFailed));
        }
    }
}

#[test]
fn test_site_nonce() {
    struct MockData {
        result: Option<String>,
        body: String,
    }
    let mock_datas = vec![
        MockData {
            result: Some("28b21150cd".into()),
            body: r#"sdjis data-nonce="28b21150cd" data-toggle="tooltip">"#.into(),
        },
        MockData { result: None, body: "<html></html>".into() },
        MockData { result: None, body: "".into() },
    ];
    for mock in mock_datas {
        let nonce = extract_nonce(&mock.body);
        assert_eq!(nonce, mock.result);
    }
}
