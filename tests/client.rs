use clonk::{
    is_success_status, prepare_redeem, resolve_input, session_cookie_headers, session_from_login, single_result, split_cookie_pairs,
    BurstAction, BurstDispatcher, ClientError, LoginRequest, Outcome, RedeemFailure, RedeemPlan, RedeemRequest,
    SessionRecord, StoredSession, DEFAULT_INPUT, TARGET_URL,
};
use reqwest::header::HeaderValue;

fn run_burst(period_ms: u64, count: usize) -> Vec<BurstAction> {
    let mut d = BurstDispatcher::new(period_ms, count);
    let mut actions = Vec::new();
    loop {
        let a = d.step();
        actions.push(a);
        if a == BurstAction::Done {
            break;
        }
    }
    actions
}

#[test]
fn success_status_range() {
    assert!(!is_success_status(199));
    assert!(is_success_status(200));
    assert!(is_success_status(299));
    assert!(!is_success_status(300));
    assert!(!is_success_status(401));
}

#[test]
fn login_request_targets_protected_resource() {
    let r = LoginRequest::new("alice".to_string(), "pw".to_string());
    assert_eq!(r.username, "alice");
    assert_eq!(r.password, "pw");
    assert_eq!(r.target_url, "https://secure.colonq.computer/menu");
    assert_eq!(r.target_url, TARGET_URL);
}

#[test]
fn login_rejected_status_is_authentication_error() {
    let cookie = HeaderValue::from_static("session=abc");
    let r = session_from_login("alice".to_string(), "pw".to_string(), 401, Some(cookie));
    assert!(matches!(r, Err(ClientError::Authentication(401))));
}

#[test]
fn login_without_cookie_is_no_cookie_error() {
    let r = session_from_login("alice".to_string(), "pw".to_string(), 200, None);
    assert!(matches!(r, Err(ClientError::NoCookie)));
}

#[test]
fn login_with_cookies_builds_record() {
    let cookie = HeaderValue::from_static("session=abc; csrf=xyz");
    let rec = session_from_login("alice".to_string(), "pw".to_string(), 200, Some(cookie)).unwrap();
    assert_eq!(rec.username, "alice");
    assert_eq!(rec.password, "pw");
    assert_eq!(rec.cookies, "session=abc; csrf=xyz");
}

#[test]
fn login_with_unreadable_cookie_bytes_fails() {
    let cookie = HeaderValue::from_bytes(b"session=\xffab").unwrap();
    let r = session_from_login("alice".to_string(), "pw".to_string(), 200, Some(cookie));
    assert!(matches!(r, Err(ClientError::InvalidSessionFormat)));
}

#[test]
fn login_cookie_round_trips_into_header() {
    let cookie = HeaderValue::from_static("session=abc; csrf=xyz");
    let rec = session_from_login("bob".to_string(), "secret".to_string(), 204, Some(cookie.clone())).unwrap();
    let headers = session_cookie_headers(&rec.cookies).unwrap();
    assert_eq!(headers, vec![HeaderValue::from_static("session=abc"), HeaderValue::from_static("csrf=xyz")]);
    assert_eq!(headers[1].to_str().unwrap(), "csrf=xyz");
}

#[test]
fn login_with_only_separators_is_no_cookie_error() {
    let cookie = HeaderValue::from_static(" ; ;");
    let r = session_from_login("alice".to_string(), "pw".to_string(), 200, Some(cookie));
    assert!(matches!(r, Err(ClientError::NoCookie)));
}

#[test]
fn cookie_text_splits_into_pairs() {
    assert_eq!(split_cookie_pairs("a=1; b=2"), vec!["a=1".to_string(), "b=2".to_string()]);
    assert_eq!(split_cookie_pairs("a=1"), vec!["a=1".to_string()]);
    assert_eq!(split_cookie_pairs("  a=1;;b=2 ;"), vec!["a=1".to_string(), "b=2 ".to_string()]);
    assert_eq!(split_cookie_pairs(""), Vec::<String>::new());
    assert_eq!(split_cookie_pairs(" ; "), Vec::<String>::new());
    assert_eq!(split_cookie_pairs("k=\u{e9}t\u{e9}; x=y"), vec!["k=\u{e9}t\u{e9}".to_string(), "x=y".to_string()]);
}

#[test]
fn stored_cookie_header_validation() {
    assert_eq!(session_cookie_headers(&"a=b".to_string()).unwrap(), vec![HeaderValue::from_static("a=b")]);
    assert!(session_cookie_headers(&"a=b\tc".to_string()).is_ok());
    assert!(session_cookie_headers(&"a=\u{e9}".to_string()).is_ok());
    assert!(matches!(session_cookie_headers(&"".to_string()), Err(ClientError::InvalidSessionFormat)));
    assert!(matches!(session_cookie_headers(&"; ".to_string()), Err(ClientError::InvalidSessionFormat)));
    assert!(matches!(session_cookie_headers(&"a=b\nc".to_string()), Err(ClientError::InvalidSessionFormat)));
    assert!(matches!(session_cookie_headers(&"a=b; c=\u{7f}".to_string()), Err(ClientError::InvalidSessionFormat)));
}

#[test]
fn input_defaults_to_undefined() {
    assert_eq!(resolve_input(None), "undefined");
    assert_eq!(DEFAULT_INPUT, "undefined");
    assert_eq!(resolve_input(Some("code".to_string())), "code");
    assert_eq!(resolve_input(Some(String::new())), "");
}

#[test]
fn form_sends_undefined_input_when_omitted() {
    let req = RedeemRequest::new("hat".to_string(), None, None, None);
    let fields = req.form_fields();
    assert_eq!(
        fields,
        vec![("name".to_string(), "hat".to_string()), ("input".to_string(), "undefined".to_string())]
    );
}

#[test]
fn form_sends_given_input() {
    let req = RedeemRequest::new("hat".to_string(), Some("red".to_string()), None, None);
    let fields = req.form_fields();
    assert_eq!(fields[0], ("name".to_string(), "hat".to_string()));
    assert_eq!(fields[1], ("input".to_string(), "red".to_string()));
}

#[test]
fn burst_needs_both_period_and_count() {
    assert_eq!(RedeemPlan::from_options(Some(100), Some(5)), RedeemPlan::Burst { period_ms: 100, count: 5 });
    assert_eq!(RedeemPlan::from_options(None, Some(5)), RedeemPlan::Single);
    assert_eq!(RedeemPlan::from_options(Some(100), None), RedeemPlan::Single);
    assert_eq!(RedeemPlan::from_options(None, None), RedeemPlan::Single);
    let req = RedeemRequest::new("hat".to_string(), None, None, Some(5));
    assert_eq!(req.plan, RedeemPlan::Single);
    assert_eq!(req.input, "undefined");
}

#[test]
fn outcome_from_status() {
    assert!(matches!(Outcome::from_status(200), Outcome::Success));
    assert!(matches!(Outcome::from_status(204), Outcome::Success));
    assert!(matches!(Outcome::from_status(404), Outcome::Failure(404)));
    assert!(matches!(Outcome::from_status(500), Outcome::Failure(500)));
    assert!(matches!(Outcome::from_status(302), Outcome::Failure(302)));
}

#[test]
fn single_result_reports_status_and_cause() {
    assert!(single_result(Outcome::Success).is_ok());
    assert!(single_result(Outcome::from_status(201)).is_ok());
    assert!(matches!(
        single_result(Outcome::from_status(403)),
        Err(ClientError::RedeemFailed(RedeemFailure::Status(403)))
    ));
    match single_result(Outcome::Error("connection refused".to_string())) {
        Err(ClientError::RedeemFailed(RedeemFailure::Transport(c))) => assert_eq!(c, "connection refused"),
        _ => panic!("expected a transport failure"),
    }
}

#[test]
fn redeem_without_session_is_not_authenticated() {
    let req = RedeemRequest::new("hat".to_string(), None, None, None);
    assert!(matches!(prepare_redeem(StoredSession::Missing, req), Err(ClientError::NotAuthenticated)));
}

#[test]
fn redeem_with_unreadable_or_corrupt_session() {
    let req = RedeemRequest::new("hat".to_string(), None, None, None);
    match prepare_redeem(StoredSession::Unreadable("permission denied".to_string()), req.clone()) {
        Err(ClientError::Storage(c)) => assert_eq!(c, "permission denied"),
        _ => panic!("expected a storage error"),
    }
    match prepare_redeem(StoredSession::Corrupt("expected value".to_string()), req) {
        Err(ClientError::CorruptSession(c)) => assert_eq!(c, "expected value"),
        _ => panic!("expected a corrupt session"),
    }
}

#[test]
fn redeem_with_bad_stored_cookie() {
    let rec = SessionRecord { username: "a".to_string(), password: "b".to_string(), cookies: "x=\ny".to_string() };
    let req = RedeemRequest::new("hat".to_string(), None, None, None);
    assert!(matches!(prepare_redeem(StoredSession::Present(rec), req), Err(ClientError::InvalidSessionFormat)));
}

#[test]
fn redeem_with_stored_session_is_ready() {
    let rec = SessionRecord { username: "a".to_string(), password: "b".to_string(), cookies: "session=abc".to_string() };
    let req = RedeemRequest::new("hat".to_string(), Some("1".to_string()), Some(100), Some(5));
    let job = prepare_redeem(StoredSession::Present(rec), req).unwrap();
    assert_eq!(job.cookies, vec![HeaderValue::from_static("session=abc")]);
    assert_eq!(job.request.name, "hat");
    assert_eq!(job.request.input, "1");
    assert_eq!(job.request.plan, RedeemPlan::Burst { period_ms: 100, count: 5 });
}

#[test]
fn burst_of_five_every_hundred_ms() {
    let actions = run_burst(100, 5);
    assert_eq!(
        actions,
        vec![
            BurstAction::Launch(0),
            BurstAction::Wait(100),
            BurstAction::Launch(1),
            BurstAction::Wait(100),
            BurstAction::Launch(2),
            BurstAction::Wait(100),
            BurstAction::Launch(3),
            BurstAction::Wait(100),
            BurstAction::Launch(4),
            BurstAction::Join(0),
            BurstAction::Join(1),
            BurstAction::Join(2),
            BurstAction::Join(3),
            BurstAction::Join(4),
            BurstAction::Done,
        ]
    );
    assert_eq!(actions.iter().filter(|a| matches!(a, BurstAction::Launch(_))).count(), 5);
    let slept_before_last: u64 = actions
        .iter()
        .take(8)
        .map(|a| if let BurstAction::Wait(ms) = a { *ms } else { 0 })
        .sum();
    assert_eq!(slept_before_last, 400);
}

#[test]
fn burst_edge_sizes() {
    assert_eq!(run_burst(100, 0), vec![BurstAction::Done]);
    assert_eq!(run_burst(100, 1), vec![BurstAction::Launch(0), BurstAction::Join(0), BurstAction::Done]);
    assert_eq!(
        run_burst(0, 2),
        vec![
            BurstAction::Launch(0),
            BurstAction::Wait(0),
            BurstAction::Launch(1),
            BurstAction::Join(0),
            BurstAction::Join(1),
            BurstAction::Done,
        ]
    );
}

#[test]
fn burst_stays_done() {
    let mut d = BurstDispatcher::new(10, 1);
    assert_eq!(d.step(), BurstAction::Launch(0));
    assert_eq!(d.step(), BurstAction::Join(0));
    assert_eq!(d.step(), BurstAction::Done);
    assert_eq!(d.step(), BurstAction::Done);
}

#[test]
fn redeem_job_carries_every_stored_cookie() {
    let rec = SessionRecord {
        username: "a".to_string(),
        password: "b".to_string(),
        cookies: "session=abc; csrf=xyz; lang=en".to_string(),
    };
    let req = RedeemRequest::new("hat".to_string(), None, None, None);
    let job = prepare_redeem(StoredSession::Present(rec), req).unwrap();
    assert_eq!(
        job.cookies,
        vec![
            HeaderValue::from_static("session=abc"),
            HeaderValue::from_static("csrf=xyz"),
            HeaderValue::from_static("lang=en"),
        ]
    );
}
