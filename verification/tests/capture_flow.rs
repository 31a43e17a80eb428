use oauth_capture::routes::{handle_callback_query, handle_store_token};
use oauth_capture::{
    get_oauth_result, start_oauth_server, stop_oauth_server, CaptureSlot, OAuthError, OAUTH_PORT,
};

fn pairs(ps: &[(&str, &str)]) -> Vec<(String, String)> {
    ps.iter().map(|(k, v)| (k.to_string(), v.to_string())).collect()
}

#[test]
fn query_scenario_full_flow() {
    let rt = tokio::runtime::Runtime::new().unwrap();
    let mut slot = CaptureSlot::new();

    let handle = rt.spawn(async {});
    let started = start_oauth_server(&mut slot, Ok(handle));
    assert_eq!(started.ok(), Some(OAUTH_PORT));
    assert_eq!(OAUTH_PORT, 8765);

    let params = pairs(&[("code", "abc"), ("state", "xyz")]);
    handle_callback_query(&mut slot, &params);

    let result = get_oauth_result(&mut slot);
    assert_eq!(
        result.as_deref(),
        Some("http://localhost:8765/callback?code=abc&state=xyz")
    );

    stop_oauth_server(&mut slot);
    assert!(!slot.listener_active());
    assert_eq!(get_oauth_result(&mut slot), None);
}

#[test]
fn fragment_scenario_store_token() {
    let mut slot = CaptureSlot::new();
    let stored = handle_store_token(
        &mut slot,
        "{\"fragment\":\"access_token=T1&token_type=bearer\"}",
    );
    assert!(stored);
    let result = get_oauth_result(&mut slot);
    assert_eq!(
        result.as_deref(),
        Some("http://localhost:8765/callback#access_token=T1&token_type=bearer")
    );
}

#[test]
fn take_result_idempotent_once() {
    let mut slot = CaptureSlot::new();
    handle_callback_query(&mut slot, &pairs(&[("code", "abc")]));
    assert!(get_oauth_result(&mut slot).is_some());
    assert_eq!(get_oauth_result(&mut slot), None);
    assert_eq!(get_oauth_result(&mut slot), None);
}

#[test]
fn empty_fragment_stores_nothing() {
    let mut slot = CaptureSlot::new();
    assert!(!handle_store_token(&mut slot, "{\"fragment\":\"\"}"));
    assert_eq!(get_oauth_result(&mut slot), None);
}

#[test]
fn absent_fragment_field_stores_nothing() {
    let mut slot = CaptureSlot::new();
    assert!(!handle_store_token(&mut slot, "{\"token\":\"abc\"}"));
    assert_eq!(get_oauth_result(&mut slot), None);
}

#[test]
fn non_string_fragment_stores_nothing() {
    let mut slot = CaptureSlot::new();
    assert!(!handle_store_token(&mut slot, "{\"fragment\":17}"));
    assert_eq!(get_oauth_result(&mut slot), None);
}

#[test]
fn malformed_body_stores_nothing() {
    let mut slot = CaptureSlot::new();
    assert!(!handle_store_token(&mut slot, "this is not json"));
    assert_eq!(get_oauth_result(&mut slot), None);
}

#[test]
fn fragment_capture_does_not_stop_listener() {
    let rt = tokio::runtime::Runtime::new().unwrap();
    let mut slot = CaptureSlot::new();
    start_oauth_server(&mut slot, Ok(rt.spawn(async {}))).unwrap();
    handle_store_token(&mut slot, "{\"fragment\":\"a=1\"}");
    assert!(get_oauth_result(&mut slot).is_some());
    assert!(slot.listener_active());
    stop_oauth_server(&mut slot);
}

#[test]
fn parameterless_callback_stores_nothing() {
    let mut slot = CaptureSlot::new();
    handle_callback_query(&mut slot, &Vec::new());
    assert_eq!(get_oauth_result(&mut slot), None);
}

#[test]
fn later_capture_overwrites_earlier() {
    let mut slot = CaptureSlot::new();
    handle_callback_query(&mut slot, &pairs(&[("code", "first")]));
    handle_callback_query(&mut slot, &pairs(&[("code", "second")]));
    assert_eq!(
        get_oauth_result(&mut slot).as_deref(),
        Some("http://localhost:8765/callback?code=second")
    );
    assert_eq!(get_oauth_result(&mut slot), None);
}

#[test]
fn second_start_refused_with_bind_failure() {
    let rt = tokio::runtime::Runtime::new().unwrap();
    let mut slot = CaptureSlot::new();
    assert!(start_oauth_server(&mut slot, Ok(rt.spawn(async {}))).is_ok());
    let second = start_oauth_server(&mut slot, Ok(rt.spawn(async {})));
    assert!(matches!(second, Err(OAuthError::BindFailure(_))));
    stop_oauth_server(&mut slot);
}

#[test]
fn failed_bind_surfaces_os_text() {
    let mut slot = CaptureSlot::new();
    let r = start_oauth_server(&mut slot, Err("address already in use".to_string()));
    match r {
        Err(OAuthError::BindFailure(m)) => assert_eq!(m, "address already in use"),
        _ => panic!("expected a bind failure"),
    }
    assert!(!slot.listener_active());
}

#[test]
fn stop_discards_pending_value() {
    let rt = tokio::runtime::Runtime::new().unwrap();
    let mut slot = CaptureSlot::new();
    start_oauth_server(&mut slot, Ok(rt.spawn(async {}))).unwrap();
    handle_callback_query(&mut slot, &pairs(&[("code", "abc")]));
    stop_oauth_server(&mut slot);
    assert_eq!(get_oauth_result(&mut slot), None);
    assert!(!slot.listener_active());
}

#[test]
fn stop_without_start_is_harmless() {
    let mut slot = CaptureSlot::new();
    stop_oauth_server(&mut slot);
    assert!(!slot.listener_active());
    assert_eq!(get_oauth_result(&mut slot), None);
}
