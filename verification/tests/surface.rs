use oauth_capture::deep_link::{deep_link_notification, oauth_event_name};
use oauth_capture::routes::{store_token_ack, success_page};
use oauth_capture::{open_oauth_url, OAuthError};

#[test]
fn success_page_carries_fragment_relay() {
    let page = success_page();
    assert!(page.contains("Authentication successful!"));
    assert!(page.contains("window.location.hash"));
    assert!(page.contains("/store_token"));
    assert!(page.contains("fragment"));
}

#[test]
fn store_token_acknowledgement_is_fixed() {
    assert_eq!(store_token_ack(), "{\"status\":\"ok\"}");
}

#[test]
fn deep_link_payload_forwarded_verbatim() {
    assert_eq!(
        deep_link_notification(Some("myapp://cb#access_token=T1".to_string())).as_deref(),
        Some("myapp://cb#access_token=T1")
    );
    assert_eq!(deep_link_notification(None), None);
    assert_eq!(oauth_event_name(), "oauth-callback");
}

#[test]
fn error_messages_surface_verbatim() {
    let launch = OAuthError::ExternalLaunchFailure("no handler registered".to_string());
    assert_eq!(launch.message(), "no handler registered");
    let bind = OAuthError::BindFailure("address already in use".to_string());
    assert_eq!(bind.message(), "address already in use");
}

#[test]
fn open_oauth_url_failure_is_launch_failure() {
    // Whether the platform can open a URL depends on the environment; the
    // contract only promises that any failure is an ExternalLaunchFailure.
    match open_oauth_url("https://provider/authorize?client_id=x".to_string()) {
        Ok(()) => {}
        Err(e) => assert!(matches!(e, OAuthError::ExternalLaunchFailure(_))),
    }
}
