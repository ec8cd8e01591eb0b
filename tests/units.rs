use stripe_webhooks::{allowed_origins, metadata_get, AppSettings, Credential, EventError, EventType, HttpError};

#[test]
fn event_names_map_to_kinds() {
    let cases = [
        ("checkout.session.completed", EventType::CheckoutSessionCompleted),
        ("customer.subscription.created", EventType::CustomerSubscriptionCreated),
        ("customer.subscription.updated", EventType::CustomerSubscriptionUpdated),
        ("customer.subscription.deleted", EventType::CustomerSubscriptionDeleted),
        ("customer.subscription.paused", EventType::CustomerSubscriptionPaused),
        ("customer.subscription.resumed", EventType::CustomerSubscriptionResumed),
        ("customer.subscription.trial_will_end", EventType::CustomerSubscriptionTrialWillEnd),
        ("customer.subscription.pending_update_applied", EventType::CustomerSubscriptionPendingUpdateApplied),
        ("customer.subscription.pending_update_expired", EventType::CustomerSubscriptionPendingUpdateExpired),
        ("invoice.paid", EventType::InvoicePaid),
        ("invoice.payment_failed", EventType::Other),
        ("", EventType::Other),
    ];
    for (name, kind) in cases {
        assert_eq!(EventType::from_name(name), kind);
    }
    assert!(EventType::CustomerSubscriptionPaused.is_lifecycle());
    assert!(!EventType::InvoicePaid.is_lifecycle());
}

#[test]
fn metadata_lookup_returns_first_match() {
    let md = vec![
        ("a".to_string(), "1".to_string()),
        ("user_id".to_string(), "u1".to_string()),
        ("user_id".to_string(), "u2".to_string()),
    ];
    assert_eq!(metadata_get(&md, "user_id").as_deref(), Some("u1"));
    assert_eq!(metadata_get(&md, "shop_id"), None);
    assert_eq!(metadata_get(&Vec::new(), "a"), None);
}

#[test]
fn http_errors_carry_status_and_message() {
    let e = HttpError::bad_request("boom".to_string());
    assert_eq!(e.status_code, 400);
    assert_eq!(e.body, vec![("message".to_string(), "boom".to_string())]);
    let e = HttpError::internal();
    assert_eq!(e.status_code, 500);
    assert_eq!(e.body[0].1, "unknown error");
    assert_eq!(EventError::UnexpectedObject.to_http_error().status_code, 400);
    assert_eq!(EventError::InvalidPeriod.to_http_error().status_code, 400);
    assert_eq!(EventError::Conflict.to_http_error().status_code, 409);
    assert_eq!(
        EventError::Conflict.to_http_error().body,
        vec![("message".to_string(), "subscription id already in use".to_string())]
    );
}

#[test]
fn credential_expiry_and_header() {
    let empty = Credential::empty();
    assert!(empty.is_expired(1));
    assert!(!empty.is_expired(0));
    let c = Credential::issued("tok".to_string(), 1000, 300).unwrap();
    assert_eq!(c.expires_at, 1300);
    assert!(!c.is_expired(1300));
    assert!(c.is_expired(1301));
    assert_eq!(c.authorization_value(), "Bearer tok");
    assert!(Credential::issued("tok".to_string(), i64::MAX, 1).is_none());
}

#[test]
fn settings_hold_secret() {
    let s = AppSettings::new("whsec".to_string());
    assert_eq!(s.stripe_endpoint_secret, "whsec");
}

#[test]
fn cors_origins_split_on_commas() {
    assert_eq!(allowed_origins(""), None);
    assert_eq!(allowed_origins("https://a.example"), Some(vec!["https://a.example".to_string()]));
    assert_eq!(
        allowed_origins("https://a.example,https://b.example"),
        Some(vec!["https://a.example".to_string(), "https://b.example".to_string()])
    );
    assert_eq!(
        allowed_origins("a,,b,"),
        Some(vec!["a".to_string(), String::new(), "b".to_string(), String::new()])
    );
    assert_eq!(allowed_origins("ü,é"), Some(vec!["ü".to_string(), "é".to_string()]));
}
