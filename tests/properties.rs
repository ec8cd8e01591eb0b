use stripe_webhooks::{
    CheckoutSession, Event, EventError, EventObject, EventService, EventType, Invoice,
    InvoiceLine, LifecycleUpdate, Period, ProviderSubscription, Subscription, SubscriptionStore,
};

fn lifecycle(id: &str, status: &str, start: i64, end: i64, buyer: Option<&str>) -> ProviderSubscription {
    ProviderSubscription {
        id: id.to_string(),
        metadata: match buyer {
            Some(b) => vec![("user_id".to_string(), b.to_string())],
            None => Vec::new(),
        },
        status: status.to_string(),
        current_period_start: start,
        current_period_end: end,
        canceled_at: None,
        cancel_at: None,
    }
}

fn session(id: &str, user: &str) -> CheckoutSession {
    CheckoutSession {
        subscription: Some(id.to_string()),
        metadata: Some(vec![
            ("user_id".to_string(), user.to_string()),
            ("offer_id".to_string(), "11111111-1111-1111-1111-111111111111".to_string()),
            ("shop_id".to_string(), "22222222-2222-2222-2222-222222222222".to_string()),
        ]),
    }
}

fn fields(r: &Subscription) -> (Option<i64>, Option<i64>, Option<String>, Option<i64>) {
    (r.current_period_start, r.current_period_end, r.subscription_status.clone(), r.event_timestamp)
}

#[test]
fn latest_lifecycle_event_wins_in_any_order() {
    let evs = [
        ("trialing", 10, 20, 300),
        ("active", 30, 40, 500),
        ("paused", 50, 60, 400),
    ];
    let orders = [[0, 1, 2], [2, 1, 0], [1, 0, 2], [2, 0, 1]];
    for order in orders {
        let mut service = EventService::new(SubscriptionStore::new());
        for i in order {
            let (status, start, end, ts) = evs[i];
            service.handle_subscription(lifecycle("sub_1", status, start, end, None), ts, 7, 1).unwrap();
        }
        let rec = service.store().get(&"sub_1".to_string()).unwrap();
        assert_eq!(fields(rec), (Some(30), Some(40), Some("active".to_string()), Some(500)));
    }
}

#[test]
fn replayed_lifecycle_event_is_noop() {
    let mut service = EventService::new(SubscriptionStore::new());
    service.handle_checkout_session(session("sub_1", "u1"), 1, 5).unwrap();
    let ev = lifecycle("sub_1", "active", 2000, 5000, Some("u2"));
    let first = service.handle_subscription(ev.clone(), 1500, 2, 6).unwrap();
    assert_eq!(first.len(), 1);
    let before = service.store().get(&"sub_1".to_string()).unwrap().clone();
    assert_eq!(before.buyer_user_id.as_deref(), Some("u2"));
    let second = service.handle_subscription(ev, 1500, 3, 7).unwrap();
    assert!(second.is_empty());
    let after = service.store().get(&"sub_1".to_string()).unwrap();
    assert_eq!(fields(after), fields(&before));
    assert_eq!(after.buyer_user_id, before.buyer_user_id);
    assert_eq!(after.updated_at, 6);
}

#[test]
fn checkout_after_lifecycle_keeps_period_and_status() {
    let mut service = EventService::new(SubscriptionStore::new());
    service.handle_subscription(lifecycle("sub_1", "active", 2000, 5000, None), 1500, 9, 1).unwrap();
    service.handle_checkout_session(session("sub_1", "u1"), 10, 2).unwrap();
    let rec = service.store().get(&"sub_1".to_string()).unwrap();
    assert_eq!(fields(rec), (Some(2000), Some(5000), Some("active".to_string()), Some(1500)));
    assert_eq!(rec.buyer_user_id.as_deref(), Some("u1"));
    assert_eq!(rec.subscription_id, 9);
    assert_eq!(rec.created_at, 1);
    assert_eq!(rec.updated_at, 2);
}

#[test]
fn invoice_line_without_period_is_skipped() {
    let mut service = EventService::new(SubscriptionStore::new());
    let invoice = Invoice {
        lines: Some(vec![
            InvoiceLine { subscription: Some("sub_1".to_string()), period: None },
            InvoiceLine {
                subscription: Some("sub_2".to_string()),
                period: Some(Period { start: None, end: Some(5000) }),
            },
            InvoiceLine {
                subscription: Some("sub_3".to_string()),
                period: Some(Period { start: Some(i64::MAX), end: Some(5000) }),
            },
            InvoiceLine { subscription: None, period: Some(Period { start: Some(1), end: Some(2) }) },
        ]),
    };
    let written = service.handle_invoice(invoice, &vec![1, 2, 3, 4], 5).unwrap();
    assert!(written.is_empty());
    assert_eq!(service.store().len(), 0);
}

#[test]
fn invoice_covers_several_subscriptions() {
    let mut service = EventService::new(SubscriptionStore::new());
    let invoice = Invoice {
        lines: Some(vec![
            InvoiceLine {
                subscription: Some("sub_1".to_string()),
                period: Some(Period { start: Some(100), end: Some(200) }),
            },
            InvoiceLine { subscription: Some("sub_2".to_string()), period: None },
            InvoiceLine {
                subscription: Some("sub_3".to_string()),
                period: Some(Period { start: Some(300), end: Some(400) }),
            },
        ]),
    };
    let written = service.handle_invoice(invoice, &vec![1, 2, 3], 5).unwrap();
    assert_eq!(written.len(), 2);
    assert_eq!(written[0].stripe_subscription_id, "sub_1");
    assert_eq!(written[0].subscription_id, 1);
    assert_eq!(written[1].stripe_subscription_id, "sub_3");
    assert_eq!(written[1].subscription_id, 3);
    assert_eq!(written[1].payed_at, Some(300));
    assert_eq!(written[1].payed_until, Some(400));
    assert_eq!(service.store().len(), 2);
}

#[test]
fn downstream_call_only_for_complete_records() {
    let mut service = EventService::new(SubscriptionStore::new());
    let checkout = Event {
        kind: EventType::CheckoutSessionCompleted,
        created: 1,
        object: EventObject::CheckoutSession(session("sub_1", "u1")),
    };
    assert!(service.apply_event(checkout, &vec![42], 1).unwrap().is_empty());
    let invoice = Event {
        kind: EventType::InvoicePaid,
        created: 2,
        object: EventObject::Invoice(Invoice {
            lines: Some(vec![InvoiceLine {
                subscription: Some("sub_1".to_string()),
                period: Some(Period { start: Some(10), end: Some(20) }),
            }]),
        }),
    };
    assert!(service.apply_event(invoice, &vec![43], 2).unwrap().is_empty());
    let update = Event {
        kind: EventType::CustomerSubscriptionCreated,
        created: 3,
        object: EventObject::Subscription(lifecycle("sub_1", "active", 10, 20, None)),
    };
    let snaps = service.apply_event(update, &vec![44], 3).unwrap();
    assert_eq!(snaps.len(), 1);
    assert!(service.store().get(&"sub_1".to_string()).unwrap().is_complete());
    assert_eq!(snaps[0].media_subscription_id, "00000000-0000-0000-0000-00000000002a");
    assert_eq!(snaps[0].subscription_status, "active");
}

#[test]
fn mismatched_payload_is_integrity_error() {
    let mut service = EventService::new(SubscriptionStore::new());
    let kinds = [EventType::CheckoutSessionCompleted, EventType::InvoicePaid, EventType::CustomerSubscriptionDeleted];
    for kind in kinds {
        let event = Event { kind, created: 1, object: EventObject::Other };
        assert_eq!(service.apply_event(event, &vec![1], 1).unwrap_err(), EventError::UnexpectedObject);
    }
    let event = Event {
        kind: EventType::InvoicePaid,
        created: 1,
        object: EventObject::Subscription(lifecycle("sub_1", "active", 1, 2, None)),
    };
    assert_eq!(service.handle_event(event, 1).unwrap_err(), EventError::UnexpectedObject);
    assert_eq!(service.store().len(), 0);
}

#[test]
fn unrepresentable_period_is_rejected_when_applied() {
    let mut service = EventService::new(SubscriptionStore::new());
    let err = service.handle_subscription(lifecycle("sub_1", "active", i64::MAX, 5, None), 10, 1, 1).unwrap_err();
    assert_eq!(err, EventError::InvalidPeriod);
    assert_eq!(service.store().len(), 0);
    service.handle_subscription(lifecycle("sub_1", "active", 1, 5, None), 10, 1, 1).unwrap();
    let stale = service.handle_subscription(lifecycle("sub_1", "active", i64::MIN, 5, None), 9, 2, 2).unwrap();
    assert!(stale.is_empty());
}

#[test]
fn unrepresentable_cancel_time_is_dropped() {
    let mut service = EventService::new(SubscriptionStore::new());
    let mut ev = lifecycle("sub_1", "canceled", 1, 5, None);
    ev.canceled_at = Some(i64::MAX);
    ev.cancel_at = Some(4);
    service.handle_subscription(ev, 10, 1, 1).unwrap();
    let rec = service.store().get(&"sub_1".to_string()).unwrap();
    assert_eq!(rec.canceled_at, None);
    assert_eq!(rec.cancel_at, Some(4));
}

#[test]
fn taken_internal_id_is_conflict() {
    let mut service = EventService::new(SubscriptionStore::new());
    service.handle_checkout_session(session("sub_1", "u1"), 7, 1).unwrap();
    let err = service.handle_checkout_session(session("sub_2", "u1"), 7, 2).unwrap_err();
    assert_eq!(err, EventError::Conflict);
    assert_eq!(service.store().len(), 1);
    let same = service.handle_checkout_session(session("sub_1", "u3"), 7, 3).unwrap();
    assert_eq!(same[0].buyer_user_id.as_deref(), Some("u3"));
}

#[test]
fn stale_event_still_corrects_buyer() {
    let mut service = EventService::new(SubscriptionStore::new());
    service.handle_checkout_session(session("sub_1", "u1"), 1, 1).unwrap();
    service.handle_subscription(lifecycle("sub_1", "active", 10, 20, None), 100, 2, 2).unwrap();
    let written = service.handle_subscription(lifecycle("sub_1", "paused", 30, 40, Some("u9")), 50, 3, 3).unwrap();
    assert_eq!(written.len(), 1);
    let rec = service.store().get(&"sub_1".to_string()).unwrap();
    assert_eq!(rec.buyer_user_id.as_deref(), Some("u9"));
    assert_eq!(rec.subscription_status.as_deref(), Some("active"));
    assert_eq!(rec.event_timestamp, Some(100));
}

#[test]
fn checkout_without_parsable_ids_is_noop() {
    let mut service = EventService::new(SubscriptionStore::new());
    let mut bad = session("sub_1", "u1");
    bad.metadata = Some(vec![
        ("user_id".to_string(), "u1".to_string()),
        ("offer_id".to_string(), "not-a-uuid".to_string()),
        ("shop_id".to_string(), "22222222-2222-2222-2222-222222222222".to_string()),
    ]);
    assert!(service.handle_checkout_session(bad, 1, 1).unwrap().is_empty());
    let missing = CheckoutSession { subscription: Some("sub_1".to_string()), metadata: None };
    assert!(service.handle_checkout_session(missing, 1, 1).unwrap().is_empty());
    let unlinked = CheckoutSession { subscription: None, ..session("sub_1", "u1") };
    assert!(service.handle_checkout_session(unlinked, 1, 1).unwrap().is_empty());
    assert_eq!(service.store().len(), 0);
}

#[test]
fn store_upserts_return_resulting_row() {
    let mut store = SubscriptionStore::new();
    let id = "sub_1".to_string();
    let update = LifecycleUpdate {
        current_period_start: 1,
        current_period_end: 2,
        subscription_status: "active".to_string(),
        canceled_at: None,
        cancel_at: Some(3),
    };
    let r = store.upsert_lifecycle(&id, update, 100, 5, 10).unwrap();
    assert_eq!(r.event_timestamp, Some(100));
    assert_eq!(r.subscription_id, 5);
    let r = store.upsert_invoice(&id, 7, 8, 6, 11).unwrap();
    assert_eq!(r.subscription_id, 5);
    assert_eq!((r.payed_at, r.payed_until), (Some(7), Some(8)));
    assert_eq!(r.cancel_at, Some(3));
    let r = store.patch_buyer(&id, "b".to_string(), 12).unwrap();
    assert_eq!(r.buyer_user_id.as_deref(), Some("b"));
    assert!(store.patch_buyer(&"other".to_string(), "b".to_string(), 12).is_none());
    assert!(store.sid_in_use(5));
    assert!(!store.sid_in_use(6));
    assert_eq!(store.rows().len(), 1);
}

#[test]
fn subscription_put_functions_write_through_store() {
    let mut store = SubscriptionStore::new();
    let id = "sub_9".to_string();
    let r = Subscription::put_checkout_session(&mut store, &id, "u1".to_string(), 1, 2, 77, 5).unwrap();
    assert_eq!((r.offer_id, r.shop_id, r.subscription_id), (Some(1), Some(2), 77));
    let update = LifecycleUpdate {
        current_period_start: 10,
        current_period_end: 20,
        subscription_status: "active".to_string(),
        canceled_at: Some(15),
        cancel_at: None,
    };
    let r = Subscription::put_subscription(&mut store, &id, update, 300, 78, 6).unwrap();
    assert_eq!((r.subscription_id, r.event_timestamp, r.canceled_at), (77, Some(300), Some(15)));
    let r = Subscription::put_invoice(&mut store, &id, 10, 20, 79, 7).unwrap();
    assert_eq!((r.payed_at, r.payed_until, r.updated_at, r.created_at), (Some(10), Some(20), 7, 5));
    let got = Subscription::get(&store, &id).unwrap();
    assert_eq!(got.buyer_user_id.as_deref(), Some("u1"));
    assert!(Subscription::get(&store, &"missing".to_string()).is_none());
    let other = "sub_10".to_string();
    assert!(Subscription::put_invoice(&mut store, &other, 1, 2, 77, 8).is_err());
    assert!(Subscription::get(&store, &other).is_none());
}

#[test]
fn failed_invoice_line_rolls_back_whole_invoice() {
    let mut service = EventService::new(SubscriptionStore::new());
    service.handle_checkout_session(session("sub_1", "u1"), 7, 1).unwrap();
    let invoice = Invoice {
        lines: Some(vec![
            InvoiceLine {
                subscription: Some("sub_1".to_string()),
                period: Some(Period { start: Some(10), end: Some(20) }),
            },
            InvoiceLine {
                subscription: Some("sub_2".to_string()),
                period: Some(Period { start: Some(10), end: Some(20) }),
            },
            InvoiceLine {
                subscription: Some("sub_3".to_string()),
                period: Some(Period { start: Some(10), end: Some(20) }),
            },
        ]),
    };
    let err = service.handle_invoice(invoice, &vec![1, 8, 7], 2).unwrap_err();
    assert_eq!(err, EventError::Conflict);
    assert_eq!(service.store().len(), 1);
    let rec = service.store().get(&"sub_1".to_string()).unwrap();
    assert_eq!(rec.payed_at, None);
    assert_eq!(rec.updated_at, 1);
}
