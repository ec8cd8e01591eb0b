use vstd::prelude::*;

verus! {

/// The canonical subscription record, one per provider subscription id.
///
/// Timestamps are seconds since the Unix epoch; the identifiers `subscription_id`,
/// `offer_id` and `shop_id` are UUIDs held as their 128-bit value.
#[derive(Debug, Clone)]
pub struct Subscription {
    pub subscription_id: u128,
    pub stripe_subscription_id: String,
    pub buyer_user_id: Option<String>,
    pub offer_id: Option<u128>,
    pub shop_id: Option<u128>,
    pub current_period_start: Option<i64>,
    pub current_period_end: Option<i64>,
    pub subscription_status: Option<String>,
    pub payed_at: Option<i64>,
    pub payed_until: Option<i64>,
    pub created_at: i64,
    pub updated_at: i64,
    pub canceled_at: Option<i64>,
    pub cancel_at: Option<i64>,
    /// Creation time of the last lifecycle event that was allowed to write the
    /// period, status and cancellation fields; `None` until one has. Checkout
    /// sessions and invoices never move it, so a record first created by either
    /// still takes the first lifecycle event that arrives.
    pub event_timestamp: Option<i64>,
}

/// The fields that a subscription-lifecycle event writes.
#[derive(Debug, Clone)]
pub struct LifecycleUpdate {
    pub current_period_start: i64,
    pub current_period_end: i64,
    pub subscription_status: String,
    pub canceled_at: Option<i64>,
    pub cancel_at: Option<i64>,
}

/// The watermark-guarded fields of a record.
pub type GuardedFields = (Option<i64>, Option<i64>, Option<String>, Option<i64>, Option<i64>);

pub open spec fn guarded_fields(r: Subscription) -> GuardedFields {
    (r.current_period_start, r.current_period_end, r.subscription_status, r.canceled_at, r.cancel_at)
}

/// The guarded fields as a lifecycle update writes them.
pub open spec fn update_fields(u: LifecycleUpdate) -> GuardedFields {
    (Some(u.current_period_start), Some(u.current_period_end), Some(u.subscription_status), u.canceled_at, u.cancel_at)
}

/// Whether a record holds every field that the downstream view needs.
pub open spec fn is_complete(r: Subscription) -> bool {
    &&& r.buyer_user_id is Some
    &&& r.offer_id is Some
    &&& r.shop_id is Some
    &&& r.current_period_start is Some
    &&& r.current_period_end is Some
    &&& r.subscription_status is Some
    &&& r.payed_at is Some
    &&& r.payed_until is Some
}

/// A record as first stored: only its identifiers and bookkeeping are set.
pub open spec fn fresh_record(id: String, sid: u128, now: i64) -> Subscription {
    Subscription {
        subscription_id: sid,
        stripe_subscription_id: id,
        buyer_user_id: None,
        offer_id: None,
        shop_id: None,
        current_period_start: None,
        current_period_end: None,
        subscription_status: None,
        payed_at: None,
        payed_until: None,
        created_at: now,
        updated_at: now,
        canceled_at: None,
        cancel_at: None,
        event_timestamp: None,
    }
}

pub open spec fn with_checkout(r: Subscription, buyer: String, offer: u128, shop: u128, now: i64) -> Subscription {
    Subscription {
        buyer_user_id: Some(buyer),
        offer_id: Some(offer),
        shop_id: Some(shop),
        updated_at: now,
        ..r
    }
}

pub open spec fn with_lifecycle(r: Subscription, u: LifecycleUpdate, ts: i64, now: i64) -> Subscription {
    Subscription {
        current_period_start: Some(u.current_period_start),
        current_period_end: Some(u.current_period_end),
        subscription_status: Some(u.subscription_status),
        canceled_at: u.canceled_at,
        cancel_at: u.cancel_at,
        event_timestamp: Some(ts),
        updated_at: now,
        ..r
    }
}

pub open spec fn with_invoice(r: Subscription, payed_at: i64, payed_until: i64, now: i64) -> Subscription {
    Subscription { payed_at: Some(payed_at), payed_until: Some(payed_until), updated_at: now, ..r }
}

pub open spec fn with_buyer(r: Subscription, buyer: String, now: i64) -> Subscription {
    Subscription { buyer_user_id: Some(buyer), updated_at: now, ..r }
}

pub fn clone_text(s: &Option<String>) -> (r: Option<String>)
    ensures
        r == *s,
{
    match s {
        Some(t) => Some(t.clone()),
        None => None,
    }
}

impl LifecycleUpdate {
    pub fn duplicate(&self) -> (r: Self)
        ensures
            r == *self,
    {
        LifecycleUpdate {
            current_period_start: self.current_period_start,
            current_period_end: self.current_period_end,
            subscription_status: self.subscription_status.clone(),
            canceled_at: self.canceled_at,
            cancel_at: self.cancel_at,
        }
    }
}

impl Subscription {
    /// A copy equal to this record.
    pub fn duplicate(&self) -> (r: Self)
        ensures
            r == *self,
    {
        Subscription {
            subscription_id: self.subscription_id,
            stripe_subscription_id: self.stripe_subscription_id.clone(),
            buyer_user_id: clone_text(&self.buyer_user_id),
            offer_id: self.offer_id,
            shop_id: self.shop_id,
            current_period_start: self.current_period_start,
            current_period_end: self.current_period_end,
            subscription_status: clone_text(&self.subscription_status),
            payed_at: self.payed_at,
            payed_until: self.payed_until,
            created_at: self.created_at,
            updated_at: self.updated_at,
            canceled_at: self.canceled_at,
            cancel_at: self.cancel_at,
            event_timestamp: self.event_timestamp,
        }
    }

    pub fn fresh(id: &String, sid: u128, now: i64) -> (r: Self)
        ensures
            r == fresh_record(*id, sid, now),
    {
        Subscription {
            subscription_id: sid,
            stripe_subscription_id: id.clone(),
            buyer_user_id: None,
            offer_id: None,
            shop_id: None,
            current_period_start: None,
            current_period_end: None,
            subscription_status: None,
            payed_at: None,
            payed_until: None,
            created_at: now,
            updated_at: now,
            canceled_at: None,
            cancel_at: None,
            event_timestamp: None,
        }
    }

    /// Whether every field of the downstream view is present.
    pub fn is_complete(&self) -> (r: bool)
        ensures
            r == is_complete(*self),
    {
        self.buyer_user_id.is_some() && self.offer_id.is_some() && self.shop_id.is_some()
            && self.current_period_start.is_some() && self.current_period_end.is_some()
            && self.subscription_status.is_some() && self.payed_at.is_some()
            && self.payed_until.is_some()
    }
}

} // verus!
