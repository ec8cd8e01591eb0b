use vstd::prelude::*;

use crate::metadata::Metadata;

verus! {

/// The kinds of provider event that the engine tells apart; every other kind is
/// `Other`.
#[derive(Debug, Clone, Copy, PartialEq, Eq)]
pub enum EventType {
    CheckoutSessionCompleted,
    CustomerSubscriptionCreated,
    CustomerSubscriptionUpdated,
    CustomerSubscriptionDeleted,
    CustomerSubscriptionPaused,
    CustomerSubscriptionResumed,
    CustomerSubscriptionTrialWillEnd,
    CustomerSubscriptionPendingUpdateApplied,
    CustomerSubscriptionPendingUpdateExpired,
    InvoicePaid,
    Other,
}

/// The kind that the provider's name `s` stands for.
pub open spec fn event_type_named(s: Seq<char>) -> EventType {
    if s == "checkout.session.completed"@ {
        EventType::CheckoutSessionCompleted
    } else if s == "customer.subscription.created"@ {
        EventType::CustomerSubscriptionCreated
    } else if s == "customer.subscription.updated"@ {
        EventType::CustomerSubscriptionUpdated
    } else if s == "customer.subscription.deleted"@ {
        EventType::CustomerSubscriptionDeleted
    } else if s == "customer.subscription.paused"@ {
        EventType::CustomerSubscriptionPaused
    } else if s == "customer.subscription.resumed"@ {
        EventType::CustomerSubscriptionResumed
    } else if s == "customer.subscription.trial_will_end"@ {
        EventType::CustomerSubscriptionTrialWillEnd
    } else if s == "customer.subscription.pending_update_applied"@ {
        EventType::CustomerSubscriptionPendingUpdateApplied
    } else if s == "customer.subscription.pending_update_expired"@ {
        EventType::CustomerSubscriptionPendingUpdateExpired
    } else if s == "invoice.paid"@ {
        EventType::InvoicePaid
    } else {
        EventType::Other
    }
}

/// Whether events of kind `t` carry a subscription's lifecycle.
pub open spec fn is_lifecycle_kind(t: EventType) -> bool {
    match t {
        EventType::CustomerSubscriptionCreated
        | EventType::CustomerSubscriptionUpdated
        | EventType::CustomerSubscriptionDeleted
        | EventType::CustomerSubscriptionPaused
        | EventType::CustomerSubscriptionResumed
        | EventType::CustomerSubscriptionTrialWillEnd
        | EventType::CustomerSubscriptionPendingUpdateApplied
        | EventType::CustomerSubscriptionPendingUpdateExpired => true,
        _ => false,
    }
}

fn names(s: &String, lit: &str) -> (r: bool)
    ensures
        r == (s@ == lit@),
{
    s.eq(&lit.to_owned())
}

impl EventType {
    /// The kind named `name` in the provider's notation.
    pub fn from_name(name: &str) -> (r: EventType)
        ensures
            r == event_type_named(name@),
    {
        let s = name.to_owned();
        if names(&s, "checkout.session.completed") {
            EventType::CheckoutSessionCompleted
        } else if names(&s, "customer.subscription.created") {
            EventType::CustomerSubscriptionCreated
        } else if names(&s, "customer.subscription.updated") {
            EventType::CustomerSubscriptionUpdated
        } else if names(&s, "customer.subscription.deleted") {
            EventType::CustomerSubscriptionDeleted
        } else if names(&s, "customer.subscription.paused") {
            EventType::CustomerSubscriptionPaused
        } else if names(&s, "customer.subscription.resumed") {
            EventType::CustomerSubscriptionResumed
        } else if names(&s, "customer.subscription.trial_will_end") {
            EventType::CustomerSubscriptionTrialWillEnd
        } else if names(&s, "customer.subscription.pending_update_applied") {
            EventType::CustomerSubscriptionPendingUpdateApplied
        } else if names(&s, "customer.subscription.pending_update_expired") {
            EventType::CustomerSubscriptionPendingUpdateExpired
        } else if names(&s, "invoice.paid") {
            EventType::InvoicePaid
        } else {
            EventType::Other
        }
    }

    pub fn is_lifecycle(&self) -> (r: bool)
        ensures
            r == is_lifecycle_kind(*self),
    {
        match self {
            EventType::CustomerSubscriptionCreated
            | EventType::CustomerSubscriptionUpdated
            | EventType::CustomerSubscriptionDeleted
            | EventType::CustomerSubscriptionPaused
            | EventType::CustomerSubscriptionResumed
            | EventType::CustomerSubscriptionTrialWillEnd
            | EventType::CustomerSubscriptionPendingUpdateApplied
            | EventType::CustomerSubscriptionPendingUpdateExpired => true,
            _ => false,
        }
    }
}

/// A completed checkout session: the subscription it started and the metadata
/// that names buyer, offer and shop.
#[derive(Debug, Clone)]
pub struct CheckoutSession {
    pub subscription: Option<String>,
    pub metadata: Option<Metadata>,
}

/// The provider's view of a subscription, as a lifecycle event carries it.
#[derive(Debug, Clone)]
pub struct ProviderSubscription {
    pub id: String,
    pub metadata: Metadata,
    pub status: String,
    pub current_period_start: i64,
    pub current_period_end: i64,
    pub canceled_at: Option<i64>,
    pub cancel_at: Option<i64>,
}

/// A billing period; either end may be missing.
#[derive(Debug, Clone, Copy)]
pub struct Period {
    pub start: Option<i64>,
    pub end: Option<i64>,
}

/// One line of an invoice, which may belong to a subscription.
#[derive(Debug, Clone)]
pub struct InvoiceLine {
    pub subscription: Option<String>,
    pub period: Option<Period>,
}

/// A paid invoice.
#[derive(Debug, Clone)]
pub struct Invoice {
    pub lines: Option<Vec<InvoiceLine>>,
}

/// The payload of an event.
#[derive(Debug, Clone)]
pub enum EventObject {
    CheckoutSession(CheckoutSession),
    Subscription(ProviderSubscription),
    Invoice(Invoice),
    Other,
}

/// A decoded, authenticated provider event.
#[derive(Debug, Clone)]
pub struct Event {
    pub kind: EventType,
    /// When the provider created the event, in seconds since the Unix epoch.
    pub created: i64,
    pub object: EventObject,
}

} // verus!
