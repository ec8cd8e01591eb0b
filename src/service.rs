use vstd::prelude::*;

use crate::error::EventError;
use crate::event::{CheckoutSession, Event, EventObject, EventType, Invoice, InvoiceLine, ProviderSubscription};
use crate::ids::{parse_uuid, random_uuid};
use crate::metadata::metadata_get;
use crate::notifier::{notifications, snapshots_of, SubscriptionSnapshot};
use crate::policy::{
    checkout_outcome, checkout_target, event_outcome, ids_needed, invoice_line_outcome,
    invoice_lines_outcome, invoice_outcome, line_target, reports, subscription_outcome, Outcome,
};
use crate::store::{Rows, SubscriptionStore};
use crate::subscription::{LifecycleUpdate, Subscription};
use crate::time::resolve_timestamp;

verus! {

/// Whether `r` delivers outcome `o` for a store left as `after`: on success, the
/// snapshots of the complete records among those written.
pub open spec fn delivers(o: Outcome, after: Rows, r: Result<Vec<SubscriptionSnapshot>, EventError>) -> bool {
    &&& o.0 == after
    &&& match r {
        Ok(snaps) => o.2 is None && snapshots_of(snaps@, o.1),
        Err(e) => o.2 == Some(e),
    }
}

fn checkout_target_of(cs: &CheckoutSession) -> (r: Option<(String, String, u128, u128)>)
    ensures
        r == checkout_target(*cs),
{
    match (&cs.subscription, &cs.metadata) {
        (Some(id), Some(md)) => {
            match (metadata_get(md, "user_id"), metadata_get(md, "offer_id"), metadata_get(md, "shop_id")) {
                (Some(buyer), Some(offer), Some(shop)) => {
                    match (parse_uuid(offer.as_str()), parse_uuid(shop.as_str())) {
                        (Some(o), Some(s)) => Some((id.clone(), buyer, o, s)),
                        _ => None,
                    }
                },
                _ => None,
            }
        },
        _ => None,
    }
}

fn resolve_optional(t: Option<i64>) -> (r: Option<i64>)
    ensures
        r == crate::policy::resolved_time(t),
{
    match t {
        Some(x) => resolve_timestamp(x),
        None => None,
    }
}

fn line_target_of(l: &InvoiceLine) -> (r: Option<(String, i64, i64)>)
    ensures
        r == line_target(*l),
{
    match (&l.subscription, l.period) {
        (Some(id), Some(p)) => match (resolve_optional(p.start), resolve_optional(p.end)) {
            (Some(a), Some(b)) => Some((id.clone(), a, b)),
            _ => None,
        },
        _ => None,
    }
}

fn one(r: Subscription) -> (v: Vec<Subscription>)
    ensures
        v@ == seq![r],
{
    let mut v: Vec<Subscription> = Vec::new();
    v.push(r);
    v
}

/// Once a prefix of the lines has failed, the remaining lines change nothing.
proof fn lemma_invoice_stops(m: Rows, lines: Seq<InvoiceLine>, sids: Seq<u128>, now: i64, k: int)
    requires
        0 <= k <= lines.len(),
        invoice_lines_outcome(m, lines.subrange(0, k), sids, now).2 is Some,
    ensures
        invoice_lines_outcome(m, lines, sids, now) == invoice_lines_outcome(m, lines.subrange(0, k), sids, now),
    decreases lines.len() - k,
{
    if k < lines.len() {
        assert(lines.subrange(0, k + 1).drop_last() =~= lines.subrange(0, k));
        lemma_invoice_stops(m, lines, sids, now, k + 1);
    } else {
        assert(lines.subrange(0, k) =~= lines);
    }
}

/// The number of fresh internal ids that handling `event` may use.
pub fn fresh_ids_needed(event: &Event) -> (r: usize)
    ensures
        r == ids_needed(*event),
{
    match &event.object {
        EventObject::Invoice(inv) => match &inv.lines {
            Some(ls) => ls.len(),
            None => 0,
        },
        _ => 1,
    }
}

/// The reconciliation engine: routes each event to its flow over the store and
/// reports the snapshots to forward downstream.
pub struct EventService {
    store: SubscriptionStore,
}

impl View for EventService {
    type V = Rows;

    closed spec fn view(&self) -> Rows {
        self.store@
    }
}

impl EventService {
    pub closed spec fn wf(&self) -> bool {
        self.store.wf()
    }

    pub fn new(store: SubscriptionStore) -> (r: Self)
        requires
            store.wf(),
        ensures
            r.wf(),
            r@ == store@,
    {
        EventService { store }
    }

    pub fn store(&self) -> (r: &SubscriptionStore)
        requires
            self.wf(),
        ensures
            r.wf(),
            r@ == self@,
    {
        &self.store
    }

    /// Checkout flow; a new record gets the internal id `fresh_id`.
    pub fn handle_checkout_session(&mut self, session: CheckoutSession, fresh_id: u128, now: i64) -> (r: Result<
        Vec<Subscription>,
        EventError,
    >)
        requires
            old(self).wf(),
        ensures
            final(self).wf(),
            reports(checkout_outcome(old(self)@, session, fresh_id, now), final(self)@, r),
    {
        match checkout_target_of(&session) {
            None => Ok(Vec::new()),
            Some((id, buyer, offer, shop)) => match self.store.upsert_checkout(&id, buyer, offer, shop, fresh_id, now) {
                Ok(rec) => Ok(one(rec)),
                Err(_) => Err(EventError::Conflict),
            },
        }
    }

    /// Subscription-lifecycle flow for an event created at `ts`; a new record gets
    /// the internal id `fresh_id`.
    pub fn handle_subscription(
        &mut self,
        subscription: ProviderSubscription,
        ts: i64,
        fresh_id: u128,
        now: i64,
    ) -> (r: Result<Vec<Subscription>, EventError>)
        requires
            old(self).wf(),
        ensures
            final(self).wf(),
            reports(subscription_outcome(old(self)@, subscription, ts, fresh_id, now), final(self)@, r),
    {
        let id = &subscription.id;
        let meta_user = metadata_get(&subscription.metadata, "user_id");
        let (applies, correction) = match self.store.get(id) {
            None => (true, None),
            Some(rec) => {
                let applies = match rec.event_timestamp {
                    None => true,
                    Some(w) => w < ts,
                };
                let correction = match (&rec.buyer_user_id, meta_user) {
                    (Some(stored), Some(u)) => if !stored.eq(&u) {
                        Some(u)
                    } else {
                        None
                    },
                    _ => None,
                };
                (applies, correction)
            },
        };
        let start = resolve_timestamp(subscription.current_period_start);
        let end = resolve_timestamp(subscription.current_period_end);
        if applies && (start.is_none() || end.is_none()) {
            return Err(EventError::InvalidPeriod);
        }
        let patched = match correction {
            Some(buyer) => self.store.patch_buyer(id, buyer, now),
            None => None,
        };
        if applies {
            let update = LifecycleUpdate {
                current_period_start: subscription.current_period_start,
                current_period_end: subscription.current_period_end,
                subscription_status: subscription.status.clone(),
                canceled_at: resolve_optional(subscription.canceled_at),
                cancel_at: resolve_optional(subscription.cancel_at),
            };
            match self.store.upsert_lifecycle(id, update, ts, fresh_id, now) {
                Ok(rec) => Ok(one(rec)),
                Err(_) => Err(EventError::Conflict),
            }
        } else {
            match patched {
                Some(rec) => Ok(one(rec)),
                None => Ok(Vec::new()),
            }
        }
    }
    /// Invoice flow: each line that names a subscription and a representable
    /// period sets that subscription's payment window; line `i` may create a
    /// record under `fresh_ids[i]`. Where a line fails, the store is left as it
    /// was before the invoice.
    pub fn handle_invoice(&mut self, invoice: Invoice, fresh_ids: &Vec<u128>, now: i64) -> (r: Result<
        Vec<Subscription>,
        EventError,
    >)
        requires
            old(self).wf(),
            invoice.lines matches Some(ls) ==> fresh_ids@.len() >= ls@.len(),
        ensures
            final(self).wf(),
            reports(
                match invoice.lines {
                    Some(ls) => invoice_outcome(old(self)@, ls@, fresh_ids@, now),
                    None => crate::policy::unchanged(old(self)@),
                },
                final(self)@,
                r,
            ),
    {
        let lines = match invoice.lines {
            Some(ls) => ls,
            None => {
                return Ok(Vec::new());
            },
        };
        let ghost m0 = self.store@;
        let saved = self.store.copy();
        let mut written: Vec<Subscription> = Vec::new();
        let mut i: usize = 0;
        assert(lines@.subrange(0, 0) =~= Seq::<InvoiceLine>::empty());
        while i < lines.len()
            invariant
                self.wf(),
                i <= lines@.len(),
                fresh_ids@.len() >= lines@.len(),
                m0 == old(self)@,
                saved.wf(),
                saved@ == m0,
                invoice.lines == Some(lines),
                invoice_lines_outcome(m0, lines@.subrange(0, i as int), fresh_ids@, now) == (self@, written@, None::<EventError>),
            decreases lines@.len() - i,
        {
            assert(lines@.subrange(0, i + 1).drop_last() =~= lines@.subrange(0, i as int));
            assert(lines@.subrange(0, i + 1).last() == lines@[i as int]);
            match line_target_of(&lines[i]) {
                None => {
                    assert(written@ + Seq::<Subscription>::empty() =~= written@);
                },
                Some((id, a, b)) => match self.store.upsert_invoice(&id, a, b, fresh_ids[i], now) {
                    Ok(rec) => {
                        written.push(rec);
                        assert(invoice_lines_outcome(m0, lines@.subrange(0, i + 1), fresh_ids@, now).1 =~= written@);
                    },
                    Err(_) => {
                        proof {
                            let o = invoice_lines_outcome(m0, lines@.subrange(0, i + 1), fresh_ids@, now);
                            assert(invoice_line_outcome(self@, lines@[i as int], fresh_ids@[i as int], now)
                                == crate::policy::failed(self@, EventError::Conflict));
                            assert(o.0 == self@ && o.2 == Some(EventError::Conflict));
                            lemma_invoice_stops(m0, lines@, fresh_ids@, now, i + 1);
                        }
                        self.store = saved;
                        return Err(EventError::Conflict);
                    },
                },
            }
            i = i + 1;
        }
        assert(lines@.subrange(0, lines@.len() as int) =~= lines@);
        Ok(written)
    }

    /// Routes `event` to its flow; the flows draw new internal ids from
    /// `fresh_ids`. Returns the records written.
    pub fn reconcile(&mut self, event: Event, fresh_ids: &Vec<u128>, now: i64) -> (r: Result<
        Vec<Subscription>,
        EventError,
    >)
        requires
            old(self).wf(),
            fresh_ids@.len() >= ids_needed(event),
        ensures
            final(self).wf(),
            reports(event_outcome(old(self)@, event, fresh_ids@, now), final(self)@, r),
    {
        let created = event.created;
        match event.kind {
            EventType::CheckoutSessionCompleted => match event.object {
                EventObject::CheckoutSession(cs) => self.handle_checkout_session(cs, fresh_ids[0], now),
                _ => Err(EventError::UnexpectedObject),
            },
            EventType::InvoicePaid => match event.object {
                EventObject::Invoice(inv) => self.handle_invoice(inv, fresh_ids, now),
                _ => Err(EventError::UnexpectedObject),
            },
            EventType::Other => Ok(Vec::new()),
            EventType::CustomerSubscriptionCreated
            | EventType::CustomerSubscriptionUpdated
            | EventType::CustomerSubscriptionDeleted
            | EventType::CustomerSubscriptionPaused
            | EventType::CustomerSubscriptionResumed
            | EventType::CustomerSubscriptionTrialWillEnd
            | EventType::CustomerSubscriptionPendingUpdateApplied
            | EventType::CustomerSubscriptionPendingUpdateExpired => match event.object {
                EventObject::Subscription(sub) => self.handle_subscription(sub, created, fresh_ids[0], now),
                _ => Err(EventError::UnexpectedObject),
            },
        }
    }

    /// Handles `event` with the given fresh internal ids and returns the
    /// snapshots to forward: one for each written record that is complete.
    pub fn apply_event(&mut self, event: Event, fresh_ids: &Vec<u128>, now: i64) -> (r: Result<
        Vec<SubscriptionSnapshot>,
        EventError,
    >)
        requires
            old(self).wf(),
            fresh_ids@.len() >= ids_needed(event),
        ensures
            final(self).wf(),
            delivers(event_outcome(old(self)@, event, fresh_ids@, now), final(self)@, r),
    {
        match self.reconcile(event, fresh_ids, now) {
            Ok(written) => Ok(notifications(&written)),
            Err(e) => Err(e),
        }
    }

    /// Handles `event` at time `now`, drawing random internal ids for the records
    /// it creates, and returns the snapshots to forward downstream. Unknown kinds
    /// are acknowledged without effect.
    pub fn handle_event(&mut self, event: Event, now: i64) -> (r: Result<Vec<SubscriptionSnapshot>, EventError>)
        requires
            old(self).wf(),
        ensures
            final(self).wf(),
            exists|sids: Seq<u128>|
                sids.len() == ids_needed(event) && delivers(event_outcome(old(self)@, event, sids, now), final(self)@, r),
    {
        let n = fresh_ids_needed(&event);
        let mut fresh_ids: Vec<u128> = Vec::new();
        while fresh_ids.len() < n
            invariant
                fresh_ids@.len() <= n,
            decreases n - fresh_ids@.len(),
        {
            fresh_ids.push(random_uuid());
        }
        self.apply_event(event, &fresh_ids, now)
    }
}


} // verus!
