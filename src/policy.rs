use vstd::prelude::*;

use crate::error::EventError;
use crate::event::{
    CheckoutSession, Event, EventObject, EventType, InvoiceLine,
    ProviderSubscription,
};
use crate::ids::parsed_uuid;
use crate::metadata::{metadata_value, offer_id_key, shop_id_key, user_id_key};
use crate::store::{buyer_write, checkout_write, invoice_write, lifecycle_write, Rows};
use crate::subscription::{LifecycleUpdate, Subscription};
use crate::time::representable_timestamp;

verus! {

/// What handling an event does: the store's new contents, the records written
/// (each as it stood after its write), and the error that stopped it, if any.
pub type Outcome = (Rows, Seq<Subscription>, Option<EventError>);

pub open spec fn unchanged(m: Rows) -> Outcome {
    (m, Seq::empty(), None)
}

pub open spec fn failed(m: Rows, e: EventError) -> Outcome {
    (m, Seq::empty(), Some(e))
}

/// The write of a single record, or a conflict that leaves `m` as it is.
pub open spec fn single_write(m: Rows, w: Option<(Rows, Subscription)>) -> Outcome {
    match w {
        Some((m2, r)) => (m2, seq![r], None),
        None => failed(m, EventError::Conflict),
    }
}

/// The target of a checkout session: provider id, buyer, offer and shop. `None`
/// where the session names no subscription, or its metadata lacks the buyer or
/// an offer or shop that reads as a UUID.
pub open spec fn checkout_target(cs: CheckoutSession) -> Option<(String, String, u128, u128)> {
    match (cs.subscription, cs.metadata) {
        (Some(id), Some(md)) => {
            match (
                metadata_value(md@, user_id_key()),
                metadata_value(md@, offer_id_key()),
                metadata_value(md@, shop_id_key()),
            ) {
                (Some(buyer), Some(offer), Some(shop)) => {
                    match (parsed_uuid(offer@), parsed_uuid(shop@)) {
                        (Some(o), Some(s)) => Some((id, buyer, o, s)),
                        _ => None,
                    }
                },
                _ => None,
            }
        },
        _ => None,
    }
}

/// Checkout flow: the buyer, offer and shop columns are written whatever the
/// watermark; the watermark itself is left alone.
pub open spec fn checkout_outcome(m: Rows, cs: CheckoutSession, sid: u128, now: i64) -> Outcome {
    match checkout_target(cs) {
        Some((id, buyer, offer, shop)) => single_write(m, checkout_write(m, id, buyer, offer, shop, sid, now)),
        None => unchanged(m),
    }
}

/// Whether a lifecycle event created at `ts` may write the guarded fields of the
/// record under `id`: there is none, it has no watermark yet, or its watermark
/// is strictly older.
pub open spec fn lifecycle_applies(m: Rows, id: Seq<char>, ts: i64) -> bool {
    !m.contains_key(id) || match m[id].event_timestamp {
        Some(w) => w < ts,
        None => true,
    }
}

/// One lifecycle update under the watermark rule; `None` on an id conflict.
pub open spec fn lifecycle_step(m: Rows, id: String, u: LifecycleUpdate, ts: i64, sid: u128, now: i64) -> Option<Rows> {
    if lifecycle_applies(m, id@, ts) {
        match lifecycle_write(m, id, u, ts, sid, now) {
            Some((m2, _)) => Some(m2),
            None => None,
        }
    } else {
        Some(m)
    }
}

/// An optional timestamp, kept where chrono can represent it.
pub open spec fn resolved_time(t: Option<i64>) -> Option<i64> {
    match t {
        Some(x) => if representable_timestamp(x) {
            Some(x)
        } else {
            None
        },
        None => None,
    }
}

pub open spec fn period_representable(s: ProviderSubscription) -> bool {
    representable_timestamp(s.current_period_start) && representable_timestamp(s.current_period_end)
}

/// The update that a lifecycle event writes.
pub open spec fn resolved_update(s: ProviderSubscription) -> LifecycleUpdate {
    LifecycleUpdate {
        current_period_start: s.current_period_start,
        current_period_end: s.current_period_end,
        subscription_status: s.status,
        canceled_at: resolved_time(s.canceled_at),
        cancel_at: resolved_time(s.cancel_at),
    }
}

/// The buyer to set on the stored record: the event's `user_id` metadata, where
/// the record has a buyer that differs from it.
pub open spec fn buyer_correction(m: Rows, s: ProviderSubscription) -> Option<String> {
    match metadata_value(s.metadata@, user_id_key()) {
        Some(u) => if m.contains_key(s.id@) && m[s.id@].buyer_user_id is Some
            && m[s.id@].buyer_user_id.unwrap()@ != u@ {
            Some(u)
        } else {
            None
        },
        None => None,
    }
}

/// The contents after the buyer correction, if any.
pub open spec fn corrected(m: Rows, s: ProviderSubscription, now: i64) -> Rows {
    match buyer_correction(m, s) {
        Some(b) => buyer_write(m, s.id@, b, now).unwrap().0,
        None => m,
    }
}

/// Subscription-lifecycle flow for an event created at `ts`.
pub open spec fn subscription_outcome(m: Rows, s: ProviderSubscription, ts: i64, sid: u128, now: i64) -> Outcome {
    let applies = lifecycle_applies(m, s.id@, ts);
    let m1 = corrected(m, s, now);
    if applies && !period_representable(s) {
        failed(m, EventError::InvalidPeriod)
    } else if applies {
        single_write(m1, lifecycle_write(m1, s.id, resolved_update(s), ts, sid, now))
    } else if buyer_correction(m, s) is Some {
        (m1, seq![m1[s.id@]], None)
    } else {
        unchanged(m)
    }
}

/// The subscription and payment window of an invoice line, where it names a
/// subscription and both ends of its period are representable.
pub open spec fn line_target(l: InvoiceLine) -> Option<(String, i64, i64)> {
    match (l.subscription, l.period) {
        (Some(id), Some(p)) => match (resolved_time(p.start), resolved_time(p.end)) {
            (Some(a), Some(b)) => Some((id, a, b)),
            _ => None,
        },
        _ => None,
    }
}

pub open spec fn invoice_line_outcome(m: Rows, l: InvoiceLine, sid: u128, now: i64) -> Outcome {
    match line_target(l) {
        Some((id, a, b)) => single_write(m, invoice_write(m, id, a, b, sid, now)),
        None => unchanged(m),
    }
}

/// Invoice flow: the lines in order, line `i` with the fresh id `sids[i]`,
/// stopping at the first error.
pub open spec fn invoice_lines_outcome(m: Rows, lines: Seq<InvoiceLine>, sids: Seq<u128>, now: i64) -> Outcome
    decreases lines.len(),
{
    if lines.len() == 0 {
        unchanged(m)
    } else {
        let prev = invoice_lines_outcome(m, lines.drop_last(), sids, now);
        if prev.2 is Some {
            prev
        } else {
            let step = invoice_line_outcome(prev.0, lines.last(), sids[lines.len() - 1], now);
            (step.0, prev.1 + step.1, step.2)
        }
    }
}

/// Invoice flow as a whole: where a line fails, no line is applied.
pub open spec fn invoice_outcome(m: Rows, lines: Seq<InvoiceLine>, sids: Seq<u128>, now: i64) -> Outcome {
    let o = invoice_lines_outcome(m, lines, sids, now);
    match o.2 {
        Some(e) => failed(m, e),
        None => o,
    }
}

/// How many fresh internal ids handling `e` may use.
pub open spec fn ids_needed(e: Event) -> nat {
    match e.object {
        EventObject::Invoice(inv) => match inv.lines {
            Some(ls) => ls@.len(),
            None => 0,
        },
        _ => 1,
    }
}

/// Routing: each kind to its flow, where the payload has the declared shape.
pub open spec fn event_outcome(m: Rows, e: Event, sids: Seq<u128>, now: i64) -> Outcome {
    match e.kind {
        EventType::CheckoutSessionCompleted => match e.object {
            EventObject::CheckoutSession(cs) => checkout_outcome(m, cs, sids[0], now),
            _ => failed(m, EventError::UnexpectedObject),
        },
        EventType::InvoicePaid => match e.object {
            EventObject::Invoice(inv) => match inv.lines {
                Some(ls) => invoice_outcome(m, ls@, sids, now),
                None => unchanged(m),
            },
            _ => failed(m, EventError::UnexpectedObject),
        },
        EventType::Other => unchanged(m),
        _ => match e.object {
            EventObject::Subscription(s) => subscription_outcome(m, s, e.created, sids[0], now),
            _ => failed(m, EventError::UnexpectedObject),
        },
    }
}

/// Whether `r` reports outcome `o` for a store left as `after`.
pub open spec fn reports(o: Outcome, after: Rows, r: Result<Vec<Subscription>, EventError>) -> bool {
    &&& o.0 == after
    &&& match r {
        Ok(w) => o.2 is None && w@ == o.1,
        Err(e) => o.2 == Some(e),
    }
}

} // verus!
