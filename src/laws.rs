use vstd::prelude::*;

use crate::event::{CheckoutSession, Event, EventObject, InvoiceLine, ProviderSubscription};
use crate::notifier::{complete_records, snapshots_of, SubscriptionSnapshot};
use crate::policy::{
    checkout_outcome, event_outcome, invoice_line_outcome, invoice_lines_outcome, lifecycle_step,
    line_target, resolved_time,
    resolved_update, subscription_outcome, unchanged,
};
use crate::store::{sid_used, Rows};
use crate::subscription::{guarded_fields, is_complete, update_fields, LifecycleUpdate, Subscription};

verus! {

/// Lifecycle updates for `id`, each with its event's creation time, applied in
/// order under the watermark rule; `None` on an id conflict.
pub open spec fn lifecycle_fold(
    m: Rows,
    id: String,
    evs: Seq<(LifecycleUpdate, i64)>,
    sid: u128,
    now: i64,
) -> Option<Rows>
    decreases evs.len(),
{
    if evs.len() == 0 {
        Some(m)
    } else {
        match lifecycle_fold(m, id, evs.drop_last(), sid, now) {
            Some(m1) => lifecycle_step(m1, id, evs.last().0, evs.last().1, sid, now),
            None => None,
        }
    }
}

/// Whether event `i` of `evs` has the greatest creation time.
pub open spec fn is_latest(evs: Seq<(LifecycleUpdate, i64)>, i: int) -> bool {
    &&& 0 <= i < evs.len()
    &&& forall|j: int| 0 <= j < evs.len() ==> evs[j].1 <= evs[i].1
}

/// Whether `b` differs from `a` at most in the columns a checkout writes.
pub open spec fn differs_in_checkout_columns_only(a: Subscription, b: Subscription) -> bool {
    b == (Subscription {
        buyer_user_id: b.buyer_user_id,
        offer_id: b.offer_id,
        shop_id: b.shop_id,
        updated_at: b.updated_at,
        ..a
    })
}

/// Watermark monotonicity: whatever order a non-empty sequence of lifecycle
/// updates for one subscription arrives in, starting from a record without a
/// watermark, the guarded fields end as the latest-created update wrote them and
/// the watermark ends at its creation time. Where updates created at the same
/// time agree, this holds of every latest one.
pub proof fn lemma_watermark_monotonic(
    m: Rows,
    id: String,
    evs: Seq<(LifecycleUpdate, i64)>,
    sid: u128,
    now: i64,
)
    requires
        evs.len() > 0,
        m.contains_key(id@) ==> m[id@].event_timestamp is None,
        !m.contains_key(id@) ==> !sid_used(m, sid),
    ensures
        lifecycle_fold(m, id, evs, sid, now) is Some,
        ({
            let m2 = lifecycle_fold(m, id, evs, sid, now).unwrap();
            &&& m2.contains_key(id@)
            &&& exists|i: int|
                #[trigger] is_latest(evs, i) && guarded_fields(m2[id@]) == update_fields(evs[i].0)
                    && m2[id@].event_timestamp == Some(evs[i].1)
            &&& (forall|i: int, j: int|
                0 <= i < evs.len() && 0 <= j < evs.len() && evs[i].1 == evs[j].1
                    ==> update_fields(#[trigger] evs[i].0) == update_fields(#[trigger] evs[j].0))
                ==> forall|i: int| #[trigger] is_latest(evs, i) ==> guarded_fields(m2[id@]) == update_fields(evs[i].0)
        }),
    decreases evs.len(),
{
    let prev = evs.drop_last();
    let last = evs.last();
    if prev.len() == 0 {
        assert(is_latest(evs, 0));
    } else {
        lemma_watermark_monotonic(m, id, prev, sid, now);
        let m1 = lifecycle_fold(m, id, prev, sid, now).unwrap();
        let i1 = choose|i: int|
            #[trigger] is_latest(prev, i) && guarded_fields(m1[id@]) == update_fields(prev[i].0)
                && m1[id@].event_timestamp == Some(prev[i].1);
        assert forall|j: int| 0 <= j < prev.len() implies evs[j].1 <= prev[i1].1 by {
            assert(evs[j] == prev[j]);
        }
        assert(evs[i1] == prev[i1]);
        if prev[i1].1 < last.1 {
            assert(is_latest(evs, evs.len() - 1));
        } else {
            assert(is_latest(evs, i1));
        }
    }
    let m2 = lifecycle_fold(m, id, evs, sid, now).unwrap();
    let w = choose|i: int|
        #[trigger] is_latest(evs, i) && guarded_fields(m2[id@]) == update_fields(evs[i].0)
            && m2[id@].event_timestamp == Some(evs[i].1);
    assert forall|i: int| #[trigger] is_latest(evs, i) implies evs[i].1 == evs[w].1 by {}
}

/// A subscription event handled without error leaves its subscription's guarded
/// fields and watermark exactly as the watermark rule leaves them for the event's
/// resolved update; the laws stated over the rule hold of the events.
pub proof fn lemma_event_follows_watermark_rule(m: Rows, s: ProviderSubscription, ts: i64, sid: u128, now: i64)
    ensures
        ({
            let o = subscription_outcome(m, s, ts, sid, now);
            o.2 is None ==> {
                &&& lifecycle_step(m, s.id, resolved_update(s), ts, sid, now) is Some
                &&& {
                    let m2 = lifecycle_step(m, s.id, resolved_update(s), ts, sid, now).unwrap();
                    &&& o.0.contains_key(s.id@) <==> m2.contains_key(s.id@)
                    &&& o.0.contains_key(s.id@) ==> guarded_fields(o.0[s.id@]) == guarded_fields(m2[s.id@])
                        && o.0[s.id@].event_timestamp == m2[s.id@].event_timestamp
                }
            }
        }),
{
}

/// Replay idempotence: once a subscription event has been handled without
/// error, handling the same event again changes nothing and writes nothing.
pub proof fn lemma_replay_idempotent(
    m: Rows,
    s: ProviderSubscription,
    ts: i64,
    sid1: u128,
    sid2: u128,
    now1: i64,
    now2: i64,
)
    ensures
        ({
            let first = subscription_outcome(m, s, ts, sid1, now1);
            first.2 is None ==> subscription_outcome(first.0, s, ts, sid2, now2) == unchanged(first.0)
        }),
{
}

/// Path independence: a checkout session never changes the period, status,
/// cancellation, payment or watermark fields of any record; of a stored record
/// it changes at most buyer, offer, shop and the update time.
pub proof fn lemma_checkout_keeps_lifecycle(m: Rows, cs: CheckoutSession, sid: u128, now: i64)
    ensures
        ({
            let after = checkout_outcome(m, cs, sid, now).0;
            forall|k: Seq<char>| #[trigger] m.contains_key(k) ==> after.contains_key(k)
                && differs_in_checkout_columns_only(m[k], after[k])
        }),
        forall|k: Seq<char>| #[trigger] checkout_outcome(m, cs, sid, now).0.contains_key(k) ==> {
            let r = checkout_outcome(m, cs, sid, now).0[k];
            &&& guarded_fields(r) == (if m.contains_key(k) { guarded_fields(m[k]) } else { (None, None, None, None, None) })
            &&& r.event_timestamp == (if m.contains_key(k) { m[k].event_timestamp } else { None })
            &&& r.payed_at == (if m.contains_key(k) { m[k].payed_at } else { None })
            &&& r.payed_until == (if m.contains_key(k) { m[k].payed_until } else { None })
        },
{
}

/// Invoice line skip: a line without a subscription or without a period whose
/// two ends are both representable creates and changes no record.
pub proof fn lemma_unresolvable_line_skipped(m: Rows, l: InvoiceLine, sid: u128, now: i64)
    ensures
        line_target(l) is None ==> invoice_line_outcome(m, l, sid, now) == unchanged(m),
        (match l.period {
            None => true,
            Some(p) => resolved_time(p.start) is None || resolved_time(p.end) is None,
        }) ==> invoice_line_outcome(m, l, sid, now) == unchanged(m),
{
}

/// Notification gating: after a write of one record, the sink is called exactly
/// when that record has all eight fields of the downstream view, with its
/// snapshot.
pub proof fn lemma_notified_iff_complete(snaps: Seq<SubscriptionSnapshot>, r: Subscription)
    requires
        snapshots_of(snaps, seq![r]),
    ensures
        snaps.len() == 1 <==> is_complete(r),
        snaps.len() == 0 <==> !is_complete(r),
{
    assert(seq![r].drop_last() =~= Seq::<Subscription>::empty());
    assert(complete_records(Seq::<Subscription>::empty()) == Seq::<Subscription>::empty());
}

/// Whether every record of `m` is still in `m2`, under the same provider id,
/// internal id and creation time.
pub open spec fn keeps_records(m: Rows, m2: Rows) -> bool {
    forall|k: Seq<char>| #[trigger] m.contains_key(k) ==> {
        &&& m2.contains_key(k)
        &&& m2[k].subscription_id == m[k].subscription_id
        &&& m2[k].stripe_subscription_id == m[k].stripe_subscription_id
        &&& m2[k].created_at == m[k].created_at
    }
}

proof fn lemma_invoice_keeps_records(m: Rows, lines: Seq<InvoiceLine>, sids: Seq<u128>, now: i64)
    ensures
        keeps_records(m, invoice_lines_outcome(m, lines, sids, now).0),
    decreases lines.len(),
{
    if lines.len() > 0 {
        lemma_invoice_keeps_records(m, lines.drop_last(), sids, now);
    }
}

/// Records are never deleted: whatever event is handled, and whether or not it
/// fails, every stored record stays, with its internal id and creation time.
pub proof fn lemma_records_persist(m: Rows, e: Event, sids: Seq<u128>, now: i64)
    ensures
        keeps_records(m, event_outcome(m, e, sids, now).0),
{
    match e.object {
        EventObject::Invoice(inv) => match inv.lines {
            Some(ls) => lemma_invoice_keeps_records(m, ls@, sids, now),
            None => {},
        },
        _ => {},
    }
}

} // verus!
