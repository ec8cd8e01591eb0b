use vstd::prelude::*;

use crate::ids::{format_uuid, uuid_text};
use crate::subscription::{is_complete, Subscription};

verus! {

/// The denormalised view of a complete subscription that downstream consumers
/// receive.
#[derive(Debug, Clone)]
pub struct SubscriptionSnapshot {
    pub media_subscription_id: String,
    pub buyer_user_id: String,
    pub shop_id: String,
    pub offer_id: String,
    pub current_period_start: i64,
    pub current_period_end: i64,
    pub subscription_status: String,
    pub payed_at: i64,
    pub payed_until: i64,
    pub stripe_subscription_id: Option<String>,
    pub canceled_at: Option<i64>,
    pub cancel_at: Option<i64>,
}

/// Whether `s` is the snapshot of the complete record `r`.
pub open spec fn snapshot_of_record(s: SubscriptionSnapshot, r: Subscription) -> bool {
    &&& s.media_subscription_id@ == uuid_text(r.subscription_id)
    &&& Some(s.buyer_user_id) == r.buyer_user_id
    &&& s.shop_id@ == uuid_text(r.shop_id.unwrap())
    &&& s.offer_id@ == uuid_text(r.offer_id.unwrap())
    &&& Some(s.current_period_start) == r.current_period_start
    &&& Some(s.current_period_end) == r.current_period_end
    &&& Some(s.subscription_status) == r.subscription_status
    &&& Some(s.payed_at) == r.payed_at
    &&& Some(s.payed_until) == r.payed_until
    &&& s.stripe_subscription_id == Some(r.stripe_subscription_id)
    &&& s.canceled_at == r.canceled_at
    &&& s.cancel_at == r.cancel_at
}

/// The complete records among `rs`, in order.
pub open spec fn complete_records(rs: Seq<Subscription>) -> Seq<Subscription>
    decreases rs.len(),
{
    if rs.len() == 0 {
        rs
    } else if is_complete(rs.last()) {
        complete_records(rs.drop_last()).push(rs.last())
    } else {
        complete_records(rs.drop_last())
    }
}

/// Whether `snaps` are the snapshots of the complete records among `rs`, in order.
pub open spec fn snapshots_of(snaps: Seq<SubscriptionSnapshot>, rs: Seq<Subscription>) -> bool {
    let c = complete_records(rs);
    &&& snaps.len() == c.len()
    &&& forall|i: int| 0 <= i < c.len() ==> snapshot_of_record(#[trigger] snaps[i], c[i])
}

/// The snapshot of `r`, where `r` is complete; `None` for a partial record.
pub fn snapshot(r: &Subscription) -> (s: Option<SubscriptionSnapshot>)
    ensures
        s is Some <==> is_complete(*r),
        s matches Some(v) ==> snapshot_of_record(v, *r),
{
    match (
        &r.buyer_user_id,
        r.offer_id,
        r.shop_id,
        r.current_period_start,
        r.current_period_end,
        &r.subscription_status,
        r.payed_at,
        r.payed_until,
    ) {
        (
            Some(buyer_user_id),
            Some(offer_id),
            Some(shop_id),
            Some(current_period_start),
            Some(current_period_end),
            Some(subscription_status),
            Some(payed_at),
            Some(payed_until),
        ) => Some(SubscriptionSnapshot {
            media_subscription_id: format_uuid(r.subscription_id),
            buyer_user_id: buyer_user_id.clone(),
            shop_id: format_uuid(shop_id),
            offer_id: format_uuid(offer_id),
            current_period_start,
            current_period_end,
            subscription_status: subscription_status.clone(),
            payed_at,
            payed_until,
            stripe_subscription_id: Some(r.stripe_subscription_id.clone()),
            canceled_at: r.canceled_at,
            cancel_at: r.cancel_at,
        }),
        _ => None,
    }
}

/// The snapshots to forward after the writes `written`: one for each complete
/// record, in order; partial records are held back.
pub fn notifications(written: &Vec<Subscription>) -> (r: Vec<SubscriptionSnapshot>)
    ensures
        snapshots_of(r@, written@),
{
    let mut out: Vec<SubscriptionSnapshot> = Vec::new();
    let mut i: usize = 0;
    while i < written.len()
        invariant
            i <= written@.len(),
            snapshots_of(out@, written@.subrange(0, i as int)),
        decreases written@.len() - i,
    {
        let ghost before = out@;
        assert(written@.subrange(0, i + 1).drop_last() =~= written@.subrange(0, i as int));
        match snapshot(&written[i]) {
            Some(s) => {
                out.push(s);
                assert(snapshots_of(out@, written@.subrange(0, i + 1))) by {
                    let c = complete_records(written@.subrange(0, i + 1));
                    assert forall|j: int| 0 <= j < c.len() implies snapshot_of_record(#[trigger] out@[j], c[j]) by {
                        if j < before.len() {
                            assert(out@[j] == before[j]);
                        }
                    }
                }
            },
            None => {},
        }
        i = i + 1;
    }
    assert(written@.subrange(0, written@.len() as int) =~= written@);
    out
}

} // verus!
