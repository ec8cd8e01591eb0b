use vstd::prelude::*;

use crate::subscription::{
    fresh_record, with_buyer, with_checkout, with_invoice, with_lifecycle, LifecycleUpdate,
    Subscription,
};

verus! {

/// The store's contents: each provider subscription id mapped to its record.
pub type Rows = Map<Seq<char>, Subscription>;

/// Whether some record already carries the internal id `sid`.
pub open spec fn sid_used(m: Rows, sid: u128) -> bool {
    exists|k: Seq<char>| m.contains_key(k) && #[trigger] m[k].subscription_id == sid
}

/// A store whose records sit under their own provider id and carry distinct
/// internal ids.
pub open spec fn valid_rows(m: Rows) -> bool {
    &&& forall|k: Seq<char>| #[trigger] m.contains_key(k) ==> m[k].stripe_subscription_id@ == k
    &&& forall|k1: Seq<char>, k2: Seq<char>|
        #![trigger m[k1].subscription_id, m[k2].subscription_id]
        m.contains_key(k1) && m.contains_key(k2) && k1 != k2
            ==> m[k1].subscription_id != m[k2].subscription_id
}

/// The record that an upsert on `id` starts from: the stored one, or a fresh one
/// under `sid`; `None` where it would be fresh and `sid` is taken.
pub open spec fn upsert_base(m: Rows, id: String, sid: u128, now: i64) -> Option<Subscription> {
    if m.contains_key(id@) {
        Some(m[id@])
    } else if sid_used(m, sid) {
        None
    } else {
        Some(fresh_record(id, sid, now))
    }
}

/// Upsert of the checkout columns; the new contents and the resulting record.
pub open spec fn checkout_write(
    m: Rows,
    id: String,
    buyer: String,
    offer: u128,
    shop: u128,
    sid: u128,
    now: i64,
) -> Option<(Rows, Subscription)> {
    match upsert_base(m, id, sid, now) {
        Some(b) => {
            let r = with_checkout(b, buyer, offer, shop, now);
            Some((m.insert(id@, r), r))
        },
        None => None,
    }
}

/// Upsert of the lifecycle columns, moving the watermark to `ts`.
pub open spec fn lifecycle_write(
    m: Rows,
    id: String,
    u: LifecycleUpdate,
    ts: i64,
    sid: u128,
    now: i64,
) -> Option<(Rows, Subscription)> {
    match upsert_base(m, id, sid, now) {
        Some(b) => {
            let r = with_lifecycle(b, u, ts, now);
            Some((m.insert(id@, r), r))
        },
        None => None,
    }
}

/// Upsert of the payment columns.
pub open spec fn invoice_write(
    m: Rows,
    id: String,
    payed_at: i64,
    payed_until: i64,
    sid: u128,
    now: i64,
) -> Option<(Rows, Subscription)> {
    match upsert_base(m, id, sid, now) {
        Some(b) => {
            let r = with_invoice(b, payed_at, payed_until, now);
            Some((m.insert(id@, r), r))
        },
        None => None,
    }
}

/// Update of the buyer alone on a stored record; `None` where there is none.
pub open spec fn buyer_write(m: Rows, id: Seq<char>, buyer: String, now: i64) -> Option<(Rows, Subscription)> {
    if m.contains_key(id) {
        let r = with_buyer(m[id], buyer, now);
        Some((m.insert(id, r), r))
    } else {
        None
    }
}

/// An upsert that would have to create a record under an internal id that is
/// already in use.
#[derive(Debug, Clone, Copy, PartialEq, Eq)]
pub struct IdConflict;

/// Subscription records keyed by provider subscription id, with insert-or-update
/// operations that return the resulting record.
pub struct SubscriptionStore {
    rows: Vec<Subscription>,
    contents: Ghost<Rows>,
}

pub type UpsertResult = Result<Subscription, IdConflict>;

pub open spec fn outcome_of(r: UpsertResult, after: Rows) -> Option<(Rows, Subscription)> {
    match r {
        Ok(rec) => Some((after, rec)),
        Err(_) => None,
    }
}

impl View for SubscriptionStore {
    type V = Rows;

    closed spec fn view(&self) -> Rows {
        self.contents@
    }
}

impl SubscriptionStore {
    pub closed spec fn wf(&self) -> bool {
        let m = self.contents@;
        let rows = self.rows@;
        &&& valid_rows(m)
        &&& forall|i: int| 0 <= i < rows.len() ==> #[trigger] m.contains_key(rows[i].stripe_subscription_id@)
            && m[rows[i].stripe_subscription_id@] == rows[i]
        &&& forall|k: Seq<char>| #[trigger] m.contains_key(k)
            ==> exists|i: int| 0 <= i < rows.len() && #[trigger] rows[i].stripe_subscription_id@ == k
        &&& forall|i: int, j: int| 0 <= i < rows.len() && 0 <= j < rows.len() && i != j
            ==> #[trigger] rows[i].stripe_subscription_id@ != #[trigger] rows[j].stripe_subscription_id@
    }

    /// A well-formed store keeps each record under its own provider id and gives
    /// distinct records distinct internal ids.
    pub proof fn lemma_wf_valid_rows(&self)
        requires
            self.wf(),
        ensures
            valid_rows(self@),
    {
    }

    /// An empty store.
    pub fn new() -> (r: Self)
        ensures
            r.wf(),
            r@ == Rows::empty(),
    {
        SubscriptionStore { rows: Vec::new(), contents: Ghost(Map::empty()) }
    }

    /// A copy of this store with the same contents.
    pub fn copy(&self) -> (r: Self)
        requires
            self.wf(),
        ensures
            r.wf(),
            r@ == self@,
    {
        let mut rows: Vec<Subscription> = Vec::new();
        let mut i: usize = 0;
        while i < self.rows.len()
            invariant
                i <= self.rows@.len(),
                rows@ == self.rows@.subrange(0, i as int),
            decreases self.rows@.len() - i,
        {
            rows.push(self.rows[i].duplicate());
            i = i + 1;
            assert(rows@ =~= self.rows@.subrange(0, i as int));
        }
        assert(rows@ =~= self.rows@);
        SubscriptionStore { rows, contents: Ghost(self.contents@) }
    }

    /// Number of records.
    pub fn len(&self) -> (r: usize)
        requires
            self.wf(),
        ensures
            r == self@.len(),
    {
        proof {
            self.lemma_rows_domain();
        }
        self.rows.len()
    }

    proof fn lemma_rows_domain(&self)
        requires
            self.wf(),
        ensures
            self@.dom() == self.rows@.map_values(|s: Subscription| s.stripe_subscription_id@).to_set(),
            self.rows@.map_values(|s: Subscription| s.stripe_subscription_id@).no_duplicates(),
            self@.len() == self.rows@.len(),
    {
        let keys = self.rows@.map_values(|s: Subscription| s.stripe_subscription_id@);
        assert forall|i: int, j: int| 0 <= i < keys.len() && 0 <= j < keys.len() && i != j implies keys[i] != keys[j] by {
            assert(keys[i] == self.rows@[i].stripe_subscription_id@);
            assert(keys[j] == self.rows@[j].stripe_subscription_id@);
        }
        assert(self@.dom() =~= keys.to_set()) by {
            assert forall|k: Seq<char>| self@.dom().contains(k) implies keys.to_set().contains(k) by {
                let i = choose|i: int| 0 <= i < self.rows@.len() && #[trigger] self.rows@[i].stripe_subscription_id@ == k;
                assert(keys[i] == k);
            }
        }
        keys.unique_seq_to_set();
    }

    /// Index of the record under `id`.
    fn position(&self, id: &String) -> (r: Option<usize>)
        requires
            self.wf(),
        ensures
            r is Some <==> self@.contains_key(id@),
            r matches Some(i) ==> i < self.rows@.len() && self.rows@[i as int] == self@[id@],
    {
        let mut i: usize = 0;
        while i < self.rows.len()
            invariant
                self.wf(),
                i <= self.rows@.len(),
                forall|j: int| 0 <= j < i ==> self.rows@[j].stripe_subscription_id@ != id@,
            decreases self.rows@.len() - i,
        {
            if self.rows[i].stripe_subscription_id == *id {
                return Some(i);
            }
            i = i + 1;
        }
        None
    }

    /// Whether some record carries the internal id `sid`.
    pub fn sid_in_use(&self, sid: u128) -> (r: bool)
        requires
            self.wf(),
        ensures
            r == sid_used(self@, sid),
    {
        let mut i: usize = 0;
        while i < self.rows.len()
            invariant
                self.wf(),
                i <= self.rows@.len(),
                forall|j: int| 0 <= j < i ==> self.rows@[j].subscription_id != sid,
            decreases self.rows@.len() - i,
        {
            if self.rows[i].subscription_id == sid {
                assert(self@.contains_key(self.rows@[i as int].stripe_subscription_id@));
                return true;
            }
            i = i + 1;
        }
        proof {
            assert forall|k: Seq<char>| self@.contains_key(k) implies #[trigger] self@[k].subscription_id != sid by {
                let j = choose|j: int| 0 <= j < self.rows@.len() && #[trigger] self.rows@[j].stripe_subscription_id@ == k;
                assert(self@[k] == self.rows@[j]);
            }
        }
        false
    }

    /// The record stored under `id`.
    pub fn get(&self, id: &String) -> (r: Option<&Subscription>)
        requires
            self.wf(),
        ensures
            r is Some <==> self@.contains_key(id@),
            r matches Some(rec) ==> *rec == self@[id@],
    {
        match self.position(id) {
            Some(i) => Some(&self.rows[i]),
            None => None,
        }
    }

    /// The records in storage order.
    pub fn rows(&self) -> (r: &Vec<Subscription>)
        requires
            self.wf(),
        ensures
            forall|i: int| 0 <= i < r@.len() ==> self@.contains_key(#[trigger] r@[i].stripe_subscription_id@)
                && self@[r@[i].stripe_subscription_id@] == r@[i],
            r@.len() == self@.len(),
    {
        proof {
            self.lemma_rows_domain();
        }
        &self.rows
    }

    /// Replaces the record at index `i` by `rec`, which keeps both its ids.
    fn replace(&mut self, i: usize, rec: Subscription)
        requires
            old(self).wf(),
            i < old(self).rows@.len(),
            rec.stripe_subscription_id@ == old(self).rows@[i as int].stripe_subscription_id@,
            rec.subscription_id == old(self).rows@[i as int].subscription_id,
        ensures
            final(self).wf(),
            final(self)@ == old(self)@.insert(rec.stripe_subscription_id@, rec),
    {
        let ghost key = rec.stripe_subscription_id@;
        let ghost m0 = self.contents@;
        self.rows.set(i, rec);
        self.contents = Ghost(m0.insert(key, rec));
        proof {
            let m = self.contents@;
            let rows = self.rows@;
            assert forall|j: int| 0 <= j < rows.len() implies #[trigger] m.contains_key(rows[j].stripe_subscription_id@)
                && m[rows[j].stripe_subscription_id@] == rows[j] by {
                if j != i {
                    assert(old(self).rows@[j] == rows[j]);
                    assert(m0.contains_key(rows[j].stripe_subscription_id@));
                    assert(m0[rows[j].stripe_subscription_id@] == rows[j]);
                    if rows[j].stripe_subscription_id@ == key {
                        assert(m0[key] == old(self).rows@[i as int]);
                    }
                }
            }
            assert forall|k: Seq<char>| #[trigger] m.contains_key(k)
                implies exists|j: int| 0 <= j < rows.len() && #[trigger] rows[j].stripe_subscription_id@ == k by {
                if k == key {
                    assert(rows[i as int].stripe_subscription_id@ == k);
                } else {
                    let j = choose|j: int| 0 <= j < old(self).rows@.len() && #[trigger] old(self).rows@[j].stripe_subscription_id@ == k;
                    assert(rows[j].stripe_subscription_id@ == k);
                }
            }
            assert forall|k1: Seq<char>, k2: Seq<char>|
                m.contains_key(k1) && m.contains_key(k2) && k1 != k2
                implies #[trigger] m[k1].subscription_id != #[trigger] m[k2].subscription_id by {
                assert(m0.contains_key(k1) && m0.contains_key(k2));
            }
            assert forall|a: int, b: int| 0 <= a < rows.len() && 0 <= b < rows.len() && a != b
                implies #[trigger] rows[a].stripe_subscription_id@ != #[trigger] rows[b].stripe_subscription_id@ by {
                assert(old(self).rows@[a].stripe_subscription_id@ == rows[a].stripe_subscription_id@);
                assert(old(self).rows@[b].stripe_subscription_id@ == rows[b].stripe_subscription_id@);
            }
        }
    }

    /// Appends `rec`, whose provider id is absent and whose internal id is unused.
    fn append(&mut self, rec: Subscription)
        requires
            old(self).wf(),
            !old(self)@.contains_key(rec.stripe_subscription_id@),
            !sid_used(old(self)@, rec.subscription_id),
        ensures
            final(self).wf(),
            final(self)@ == old(self)@.insert(rec.stripe_subscription_id@, rec),
    {
        let ghost key = rec.stripe_subscription_id@;
        let ghost m0 = self.contents@;
        let ghost n = self.rows@.len();
        self.rows.push(rec);
        self.contents = Ghost(m0.insert(key, rec));
        proof {
            let m = self.contents@;
            let rows = self.rows@;
            assert forall|j: int| 0 <= j < rows.len() implies #[trigger] m.contains_key(rows[j].stripe_subscription_id@)
                && m[rows[j].stripe_subscription_id@] == rows[j] by {
                if j < n {
                    assert(old(self).rows@[j] == rows[j]);
                    assert(m0.contains_key(old(self).rows@[j].stripe_subscription_id@));
                    assert(rows[j].stripe_subscription_id@ != key);
                }
            }
            assert forall|k: Seq<char>| #[trigger] m.contains_key(k)
                implies exists|j: int| 0 <= j < rows.len() && #[trigger] rows[j].stripe_subscription_id@ == k by {
                if k == key {
                    assert(rows[n as int].stripe_subscription_id@ == k);
                } else {
                    let j = choose|j: int| 0 <= j < old(self).rows@.len() && #[trigger] old(self).rows@[j].stripe_subscription_id@ == k;
                    assert(rows[j].stripe_subscription_id@ == k);
                }
            }
            assert forall|k1: Seq<char>, k2: Seq<char>|
                m.contains_key(k1) && m.contains_key(k2) && k1 != k2
                implies #[trigger] m[k1].subscription_id != #[trigger] m[k2].subscription_id by {
                if k1 == key {
                    assert(m0.contains_key(k2));
                    assert(m0[k2].subscription_id != rec.subscription_id);
                } else if k2 == key {
                    assert(m0.contains_key(k1));
                    assert(m0[k1].subscription_id != rec.subscription_id);
                }
            }
            assert forall|a: int, b: int| 0 <= a < rows.len() && 0 <= b < rows.len() && a != b
                implies #[trigger] rows[a].stripe_subscription_id@ != #[trigger] rows[b].stripe_subscription_id@ by {
                if a < n && b < n {
                    assert(old(self).rows@[a] == rows[a]);
                    assert(old(self).rows@[b] == rows[b]);
                } else if a < n {
                    assert(m0.contains_key(old(self).rows@[a].stripe_subscription_id@));
                    assert(old(self).rows@[a] == rows[a]);
                } else {
                    assert(m0.contains_key(old(self).rows@[b].stripe_subscription_id@));
                    assert(old(self).rows@[b] == rows[b]);
                }
            }
        }
    }
    /// The record an upsert on `id` starts from, with its index if stored.
    fn base(&self, id: &String, sid: u128, now: i64) -> (r: Option<(Subscription, Option<usize>)>)
        requires
            self.wf(),
        ensures
            r matches Some((b, _)) ==> upsert_base(self@, *id, sid, now) == Some(b),
            r is None ==> upsert_base(self@, *id, sid, now) is None,
            r matches Some((_, pos)) ==> (pos is Some <==> self@.contains_key(id@)),
            r matches Some((_, Some(i))) ==> i < self.rows@.len() && self.rows@[i as int] == self@[id@],
    {
        match self.position(id) {
            Some(i) => Some((self.rows[i].duplicate(), Some(i))),
            None => {
                if self.sid_in_use(sid) {
                    None
                } else {
                    Some((Subscription::fresh(id, sid, now), None))
                }
            },
        }
    }

    /// Stores `rec` at `pos`, or appends it where `pos` is `None`.
    fn put(&mut self, pos: Option<usize>, rec: Subscription, Ghost(sid): Ghost<u128>, Ghost(now): Ghost<i64>)
        requires
            old(self).wf(),
            upsert_base(old(self)@, rec.stripe_subscription_id, sid, now) is Some,
            rec.subscription_id == upsert_base(old(self)@, rec.stripe_subscription_id, sid, now).unwrap().subscription_id,
            pos is Some <==> old(self)@.contains_key(rec.stripe_subscription_id@),
            pos matches Some(i) ==> i < old(self).rows@.len() && old(self).rows@[i as int] == old(self)@[rec.stripe_subscription_id@],
        ensures
            final(self).wf(),
            final(self)@ == old(self)@.insert(rec.stripe_subscription_id@, rec),
    {
        match pos {
            Some(i) => self.replace(i, rec),
            None => self.append(rec),
        }
    }

    /// Insert-or-update of the checkout columns (buyer, offer, shop) under `id`;
    /// a new record gets the internal id `fresh_id`.
    pub fn upsert_checkout(
        &mut self,
        id: &String,
        buyer: String,
        offer: u128,
        shop: u128,
        fresh_id: u128,
        now: i64,
    ) -> (r: UpsertResult)
        requires
            old(self).wf(),
        ensures
            final(self).wf(),
            outcome_of(r, final(self)@) == checkout_write(old(self)@, *id, buyer, offer, shop, fresh_id, now),
            r is Err ==> final(self)@ == old(self)@,
    {
        match self.base(id, fresh_id, now) {
            None => Err(IdConflict),
            Some((base, pos)) => {
                let rec = Subscription {
                    buyer_user_id: Some(buyer),
                    offer_id: Some(offer),
                    shop_id: Some(shop),
                    updated_at: now,
                    ..base
                };
                self.put(pos, rec.duplicate(), Ghost(fresh_id), Ghost(now));
                Ok(rec)
            },
        }
    }

    /// Insert-or-update of the lifecycle columns under `id`, moving the watermark
    /// to `ts`; a new record gets the internal id `fresh_id`.
    pub fn upsert_lifecycle(
        &mut self,
        id: &String,
        update: LifecycleUpdate,
        ts: i64,
        fresh_id: u128,
        now: i64,
    ) -> (r: UpsertResult)
        requires
            old(self).wf(),
        ensures
            final(self).wf(),
            outcome_of(r, final(self)@) == lifecycle_write(old(self)@, *id, update, ts, fresh_id, now),
            r is Err ==> final(self)@ == old(self)@,
    {
        match self.base(id, fresh_id, now) {
            None => Err(IdConflict),
            Some((base, pos)) => {
                let rec = Subscription {
                    current_period_start: Some(update.current_period_start),
                    current_period_end: Some(update.current_period_end),
                    subscription_status: Some(update.subscription_status),
                    canceled_at: update.canceled_at,
                    cancel_at: update.cancel_at,
                    event_timestamp: Some(ts),
                    updated_at: now,
                    ..base
                };
                self.put(pos, rec.duplicate(), Ghost(fresh_id), Ghost(now));
                Ok(rec)
            },
        }
    }

    /// Insert-or-update of the payment columns under `id`; a new record gets the
    /// internal id `fresh_id`.
    pub fn upsert_invoice(
        &mut self,
        id: &String,
        payed_at: i64,
        payed_until: i64,
        fresh_id: u128,
        now: i64,
    ) -> (r: UpsertResult)
        requires
            old(self).wf(),
        ensures
            final(self).wf(),
            outcome_of(r, final(self)@) == invoice_write(old(self)@, *id, payed_at, payed_until, fresh_id, now),
            r is Err ==> final(self)@ == old(self)@,
    {
        match self.base(id, fresh_id, now) {
            None => Err(IdConflict),
            Some((base, pos)) => {
                let rec = Subscription {
                    payed_at: Some(payed_at),
                    payed_until: Some(payed_until),
                    updated_at: now,
                    ..base
                };
                self.put(pos, rec.duplicate(), Ghost(fresh_id), Ghost(now));
                Ok(rec)
            },
        }
    }

    /// Sets the buyer of the record under `id`; `None` where there is none.
    pub fn patch_buyer(&mut self, id: &String, buyer: String, now: i64) -> (r: Option<Subscription>)
        requires
            old(self).wf(),
        ensures
            final(self).wf(),
            match buyer_write(old(self)@, id@, buyer, now) {
                Some((m, rec)) => final(self)@ == m && r == Some(rec),
                None => final(self)@ == old(self)@ && r is None,
            },
    {
        match self.position(id) {
            None => None,
            Some(i) => {
                let rec = Subscription {
                    buyer_user_id: Some(buyer),
                    updated_at: now,
                    ..self.rows[i].duplicate()
                };
                self.replace(i, rec.duplicate());
                Some(rec)
            },
        }
    }
}

impl Subscription {
    /// The record stored under `stripe_subscription_id`.
    pub fn get<'a>(store: &'a SubscriptionStore, stripe_subscription_id: &String) -> (r: Option<&'a Subscription>)
        requires
            store.wf(),
        ensures
            r is Some <==> store@.contains_key(stripe_subscription_id@),
            r matches Some(rec) ==> *rec == store@[stripe_subscription_id@],
    {
        store.get(stripe_subscription_id)
    }

    /// Writes the checkout columns of the record under `stripe_subscription_id`,
    /// creating it under `fresh_id` if needed.
    pub fn put_checkout_session(
        store: &mut SubscriptionStore,
        stripe_subscription_id: &String,
        buyer_user_id: String,
        offer_id: u128,
        shop_id: u128,
        fresh_id: u128,
        now: i64,
    ) -> (r: UpsertResult)
        requires
            old(store).wf(),
        ensures
            final(store).wf(),
            outcome_of(r, final(store)@) == checkout_write(
                old(store)@,
                *stripe_subscription_id,
                buyer_user_id,
                offer_id,
                shop_id,
                fresh_id,
                now,
            ),
            r is Err ==> final(store)@ == old(store)@,
    {
        store.upsert_checkout(stripe_subscription_id, buyer_user_id, offer_id, shop_id, fresh_id, now)
    }

    /// Writes the lifecycle columns of the record under `stripe_subscription_id`
    /// and moves its watermark to `event_timestamp`, creating it under `fresh_id`
    /// if needed.
    pub fn put_subscription(
        store: &mut SubscriptionStore,
        stripe_subscription_id: &String,
        update: LifecycleUpdate,
        event_timestamp: i64,
        fresh_id: u128,
        now: i64,
    ) -> (r: UpsertResult)
        requires
            old(store).wf(),
        ensures
            final(store).wf(),
            outcome_of(r, final(store)@) == lifecycle_write(
                old(store)@,
                *stripe_subscription_id,
                update,
                event_timestamp,
                fresh_id,
                now,
            ),
            r is Err ==> final(store)@ == old(store)@,
    {
        store.upsert_lifecycle(stripe_subscription_id, update, event_timestamp, fresh_id, now)
    }

    /// Writes the payment columns of the record under `stripe_subscription_id`,
    /// creating it under `fresh_id` if needed.
    pub fn put_invoice(
        store: &mut SubscriptionStore,
        stripe_subscription_id: &String,
        payed_at: i64,
        payed_until: i64,
        fresh_id: u128,
        now: i64,
    ) -> (r: UpsertResult)
        requires
            old(store).wf(),
        ensures
            final(store).wf(),
            outcome_of(r, final(store)@) == invoice_write(
                old(store)@,
                *stripe_subscription_id,
                payed_at,
                payed_until,
                fresh_id,
                now,
            ),
            r is Err ==> final(store)@ == old(store)@,
    {
        store.upsert_invoice(stripe_subscription_id, payed_at, payed_until, fresh_id, now)
    }
}

} // verus!
