use crate::data::common::Broker;
use crate::data::db::BrokerDB;
use crate::data::hierarchy::App;
use vstd::prelude::*;

verus! {

/// A write to the store, in the order the program makes them: the list of
/// broker ids, a broker record under its key, or the removal of a broker's
/// record.
#[derive(Debug)]
pub enum StoreOp {
    PutIds(Vec<usize>),
    PutBroker(BrokerDB),
    RemoveBroker(usize),
}

/// `op` writes the list of broker ids `ids`.
pub open spec fn writes_ids(op: StoreOp, ids: Seq<usize>) -> bool {
    op matches StoreOp::PutIds(v) && v@ == ids
}

/// `op` writes the record of broker `b`.
pub open spec fn writes_broker(op: StoreOp, b: BrokerDB) -> bool {
    op matches StoreOp::PutBroker(x) && x.same(b)
}

/// The ledger of the store: the ids of the saved brokers, in the order they
/// were first saved, and the highest id handed out or seen.
#[derive(Debug)]
pub struct ArcDb {
    pub index: usize,
    pub ids: Vec<usize>,
}

impl Clone for ArcDb {
    fn clone(&self) -> (r: Self)
        ensures
            r.same(*self),
    {
        ArcDb { index: self.index, ids: self.ids.clone() }
    }
}

/// The largest of `start` and the ids in `ids`.
pub open spec fn max_id(start: usize, ids: Seq<usize>) -> usize
    decreases ids.len(),
{
    if ids.len() == 0 {
        start
    } else {
        let m = max_id(start, ids.drop_last());
        if ids.last() > m {
            ids.last()
        } else {
            m
        }
    }
}

/// The ledger's ids once broker `id` is saved: `id` added at the end when it
/// is new.
pub open spec fn saved_ids(ids: Seq<usize>, id: usize) -> Seq<usize> {
    if ids.contains(id) {
        ids
    } else {
        ids.push(id)
    }
}

/// The ledger's ids once broker `id` is deleted: its first occurrence
/// removed, when there is one.
pub open spec fn deleted_ids(ids: Seq<usize>, id: usize) -> Seq<usize> {
    if ids.contains(id) {
        ids.remove(first_index(ids, id))
    } else {
        ids
    }
}

/// The writes of saving broker `b` through a ledger whose ids were `ids`:
/// the extended id list first when `b`'s id is new, then the record.
pub open spec fn save_writes(ids: Seq<usize>, b: BrokerDB, ops: Seq<StoreOp>) -> bool {
    if ids.contains(b.id) {
        ops.len() == 1 && writes_broker(ops[0], b)
    } else {
        ops.len() == 2 && writes_ids(ops[0], ids.push(b.id)) && writes_broker(ops[1], b)
    }
}

impl ArcDb {
    /// Both ledgers hold the same index and ids.
    pub open spec fn same(self, other: ArcDb) -> bool {
        self.index == other.index && self.ids@ == other.ids@
    }

    /// The ledger of a store opened afresh: no ids, index 0.
    pub fn init_db() -> (r: Self)
        ensures
            r.index == 0,
            r.ids@ == Seq::<usize>::empty(),
    {
        ArcDb { index: 0, ids: Vec::new() }
    }

    /// Records that broker `broker` is saved, and gives back the writes that
    /// store it: the id list, when the id is new to the ledger, then the
    /// broker's record.
    pub fn save_broker(&mut self, broker: &BrokerDB) -> (ops: Vec<StoreOp>)
        ensures
            final(self).index == old(self).index,
            final(self).ids@ == saved_ids(old(self).ids@, broker.id),
            save_writes(old(self).ids@, *broker, ops@),
    {
        let id = broker.id;
        let mut ops: Vec<StoreOp> = Vec::new();
        if !contains_id(&self.ids, id) {
            self.ids.push(id);
            ops.push(self.update_ids());
        }
        ops.push(StoreOp::PutBroker(broker.clone()));
        ops
    }

    /// Drops broker `id` from the ledger and gives back the writes that remove
    /// it from the store: the id list, then the removal of the record. When
    /// the id is unknown nothing changes and nothing is written.
    pub fn delete_broker(&mut self, id: usize) -> (ops: Vec<StoreOp>)
        ensures
            final(self).index == old(self).index,
            final(self).ids@ == deleted_ids(old(self).ids@, id),
            !old(self).ids@.contains(id) ==> ops@.len() == 0,
            old(self).ids@.contains(id) ==> {
                &&& first_at(old(self).ids@, id, first_index(old(self).ids@, id))
                &&& ops@.len() == 2
                &&& writes_ids(ops@[0], final(self).ids@)
                &&& ops@[1] == StoreOp::RemoveBroker(id)
            },
    {
        let mut ops: Vec<StoreOp> = Vec::new();
        let mut k: usize = 0;
        while k < self.ids.len()
            invariant
                self.ids@ == old(self).ids@,
                self.index == old(self).index,
                ops@.len() == 0,
                0 <= k <= self.ids@.len(),
                forall|j: int| 0 <= j < k ==> self.ids@[j] != id,
            decreases self.ids@.len() - k,
        {
            if self.ids[k] == id {
                proof {
                    assert(self.ids@.contains(id));
                    lemma_first_index(self.ids@, id, k as int);
                }
                self.ids.remove(k);
                ops.push(self.update_ids());
                ops.push(StoreOp::RemoveBroker(id));
                return ops;
            }
            k = k + 1;
        }
        ops
    }

    /// The write of the current id list.
    fn update_ids(&self) -> (op: StoreOp)
        ensures
            writes_ids(op, self.ids@),
    {
        StoreOp::PutIds(self.ids.clone())
    }

    /// Hands out the next broker id: one past the highest so far.
    pub fn next_broker_id(&mut self) -> (id: usize)
        requires
            old(self).index < usize::MAX,
        ensures
            id == old(self).index + 1,
            final(self).index == id,
            final(self).ids@ == old(self).ids@,
    {
        self.index = self.index + 1;
        self.index
    }
}

/// `i` is the position of the first occurrence of `x` in `s`.
pub open spec fn first_at(s: Seq<usize>, x: usize, i: int) -> bool {
    0 <= i < s.len() && s[i] == x && forall|j: int| 0 <= j < i ==> s[j] != x
}

/// The position of the first occurrence of `x` in `s` (meaningful when `s`
/// contains `x`).
pub open spec fn first_index(s: Seq<usize>, x: usize) -> int {
    choose|i: int| first_at(s, x, i)
}

proof fn lemma_first_index(s: Seq<usize>, x: usize, i: int)
    requires
        first_at(s, x, i),
    ensures
        first_index(s, x) == i,
{
    let k = first_index(s, x);
    assert(first_at(s, x, k));
    if k < i {
        assert(s[k] != x);
    } else if k > i {
        assert(s[i] != x);
    }
}

/// The brokers found in the store: for each id, in order, its record when
/// there is one, with the id set to the id it was stored under.
pub open spec fn loaded_brokers(ids: Seq<usize>, records: Seq<Option<BrokerDB>>) -> Seq<BrokerDB>
    decreases ids.len(),
{
    if ids.len() == 0 || records.len() == 0 {
        Seq::empty()
    } else {
        let rest = loaded_brokers(ids.drop_last(), records.drop_last());
        match records.last() {
            Some(r) => rest.push(BrokerDB { id: ids.last(), ..r }),
            None => rest,
        }
    }
}

impl ArcDb {
    /// Builds the program's state from what the store holds: the stored list
    /// of broker ids, if any, and for each of its ids the stored record, if
    /// any.
    ///
    /// With no stored list the ledger is kept and there are no brokers. Else
    /// the ledger takes the stored ids, its index becomes the largest of its
    /// index and those ids, and the brokers are the records found, in the
    /// order of the ids, each with the id it was stored under; every broker,
    /// and the state, hold a copy of the ledger.
    pub fn read_app_data(&mut self, stored_ids: Option<Vec<usize>>, records: Vec<Option<BrokerDB>>) -> (app: App)
        requires
            stored_ids matches Some(ids) ==> records@.len() == ids@.len(),
        ensures
            app.db.same(*final(self)),
            app.hint@ == Seq::<char>::empty(),
            forall|i: int| 0 <= i < app.brokers@.len() ==> (#[trigger] app.brokers@[i]).db.same(*final(self)),
            stored_ids is None ==> *final(self) == *old(self) && app.brokers@.len() == 0,
            stored_ids matches Some(ids) ==> {
                &&& final(self).ids@ == ids@
                &&& final(self).index == max_id(old(self).index, ids@)
                &&& app.brokers@.len() == loaded_brokers(ids@, records@).len()
                &&& forall|i: int| 0 <= i < app.brokers@.len() ==> (#[trigger] app.brokers@[i]).data
                    == loaded_brokers(ids@, records@)[i]
            },
    {
        let mut brokers: Vec<Broker> = Vec::new();
        match stored_ids {
            None => {},
            Some(db_brokers_ids) => {
                let ghost ids = db_brokers_ids@;
                let n = db_brokers_ids.len();
                let mut i: usize = 0;
                while i < n
                    invariant
                        n == ids.len(),
                        db_brokers_ids@ == ids,
                        0 <= i <= n,
                        self.index == max_id(old(self).index, ids.take(i as int)),
                    decreases n - i,
                {
                    let id = db_brokers_ids[i];
                    assert(ids.take(i + 1).drop_last() =~= ids.take(i as int));
                    if id > self.index {
                        self.index = id;
                    }
                    i = i + 1;
                }
                assert(ids.take(n as int) =~= ids);
                self.ids = db_brokers_ids;
                let mut records = records;
                let ghost recs = records@;
                let mut k: usize = 0;
                while k < n
                    invariant
                        n == ids.len(),
                        self.ids@ == ids,
                        records@.len() == n,
                        recs.len() == n,
                        0 <= k <= n,
                        forall|j: int| k <= j < n ==> records@[j] == recs[j],
                        brokers@.len() == loaded_brokers(ids.take(k as int), recs.take(k as int)).len(),
                        forall|j: int|
                            0 <= j < brokers@.len() ==> (#[trigger] brokers@[j]).data == loaded_brokers(
                                ids.take(k as int),
                                recs.take(k as int),
                            )[j] && brokers@[j].db.same(*self),
                    decreases n - k,
                {
                    let id = self.ids[k];
                    proof {
                        assert(ids.take(k + 1).drop_last() =~= ids.take(k as int));
                        assert(recs.take(k + 1).drop_last() =~= recs.take(k as int));
                    }
                    let mut rec: Option<BrokerDB> = None;
                    std::mem::swap(&mut rec, &mut records[k]);
                    if let Some(mut broker) = rec {
                        broker.id = id;
                        brokers.push(broker.into_broker(self.clone()));
                    }
                    k = k + 1;
                }
                assert(ids.take(n as int) =~= ids);
                assert(recs.take(n as int) =~= recs);
            },
        }
        App { brokers, db: self.clone(), hint: String::new() }
    }
}

/// Saving keeps the ledger free of repeated ids.
pub proof fn law_saved_ids_unique(ids: Seq<usize>, id: usize)
    requires
        ids.no_duplicates(),
    ensures
        saved_ids(ids, id).no_duplicates(),
        saved_ids(ids, id).contains(id),
{
    if !ids.contains(id) {
        let s = ids.push(id);
        assert(s[ids.len() as int] == id);
        assert forall|i: int, j: int| 0 <= i < s.len() && 0 <= j < s.len() && i != j implies s[i]
            != s[j] by {
            if i < ids.len() && j < ids.len() {
                assert(s[i] == ids[i] && s[j] == ids[j]);
            } else if i < ids.len() {
                assert(s[i] == ids[i]);
            } else if j < ids.len() {
                assert(s[j] == ids[j]);
            }
        }
    } else {
        let k = choose|k: int| 0 <= k < ids.len() && ids[k] == id;
        assert(saved_ids(ids, id)[k] == id);
    }
}

/// Deleting keeps the ledger free of repeated ids, and then the deleted id
/// is gone from it.
pub proof fn law_deleted_ids_unique(ids: Seq<usize>, id: usize)
    requires
        ids.no_duplicates(),
    ensures
        deleted_ids(ids, id).no_duplicates(),
        !deleted_ids(ids, id).contains(id),
        forall|x: usize| x != id ==> (ids.contains(x) <==> deleted_ids(ids, id).contains(x)),
{
    if ids.contains(id) {
        let k0 = choose|k: int| 0 <= k < ids.len() && ids[k] == id;
        lemma_first_index_exists(ids, id, k0);
        let f = first_index(ids, id);
        let s = ids.remove(f);
        assert forall|i: int| 0 <= i < s.len() implies s[i] == (if i < f {
            ids[i]
        } else {
            ids[i + 1]
        }) by {}
        assert forall|i: int, j: int| 0 <= i < s.len() && 0 <= j < s.len() && i != j implies s[i]
            != s[j] by {
            let a = if i < f { i } else { i + 1 };
            let b = if j < f { j } else { j + 1 };
            assert(s[i] == ids[a] && s[j] == ids[b]);
        }
        if s.contains(id) {
            let i = choose|i: int| 0 <= i < s.len() && s[i] == id;
            let a = if i < f { i } else { i + 1 };
            assert(ids[a] == id && ids[f] == id && a != f);
        }
        assert forall|x: usize| x != id implies (ids.contains(x) <==> s.contains(x)) by {
            if ids.contains(x) {
                let i = choose|i: int| 0 <= i < ids.len() && ids[i] == x;
                assert(i != f);
                let t = if i < f { i } else { i - 1 };
                assert(s[t] == x);
            }
            if s.contains(x) {
                let i = choose|i: int| 0 <= i < s.len() && s[i] == x;
                let a = if i < f { i } else { i + 1 };
                assert(ids[a] == x);
            }
        }
    }
}

/// Saving a broker whose id is new and then deleting it gives back the
/// ledger's ids as they were.
pub proof fn law_delete_undoes_save(ids: Seq<usize>, id: usize)
    requires
        !ids.contains(id),
    ensures
        deleted_ids(saved_ids(ids, id), id) == ids,
{
    let s = ids.push(id);
    assert(s[ids.len() as int] == id);
    assert(s.contains(id));
    lemma_first_index(s, id, ids.len() as int);
    assert(s.remove(ids.len() as int) =~= ids);
}

/// An id one past the ledger's index is new to the ledger when no id of the
/// ledger exceeds the index.
pub proof fn law_next_broker_id_is_new(index: usize, ids: Seq<usize>)
    requires
        index < usize::MAX,
        forall|i: int| 0 <= i < ids.len() ==> ids[i] <= index,
    ensures
        !ids.contains((index + 1) as usize),
{
}

/// After the ledger takes the stored ids, its index is at least each of them,
/// so the next id it hands out is new.
pub proof fn law_loaded_index_covers_ids(start: usize, ids: Seq<usize>)
    ensures
        start <= max_id(start, ids),
        forall|i: int| 0 <= i < ids.len() ==> ids[i] <= max_id(start, ids),
    decreases ids.len(),
{
    if ids.len() > 0 {
        law_loaded_index_covers_ids(start, ids.drop_last());
        assert forall|i: int| 0 <= i < ids.len() implies ids[i] <= max_id(start, ids) by {
            if i < ids.len() - 1 {
                assert(ids.drop_last()[i] == ids[i]);
            }
        }
    }
}

/// Every broker found in the store has one of the stored ids.
pub proof fn law_loaded_brokers_are_listed(ids: Seq<usize>, records: Seq<Option<BrokerDB>>)
    ensures
        forall|i: int|
            0 <= i < loaded_brokers(ids, records).len() ==> ids.contains(
                #[trigger] loaded_brokers(ids, records)[i].id,
            ),
    decreases ids.len(),
{
    if ids.len() > 0 && records.len() > 0 {
        law_loaded_brokers_are_listed(ids.drop_last(), records.drop_last());
        let rest = loaded_brokers(ids.drop_last(), records.drop_last());
        let all = loaded_brokers(ids, records);
        assert forall|i: int| 0 <= i < all.len() implies ids.contains(#[trigger] all[i].id) by {
            if i < rest.len() {
                assert(all[i] == rest[i]);
                let k = choose|k: int| 0 <= k < ids.drop_last().len() && ids.drop_last()[k] == rest[i].id;
                assert(ids[k] == all[i].id);
            } else {
                assert(all[i].id == ids.last());
                assert(ids[ids.len() - 1] == all[i].id);
            }
        }
    }
}

/// The writes of deleting broker `id` through a ledger whose ids were `ids`:
/// the shortened id list, then the removal of the record; none when the id
/// is unknown.
pub open spec fn delete_writes(ids: Seq<usize>, id: usize, ops: Seq<StoreOp>) -> bool {
    if ids.contains(id) {
        ops.len() == 2 && writes_ids(ops[0], deleted_ids(ids, id)) && ops[1] == StoreOp::RemoveBroker(id)
    } else {
        ops.len() == 0
    }
}

/// The store once `op` is performed on it. The store holds the list of
/// broker ids, once one was written, and the broker records by id.
pub open spec fn store_after(
    store: (Option<Seq<usize>>, Map<usize, BrokerDB>),
    op: StoreOp,
) -> (Option<Seq<usize>>, Map<usize, BrokerDB>) {
    match op {
        StoreOp::PutIds(v) => (Some(v@), store.1),
        StoreOp::PutBroker(b) => (store.0, store.1.insert(b.id, b)),
        StoreOp::RemoveBroker(id) => (store.0, store.1.remove(id)),
    }
}

/// The store once the writes `ops` are performed on it, in order.
pub open spec fn store_after_all(
    store: (Option<Seq<usize>>, Map<usize, BrokerDB>),
    ops: Seq<StoreOp>,
) -> (Option<Seq<usize>>, Map<usize, BrokerDB>)
    decreases ops.len(),
{
    if ops.len() == 0 {
        store
    } else {
        store_after(store_after_all(store, ops.drop_last()), ops.last())
    }
}

/// The records `records` holds for `ids`, in order.
pub open spec fn stored_records(records: Map<usize, BrokerDB>, ids: Seq<usize>) -> Seq<Option<BrokerDB>> {
    Seq::new(
        ids.len(),
        |k: int|
            if records.contains_key(ids[k]) {
                Some(records[ids[k]])
            } else {
                None
            },
    )
}

/// The brokers that a start of the program loads from the store.
pub open spec fn brokers_in_store(store: (Option<Seq<usize>>, Map<usize, BrokerDB>)) -> Seq<BrokerDB> {
    match store.0 {
        None => Seq::empty(),
        Some(ids) => loaded_brokers(ids, stored_records(store.1, ids)),
    }
}

/// The ledger's ids are the store's list, or both are empty when no list was
/// ever written.
pub open spec fn ledger_matches(store: (Option<Seq<usize>>, Map<usize, BrokerDB>), ids: Seq<usize>) -> bool {
    match store.0 {
        None => ids.len() == 0,
        Some(stored) => stored == ids,
    }
}

proof fn lemma_loaded_includes(ids: Seq<usize>, records: Seq<Option<BrokerDB>>, k: int)
    requires
        ids.len() == records.len(),
        0 <= k < ids.len(),
        records[k] is Some,
    ensures
        exists|i: int|
            0 <= i < loaded_brokers(ids, records).len() && #[trigger] loaded_brokers(ids, records)[i]
                == (BrokerDB { id: ids[k], ..records[k]->0 }),
    decreases ids.len(),
{
    let all = loaded_brokers(ids, records);
    let rest = loaded_brokers(ids.drop_last(), records.drop_last());
    if k == ids.len() - 1 {
        assert(all[all.len() - 1] == (BrokerDB { id: ids[k], ..records[k]->0 }));
    } else {
        lemma_loaded_includes(ids.drop_last(), records.drop_last(), k);
        let i = choose|i: int|
            0 <= i < rest.len() && #[trigger] rest[i] == (BrokerDB {
                id: ids.drop_last()[k],
                ..records.drop_last()[k]->0
            });
        assert(all[i] == rest[i]);
    }
}

/// A saved broker is loaded again: when the ledger matches the store,
/// performing the writes of saving `b` leaves a store whose list is the
/// ledger's new ids and from which a start of the program loads `b`.
pub proof fn law_saved_broker_is_loaded(
    store: (Option<Seq<usize>>, Map<usize, BrokerDB>),
    ids: Seq<usize>,
    b: BrokerDB,
    ops: Seq<StoreOp>,
)
    requires
        ledger_matches(store, ids),
        save_writes(ids, b, ops),
    ensures
        ledger_matches(store_after_all(store, ops), saved_ids(ids, b.id)),
        exists|i: int|
            0 <= i < brokers_in_store(store_after_all(store, ops)).len()
                && (#[trigger] brokers_in_store(store_after_all(store, ops))[i]).same(b),
{
    let after = store_after_all(store, ops);
    let x = ops.last()->PutBroker_0;
    if ids.contains(b.id) {
        assert(ops.drop_last() =~= Seq::<StoreOp>::empty());
        assert(store_after_all(store, ops.drop_last()) == store);
        let k = choose|k: int| 0 <= k < ids.len() && ids[k] == b.id;
        assert(after.0 == Some(ids));
        assert(after.1[b.id] == x);
        let recs = stored_records(after.1, ids);
        assert(recs[k] == Some(x));
        lemma_loaded_includes(ids, recs, k);
        assert((BrokerDB { id: ids[k], ..recs[k]->0 }) == x);
        assert(ops.last() == ops[0]);
        let loaded = brokers_in_store(after);
        let i = choose|i: int|
            0 <= i < loaded.len() && #[trigger] loaded[i] == (BrokerDB { id: ids[k], ..recs[k]->0 });
        assert(loaded[i].same(b));
    } else {
        let ids2 = ids.push(b.id);
        assert(ops.drop_last().drop_last() =~= Seq::<StoreOp>::empty());
        assert(store_after_all(store, ops.drop_last().drop_last()) == store);
        assert(ops.drop_last().last() == ops[0]);
        assert(store_after_all(store, ops.drop_last()).0 == Some(ids2));
        assert(after.0 == Some(ids2));
        assert(after.1[b.id] == x);
        let k = ids.len() as int;
        assert(ids2[k] == b.id);
        let recs = stored_records(after.1, ids2);
        assert(recs[k] == Some(x));
        lemma_loaded_includes(ids2, recs, k);
        assert((BrokerDB { id: ids2[k], ..recs[k]->0 }) == x);
        assert(ops.last() == ops[1]);
        let loaded = brokers_in_store(after);
        let i = choose|i: int|
            0 <= i < loaded.len() && #[trigger] loaded[i] == (BrokerDB { id: ids2[k], ..recs[k]->0 });
        assert(loaded[i].same(b));
    }
}

/// A deleted broker is not loaded again: when the ledger matches the store
/// and holds no id twice, performing the writes of deleting `id` leaves a
/// store whose list is the ledger's new ids and from which no broker with
/// that id is loaded.
pub proof fn law_deleted_broker_is_not_loaded(
    store: (Option<Seq<usize>>, Map<usize, BrokerDB>),
    ids: Seq<usize>,
    id: usize,
    ops: Seq<StoreOp>,
)
    requires
        ledger_matches(store, ids),
        ids.no_duplicates(),
        delete_writes(ids, id, ops),
    ensures
        ledger_matches(store_after_all(store, ops), deleted_ids(ids, id)),
        forall|i: int|
            0 <= i < brokers_in_store(store_after_all(store, ops)).len() ==> (
            #[trigger] brokers_in_store(store_after_all(store, ops))[i]).id != id,
{
    let after = store_after_all(store, ops);
    law_deleted_ids_unique(ids, id);
    if ids.contains(id) {
        let ids2 = deleted_ids(ids, id);
        assert(ops.drop_last().drop_last() =~= Seq::<StoreOp>::empty());
        assert(store_after_all(store, ops.drop_last().drop_last()) == store);
        assert(ops.drop_last().last() == ops[0]);
        assert(store_after_all(store, ops.drop_last()).0 == Some(ids2));
        assert(ops.last() == ops[1]);
        assert(after.0 == Some(ids2));
        law_loaded_brokers_are_listed(ids2, stored_records(after.1, ids2));
    } else {
        assert(after == store);
        match store.0 {
            None => {},
            Some(stored) => {
                law_loaded_brokers_are_listed(stored, stored_records(store.1, stored));
            },
        }
    }
}

proof fn lemma_first_index_exists(s: Seq<usize>, x: usize, k: int)
    requires
        0 <= k < s.len(),
        s[k] == x,
    ensures
        first_at(s, x, first_index(s, x)),
    decreases k,
{
    if exists|j: int| 0 <= j < k && s[j] == x {
        let j = choose|j: int| 0 <= j < k && s[j] == x;
        lemma_first_index_exists(s, x, j);
    } else {
        assert(first_at(s, x, k));
    }
}

/// Whether `id` occurs in `ids`.
fn contains_id(ids: &Vec<usize>, id: usize) -> (r: bool)
    ensures
        r == ids@.contains(id),
{
    let mut k: usize = 0;
    while k < ids.len()
        invariant
            0 <= k <= ids@.len(),
            forall|j: int| 0 <= j < k ==> ids@[j] != id,
        decreases ids@.len() - k,
    {
        if ids[k] == id {
            assert(ids@[k as int] == id);
            return true;
        }
        k = k + 1;
    }
    false
}

} // verus!
