use crate::command::error::Error;
use crate::data::common::{Broker, PublishHis, PublishInput, SubscribeHis, SubscribeInput};
use crate::data::db::BrokerDB;
use crate::command::view::{is_view_of, BrokerList, BrokerView};
use crate::util::db::{deleted_ids, law_deleted_ids_unique, save_writes, saved_ids, writes_ids, ArcDb, StoreOp};
use crate::util::decimal;
use crate::util::push_decimal;
use vstd::prelude::*;
use vstd::std_specs::cmp::PartialEqSpec;
use vstd::std_specs::convert::FromSpec;

verus! {

/// The state of the program: the known brokers and the store ledger.
#[derive(Debug)]
pub struct App {
    pub brokers: Vec<Broker>,
    pub db: ArcDb,
    pub hint: String,
}

/// An unsubscription being tracked: the packet id of the subscription and
/// that of its unsubscription.
#[derive(Debug, Clone, Copy, PartialEq, Eq, Structural)]
pub struct UnsubcribeTracing {
    pub subscribe_pk_id: u32,
    pub unsubscribe_pk_id: u32,
}

/// `i` is the position of the first broker with id `id`.
pub open spec fn first_broker(brokers: Seq<Broker>, id: usize, i: int) -> bool {
    0 <= i < brokers.len() && brokers[i].data.id == id && forall|j: int|
        0 <= j < i ==> brokers[j].data.id != id
}

/// Some broker has id `id`.
pub open spec fn has_broker(brokers: Seq<Broker>, id: usize) -> bool {
    exists|i: int| 0 <= i < brokers.len() && brokers[i].data.id == id
}

/// `j` is the position of the first entry of `list` equal to `his`.
pub open spec fn first_his<T: PartialEq>(list: Seq<T>, his: T, j: int) -> bool {
    0 <= j < list.len() && list[j].eq_spec(&his) && forall|k: int|
        0 <= k < j ==> !list[k].eq_spec(&his)
}

/// Some entry of `list` equals `his`.
pub open spec fn has_his<T: PartialEq>(list: Seq<T>, his: T) -> bool {
    exists|j: int| 0 <= j < list.len() && list[j].eq_spec(&his)
}

/// A message made of a text and a number in decimal.
pub open spec fn numbered(text: Seq<char>, n: usize) -> Seq<char> {
    text + decimal(n as nat)
}

fn numbered_message(text: &str, n: usize) -> (r: String)
    ensures
        r@ == numbered(text@, n),
{
    let mut s = text.to_string();
    push_decimal(&mut s, n);
    s
}

/// The position of the first broker with id `id`, if any.
fn position_of_broker(brokers: &Vec<Broker>, id: usize) -> (r: Option<usize>)
    ensures
        r matches Some(i) ==> first_broker(brokers@, id, i as int),
        r is None ==> !has_broker(brokers@, id),
{
    let mut i: usize = 0;
    while i < brokers.len()
        invariant
            0 <= i <= brokers@.len(),
            forall|j: int| 0 <= j < i ==> brokers@[j].data.id != id,
        decreases brokers@.len() - i,
    {
        if brokers[i].data.id == id {
            return Some(i);
        }
        i = i + 1;
    }
    None
}

/// The position of the first entry of `list` equal to `his`, if any.
fn position_of_subscribe_his(list: &Vec<SubscribeHis>, his: &SubscribeHis) -> (r: Option<usize>)
    ensures
        r matches Some(j) ==> first_his(list@, *his, j as int),
        r is None ==> !has_his(list@, *his),
{
    let mut j: usize = 0;
    while j < list.len()
        invariant
            0 <= j <= list@.len(),
            forall|k: int| 0 <= k < j ==> !list@[k].eq_spec(his),
        decreases list@.len() - j,
    {
        if list[j] == *his {
            return Some(j);
        }
        j = j + 1;
    }
    None
}

/// The position of the first entry of `list` equal to `his`, if any.
fn position_of_publish_his(list: &Vec<PublishHis>, his: &PublishHis) -> (r: Option<usize>)
    ensures
        r matches Some(j) ==> first_his(list@, *his, j as int),
        r is None ==> !has_his(list@, *his),
{
    let mut j: usize = 0;
    while j < list.len()
        invariant
            0 <= j <= list@.len(),
            forall|k: int| 0 <= k < j ==> !list@[k].eq_spec(his),
        decreases list@.len() - j,
    {
        if list[j] == *his {
            return Some(j);
        }
        j = j + 1;
    }
    None
}

impl App {
    /// Stores a new or edited broker.
    ///
    /// The ledger records the broker's id and the writes to apply to the store
    /// come back first: the id list when the id is new, then the record. A new
    /// id adds the broker at the end of the list; a known id replaces the data
    /// of the first broker with that id, and fails with "could not find broker"
    /// (the list unchanged) when no broker has it.
    pub fn save_broker(&mut self, data: BrokerDB) -> (r: (Vec<StoreOp>, Result<(), Error>))
        ensures
            save_broker_post(*old(self), data, *final(self), r),
    {
        let ghost pre = *self;
        let ops = self.db.save_broker(&data);
        if ops.len() == 2 {
            let db = self.db.clone();
            self.brokers.push(data.into_broker(db));
            assert(self.brokers@.drop_last() =~= pre.brokers@);
            (ops, Ok(()))
        } else {
            match position_of_broker(&self.brokers, data.id) {
                Some(i) => {
                    let ghost b = Broker { data: data, db: pre.brokers@[i as int].db };
                    self.brokers[i].data = data;
                    assert(self.brokers@ =~= pre.brokers@.update(i as int, b));
                    (ops, Ok(()))
                },
                None => (ops, Err(Error::init("could not find broker".to_string()))),
            }
        }
    }

    /// The position of the first broker with id `id`; fails with
    /// "could not find broker:" and the id when there is none.
    fn find_mut_broker_by_id(&self, id: usize) -> (r: Result<usize, Error>)
        ensures
            r matches Ok(i) ==> first_broker(self.brokers@, id, i as int),
            r matches Err(e) ==> !has_broker(self.brokers@, id) && e.msg@ == numbered(
                "could not find broker:"@,
                id,
            ),
            !has_broker(self.brokers@, id) ==> r is Err,
    {
        match position_of_broker(&self.brokers, id) {
            Some(i) => Ok(i),
            None => Err(Error::init(numbered_message("could not find broker:", id))),
        }
    }
    /// Remembers a subscription in the history of broker `sub.broker_id`.
    ///
    /// Fails with "could not find broker:" and the id when no broker has it,
    /// changing nothing. When the history already holds an equal entry
    /// nothing changes and nothing is written. Else the entry is appended to
    /// the history of the first broker with that id, and the writes that store
    /// that broker come back.
    pub fn update_subscribe_his(&mut self, sub: SubscribeInput) -> (r: Result<Vec<StoreOp>, Error>)
        ensures
            update_subscribe_his_post(*old(self), sub, *final(self), r),
    {
        let id = sub.broker_id;
        let i = self.find_mut_broker_by_id(id)?;
        let his: SubscribeHis = SubscribeHis::from(sub);
        if position_of_subscribe_his(&self.brokers[i].data.subscribe_his, &his).is_some() {
            return Ok(Vec::new());
        }
        let broker = &mut self.brokers[i];
        broker.data.subscribe_his.push(his);
        let ops = broker.db.save_broker(&broker.data);
        Ok(ops)
    }

    /// Remembers a publication in the history of broker `sub.broker_id`; as
    /// `update_subscribe_his`, for the publish history.
    pub fn update_publish_his(&mut self, sub: PublishInput) -> (r: Result<Vec<StoreOp>, Error>)
        ensures
            update_publish_his_post(*old(self), sub, *final(self), r),
    {
        let id = sub.broker_id;
        let i = self.find_mut_broker_by_id(id)?;
        let his: PublishHis = PublishHis::from(sub);
        if position_of_publish_his(&self.brokers[i].data.publish_his, &his).is_some() {
            return Ok(Vec::new());
        }
        let broker = &mut self.brokers[i];
        broker.data.publish_his.push(his);
        let ops = broker.db.save_broker(&broker.data);
        Ok(ops)
    }
}

impl App {
    /// Forgets an entry of the subscribe history of broker `broker_id`.
    ///
    /// Fails with "not found broker " and the id when no broker has it, and
    /// with "not found publish his" when the history of the first broker with
    /// that id holds no equal entry; both change nothing. Else the first equal
    /// entry is removed and the writes that store the broker come back.
    pub fn delete_subscribe_his(&mut self, broker_id: usize, his: SubscribeHis) -> (r: Result<
        Vec<StoreOp>,
        Error,
    >)
        ensures
            delete_subscribe_his_post(*old(self), broker_id, his, *final(self), r),
    {
        let i = match position_of_broker(&self.brokers, broker_id) {
            Some(i) => i,
            None => {
                return Error::init_rs(numbered_message("not found broker ", broker_id));
            },
        };
        let j = match position_of_subscribe_his(&self.brokers[i].data.subscribe_his, &his) {
            Some(j) => j,
            None => {
                return Error::init_rs("not found publish his".to_string());
            },
        };
        let broker = &mut self.brokers[i];
        let _removed = broker.data.subscribe_his.remove(j);
        let ops = broker.db.save_broker(&broker.data);
        Ok(ops)
    }

    /// Forgets an entry of the publish history of broker `broker_id`; as
    /// `delete_subscribe_his`, for the publish history.
    pub fn delete_publish_his(&mut self, broker_id: usize, his: PublishHis) -> (r: Result<
        Vec<StoreOp>,
        Error,
    >)
        ensures
            delete_publish_his_post(*old(self), broker_id, his, *final(self), r),
    {
        let i = match position_of_broker(&self.brokers, broker_id) {
            Some(i) => i,
            None => {
                return Error::init_rs(numbered_message("not found broker ", broker_id));
            },
        };
        let j = match position_of_publish_his(&self.brokers[i].data.publish_his, &his) {
            Some(j) => j,
            None => {
                return Error::init_rs("not found publish his".to_string());
            },
        };
        let broker = &mut self.brokers[i];
        let _removed = broker.data.publish_his.remove(j);
        let ops = broker.db.save_broker(&broker.data);
        Ok(ops)
    }

    /// The publish history of broker `broker_id`, newest first; empty when no
    /// broker has the id.
    pub fn publish_his(&self, broker_id: usize) -> (r: Vec<PublishHis>)
        ensures
            !has_broker(self.brokers@, broker_id) ==> r@ == Seq::<PublishHis>::empty(),
            has_broker(self.brokers@, broker_id) ==> exists|i: int|
                first_broker(self.brokers@, broker_id, i) && r@ == self.brokers@[i].data.publish_his@.reverse(),
    {
        let mut rs: Vec<PublishHis> = Vec::new();
        if let Some(i) = position_of_broker(&self.brokers, broker_id) {
            let list = &self.brokers[i].data.publish_his;
            let n = list.len();
            let mut k: usize = n;
            while k > 0
                invariant
                    n == list@.len(),
                    k <= n,
                    rs@ == list@.subrange(k as int, n as int).reverse(),
                decreases k,
            {
                k = k - 1;
                rs.push(list[k].clone());
                assert(rs@ =~= list@.subrange(k as int, n as int).reverse());
            }
            assert(list@.subrange(0, n as int) =~= list@);
        }
        rs
    }

    /// The subscribe history of broker `broker_id`, newest first; empty when
    /// no broker has the id.
    pub fn subscribe_his(&self, broker_id: usize) -> (r: Vec<SubscribeHis>)
        ensures
            !has_broker(self.brokers@, broker_id) ==> r@ == Seq::<SubscribeHis>::empty(),
            has_broker(self.brokers@, broker_id) ==> exists|i: int|
                first_broker(self.brokers@, broker_id, i) && r@ == self.brokers@[i].data.subscribe_his@.reverse(),
    {
        let mut rs: Vec<SubscribeHis> = Vec::new();
        if let Some(i) = position_of_broker(&self.brokers, broker_id) {
            let list = &self.brokers[i].data.subscribe_his;
            let n = list.len();
            let mut k: usize = n;
            while k > 0
                invariant
                    n == list@.len(),
                    k <= n,
                    rs@ == list@.subrange(k as int, n as int).reverse(),
                decreases k,
            {
                k = k - 1;
                rs.push(list[k].clone());
                assert(rs@ =~= list@.subrange(k as int, n as int).reverse());
            }
            assert(list@.subrange(0, n as int) =~= list@);
        }
        rs
    }
}

/// The brokers kept when broker `id` is deleted: all those with another id.
pub open spec fn brokers_without(brokers: Seq<Broker>, id: usize) -> Seq<Broker> {
    brokers.filter(|b: Broker| b.data.id != id)
}

impl App {
    /// Deletes broker `id`: every broker with that id leaves the list, the
    /// ledger drops the id, and the writes that remove it from the store come
    /// back (none when the ledger did not know the id).
    pub fn delete_broker(&mut self, id: usize) -> (ops: Vec<StoreOp>)
        ensures
            delete_broker_post(*old(self), id, *final(self), ops@),
    {
        let ghost orig = self.brokers@;
        let mut rest: Vec<Broker> = Vec::new();
        std::mem::swap(&mut rest, &mut self.brokers);
        while rest.len() > 0
            invariant
                self.db == old(self).db,
                self.hint == old(self).hint,
                rest@.len() <= orig.len(),
                rest@ == orig.skip(orig.len() - rest@.len()),
                self.brokers@ == brokers_without(orig.take(orig.len() - rest@.len()), id),
            decreases rest@.len(),
        {
            let ghost k = orig.len() - rest@.len();
            proof {
                reveal_with_fuel(Seq::<_>::filter, 1);
                assert(orig.take(k + 1).drop_last() =~= orig.take(k));
                assert(orig.take(k + 1).last() == orig[k]);
                assert(rest@[0] == orig[k]);
                assert(brokers_without(orig.take(k + 1), id) == if orig[k].data.id != id {
                    brokers_without(orig.take(k), id).push(orig[k])
                } else {
                    brokers_without(orig.take(k), id)
                });
            }
            let b = rest.remove(0);
            if b.data.id != id {
                self.brokers.push(b);
            }
            assert(rest@ =~= orig.skip(k + 1));
        }
        assert(orig.take(orig.len() as int) =~= orig);
        self.db.delete_broker(id)
    }

    /// The view of every broker, in order.
    pub fn broker_list(&self) -> (r: BrokerList)
        ensures
            r.brokers@.len() == self.brokers@.len(),
            forall|i: int|
                0 <= i < self.brokers@.len() ==> is_view_of(
                    self.brokers@[i].data,
                    #[trigger] r.brokers@[i],
                ),
    {
        let mut brokers: Vec<BrokerView> = Vec::new();
        let mut i: usize = 0;
        while i < self.brokers.len()
            invariant
                0 <= i <= self.brokers@.len(),
                brokers@.len() == i,
                forall|j: int| 0 <= j < i ==> is_view_of(self.brokers@[j].data, #[trigger] brokers@[j]),
            decreases self.brokers@.len() - i,
        {
            let data = self.brokers[i].data.clone();
            brokers.push(BrokerView::from(data));
            i = i + 1;
        }
        BrokerList { brokers }
    }

    /// A copy of the first broker with id `id`, to connect to; fails with
    /// "not found broker " and the id when no broker has it.
    pub fn connect_to_broker(&self, id: usize) -> (r: Result<Broker, Error>)
        ensures
            !has_broker(self.brokers@, id) ==> (r matches Err(e) && e.msg@ == numbered(
                "not found broker "@,
                id,
            )),
            has_broker(self.brokers@, id) ==> exists|i: int|
                first_broker(self.brokers@, id, i) && (r matches Ok(b) && b.data.same(
                    self.brokers@[i].data,
                ) && b.db.same(self.brokers@[i].db)),
    {
        match position_of_broker(&self.brokers, id) {
            Some(i) => Ok(self.brokers[i].clone()),
            None => Error::init_rs(numbered_message("not found broker ", id)),
        }
    }
}

/// What saving broker `data` does to the state `pre`, giving `post` and the
/// writes and outcome `r`. The ledger records the id and the writes are those
/// of storing the broker (the id list first when the id is new). A new id
/// adds the broker at the end of the list; a known id replaces the data of
/// the first broker with that id, or fails with "could not find broker",
/// the list unchanged, when no broker has it.
pub open spec fn save_broker_post(
    pre: App,
    data: BrokerDB,
    post: App,
    r: (Vec<StoreOp>, Result<(), Error>),
) -> bool {
    &&& save_writes(pre.db.ids@, data, r.0@)
    &&& post.db.index == pre.db.index
    &&& post.db.ids@ == saved_ids(pre.db.ids@, data.id)
    &&& post.hint == pre.hint
    &&& !pre.db.ids@.contains(data.id) ==> {
        &&& r.1 is Ok
        &&& post.brokers@.len() == pre.brokers@.len() + 1
        &&& post.brokers@.drop_last() == pre.brokers@
        &&& post.brokers@.last().data == data
        &&& post.brokers@.last().db.same(post.db)
    }
    &&& pre.db.ids@.contains(data.id) ==> {
        if has_broker(pre.brokers@, data.id) {
            exists|i: int|
                first_broker(pre.brokers@, data.id, i) && r.1 is Ok && post.brokers@
                    == pre.brokers@.update(i, (Broker { data: data, db: pre.brokers@[i].db }))
        } else {
            &&& r.1 matches Err(e) && e.msg@ == "could not find broker"@
            &&& post.brokers@ == pre.brokers@
        }
    }
}

/// What remembering subscription `sub` does to the state `pre`, giving
/// `post` and the result `r`: failure with "could not find broker:" and the
/// id, nothing changed, when no broker has the id; else the outcome of adding
/// the entry to the history of the first broker with that id.
pub open spec fn update_subscribe_his_post(
    pre: App,
    sub: SubscribeInput,
    post: App,
    r: Result<Vec<StoreOp>, Error>,
) -> bool {
    &&& !has_broker(pre.brokers@, sub.broker_id) ==> {
        &&& r matches Err(e) && e.msg@ == numbered("could not find broker:"@, sub.broker_id)
        &&& post == pre
    }
    &&& has_broker(pre.brokers@, sub.broker_id) ==> exists|i: int|
        first_broker(pre.brokers@, sub.broker_id, i) && subscribe_his_added(
            pre,
            post,
            i,
            SubscribeHis::from_spec(sub),
            r,
        )
}

/// What remembering publication `sub` does to the state `pre`; as
/// `update_subscribe_his_post`, for the publish history.
pub open spec fn update_publish_his_post(
    pre: App,
    sub: PublishInput,
    post: App,
    r: Result<Vec<StoreOp>, Error>,
) -> bool {
    &&& !has_broker(pre.brokers@, sub.broker_id) ==> {
        &&& r matches Err(e) && e.msg@ == numbered("could not find broker:"@, sub.broker_id)
        &&& post == pre
    }
    &&& has_broker(pre.brokers@, sub.broker_id) ==> exists|i: int|
        first_broker(pre.brokers@, sub.broker_id, i) && publish_his_added(
            pre,
            post,
            i,
            PublishHis::from_spec(sub),
            r,
        )
}

/// What forgetting subscribe history entry `his` of broker `broker_id` does
/// to the state `pre`, giving `post` and the result `r`.
pub open spec fn delete_subscribe_his_post(
    pre: App,
    broker_id: usize,
    his: SubscribeHis,
    post: App,
    r: Result<Vec<StoreOp>, Error>,
) -> bool {
    &&& !has_broker(pre.brokers@, broker_id) ==> {
        &&& r matches Err(e) && e.msg@ == numbered("not found broker "@, broker_id)
        &&& post == pre
    }
    &&& has_broker(pre.brokers@, broker_id) ==> exists|i: int|
        first_broker(pre.brokers@, broker_id, i) && {
            let list = pre.brokers@[i].data.subscribe_his@;
            if has_his(list, his) {
                exists|j: int|
                    first_his(list, his, j) && {
                        &&& only_broker_changed(pre, post, i)
                        &&& post.brokers@[i].data.same_settings(pre.brokers@[i].data)
                        &&& post.brokers@[i].data.publish_his@ == pre.brokers@[i].data.publish_his@
                        &&& post.brokers@[i].data.subscribe_his@ == list.remove(j)
                        &&& r matches Ok(ops) && broker_saved(pre, post, i, ops@)
                    }
            } else {
                &&& r matches Err(e) && e.msg@ == "not found publish his"@
                &&& post == pre
            }
        }
}

/// What forgetting publish history entry `his` of broker `broker_id` does to
/// the state `pre`, giving `post` and the result `r`.
pub open spec fn delete_publish_his_post(
    pre: App,
    broker_id: usize,
    his: PublishHis,
    post: App,
    r: Result<Vec<StoreOp>, Error>,
) -> bool {
    &&& !has_broker(pre.brokers@, broker_id) ==> {
        &&& r matches Err(e) && e.msg@ == numbered("not found broker "@, broker_id)
        &&& post == pre
    }
    &&& has_broker(pre.brokers@, broker_id) ==> exists|i: int|
        first_broker(pre.brokers@, broker_id, i) && {
            let list = pre.brokers@[i].data.publish_his@;
            if has_his(list, his) {
                exists|j: int|
                    first_his(list, his, j) && {
                        &&& only_broker_changed(pre, post, i)
                        &&& post.brokers@[i].data.same_settings(pre.brokers@[i].data)
                        &&& post.brokers@[i].data.subscribe_his@ == pre.brokers@[i].data.subscribe_his@
                        &&& post.brokers@[i].data.publish_his@ == list.remove(j)
                        &&& r matches Ok(ops) && broker_saved(pre, post, i, ops@)
                    }
            } else {
                &&& r matches Err(e) && e.msg@ == "not found publish his"@
                &&& post == pre
            }
        }
}

/// What deleting broker `id` does to the state `pre`, giving `post` and the
/// writes `ops`: every broker with that id leaves the list, the ledger drops
/// the id, and the writes remove it from the store (none when the ledger did
/// not know the id).
pub open spec fn delete_broker_post(pre: App, id: usize, post: App, ops: Seq<StoreOp>) -> bool {
    &&& post.brokers@ == brokers_without(pre.brokers@, id)
    &&& post.hint == pre.hint
    &&& post.db.index == pre.db.index
    &&& post.db.ids@ == deleted_ids(pre.db.ids@, id)
    &&& !pre.db.ids@.contains(id) ==> ops.len() == 0
    &&& pre.db.ids@.contains(id) ==> {
        &&& ops.len() == 2
        &&& writes_ids(ops[0], post.db.ids@)
        &&& ops[1] == StoreOp::RemoveBroker(id)
    }
}

/// Only the broker at `i` changed, and within it only its data and ledger.
pub open spec fn only_broker_changed(pre: App, post: App, i: int) -> bool {
    &&& post.db == pre.db
    &&& post.hint == pre.hint
    &&& post.brokers@.len() == pre.brokers@.len()
    &&& forall|j: int| 0 <= j < pre.brokers@.len() && j != i ==> post.brokers@[j] == pre.brokers@[j]
}

/// The broker at `i` was stored again: its ledger records its id and `ops`
/// are the writes that store it.
pub open spec fn broker_saved(pre: App, post: App, i: int, ops: Seq<StoreOp>) -> bool {
    let b = pre.brokers@[i];
    let a = post.brokers@[i];
    &&& a.db.index == b.db.index
    &&& a.db.ids@ == saved_ids(b.db.ids@, a.data.id)
    &&& save_writes(b.db.ids@, a.data, ops)
}

/// The outcome of adding `his` to the subscribe history of the broker at `i`:
/// nothing when an equal entry is there, else `his` appended and the broker
/// stored again.
pub open spec fn subscribe_his_added(
    pre: App,
    post: App,
    i: int,
    his: SubscribeHis,
    r: Result<Vec<StoreOp>, Error>,
) -> bool {
    let list = pre.brokers@[i].data.subscribe_his@;
    if has_his(list, his) {
        r matches Ok(ops) && ops@.len() == 0 && post == pre
    } else {
        &&& only_broker_changed(pre, post, i)
        &&& post.brokers@[i].data.same_settings(pre.brokers@[i].data)
        &&& post.brokers@[i].data.publish_his@ == pre.brokers@[i].data.publish_his@
        &&& post.brokers@[i].data.subscribe_his@ == list.push(his)
        &&& r matches Ok(ops) && broker_saved(pre, post, i, ops@)
    }
}

/// The outcome of adding `his` to the publish history of the broker at `i`:
/// nothing when an equal entry is there, else `his` appended and the broker
/// stored again.
pub open spec fn publish_his_added(
    pre: App,
    post: App,
    i: int,
    his: PublishHis,
    r: Result<Vec<StoreOp>, Error>,
) -> bool {
    let list = pre.brokers@[i].data.publish_his@;
    if has_his(list, his) {
        r matches Ok(ops) && ops@.len() == 0 && post == pre
    } else {
        &&& only_broker_changed(pre, post, i)
        &&& post.brokers@[i].data.same_settings(pre.brokers@[i].data)
        &&& post.brokers@[i].data.subscribe_his@ == pre.brokers@[i].data.subscribe_his@
        &&& post.brokers@[i].data.publish_his@ == list.push(his)
        &&& r matches Ok(ops) && broker_saved(pre, post, i, ops@)
    }
}


/// Every known broker's id is in the ledger.
pub open spec fn consistent(app: App) -> bool {
    forall|i: int| 0 <= i < app.brokers@.len() ==> app.db.ids@.contains(#[trigger] app.brokers@[i].data.id)
}

/// No history of any broker holds two equal entries.
pub open spec fn histories_unique(app: App) -> bool {
    forall|i: int|
        0 <= i < app.brokers@.len() ==> unique_his(#[trigger] app.brokers@[i].data.subscribe_his@)
            && unique_his(app.brokers@[i].data.publish_his@)
}

/// No two entries of `list` are equal.
pub open spec fn unique_his<T: PartialEq>(list: Seq<T>) -> bool {
    forall|j: int, k: int| 0 <= j < k < list.len() ==> !list[j].eq_spec(&list[k])
}

proof fn lemma_first_broker_unique(brokers: Seq<Broker>, id: usize, i: int, k: int)
    requires
        first_broker(brokers, id, i),
        first_broker(brokers, id, k),
    ensures
        i == k,
{
    if i < k {
        assert(brokers[i].data.id != id);
    } else if k < i {
        assert(brokers[k].data.id != id);
    }
}

/// Reading after writing: once a broker is saved (successfully) into a state
/// whose brokers are all in the ledger, the first broker with its id holds
/// exactly the saved data, and the brokers are still all in the ledger.
pub proof fn law_save_then_find(pre: App, data: BrokerDB, post: App, r: (
    Vec<StoreOp>,
    Result<(), Error>,
))
    requires
        consistent(pre),
        save_broker_post(pre, data, post, r),
    ensures
        consistent(post),
        r.1 is Ok ==> exists|i: int|
            first_broker(post.brokers@, data.id, i) && post.brokers@[i].data == data,
{
    if !pre.db.ids@.contains(data.id) {
        let n = pre.brokers@.len() as int;
        assert forall|j: int| 0 <= j < n implies post.brokers@[j].data.id != data.id by {
            assert(post.brokers@[j] == post.brokers@.drop_last()[j]);
            assert(pre.db.ids@.contains(pre.brokers@[j].data.id));
        }
        assert(first_broker(post.brokers@, data.id, n));
        assert forall|j: int| 0 <= j < post.brokers@.len() implies post.db.ids@.contains(
            #[trigger] post.brokers@[j].data.id,
        ) by {
            if j < n {
                assert(post.brokers@[j] == post.brokers@.drop_last()[j]);
                assert(pre.db.ids@.contains(pre.brokers@[j].data.id));
                let k = choose|k: int| 0 <= k < pre.db.ids@.len() && pre.db.ids@[k] == pre.brokers@[j].data.id;
                assert(post.db.ids@[k] == pre.db.ids@[k]);
            } else {
                assert(post.db.ids@[pre.db.ids@.len() as int] == data.id);
            }
        }
    } else if has_broker(pre.brokers@, data.id) {
        let i = choose|i: int|
            first_broker(pre.brokers@, data.id, i) && r.1 is Ok && post.brokers@
                == pre.brokers@.update(i, (Broker { data: data, db: pre.brokers@[i].db }));
        assert(first_broker(post.brokers@, data.id, i));
        assert forall|j: int| 0 <= j < post.brokers@.len() implies post.db.ids@.contains(
            #[trigger] post.brokers@[j].data.id,
        ) by {
            assert(pre.db.ids@.contains(pre.brokers@[j].data.id));
        }
    } else {
        assert forall|j: int| 0 <= j < post.brokers@.len() implies post.db.ids@.contains(
            #[trigger] post.brokers@[j].data.id,
        ) by {
            assert(pre.db.ids@.contains(pre.brokers@[j].data.id));
        }
    }
}

/// After deleting a broker no broker has its id; the brokers left keep
/// their order, and, with a ledger free of repeated ids, are all still in
/// the ledger.
pub proof fn law_delete_broker_forgets(pre: App, id: usize, post: App, ops: Seq<StoreOp>)
    requires
        consistent(pre),
        pre.db.ids@.no_duplicates(),
        delete_broker_post(pre, id, post, ops),
    ensures
        !has_broker(post.brokers@, id),
        consistent(post),
        !post.db.ids@.contains(id),
{
    reveal_with_fuel(Seq::<_>::filter, 1);
    let pred = |b: Broker| b.data.id != id;
    assert(post.brokers@ == pre.brokers@.filter(pred));
    if has_broker(post.brokers@, id) {
        let i = choose|i: int| 0 <= i < post.brokers@.len() && post.brokers@[i].data.id == id;
        pre.brokers@.lemma_filter_pred(pred, i);
    }
    law_deleted_ids_unique(pre.db.ids@, id);
    assert forall|j: int| 0 <= j < post.brokers@.len() implies post.db.ids@.contains(
        #[trigger] post.brokers@[j].data.id,
    ) by {
        pre.brokers@.lemma_filter_pred(pred, j);
        pre.brokers@.lemma_filter_contains_rev(pred, post.brokers@[j]);
        let k = choose|k: int| 0 <= k < pre.brokers@.len() && pre.brokers@[k] == post.brokers@[j];
        assert(pre.db.ids@.contains(pre.brokers@[k].data.id));
    }
}

/// Appending an entry that the list does not hold keeps the list free of
/// equal entries.
proof fn lemma_push_keeps_unique<T: PartialEq>(list: Seq<T>, his: T)
    requires
        unique_his(list),
        !has_his(list, his),
    ensures
        unique_his(list.push(his)),
{
    let l = list.push(his);
    assert forall|a: int, b: int| 0 <= a < b < l.len() implies !l[a].eq_spec(&l[b]) by {
        assert(l[a] == list[a]);
        if b < list.len() {
            assert(l[b] == list[b]);
        } else {
            assert(l[b] == his);
        }
    }
}

/// Remembering a subscription keeps every history free of equal entries.
pub proof fn law_update_subscribe_his_keeps_unique(
    pre: App,
    sub: SubscribeInput,
    post: App,
    r: Result<Vec<StoreOp>, Error>,
)
    requires
        histories_unique(pre),
        update_subscribe_his_post(pre, sub, post, r),
    ensures
        histories_unique(post),
{
    let his = SubscribeHis::from_spec(sub);
    if has_broker(pre.brokers@, sub.broker_id) {
        let i = choose|i: int|
            first_broker(pre.brokers@, sub.broker_id, i) && subscribe_his_added(pre, post, i, his, r);
        let list = pre.brokers@[i].data.subscribe_his@;
        if !has_his(list, his) {
            lemma_push_keeps_unique(list, his);
            assert forall|j: int| 0 <= j < post.brokers@.len() implies unique_his(
                #[trigger] post.brokers@[j].data.subscribe_his@,
            ) && unique_his(post.brokers@[j].data.publish_his@) by {
                assert(unique_his(pre.brokers@[j].data.subscribe_his@));
            }
        }
    }
}

/// Remembering a publication keeps every history free of equal entries.
pub proof fn law_update_publish_his_keeps_unique(
    pre: App,
    sub: PublishInput,
    post: App,
    r: Result<Vec<StoreOp>, Error>,
)
    requires
        histories_unique(pre),
        update_publish_his_post(pre, sub, post, r),
    ensures
        histories_unique(post),
{
    let his = PublishHis::from_spec(sub);
    if has_broker(pre.brokers@, sub.broker_id) {
        let i = choose|i: int|
            first_broker(pre.brokers@, sub.broker_id, i) && publish_his_added(pre, post, i, his, r);
        let list = pre.brokers@[i].data.publish_his@;
        if !has_his(list, his) {
            lemma_push_keeps_unique(list, his);
            assert forall|j: int| 0 <= j < post.brokers@.len() implies unique_his(
                #[trigger] post.brokers@[j].data.subscribe_his@,
            ) && unique_his(post.brokers@[j].data.publish_his@) by {
                assert(unique_his(pre.brokers@[j].data.subscribe_his@));
            }
        }
    }
}

/// Remembering the same subscription twice: the second time changes nothing
/// and writes nothing.
pub proof fn law_update_subscribe_his_idempotent(
    pre: App,
    sub: SubscribeInput,
    mid: App,
    r1: Result<Vec<StoreOp>, Error>,
    post: App,
    r2: Result<Vec<StoreOp>, Error>,
)
    requires
        update_subscribe_his_post(pre, sub, mid, r1),
        update_subscribe_his_post(mid, sub, post, r2),
    ensures
        post == mid,
        r1 is Ok ==> (r2 matches Ok(ops) && ops@.len() == 0),
{
    let his = SubscribeHis::from_spec(sub);
    if has_broker(pre.brokers@, sub.broker_id) {
        let i = choose|i: int|
            first_broker(pre.brokers@, sub.broker_id, i) && subscribe_his_added(pre, mid, i, his, r1);
        assert(first_broker(mid.brokers@, sub.broker_id, i));
        let list = mid.brokers@[i].data.subscribe_his@;
        if !has_his(pre.brokers@[i].data.subscribe_his@, his) {
            assert(list[list.len() - 1] == his);
        }
        assert(has_his(list, his));
        let k = choose|k: int|
            first_broker(mid.brokers@, sub.broker_id, k) && subscribe_his_added(mid, post, k, his, r2);
        lemma_first_broker_unique(mid.brokers@, sub.broker_id, i, k);
    }
}

/// Forgetting a subscription that was just remembered, when the history did
/// not hold it before, gives back the history as it was.
pub proof fn law_delete_undoes_update_subscribe_his(
    pre: App,
    sub: SubscribeInput,
    mid: App,
    r1: Result<Vec<StoreOp>, Error>,
    his: SubscribeHis,
    post: App,
    r2: Result<Vec<StoreOp>, Error>,
    i: int,
)
    requires
        first_broker(pre.brokers@, sub.broker_id, i),
        !has_his(pre.brokers@[i].data.subscribe_his@, SubscribeHis::from_spec(sub)),
        his.eq_spec(&SubscribeHis::from_spec(sub)),
        update_subscribe_his_post(pre, sub, mid, r1),
        delete_subscribe_his_post(mid, sub.broker_id, his, post, r2),
    ensures
        r2 is Ok,
        post.brokers@.len() == pre.brokers@.len(),
        post.brokers@[i].data.subscribe_his@ == pre.brokers@[i].data.subscribe_his@,
{
    let h = SubscribeHis::from_spec(sub);
    let k = choose|k: int| first_broker(pre.brokers@, sub.broker_id, k) && subscribe_his_added(pre, mid, k, h, r1);
    lemma_first_broker_unique(pre.brokers@, sub.broker_id, i, k);
    let list = pre.brokers@[i].data.subscribe_his@;
    let mlist = mid.brokers@[i].data.subscribe_his@;
    assert(mlist == list.push(h));
    assert(first_broker(mid.brokers@, sub.broker_id, i));
    assert(mlist[list.len() as int].eq_spec(&his));
    assert(has_his(mlist, his));
    let m = choose|m: int| first_broker(mid.brokers@, sub.broker_id, m) && {
        let l = mid.brokers@[m].data.subscribe_his@;
        if has_his(l, his) {
            exists|j: int|
                first_his(l, his, j) && {
                    &&& only_broker_changed(mid, post, m)
                    &&& post.brokers@[m].data.same_settings(mid.brokers@[m].data)
                    &&& post.brokers@[m].data.publish_his@ == mid.brokers@[m].data.publish_his@
                    &&& post.brokers@[m].data.subscribe_his@ == l.remove(j)
                    &&& r2 matches Ok(ops) && broker_saved(mid, post, m, ops@)
                }
        } else {
            &&& r2 matches Err(e) && e.msg@ == "not found publish his"@
            &&& post == mid
        }
    };
    lemma_first_broker_unique(mid.brokers@, sub.broker_id, i, m);
    let j = choose|j: int|
        first_his(mlist, his, j) && {
            &&& only_broker_changed(mid, post, i)
            &&& post.brokers@[i].data.same_settings(mid.brokers@[i].data)
            &&& post.brokers@[i].data.publish_his@ == mid.brokers@[i].data.publish_his@
            &&& post.brokers@[i].data.subscribe_his@ == mlist.remove(j)
            &&& r2 matches Ok(ops) && broker_saved(mid, post, i, ops@)
        };
    if j < list.len() {
        assert(mlist[j] == list[j]);
        assert(list[j].eq_spec(&h));
    }
    assert(j == list.len());
    assert(mlist.remove(j) =~= list);
}

/// Remembering the same publication twice: the second time changes nothing
/// and writes nothing.
pub proof fn law_update_publish_his_idempotent(
    pre: App,
    sub: PublishInput,
    mid: App,
    r1: Result<Vec<StoreOp>, Error>,
    post: App,
    r2: Result<Vec<StoreOp>, Error>,
)
    requires
        update_publish_his_post(pre, sub, mid, r1),
        update_publish_his_post(mid, sub, post, r2),
    ensures
        post == mid,
        r1 is Ok ==> (r2 matches Ok(ops) && ops@.len() == 0),
{
    let his = PublishHis::from_spec(sub);
    if has_broker(pre.brokers@, sub.broker_id) {
        let i = choose|i: int|
            first_broker(pre.brokers@, sub.broker_id, i) && publish_his_added(pre, mid, i, his, r1);
        assert(first_broker(mid.brokers@, sub.broker_id, i));
        let list = mid.brokers@[i].data.publish_his@;
        if !has_his(pre.brokers@[i].data.publish_his@, his) {
            assert(list[list.len() - 1] == his);
        }
        assert(has_his(list, his));
        let k = choose|k: int|
            first_broker(mid.brokers@, sub.broker_id, k) && publish_his_added(mid, post, k, his, r2);
        lemma_first_broker_unique(mid.brokers@, sub.broker_id, i, k);
    }
}

/// Forgetting a publication that was just remembered, when the history did
/// not hold it before, gives back the history as it was.
pub proof fn law_delete_undoes_update_publish_his(
    pre: App,
    sub: PublishInput,
    mid: App,
    r1: Result<Vec<StoreOp>, Error>,
    his: PublishHis,
    post: App,
    r2: Result<Vec<StoreOp>, Error>,
    i: int,
)
    requires
        first_broker(pre.brokers@, sub.broker_id, i),
        !has_his(pre.brokers@[i].data.publish_his@, PublishHis::from_spec(sub)),
        his.eq_spec(&PublishHis::from_spec(sub)),
        update_publish_his_post(pre, sub, mid, r1),
        delete_publish_his_post(mid, sub.broker_id, his, post, r2),
    ensures
        r2 is Ok,
        post.brokers@.len() == pre.brokers@.len(),
        post.brokers@[i].data.publish_his@ == pre.brokers@[i].data.publish_his@,
{
    let h = PublishHis::from_spec(sub);
    let k = choose|k: int| first_broker(pre.brokers@, sub.broker_id, k) && publish_his_added(pre, mid, k, h, r1);
    lemma_first_broker_unique(pre.brokers@, sub.broker_id, i, k);
    let list = pre.brokers@[i].data.publish_his@;
    let mlist = mid.brokers@[i].data.publish_his@;
    assert(mlist == list.push(h));
    assert(first_broker(mid.brokers@, sub.broker_id, i));
    assert(mlist[list.len() as int].eq_spec(&his));
    assert(has_his(mlist, his));
    let m = choose|m: int| first_broker(mid.brokers@, sub.broker_id, m) && {
        let l = mid.brokers@[m].data.publish_his@;
        if has_his(l, his) {
            exists|j: int|
                first_his(l, his, j) && {
                    &&& only_broker_changed(mid, post, m)
                    &&& post.brokers@[m].data.same_settings(mid.brokers@[m].data)
                    &&& post.brokers@[m].data.subscribe_his@ == mid.brokers@[m].data.subscribe_his@
                    &&& post.brokers@[m].data.publish_his@ == l.remove(j)
                    &&& r2 matches Ok(ops) && broker_saved(mid, post, m, ops@)
                }
        } else {
            &&& r2 matches Err(e) && e.msg@ == "not found publish his"@
            &&& post == mid
        }
    };
    lemma_first_broker_unique(mid.brokers@, sub.broker_id, i, m);
    let j = choose|j: int|
        first_his(mlist, his, j) && {
            &&& only_broker_changed(mid, post, i)
            &&& post.brokers@[i].data.same_settings(mid.brokers@[i].data)
            &&& post.brokers@[i].data.subscribe_his@ == mid.brokers@[i].data.subscribe_his@
            &&& post.brokers@[i].data.publish_his@ == mlist.remove(j)
            &&& r2 matches Ok(ops) && broker_saved(mid, post, i, ops@)
        };
    if j < list.len() {
        assert(mlist[j] == list[j]);
        assert(list[j].eq_spec(&h));
    }
    assert(j == list.len());
    assert(mlist.remove(j) =~= list);
}

/// Two subscribe-history entries are equal exactly when their topics, levels
/// and payload types are all equal.
pub proof fn law_subscribe_his_equality(a: SubscribeHis, b: SubscribeHis)
    ensures
        a.eq_spec(&b) <==> (a.topic@ == b.topic@ && a.qos == b.qos && a.payload_ty == b.payload_ty),
{
}

/// Two publish-history entries are equal exactly when their topics,
/// messages, levels, payload types and retain flags are all equal.
pub proof fn law_publish_his_equality(a: PublishHis, b: PublishHis)
    ensures
        a.eq_spec(&b) <==> (a.topic@ == b.topic@ && a.msg@ == b.msg@ && a.qos == b.qos
            && a.payload_ty == b.payload_ty && a.retain == b.retain),
{
}

/// Remembering a subscription whose level differs from that of every entry
/// already in the history of the first broker with its id appends it: the
/// history grows by one entry carrying the subscription's topic, level and
/// payload type, and the broker is written.
pub proof fn law_update_subscribe_his_appends_new_level(
    pre: App,
    sub: SubscribeInput,
    post: App,
    r: Result<Vec<StoreOp>, Error>,
    i: int,
)
    requires
        first_broker(pre.brokers@, sub.broker_id, i),
        forall|j: int|
            0 <= j < pre.brokers@[i].data.subscribe_his@.len()
                ==> (#[trigger] pre.brokers@[i].data.subscribe_his@[j]).qos != sub.qos,
        update_subscribe_his_post(pre, sub, post, r),
    ensures
        r matches Ok(ops) && ops@.len() > 0,
        post.brokers@[i].data.subscribe_his@.len() == pre.brokers@[i].data.subscribe_his@.len() + 1,
        post.brokers@[i].data.subscribe_his@.drop_last() == pre.brokers@[i].data.subscribe_his@,
        post.brokers@[i].data.subscribe_his@.last().topic@ == sub.topic@,
        post.brokers@[i].data.subscribe_his@.last().qos == sub.qos,
        post.brokers@[i].data.subscribe_his@.last().payload_ty == sub.payload_ty,
{
    let his = SubscribeHis::from_spec(sub);
    let list = pre.brokers@[i].data.subscribe_his@;
    assert(has_broker(pre.brokers@, sub.broker_id));
    let k = choose|k: int|
        first_broker(pre.brokers@, sub.broker_id, k) && subscribe_his_added(pre, post, k, his, r);
    lemma_first_broker_unique(pre.brokers@, sub.broker_id, i, k);
    assert(!has_his(list, his)) by {
        if has_his(list, his) {
            let j = choose|j: int| 0 <= j < list.len() && list[j].eq_spec(&his);
            law_subscribe_his_equality(list[j], his);
            assert(list[j].qos != sub.qos);
        }
    }
    let post_list = post.brokers@[i].data.subscribe_his@;
    assert(post_list == list.push(his));
    assert(post_list.drop_last() =~= list);
    let ops = r->Ok_0;
    assert(broker_saved(pre, post, i, ops@));
}

} // verus!
