//! Subscription registry: the mapping from logical id to the open
//! subscription, with the retained operation and the last-observed resume
//! cursor.
//!
//! The registry is owned by one session; it is viewed abstractly as a map
//! from logical id to a subscription model. No entry is ever dropped while
//! its channel is still connected except through `complete`; a consumer
//! that went away is noticed on the next `route` and the entry is removed
//! then, which is normal and not an error.

use vstd::prelude::*;

verus! {

use crate::MsgId;
use crate::chan::{SendOutcome, sink_send, sink_close};
use crate::error::WsResult;
use crate::format::Format;
use crate::operation::Operation;

/// One open subscription: the retained request and the output channel.
pub struct Subscription {
    /// Logical id of the request.
    pub id: MsgId,
    /// The request, retained so it can be replayed after a reconnect.
    pub operation: Operation,
    /// Output format the request asked for.
    pub format: Format,
    /// Whether the request asked for delta records.
    pub deltas: bool,
    /// Cursor the request was submitted with; the replay fallback.
    pub initial_cursor: Vec<u8>,
    /// Cursor of the last `Continue` frame that carried one.
    pub last_cursor: Option<Vec<u8>>,
    /// Sending half of the caller's output channel.
    pub sink: futures::channel::mpsc::UnboundedSender<WsResult>,
}

/// Abstract model of one subscription: everything but the channel.
pub ghost struct SubModel {
    /// Logical id of the request.
    pub id: MsgId,
    /// The retained request.
    pub op: Operation,
    /// Output format the request asked for.
    pub format: Format,
    /// Whether the request asked for delta records.
    pub deltas: bool,
    /// Cursor the request was submitted with.
    pub init_cursor: Seq<u8>,
    /// Cursor of the last `Continue` frame that carried one.
    pub cursor: Option<Seq<u8>>,
}

impl Subscription {
    /// Abstract model of this subscription.
    pub open spec fn model(&self) -> SubModel {
        SubModel {
            id: self.id,
            op: self.operation,
            format: self.format,
            deltas: self.deltas,
            init_cursor: self.initial_cursor@,
            cursor: match self.last_cursor {
                Option::Some(c) => Option::Some(c@),
                Option::None => Option::None,
            },
        }
    }

    /// The cursor a replay of this subscription must carry: the last
    /// observed one, or the one captured at subscribe time if none has
    /// been observed yet.
    pub open spec fn spec_replay_cursor(&self) -> Seq<u8> {
        match self.last_cursor {
            Option::Some(c) => c@,
            Option::None => self.initial_cursor@,
        }
    }
}

/// Ids are pairwise distinct.
pub open spec fn distinct_ids(es: Seq<SubModel>) -> bool {
    forall|i: int, j: int| 0 <= i < j < es.len() ==> es[i].id != es[j].id
}

/// The map a sequence of subscription models stands for, keyed by id.
pub open spec fn map_of(es: Seq<SubModel>) -> Map<MsgId, SubModel>
    decreases es.len(),
{
    if es.len() == 0 {
        Map::empty()
    } else {
        map_of(es.drop_last()).insert(es.last().id, es.last())
    }
}

/// A key is in the map exactly when some entry carries it.
pub proof fn lemma_map_of_dom(es: Seq<SubModel>, k: MsgId)
    ensures
        map_of(es).dom().contains(k) <==> exists|i: int| 0 <= i < es.len() && es[i].id == k,
    decreases es.len(),
{
    if es.len() > 0 {
        lemma_map_of_dom(es.drop_last(), k);
        if es.last().id == k {
            assert(es[es.len() - 1].id == k);
        } else if map_of(es).dom().contains(k) {
            let i = choose|i: int| 0 <= i < es.len() - 1 && es.drop_last()[i].id == k;
            assert(es[i].id == k);
        } else if exists|i: int| 0 <= i < es.len() && es[i].id == k {
            let i = choose|i: int| 0 <= i < es.len() && es[i].id == k;
            assert(es.drop_last()[i].id == k);
        }
    }
}

/// Under distinct ids, the entry that carries a key is its map value.
pub proof fn lemma_map_of_index(es: Seq<SubModel>, i: int)
    requires
        distinct_ids(es),
        0 <= i < es.len(),
    ensures
        map_of(es).dom().contains(es[i].id),
        map_of(es)[es[i].id] == es[i],
    decreases es.len(),
{
    if i == es.len() - 1 {
    } else {
        assert(distinct_ids(es.drop_last())) by {
            assert(forall|a: int, b: int|
                0 <= a < b < es.len() - 1 ==> es.drop_last()[a].id != es.drop_last()[b].id);
        }
        lemma_map_of_index(es.drop_last(), i);
        assert(es.drop_last()[i] == es[i]);
        assert(es[i].id != es.last().id);
    }
}

/// Under distinct ids, removing the entry that carries a key removes the
/// key from the map and nothing else.
pub proof fn lemma_map_of_remove(es: Seq<SubModel>, i: int)
    requires
        distinct_ids(es),
        0 <= i < es.len(),
    ensures
        map_of(es.remove(i)) =~= map_of(es).remove(es[i].id),
    decreases es.len(),
{
    let k = es[i].id;
    if i == es.len() - 1 {
        assert(es.remove(i) =~= es.drop_last());
        lemma_map_of_dom(es.drop_last(), k);
        assert(forall|j: int| 0 <= j < es.len() - 1 ==> es.drop_last()[j].id != k);
        assert(!map_of(es.drop_last()).dom().contains(k));
        assert(map_of(es).remove(k) =~= map_of(es.drop_last()));
    } else {
        assert(distinct_ids(es.drop_last())) by {
            assert(forall|a: int, b: int|
                0 <= a < b < es.len() - 1 ==> es.drop_last()[a].id != es.drop_last()[b].id);
        }
        lemma_map_of_remove(es.drop_last(), i);
        assert(es.remove(i).drop_last() =~= es.drop_last().remove(i));
        assert(es.remove(i).last() == es.last());
        assert(map_of(es.remove(i)) == map_of(es.drop_last().remove(i)).insert(
            es.last().id,
            es.last(),
        ));
    }
}

/// Under distinct ids, the map holds exactly as many keys as there are
/// entries.
pub proof fn lemma_map_of_len(es: Seq<SubModel>)
    requires
        distinct_ids(es),
    ensures
        map_of(es).dom().finite(),
        map_of(es).dom().len() == es.len(),
    decreases es.len(),
{
    if es.len() > 0 {
        assert(distinct_ids(es.drop_last())) by {
            assert(forall|a: int, b: int|
                0 <= a < b < es.len() - 1 ==> es.drop_last()[a].id != es.drop_last()[b].id);
        }
        lemma_map_of_len(es.drop_last());
        lemma_map_of_dom(es.drop_last(), es.last().id);
        assert(forall|j: int| 0 <= j < es.len() - 1 ==> es.drop_last()[j].id != es.last().id);
        assert(!map_of(es.drop_last()).dom().contains(es.last().id));
    }
}

/// Tracks the open subscriptions of one session.
pub struct Registry {
    subs: Vec<Subscription>,
}

/// How routing one message to a subscription ended.
#[derive(Clone, Copy, Debug, PartialEq, Eq, Structural)]
pub enum RouteOutcome {
    /// The message was queued for the caller; the entry stays.
    Delivered,
    /// The caller had dropped its receiving half; the entry was removed.
    Dropped,
    /// No subscription carries this id; nothing changed.
    NoEntry,
}

impl Registry {
    /// The models of the open subscriptions, in storage order.
    pub closed spec fn entries(&self) -> Seq<SubModel> {
        self.subs@.map_values(|s: Subscription| s.model())
    }

    /// The registry as a map from logical id to subscription model.
    pub closed spec fn view(&self) -> Map<MsgId, SubModel> {
        map_of(self.entries())
    }

    /// Ids are pairwise distinct; every operation keeps this.
    pub closed spec fn wf(&self) -> bool {
        distinct_ids(self.entries())
    }

    /// The number of open subscriptions equals the number of registered
    /// ids.
    pub proof fn lemma_count_is_len(&self)
        requires
            self.wf(),
        ensures
            self@.dom().finite(),
            self@.dom().len() == self.entries().len(),
    {
        lemma_map_of_len(self.entries());
    }

    /// An empty registry.
    pub fn new() -> (r: Registry)
        ensures
            r.wf(),
            r@ == Map::<MsgId, SubModel>::empty(),
            r.entries() == Seq::<SubModel>::empty(),
    {
        let r = Registry { subs: Vec::new() };
        proof {
            assert(r.entries() =~= Seq::<SubModel>::empty());
        }
        r
    }

    /// How many subscriptions are open.
    pub fn count(&self) -> (r: usize)
        requires
            self.wf(),
        ensures
            r == self.entries().len(),
            r == self@.dom().len(),
    {
        proof {
            self.lemma_count_is_len();
        }
        self.subs.len()
    }

    /// Index of the subscription carrying `id`, if any.
    fn find(&self, id: MsgId) -> (r: Option<usize>)
        ensures
            r matches Some(i) ==> i < self.entries().len() && self.entries()[i as int].id == id,
            r is None ==> forall|i: int|
                0 <= i < self.entries().len() ==> self.entries()[i].id != id,
    {
        let n = self.subs.len();
        let mut i: usize = 0;
        while i < n
            invariant
                0 <= i <= n == self.entries().len(),
                forall|j: int| 0 <= j < i ==> self.entries()[j].id != id,
            decreases n - i,
        {
            if self.subs[i].id.0 == id.0 {
                return Some(i);
            }
            i = i + 1;
        }
        None
    }

    /// Whether a subscription with this id is registered.
    pub fn contains(&self, id: MsgId) -> (r: bool)
        ensures
            r == self@.dom().contains(id),
    {
        proof {
            lemma_map_of_dom(self.entries(), id);
        }
        self.find(id).is_some()
    }

    /// Registers a subscription under `id`. When an entry already carries
    /// the id — a caller error, since ids are drawn fresh — the previous
    /// entry is replaced and its channel closed; the result says whether
    /// that happened.
    pub fn register(
        &mut self,
        id: MsgId,
        operation: Operation,
        format: Format,
        deltas: bool,
        initial_cursor: Vec<u8>,
        sink: futures::channel::mpsc::UnboundedSender<WsResult>,
    ) -> (replaced: bool)
        requires
            old(self).wf(),
        ensures
            final(self).wf(),
            final(self)@ == old(self)@.insert(
                id,
                SubModel {
                    id,
                    op: operation,
                    format,
                    deltas,
                    init_cursor: initial_cursor@,
                    cursor: Option::None,
                },
            ),
            replaced == old(self)@.dom().contains(id),
            !replaced ==> final(self).entries() == old(self).entries().push(
                SubModel {
                    id,
                    op: operation,
                    format,
                    deltas,
                    init_cursor: initial_cursor@,
                    cursor: Option::None,
                },
            ),
    {
        proof {
            lemma_map_of_dom(self.entries(), id);
        }
        let found = self.find(id);
        let sub = Subscription {
            id,
            operation,
            format,
            deltas,
            initial_cursor,
            last_cursor: None,
            sink,
        };
        let ghost pre = self.entries();
        match found {
            Some(i) => {
                proof {
                    lemma_map_of_remove(pre, i as int);
                }
                let previous = self.subs.remove(i);
                sink_close(&previous.sink);
                self.subs.push(sub);
                proof {
                    assert(self.entries() =~= pre.remove(i as int).push(sub.model()));
                    assert(self.entries().drop_last() =~= pre.remove(i as int));
                    assert(distinct_ids(pre.remove(i as int))) by {
                        assert(forall|a: int, b: int|
                            0 <= a < b < pre.remove(i as int).len()
                                ==> pre.remove(i as int)[a].id != pre.remove(i as int)[b].id);
                    }
                    assert forall|j: int|
                        0 <= j < pre.remove(i as int).len() implies pre.remove(i as int)[j].id
                        != id by {
                        lemma_map_of_dom(pre.remove(i as int), id);
                        lemma_map_of_remove(pre, i as int);
                    }
                    assert(final(self)@ =~= old(self)@.insert(id, sub.model()));
                }
                true
            },
            None => {
                self.subs.push(sub);
                proof {
                    assert(self.entries() =~= pre.push(sub.model()));
                    assert(self.entries().drop_last() =~= pre);
                }
                false
            },
        }
    }

    /// Closes and removes the subscription under `id` (the server signaled
    /// the end of its stream). Doing it again changes nothing: the entry
    /// is absent either way.
    pub fn complete(&mut self, id: MsgId)
        requires
            old(self).wf(),
        ensures
            final(self).wf(),
            final(self)@ == old(self)@.remove(id),
    {
        proof {
            lemma_map_of_dom(self.entries(), id);
        }
        let ghost pre = self.entries();
        match self.find(id) {
            Some(i) => {
                proof {
                    lemma_map_of_remove(pre, i as int);
                }
                let previous = self.subs.remove(i);
                sink_close(&previous.sink);
                proof {
                    assert(self.entries() =~= pre.remove(i as int));
                    assert(distinct_ids(self.entries())) by {
                        assert(forall|a: int, b: int|
                            0 <= a < b < pre.remove(i as int).len()
                                ==> pre.remove(i as int)[a].id != pre.remove(i as int)[b].id);
                    }
                }
            },
            None => {
                proof {
                    assert(final(self)@ =~= old(self)@.remove(id));
                }
            },
        }
    }

    /// Records the cursor of a `Continue` frame: the stored cursor becomes
    /// the one just observed, whatever it was before. Unknown ids change
    /// nothing.
    pub fn update_cursor(&mut self, id: MsgId, cursor: Vec<u8>)
        requires
            old(self).wf(),
        ensures
            final(self).wf(),
            final(self)@ == apply_cursor(old(self)@, id, cursor@),
    {
        proof {
            lemma_map_of_dom(self.entries(), id);
        }
        let ghost pre = self.entries();
        match self.find(id) {
            Some(i) => {
                proof {
                    lemma_map_of_index(pre, i as int);
                    lemma_map_of_remove(pre, i as int);
                }
                let mut sub = self.subs.remove(i);
                sub.last_cursor = Some(cursor);
                let ghost updated = sub.model();
                self.subs.push(sub);
                proof {
                    assert(self.entries() =~= pre.remove(i as int).push(updated));
                    assert(self.entries().drop_last() =~= pre.remove(i as int));
                    assert(distinct_ids(pre.remove(i as int))) by {
                        assert(forall|a: int, b: int|
                            0 <= a < b < pre.remove(i as int).len()
                                ==> pre.remove(i as int)[a].id != pre.remove(i as int)[b].id);
                    }
                    assert forall|j: int|
                        0 <= j < pre.remove(i as int).len() implies pre.remove(i as int)[j].id
                        != id by {
                        lemma_map_of_dom(pre.remove(i as int), id);
                        lemma_map_of_remove(pre, i as int);
                    }
                    assert(final(self)@ =~= apply_cursor(old(self)@, id, cursor@));
                }
            },
            None => {
                proof {
                    assert(final(self)@ =~= apply_cursor(old(self)@, id, cursor@));
                }
            },
        }
    }

    /// Delivers a chunk or error to the subscription under `id`. A missing
    /// id changes nothing. When the caller has dropped its receiving half,
    /// the entry is removed — the normal, lazy way a cancelled
    /// subscription is noticed — and the registry says so.
    pub fn route(&mut self, id: MsgId, msg: WsResult) -> (r: RouteOutcome)
        requires
            old(self).wf(),
        ensures
            final(self).wf(),
            r is NoEntry <==> !old(self)@.dom().contains(id),
            r is NoEntry ==> final(self)@ == old(self)@,
            r is Delivered ==> final(self)@ == old(self)@,
            r is Dropped ==> final(self)@ == old(self)@.remove(id),
    {
        proof {
            lemma_map_of_dom(self.entries(), id);
        }
        let ghost pre = self.entries();
        match self.find(id) {
            Some(i) => {
                match sink_send(&self.subs[i].sink, msg) {
                    SendOutcome::Delivered => RouteOutcome::Delivered,
                    SendOutcome::Disconnected => {
                        proof {
                            lemma_map_of_remove(pre, i as int);
                        }
                        let _ = self.subs.remove(i);
                        proof {
                            assert(self.entries() =~= pre.remove(i as int));
                            assert(distinct_ids(self.entries())) by {
                                assert(forall|a: int, b: int|
                                    0 <= a < b < pre.remove(i as int).len()
                                        ==> pre.remove(i as int)[a].id
                                        != pre.remove(i as int)[b].id);
                            }
                        }
                        RouteOutcome::Dropped
                    },
                }
            },
            None => RouteOutcome::NoEntry,
        }
    }

    /// Each stored entry is the map's value for its id.
    pub proof fn lemma_entry_in_map(&self, i: int)
        requires
            self.wf(),
            0 <= i < self.entries().len(),
        ensures
            self@.dom().contains(self.entries()[i].id),
            self@[self.entries()[i].id] == self.entries()[i],
    {
        lemma_map_of_index(self.entries(), i);
    }

    /// The subscription at a storage index.
    pub fn sub_at(&self, i: usize) -> (r: &Subscription)
        requires
            i < self.entries().len(),
        ensures
            r.model() == self.entries()[i as int],
    {
        &self.subs[i]
    }

    /// The cursor a fresh submission under `id` must carry: the stored one
    /// when a previous entry for the id has observed any, empty otherwise.
    pub fn submit_cursor(&self, id: MsgId) -> (r: Vec<u8>)
        requires
            self.wf(),
        ensures
            r@ == spec_submit_cursor(self@, id),
    {
        proof {
            lemma_map_of_dom(self.entries(), id);
        }
        match self.find(id) {
            Some(i) => {
                proof {
                    lemma_map_of_index(self.entries(), i as int);
                }
                match &self.subs[i].last_cursor {
                    Some(c) => vstd::slice::slice_to_vec(c.as_slice()),
                    None => Vec::new(),
                }
            },
            None => Vec::new(),
        }
    }

    /// Closes every subscription's channel and clears the registry: the
    /// terminal shutdown after the reconnect budget is exhausted.
    pub fn close_all(&mut self)
        requires
            old(self).wf(),
        ensures
            final(self).wf(),
            final(self)@ == Map::<MsgId, SubModel>::empty(),
    {
        let n = self.subs.len();
        let mut i: usize = 0;
        while i < n
            invariant
                0 <= i <= n == self.subs@.len(),
            decreases n - i,
        {
            sink_close(&self.subs[i].sink);
            i = i + 1;
        }
        self.subs = Vec::new();
        proof {
            assert(self.entries() =~= Seq::<SubModel>::empty());
        }
    }
}

/// The cursor a fresh submission under `id` carries: the stored one when a
/// previous entry for the id has observed any, empty otherwise.
pub open spec fn spec_submit_cursor(m: Map<MsgId, SubModel>, id: MsgId) -> Seq<u8> {
    if m.dom().contains(id) && m[id].cursor is Some {
        m[id].cursor->Some_0
    } else {
        Seq::empty()
    }
}

/// The registry after one `Continue` cursor observation for `id`: the
/// stored cursor becomes `c`; everything else is untouched.
pub open spec fn apply_cursor(m: Map<MsgId, SubModel>, id: MsgId, c: Seq<u8>) -> Map<
    MsgId,
    SubModel,
> {
    if m.dom().contains(id) {
        m.insert(
            id,
            SubModel {
                id: m[id].id,
                op: m[id].op,
                format: m[id].format,
                deltas: m[id].deltas,
                init_cursor: m[id].init_cursor,
                cursor: Option::Some(c),
            },
        )
    } else {
        m
    }
}

/// The registry after a run of `Continue` cursor observations for `id`,
/// in receipt order.
pub open spec fn apply_cursors(m: Map<MsgId, SubModel>, id: MsgId, cs: Seq<Seq<u8>>) -> Map<
    MsgId,
    SubModel,
>
    decreases cs.len(),
{
    if cs.len() == 0 {
        m
    } else {
        apply_cursors(apply_cursor(m, id, cs.first()), id, cs.drop_first())
    }
}

/// Cursor monotonicity: after a run of `Continue` frames for one id with
/// cursors observed in receipt order, the stored cursor is the last one,
/// whatever came in between, and every other entry is untouched.
pub proof fn lemma_cursor_last_wins(m: Map<MsgId, SubModel>, id: MsgId, cs: Seq<Seq<u8>>)
    requires
        m.dom().contains(id),
        cs.len() > 0,
    ensures
        apply_cursors(m, id, cs).dom() == m.dom(),
        apply_cursors(m, id, cs)[id].cursor == Option::Some(cs.last()),
        forall|k: MsgId| k != id && m.dom().contains(k) ==> apply_cursors(m, id, cs)[k] == m[k],
    decreases cs.len(),
{
    let step = apply_cursor(m, id, cs.first());
    assert(step.dom() =~= m.dom());
    if cs.len() == 1 {
        assert(apply_cursors(step, id, cs.drop_first()) == step);
    } else {
        lemma_cursor_last_wins(step, id, cs.drop_first());
        assert(cs.drop_first().last() == cs.last());
    }
    assert forall|k: MsgId| k != id && m.dom().contains(k) implies apply_cursors(m, id, cs)[k]
        == m[k] by {
        assert(step[k] == m[k]);
    }
}

/// Idempotence of completion: completing an id twice leaves the registry
/// exactly as completing it once does — the entry is absent either way,
/// and nothing else is touched.
pub proof fn lemma_complete_idempotent(m: Map<MsgId, SubModel>, id: MsgId)
    ensures
        m.remove(id).remove(id) == m.remove(id),
{
    assert(m.remove(id).remove(id) =~= m.remove(id));
}

/// The registry after a batch of registrations, in submission order.
pub open spec fn register_all(m: Map<MsgId, SubModel>, es: Seq<SubModel>) -> Map<MsgId, SubModel>
    decreases es.len(),
{
    if es.len() == 0 {
        m
    } else {
        register_all(m, es.drop_last()).insert(es.last().id, es.last())
    }
}

/// Concurrent submissions: a batch of registrations with pairwise distinct
/// fresh ids grows the registry by exactly the batch size — immediately
/// after submission, before any server response, every submission has its
/// own entry.
pub proof fn lemma_distinct_registrations(m: Map<MsgId, SubModel>, es: Seq<SubModel>)
    requires
        m.dom().finite(),
        distinct_ids(es),
        forall|i: int| 0 <= i < es.len() ==> !m.dom().contains(#[trigger] es[i].id),
    ensures
        register_all(m, es).dom().finite(),
        register_all(m, es).dom().len() == m.dom().len() + es.len(),
    decreases es.len(),
{
    if es.len() > 0 {
        assert(distinct_ids(es.drop_last())) by {
            assert(forall|a: int, b: int|
                0 <= a < b < es.len() - 1 ==> es.drop_last()[a].id != es.drop_last()[b].id);
        }
        assert(forall|i: int|
            0 <= i < es.len() - 1 ==> !m.dom().contains(#[trigger] es.drop_last()[i].id));
        lemma_distinct_registrations(m, es.drop_last());
        lemma_register_all_dom(m, es.drop_last(), es.last().id);
        assert(forall|j: int| 0 <= j < es.len() - 1 ==> es.drop_last()[j].id != es.last().id);
        assert(!register_all(m, es.drop_last()).dom().contains(es.last().id));
    }
}

/// A key is registered after a batch exactly when it was there before or
/// some batch entry carries it.
pub proof fn lemma_register_all_dom(m: Map<MsgId, SubModel>, es: Seq<SubModel>, k: MsgId)
    ensures
        register_all(m, es).dom().contains(k) <==> m.dom().contains(k) || exists|i: int|
            0 <= i < es.len() && es[i].id == k,
    decreases es.len(),
{
    if es.len() > 0 {
        lemma_register_all_dom(m, es.drop_last(), k);
        if es.last().id == k {
            assert(es[es.len() - 1].id == k);
        } else if register_all(m, es).dom().contains(k) {
            if !m.dom().contains(k) {
                let i = choose|i: int| 0 <= i < es.len() - 1 && es.drop_last()[i].id == k;
                assert(es[i].id == k);
            }
        } else if exists|i: int| 0 <= i < es.len() && es[i].id == k {
            let i = choose|i: int| 0 <= i < es.len() && es[i].id == k;
            assert(es.drop_last()[i].id == k);
        }
    }
}

} // verus!
