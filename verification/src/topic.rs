//! The transaction-id demultiplexer: the state that lets one TCP stream
//! service many concurrently pending requests.
//!
//! A `Topic` owns the map of arrived-but-not-yet-consumed replies keyed by
//! transaction id, the set of ids with a live waiter, and the id counter.
//! The surrounding transport registers a waiter under a freshly allocated id
//! before writing, publishes every frame the background reader cuts off the
//! stream, and consumes exactly the reply filed under its own id.

use vstd::prelude::*;

use std::collections::{HashMap, HashSet};

use crate::composite::{spec_next_tid, Header};
use crate::error::{Error, QueueError};

verus! {

broadcast use vstd::std_specs::hash::group_hash_axioms;

/// One reply as published by the stream reader: the header it arrived under
/// and the full frame bytes.
#[derive(Debug)]
pub struct Reply {
    pub header: Header,
    pub bytes: Vec<u8>,
}

/// The demultiplexer state: replies filed by transaction id, the ids of
/// still-pending requests, and the wrapping id counter.
#[derive(Debug)]
pub struct Topic {
    next_tid: u16,
    waiters: HashSet<u16>,
    messages: HashMap<u16, Reply>,
}

impl Topic {
    /// The last transaction id handed out.
    pub closed spec fn spec_tid(self) -> u16 {
        self.next_tid
    }

    /// The ids of requests that are pending: allocated, not yet consumed or
    /// cancelled.
    pub closed spec fn pending(self) -> Set<u16> {
        self.waiters@
    }

    /// The replies that arrived and were not yet consumed, by transaction
    /// id.
    pub closed spec fn arrived(self) -> Map<u16, Reply> {
        self.messages@
    }

    /// Every filed reply sits under its own header's transaction id: the
    /// invariant that makes consuming by id sound.
    pub open spec fn wf(self) -> bool {
        forall|t: u16|
            self.arrived().contains_key(t) ==> (#[trigger] self.arrived()[t]).header.transaction_id
                == t
    }

    /// A fresh topic: no replies, no waiters, the id counter at its start.
    pub fn new() -> (r: Topic)
        ensures
            r.wf(),
            r.spec_tid() == 0,
            r.pending() == Set::<u16>::empty(),
            r.arrived() == Map::<u16, Reply>::empty(),
    {
        Topic { next_tid: 0, waiters: HashSet::new(), messages: HashMap::new() }
    }

    /// Allocates the next transaction id by wrapping increment and registers
    /// a waiter under it, refusing an id that still has a live waiter rather
    /// than colliding: two pending requests never share an id.
    pub fn allocate_tid(&mut self) -> (r: Result<u16, Error>)
        requires
            old(self).wf(),
        ensures
            final(self).wf(),
            final(self).arrived() == old(self).arrived(),
            r is Ok <==> !old(self).pending().contains(spec_next_tid(old(self).spec_tid())),
            r matches Ok(tid) ==> tid == spec_next_tid(old(self).spec_tid())
                && !old(self).pending().contains(tid)
                && final(self).pending() == old(self).pending().insert(tid)
                && final(self).spec_tid() == tid,
            r matches Err(e) ==> e matches Error::Queue(QueueError::TooManyInFlight)
                && *final(self) == *old(self),
    {
        let candidate = if self.next_tid == 0xffff {
            0
        } else {
            self.next_tid + 1
        };
        if self.waiters.contains(&candidate) {
            return Err(Error::Queue(QueueError::TooManyInFlight));
        }
        self.waiters.insert(candidate);
        self.next_tid = candidate;
        proof {
            assert(self.arrived() == old(self).arrived());
        }
        Ok(candidate)
    }

    /// Files an arrived reply under its header's transaction id, replacing
    /// any unconsumed reply under the same id, and reports whether a waiter
    /// is pending for it.
    pub fn publish(&mut self, header: Header, bytes: Vec<u8>) -> (has_waiter: bool)
        requires
            old(self).wf(),
        ensures
            final(self).wf(),
            final(self).arrived() == old(self).arrived().insert(
                header.transaction_id,
                Reply { header, bytes },
            ),
            final(self).pending() == old(self).pending(),
            final(self).spec_tid() == old(self).spec_tid(),
            has_waiter == old(self).pending().contains(header.transaction_id),
    {
        let ghost tid = header.transaction_id;
        let has_waiter = self.waiters.contains(&header.transaction_id);
        self.messages.insert(header.transaction_id, Reply { header, bytes });
        proof {
            assert forall|t: u16| self.arrived().contains_key(t) implies
                (#[trigger] self.arrived()[t]).header.transaction_id == t by {
                if t != tid {
                    assert(old(self).arrived().contains_key(t));
                    assert(self.arrived()[t] == old(self).arrived()[t]);
                }
            }
        }
        has_waiter
    }

    /// Hands the caller with the given transaction id its reply, removing
    /// the reply and the caller's waiter. The reply returned is exactly the
    /// one filed under the caller's own id — never another caller's.
    pub fn consume(&mut self, transaction_id: u16) -> (r: Result<Reply, Error>)
        requires
            old(self).wf(),
        ensures
            final(self).wf(),
            r is Ok <==> old(self).arrived().contains_key(transaction_id),
            r matches Ok(reply) ==> reply == old(self).arrived()[transaction_id]
                && reply.header.transaction_id == transaction_id
                && final(self).arrived() == old(self).arrived().remove(transaction_id)
                && final(self).pending() == old(self).pending().remove(transaction_id)
                && final(self).spec_tid() == old(self).spec_tid(),
            r matches Err(e) ==> e matches Error::Queue(QueueError::QueueEmptyWhenRead)
                && final(self).arrived() == old(self).arrived()
                && final(self).pending() == old(self).pending()
                && final(self).spec_tid() == old(self).spec_tid(),
    {
        match self.messages.remove(&transaction_id) {
            Some(reply) => {
                self.waiters.remove(&transaction_id);
                proof {
                    lemma_wf_after_drop(*old(self), *self, transaction_id);
                }
                Ok(reply)
            },
            None => {
                proof {
                    lemma_wf_after_drop(*old(self), *self, transaction_id);
                }
                Err(Error::Queue(QueueError::QueueEmptyWhenRead))
            },
        }
    }

    /// Cancels the request pending under the given id: its waiter is removed
    /// so a reply arriving later is dropped rather than delivered to an
    /// unrelated request, and an already-filed reply is discarded.
    pub fn cancel(&mut self, transaction_id: u16)
        requires
            old(self).wf(),
        ensures
            final(self).wf(),
            final(self).pending() == old(self).pending().remove(transaction_id),
            final(self).arrived() == old(self).arrived().remove(transaction_id),
            final(self).spec_tid() == old(self).spec_tid(),
    {
        self.waiters.remove(&transaction_id);
        self.messages.remove(&transaction_id);
        proof {
            lemma_wf_after_drop(*old(self), *self, transaction_id);
        }
    }
}

/// A topic whose reply map only lost the entry under `tid` keeps every
/// remaining reply under its own id.
proof fn lemma_wf_after_drop(before: Topic, after: Topic, tid: u16)
    requires
        before.wf(),
        after.arrived() == before.arrived().remove(tid),
    ensures
        after.wf(),
{
    assert forall|t: u16| after.arrived().contains_key(t) implies
        (#[trigger] after.arrived()[t]).header.transaction_id == t by {
        assert(before.arrived().contains_key(t));
        assert(after.arrived()[t] == before.arrived()[t]);
    }
}

/// Transaction-id uniqueness for two calls: a successful allocation returns
/// an id outside the pending set it joins, so two ids allocated back to back
/// while both stay pending differ. [`lemma_window_tids_distinct`] states the
/// law for a window of any size.
pub proof fn lemma_tid_uniqueness(pending0: Set<u16>, t1: u16, t2: u16)
    requires
        !pending0.contains(t1),
        !pending0.insert(t1).contains(t2),
    ensures
        t1 != t2,
        pending0.insert(t1).insert(t2).contains(t1),
        pending0.insert(t1).insert(t2).contains(t2),
{
}

/// The pending set after the ids of `tids` were allocated in order on top
/// of `pending0`, none of them consumed or cancelled meanwhile: each
/// allocation grows the set by exactly its id, as `Topic::allocate_tid`
/// ensures of every successful call.
pub open spec fn spec_pending_after(pending0: Set<u16>, tids: Seq<u16>) -> Set<u16>
    decreases tids.len(),
{
    if tids.len() == 0 {
        pending0
    } else {
        spec_pending_after(pending0, tids.drop_last()).insert(tids.last())
    }
}

/// A window of concurrently pending calls: starting from `pending0`, each
/// id of `tids` was granted while all the earlier ones still waited, so it
/// was fresh against the pending set of its moment — exactly what
/// `Topic::allocate_tid` ensures of each successful allocation with no
/// consume or cancel in between.
pub open spec fn spec_allocation_window(pending0: Set<u16>, tids: Seq<u16>) -> bool
    decreases tids.len(),
{
    if tids.len() == 0 {
        true
    } else {
        spec_allocation_window(pending0, tids.drop_last()) && !spec_pending_after(
            pending0,
            tids.drop_last(),
        ).contains(tids.last())
    }
}

/// Every id granted within a window stays in the pending set for the rest
/// of the window.
proof fn lemma_pending_after_contains(pending0: Set<u16>, tids: Seq<u16>, i: int, m: int)
    requires
        0 <= i < m <= tids.len(),
    ensures
        spec_pending_after(pending0, tids.take(m)).contains(tids[i]),
    decreases m,
{
    assert(tids.take(m).drop_last() =~= tids.take(m - 1));
    assert(tids.take(m).last() == tids[m - 1]);
    if i < m - 1 {
        lemma_pending_after_contains(pending0, tids, i, m - 1);
    }
}

/// The freshness of the `j`-th allocation of a window, against the pending
/// set of its moment.
proof fn lemma_window_step(pending0: Set<u16>, tids: Seq<u16>, j: int)
    requires
        spec_allocation_window(pending0, tids),
        0 <= j < tids.len(),
    ensures
        !spec_pending_after(pending0, tids.take(j)).contains(tids[j]),
    decreases tids.len(),
{
    if j == tids.len() - 1 {
        assert(tids.take(j) =~= tids.drop_last());
    } else {
        assert(tids.drop_last().take(j) =~= tids.take(j));
        lemma_window_step(pending0, tids.drop_last(), j);
    }
}

/// Transaction-id uniqueness over a window of any size: within any window
/// where `k` calls are concurrently pending — each id allocated while all
/// the earlier ones still waited — the transport has assigned `k` pairwise
/// distinct transaction ids.
pub proof fn lemma_window_tids_distinct(pending0: Set<u16>, tids: Seq<u16>, i: int, j: int)
    requires
        spec_allocation_window(pending0, tids),
        0 <= i < j < tids.len(),
    ensures
        tids[i] != tids[j],
{
    lemma_pending_after_contains(pending0, tids, i, j);
    lemma_window_step(pending0, tids, j);
}

/// The reply map after filing `r`: filed under its own header's id.
pub open spec fn spec_publish(m: Map<u16, Reply>, r: Reply) -> Map<u16, Reply> {
    m.insert(r.header.transaction_id, r)
}

/// The reply map after filing every reply of `rs`, in order.
pub open spec fn spec_publish_all(m: Map<u16, Reply>, rs: Seq<Reply>) -> Map<u16, Reply>
    decreases rs.len(),
{
    if rs.len() == 0 {
        m
    } else {
        spec_publish(spec_publish_all(m, rs.drop_last()), rs.last())
    }
}

/// Publishing two replies with different transaction ids commutes: the order
/// in which the reader happens to receive them cannot change what any caller
/// is handed.
pub proof fn lemma_publish_commutes(m: Map<u16, Reply>, r1: Reply, r2: Reply)
    requires
        r1.header.transaction_id != r2.header.transaction_id,
    ensures
        spec_publish(spec_publish(m, r1), r2) == spec_publish(spec_publish(m, r2), r1),
{
    assert(spec_publish(spec_publish(m, r1), r2) =~= spec_publish(spec_publish(m, r2), r1));
}

/// Reply demultiplexing: after the reader files any permutation of server
/// replies with pairwise distinct transaction ids, each id is mapped to
/// exactly its own reply, so every caller receives the reply whose id it
/// allocated.
pub proof fn lemma_reply_demux(m0: Map<u16, Reply>, rs: Seq<Reply>, i: int)
    requires
        0 <= i < rs.len(),
        forall|a: int, b: int|
            0 <= a < b < rs.len() ==> #[trigger] rs[a].header.transaction_id
                != #[trigger] rs[b].header.transaction_id,
    ensures
        spec_publish_all(m0, rs).contains_key(rs[i].header.transaction_id),
        spec_publish_all(m0, rs)[rs[i].header.transaction_id] == rs[i],
    decreases rs.len(),
{
    if i == rs.len() - 1 {
        assert(rs.last() == rs[i]);
    } else {
        assert forall|a: int, b: int| 0 <= a < b < rs.drop_last().len() implies #[trigger] rs.drop_last()[a].header.transaction_id != #[trigger] rs.drop_last()[b].header.transaction_id by {
            assert(rs.drop_last()[a] == rs[a]);
            assert(rs.drop_last()[b] == rs[b]);
        }
        lemma_reply_demux(m0, rs.drop_last(), i);
        assert(rs.drop_last()[i] == rs[i]);
        assert(rs.last().header.transaction_id != rs[i].header.transaction_id);
    }
}

} // verus!
