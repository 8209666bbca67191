//! Draining an instrument's error queue.
//!
//! An instrument reports its errors one at a time, oldest first, through an
//! error query, and answers with a "no error" sentinel once the queue is
//! empty. The drain collects the replies before the sentinel. Since faulty
//! firmware may never send the sentinel, the drain gives up after a set number
//! of queries.

use vstd::prelude::*;

use crate::reply::{is_no_error_reply, is_sentinel};

verus! {

/// Where a drain stands.
#[derive(PartialEq, Eq, Structural, Clone, Copy, Debug)]
pub enum DrainStatus {
    /// Another error query is due.
    Pending,
    /// The sentinel came: the queue is empty.
    Finished,
    /// The query limit was reached before the sentinel came.
    Exhausted,
}

/// The mathematical state of a drain.
pub struct DrainState {
    /// The error replies collected, in query order.
    pub errors: Seq<Seq<char>>,
    /// The number of replies taken.
    pub queries: nat,
    /// The most replies that will be taken.
    pub limit: nat,
    pub status: DrainStatus,
}

impl DrainState {
    /// A pending drain has queries left.
    pub open spec fn inv(self) -> bool {
        self.status == DrainStatus::Pending ==> self.queries < self.limit
    }
}

/// A drain that has taken no reply yet.
pub open spec fn drain_start(limit: nat) -> DrainState {
    DrainState {
        errors: Seq::empty(),
        queries: 0,
        limit,
        status: if limit == 0 {
            DrainStatus::Exhausted
        } else {
            DrainStatus::Pending
        },
    }
}

/// A pending drain takes one reply: the sentinel finishes it; any other reply
/// is collected, and exhausts the drain when it was the last one allowed.
pub open spec fn drain_step(d: DrainState, reply: Seq<char>) -> DrainState {
    let q = d.queries + 1;
    if is_sentinel(reply) {
        DrainState { queries: q, status: DrainStatus::Finished, ..d }
    } else {
        DrainState {
            errors: d.errors.push(reply),
            queries: q,
            status: if q >= d.limit {
                DrainStatus::Exhausted
            } else {
                DrainStatus::Pending
            },
            ..d
        }
    }
}

/// Feeds replies to a drain for as long as it is pending.
pub open spec fn drain_run(d: DrainState, replies: Seq<Seq<char>>) -> DrainState
    decreases replies.len(),
{
    if replies.len() == 0 || d.status != DrainStatus::Pending {
        d
    } else {
        drain_run(drain_step(d, replies[0]), replies.drop_first())
    }
}

/// The replies that come before the first sentinel, in order.
pub open spec fn errors_before_sentinel(replies: Seq<Seq<char>>) -> Seq<Seq<char>>
    decreases replies.len(),
{
    if replies.len() == 0 || is_sentinel(replies[0]) {
        Seq::empty()
    } else {
        seq![replies[0]] + errors_before_sentinel(replies.drop_first())
    }
}

/// Collects the entries of an instrument's error queue.
pub struct ErrorQueueDrain {
    errors: Vec<String>,
    queries: u64,
    limit: u64,
    status: DrainStatus,
}

impl View for ErrorQueueDrain {
    type V = DrainState;

    closed spec fn view(&self) -> DrainState {
        DrainState {
            errors: self.errors@.map_values(|s: String| s@),
            queries: self.queries as nat,
            limit: self.limit as nat,
            status: self.status,
        }
    }
}

impl ErrorQueueDrain {
    /// A drain that takes at most `limit` replies.
    pub fn new(limit: u64) -> (r: ErrorQueueDrain)
        ensures
            r@ == drain_start(limit as nat),
            r@.inv(),
    {
        let r = ErrorQueueDrain {
            errors: Vec::new(),
            queries: 0,
            limit,
            status: if limit == 0 {
                DrainStatus::Exhausted
            } else {
                DrainStatus::Pending
            },
        };
        assert(r@.errors =~= Seq::<Seq<char>>::empty());
        r
    }

    pub fn status(&self) -> (r: DrainStatus)
        ensures
            r == self@.status,
    {
        self.status
    }

    /// Whether another error query is due.
    pub fn is_pending(&self) -> (r: bool)
        ensures
            r == (self@.status == DrainStatus::Pending),
    {
        self.status == DrainStatus::Pending
    }

    /// The error replies collected so far, in query order.
    pub fn errors(&self) -> (r: &Vec<String>)
        ensures
            r@.map_values(|s: String| s@) == self@.errors,
    {
        &self.errors
    }

    /// Gives up the collected error replies.
    pub fn into_errors(self) -> (r: Vec<String>)
        ensures
            r@.map_values(|s: String| s@) == self@.errors,
    {
        self.errors
    }

    /// Takes the reply to one error query.
    pub fn accept(&mut self, reply: String)
        requires
            old(self)@.inv(),
            old(self)@.status == DrainStatus::Pending,
        ensures
            final(self)@ == drain_step(old(self)@, reply@),
            final(self)@.inv(),
    {
        self.queries = self.queries + 1;
        if is_no_error_reply(reply.as_str()) {
            self.status = DrainStatus::Finished;
        } else {
            let ghost before = self.errors@;
            let ghost text = reply@;
            self.errors.push(reply);
            assert(self.errors@.map_values(|s: String| s@) =~= before.map_values(
                |s: String| s@,
            ).push(text));
            if self.queries >= self.limit {
                self.status = DrainStatus::Exhausted;
            }
        }
    }
}

proof fn lemma_drain_run_from(d: DrainState, replies: Seq<Seq<char>>)
    requires
        d.status == DrainStatus::Pending,
        d.queries + replies.len() < d.limit,
    ensures
        drain_run(d, replies).errors == d.errors + errors_before_sentinel(replies),
        drain_run(d, replies).status == DrainStatus::Finished <==> exists|i: int|
            0 <= i < replies.len() && is_sentinel(#[trigger] replies[i]),
        drain_run(d, replies).status != DrainStatus::Exhausted,
    decreases replies.len(),
{
    if replies.len() == 0 {
        assert(d.errors + errors_before_sentinel(replies) =~= d.errors);
    } else {
        let n = drain_step(d, replies[0]);
        let rest = replies.drop_first();
        if is_sentinel(replies[0]) {
            assert(d.errors + errors_before_sentinel(replies) =~= d.errors);
        } else {
            lemma_drain_run_from(n, rest);
            assert(d.errors + errors_before_sentinel(replies) =~= n.errors
                + errors_before_sentinel(rest));
            if exists|i: int| 0 <= i < rest.len() && is_sentinel(#[trigger] rest[i]) {
                let i = choose|i: int| 0 <= i < rest.len() && is_sentinel(#[trigger] rest[i]);
                assert(replies[i + 1] == rest[i]);
            }
            if exists|i: int| 0 <= i < replies.len() && is_sentinel(#[trigger] replies[i]) {
                let i = choose|i: int| 0 <= i < replies.len() && is_sentinel(#[trigger] replies[i]);
                assert(i != 0);
                assert(rest[i - 1] == replies[i]);
            }
        }
    }
}

/// Draining with a limit above the number of replies collects exactly the
/// replies before the first sentinel, in query order; it finishes exactly when
/// a sentinel comes; and a first reply that is the sentinel leaves nothing
/// collected.
pub proof fn lemma_drain_collects(replies: Seq<Seq<char>>, limit: nat)
    requires
        replies.len() < limit,
    ensures
        drain_run(drain_start(limit), replies).errors == errors_before_sentinel(replies),
        drain_run(drain_start(limit), replies).status == DrainStatus::Finished <==> exists|
            i: int,
        | 0 <= i < replies.len() && is_sentinel(#[trigger] replies[i]),
        replies.len() > 0 && is_sentinel(replies[0]) ==> drain_run(
            drain_start(limit),
            replies,
        ).errors.len() == 0,
{
    lemma_drain_run_from(drain_start(limit), replies);
    assert(Seq::<Seq<char>>::empty() + errors_before_sentinel(replies) =~= errors_before_sentinel(
        replies,
    ));
}

} // verus!
