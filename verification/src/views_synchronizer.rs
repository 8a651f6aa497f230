//! The views synchronizer keeps the query status cache in step with the views that
//! exist in ReadySet: at every poll interval it asks the controller which of the
//! queries pending migration already have a view, and marks those as migrated.
//!
//! The waiting, the calls to the controller and the updates of the cache are the
//! caller's to perform; this module holds what is decided between them.

use vstd::prelude::*;
use std::time::Duration;

verus! {

/// Polls the ReadySet controller for the queries that are pending migration.
pub struct ViewsSynchronizer<Controller, Cache, Dialect, Shutdown> {
    /// The connection used to ask the controller about views.
    pub controller: Controller,
    /// The query status cache, updated according to which queries exist in ReadySet.
    pub query_status_cache: Cache,
    /// The interval between subsequent pollings of the leader for migrated queries.
    pub poll_interval: Duration,
    /// The dialect that ReadySet uses for the expression semantics of all queries.
    pub dialect: Dialect,
    /// Where the shutdown signal arrives.
    pub shutdown_recv: Shutdown,
}

impl<Controller, Cache, Dialect, Shutdown> ViewsSynchronizer<Controller, Cache, Dialect, Shutdown> {
    /// Makes a synchronizer from its parts.
    pub fn new(
        controller: Controller,
        query_status_cache: Cache,
        poll_interval: Duration,
        dialect: Dialect,
        shutdown_recv: Shutdown,
    ) -> (r: Self)
        ensures
            r.controller == controller,
            r.query_status_cache == query_status_cache,
            r.poll_interval == poll_interval,
            r.dialect == dialect,
            r.shutdown_recv == shutdown_recv,
    {
        ViewsSynchronizer { controller, query_status_cache, poll_interval, dialect, shutdown_recv }
    }
}

/// What woke the synchronizer's loop.
#[derive(Clone, Copy, Debug, PartialEq, Eq, Structural)]
pub enum SyncEvent {
    /// The poll interval elapsed.
    Tick,
    /// The shutdown signal arrived (or its sender went away).
    Shutdown,
}

/// What the synchronizer's loop does next.
#[derive(Clone, Copy, Debug, PartialEq, Eq, Structural)]
pub enum SyncAction {
    /// Ask the controller about the queries pending migration.
    Poll,
    /// Leave the loop.
    Stop,
}

/// The action that answers an event: poll on a tick, stop on shutdown.
pub open spec fn action_for(event: SyncEvent) -> SyncAction {
    match event {
        SyncEvent::Tick => SyncAction::Poll,
        SyncEvent::Shutdown => SyncAction::Stop,
    }
}

/// Decides what the loop does after `event`.
pub fn next_action(event: SyncEvent) -> (a: SyncAction)
    ensures
        a == action_for(event),
{
    match event {
        SyncEvent::Tick => SyncAction::Poll,
        SyncEvent::Shutdown => SyncAction::Stop,
    }
}

/// The queries that could be parsed, in their order: the `Some`s of `pending`.
pub open spec fn parsed<Q>(pending: Seq<Option<Q>>) -> Seq<Q>
    decreases pending.len(),
{
    if pending.len() == 0 {
        Seq::empty()
    } else {
        parsed(pending.drop_last()) + match pending.last() {
            Some(q) => seq![q],
            None => Seq::empty(),
        }
    }
}

/// The queries that the controller reported as migrated, in their order: `queries[i]`
/// for each `i` that has a status, whose status is `true`. Queries beyond the last
/// status are not reported on.
pub open spec fn migrated<Q>(queries: Seq<Q>, statuses: Seq<bool>) -> Seq<Q>
    decreases queries.len(),
{
    if queries.len() == 0 {
        Seq::empty()
    } else {
        let i = queries.len() - 1;
        migrated(queries.drop_last(), statuses) + if i < statuses.len() && statuses[i] {
            seq![queries.last()]
        } else {
            Seq::empty()
        }
    }
}

/// Keeps the queries pending migration that could be parsed, in their order.
pub fn parsed_queries<Q>(pending: Vec<Option<Q>>) -> (r: Vec<Q>)
    ensures
        r@ == parsed(pending@),
{
    let ghost p = pending@;
    let mut r: Vec<Q> = Vec::new();
    for item in it: pending.into_iter()
        invariant
            it.seq() == p,
            r@ == parsed(p.take(it.index() as int)),
    {
        assert(p.take(it.index() + 1).drop_last() =~= p.take(it.index() as int));
        match item {
            Some(q) => {
                r.push(q);
            },
            None => {
                assert(r@ + Seq::<Q>::empty() =~= r@);
            },
        }
    }
    assert(p.take(p.len() as int) =~= p);
    r
}

/// The queries to mark as migrated once the controller answered `statuses` for
/// `queries` (the i-th status belongs to the i-th query).
pub fn migrated_queries<Q>(queries: Vec<Q>, statuses: &Vec<bool>) -> (r: Vec<Q>)
    ensures
        r@ == migrated(queries@, statuses@),
{
    let ghost qs = queries@;
    let n = queries.len();
    let mut r: Vec<Q> = Vec::new();
    let mut i: usize = 0;
    for q in it: queries.into_iter()
        invariant
            it.seq() == qs,
            qs.len() == n,
            i == it.index(),
            r@ == migrated(qs.take(i as int), statuses@),
    {
        let ghost t = qs.take(i + 1);
        assert(t.drop_last() =~= qs.take(i as int));
        if i < statuses.len() && statuses[i] {
            r.push(q);
        } else {
            assert(r@ + Seq::<Q>::empty() =~= r@);
        }
        i = i + 1;
    }
    assert(qs.take(qs.len() as int) =~= qs);
    r
}

/// The queries to mark as migrated after a poll: those the controller reported as
/// migrated when it answered, none when the call failed.
pub fn updates_after_poll<Q, E>(queries: Vec<Q>, answer: Result<Vec<bool>, E>) -> (r: Vec<Q>)
    ensures
        r@ == match answer {
            Ok(statuses) => migrated(queries@, statuses@),
            Err(_) => Seq::empty(),
        },
{
    match answer {
        Ok(statuses) => migrated_queries(queries, &statuses),
        Err(_) => Vec::new(),
    }
}

} // verus!
