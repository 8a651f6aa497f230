//! Properties of errors, of their chains of causes and of the messages they render,
//! and of the queries the views synchronizer selects, stated over the spec functions
//! that the contracts of those operations use.

use vstd::prelude::*;

use crate::errors::{is_networking_error, ReadySetError};
use crate::external::url_display_text;
use crate::text::decimal;
use url::Url;
use crate::views_synchronizer::{migrated, parsed};

verus! {

/// An error's chain of causes is the error itself, followed by the chain of the error
/// that directly caused it, if any.
pub proof fn lemma_causes_step(e: ReadySetError)
    ensures
        e.causes() == match e.source_error() {
            Some(s) => seq![e] + s.causes(),
            None => seq![e],
        },
{
}

/// An error is caused by a kind of error if and only if it is of that kind, or the error
/// that directly caused it is caused by that kind.
pub proof fn lemma_caused_by_step(e: ReadySetError, p: spec_fn(ReadySetError) -> bool)
    ensures
        e.caused_by(p) == (p(e) || match e.source_error() {
            Some(s) => s.caused_by(p),
            None => false,
        }),
{
    lemma_causes_step(e);
    let cs = e.causes();
    assert(cs[0] == e);
    match e.source_error() {
        Some(s) => {
            let tail = s.causes();
            if s.caused_by(p) {
                let j = choose|j: int| 0 <= j < tail.len() && #[trigger] p(tail[j]);
                assert(cs[j + 1] == tail[j]);
            }
            if e.caused_by(p) && !p(e) {
                let i = choose|i: int| 0 <= i < cs.len() && #[trigger] p(cs[i]);
                assert(tail[i - 1] == cs[i]);
            }
        },
        None => {},
    }
}

/// Whether an error is caused by a kind of error depends only on which errors are of
/// that kind.
pub proof fn lemma_caused_by_same_predicate(
    e: ReadySetError,
    p: spec_fn(ReadySetError) -> bool,
    q: spec_fn(ReadySetError) -> bool,
)
    requires
        forall|x: ReadySetError| #[trigger] p(x) == q(x),
    ensures
        e.caused_by(p) == e.caused_by(q),
{
    if e.caused_by(p) {
        let i = choose|i: int| 0 <= i < e.causes().len() && #[trigger] p(e.causes()[i]);
        assert(q(e.causes()[i]));
    }
    if e.caused_by(q) {
        let i = choose|i: int| 0 <= i < e.causes().len() && #[trigger] q(e.causes()[i]);
        assert(p(e.causes()[i]));
    }
}

/// The error that caused an error is smaller than it, so chains of causes are finite.
pub proof fn lemma_source_is_smaller(e: ReadySetError)
    ensures
        e.source_error() matches Some(s) ==> decreases_to!(e => s),
{
    match e {
        ReadySetError::Context { error, .. } => {
            assert(decreases_to!(e => *error));
        },
        ReadySetError::RpcFailed { source, .. } => {
            assert(decreases_to!(e => *source));
        },
        ReadySetError::SelectQueryCreationFailed { source, .. } => {
            assert(decreases_to!(e => *source));
        },
        ReadySetError::MigrationPlanFailed { source, .. } => {
            assert(decreases_to!(e => *source));
        },
        ReadySetError::MigrationApplyFailed { source, .. } => {
            assert(decreases_to!(e => *source));
        },
        ReadySetError::DomainCreationFailed { source, .. } => {
            assert(decreases_to!(e => *source));
        },
        ReadySetError::MirNodeToDataflowFailed { source, .. } => {
            assert(decreases_to!(e => *source));
        },
        ReadySetError::TableError { source, .. } => {
            assert(decreases_to!(e => *source));
        },
        ReadySetError::ViewError { source, .. } => {
            assert(decreases_to!(e => *source));
        },
        _ => {},
    }
}

/// The chain of causes starts at the error itself, each error in it is followed by the
/// error that caused it, and the last one has no cause.
pub proof fn law_causes_form_a_chain(e: ReadySetError)
    ensures
        e.causes().len() >= 1,
        e.causes()[0] == e,
        forall|i: int|
            0 <= i < e.causes().len() - 1 ==> #[trigger] e.causes()[i].source_error() == Some(
                e.causes()[i + 1],
            ),
        e.causes().last().source_error() is None,
    decreases e,
{
    lemma_causes_step(e);
    match e.source_error() {
        Some(s) => {
            lemma_source_is_smaller(e);
            law_causes_form_a_chain(s);
            let cs = e.causes();
            assert forall|i: int| 0 <= i < cs.len() - 1 implies #[trigger] cs[i].source_error()
                == Some(cs[i + 1]) by {
                if i > 0 {
                    assert(cs[i] == s.causes()[i - 1]);
                    assert(cs[i + 1] == s.causes()[i]);
                }
            }
        },
        None => {},
    }
}

/// Being caused by one kind of error or another is being caused by the first or by the
/// second.
pub proof fn law_caused_by_either(
    e: ReadySetError,
    p: spec_fn(ReadySetError) -> bool,
    q: spec_fn(ReadySetError) -> bool,
)
    ensures
        e.caused_by(|x: ReadySetError| p(x) || q(x)) == (e.caused_by(p) || e.caused_by(q)),
{
    let pq = |x: ReadySetError| p(x) || q(x);
    let cs = e.causes();
    if e.caused_by(pq) {
        let i = choose|i: int| 0 <= i < cs.len() && #[trigger] pq(cs[i]);
        if p(cs[i]) {
            assert(p(cs[i]));
        } else {
            assert(q(cs[i]));
        }
    }
    if e.caused_by(p) {
        let i = choose|i: int| 0 <= i < cs.len() && #[trigger] p(cs[i]);
        assert(pq(cs[i]));
    }
    if e.caused_by(q) {
        let i = choose|i: int| 0 <= i < cs.len() && #[trigger] q(cs[i]);
        assert(pq(cs[i]));
    }
}

/// A kind of error that includes another is a cause whenever the other is.
pub proof fn law_caused_by_monotone(
    e: ReadySetError,
    p: spec_fn(ReadySetError) -> bool,
    q: spec_fn(ReadySetError) -> bool,
)
    requires
        forall|x: ReadySetError| #[trigger] p(x) ==> q(x),
    ensures
        e.caused_by(p) ==> e.caused_by(q),
{
    if e.caused_by(p) {
        let i = choose|i: int| 0 <= i < e.causes().len() && #[trigger] p(e.causes()[i]);
        assert(q(e.causes()[i]));
    }
}

/// No error is caused by a kind that no error belongs to, and every error is caused by a
/// kind that every error belongs to.
pub proof fn law_caused_by_constant(e: ReadySetError)
    ensures
        !e.caused_by(|x: ReadySetError| false),
        e.caused_by(|x: ReadySetError| true),
{
    lemma_causes_step(e);
    let t = |x: ReadySetError| true;
    assert(t(e.causes()[0]));
}

/// An error of a kind is caused by that kind: every `is_*` that holds implies the
/// matching `caused_by_*`.
pub proof fn law_kind_implies_caused_by(e: ReadySetError, p: spec_fn(ReadySetError) -> bool)
    requires
        p(e),
    ensures
        e.caused_by(p),
{
    lemma_caused_by_step(e, p);
}

/// Adding context to an error changes none of what it was caused by.
pub proof fn law_context_keeps_causes(
    e: ReadySetError,
    context: String,
    p: spec_fn(ReadySetError) -> bool,
)
    requires
        !p((ReadySetError::Context { context, error: Box::new(e) })),
    ensures
        (ReadySetError::Context { context, error: Box::new(e) }).caused_by(p) == e.caused_by(p),
{
    lemma_caused_by_step(ReadySetError::Context { context, error: Box::new(e) }, p);
}

/// An error with context renders as the error's message followed by the context in
/// parentheses.
pub proof fn law_context_text(e: ReadySetError, context: String)
    ensures
        (ReadySetError::Context { context, error: Box::new(e) }).text() == e.text() + " ("@
            + context@ + ")"@,
{
}

/// A failed RPC could have been caused by a networking problem, whatever error it
/// carries.
pub proof fn law_rpc_failure_is_networking_related(during: String, source: ReadySetError)
    ensures
        (ReadySetError::RpcFailed { during, source: Box::new(source) }).caused_by(
            |x: ReadySetError| is_networking_error(x),
        ),
{
    let e = ReadySetError::RpcFailed { during, source: Box::new(source) };
    lemma_caused_by_step(e, |x: ReadySetError| is_networking_error(x));
}

/// The message of an error keeps the message of the error that caused it: after the
/// context's own message for [`ReadySetError::Context`], at the end for the others.
pub proof fn law_message_keeps_cause_message(e: ReadySetError)
    ensures
        e.source_error() matches Some(s) ==> if e is Context {
            s.text().is_prefix_of(e.text())
        } else {
            s.text().is_suffix_of(e.text())
        },
{
    match e.source_error() {
        Some(s) => {
            let t = e.text();
            let n = s.text().len();
            if e is Context {
                assert(t.subrange(0, n as int) =~= s.text());
            } else {
                assert(t.subrange(t.len() - n, t.len() as int) =~= s.text());
            }
        },
        None => {},
    }
}

/// Every error is the same as itself.
pub proof fn law_same_error_reflexive(e: ReadySetError)
    ensures
        e.same_error(e),
    decreases e,
{
    lemma_source_is_smaller(e);
    match e.source_error() {
        Some(s) => law_same_error_reflexive(s),
        None => {},
    }
}

/// Two errors that are the same render the same message and have chains of causes of
/// the same length; in particular a clone renders as the original does.
pub proof fn law_same_error_same_text(a: ReadySetError, b: ReadySetError)
    requires
        a.same_error(b),
    ensures
        a.text() == b.text(),
        a.causes().len() == b.causes().len(),
    decreases a,
{
    lemma_source_is_smaller(a);
    lemma_causes_step(a);
    lemma_causes_step(b);
    match (a.source_error(), b.source_error()) {
        (Some(s), Some(t)) => {
            law_same_error_same_text(s, t);
        },
        _ => {},
    }
}

/// No query is marked as migrated when the controller reports none as migrated.
pub proof fn law_no_migrated_status_no_update<Q>(queries: Seq<Q>, statuses: Seq<bool>)
    requires
        forall|i: int| 0 <= i < statuses.len() ==> !#[trigger] statuses[i],
    ensures
        migrated(queries, statuses) == Seq::<Q>::empty(),
    decreases queries.len(),
{
    if queries.len() > 0 {
        law_no_migrated_status_no_update(queries.drop_last(), statuses);
        assert(migrated(queries, statuses) =~= Seq::<Q>::empty());
    }
}

/// Every query is marked as migrated when the controller reports each of them as
/// migrated.
pub proof fn law_all_migrated_all_updated<Q>(queries: Seq<Q>, statuses: Seq<bool>)
    requires
        queries.len() <= statuses.len(),
        forall|i: int| 0 <= i < queries.len() ==> #[trigger] statuses[i],
    ensures
        migrated(queries, statuses) == queries,
    decreases queries.len(),
{
    if queries.len() > 0 {
        law_all_migrated_all_updated(queries.drop_last(), statuses);
        assert(migrated(queries, statuses) =~= queries);
    }
}

/// No more queries are marked as migrated than there were queries asked about.
pub proof fn law_migrated_at_most_asked<Q>(queries: Seq<Q>, statuses: Seq<bool>)
    ensures
        migrated(queries, statuses).len() <= queries.len(),
    decreases queries.len(),
{
    if queries.len() > 0 {
        law_migrated_at_most_asked(queries.drop_last(), statuses);
    }
}

/// When every pending query could be parsed, all of them are asked about, in order.
pub proof fn law_all_parsed_all_kept<Q>(pending: Seq<Option<Q>>)
    requires
        forall|i: int| 0 <= i < pending.len() ==> #[trigger] pending[i] is Some,
    ensures
        parsed(pending).len() == pending.len(),
        forall|i: int| 0 <= i < pending.len() ==> pending[i] == Some(#[trigger] parsed(pending)[i]),
    decreases pending.len(),
{
    if pending.len() > 0 {
        law_all_parsed_all_kept(pending.drop_last());
        let rest = pending.drop_last();
        assert forall|i: int| 0 <= i < pending.len() implies pending[i] == Some(
            #[trigger] parsed(pending)[i],
        ) by {
            if i < pending.len() - 1 {
                assert(pending[i] == rest[i]);
                assert(parsed(pending)[i] == parsed(rest)[i]);
            }
        }
    }
}

/// Selecting the parsed queries of two lists one after the other gives the parsed
/// queries of the first list followed by those of the second: whether a query is kept
/// does not depend on the queries around it.
pub proof fn law_parsed_concat<Q>(a: Seq<Option<Q>>, b: Seq<Option<Q>>)
    ensures
        parsed(a + b) == parsed(a) + parsed(b),
    decreases b.len(),
{
    if b.len() == 0 {
        assert(a + b =~= a);
        assert(parsed(a) + parsed(b) =~= parsed(a));
    } else {
        law_parsed_concat(a, b.drop_last());
        assert((a + b).drop_last() =~= a + b.drop_last());
        assert((a + b).last() == b.last());
        let tail = match b.last() {
            Some(q) => seq![q],
            None => Seq::<Q>::empty(),
        };
        assert(parsed(a + b) == parsed(a + b.drop_last()) + tail);
        assert(parsed(b) == parsed(b.drop_last()) + tail);
        assert(parsed(a) + parsed(b.drop_last()) + tail =~= parsed(a) + (parsed(b.drop_last())
            + tail));
    }
}

/// A single pending query is kept when it could be parsed, and dropped when not.
pub proof fn law_parsed_single<Q>(o: Option<Q>)
    ensures
        parsed(seq![o]) == match o {
            Some(q) => seq![q],
            None => Seq::<Q>::empty(),
        },
{
    assert(seq![o].drop_last() =~= Seq::<Option<Q>>::empty());
    assert(parsed(Seq::<Option<Q>>::empty()) == Seq::<Q>::empty());
    match o {
        Some(q) => assert(Seq::<Q>::empty() + seq![q] =~= seq![q]),
        None => assert(Seq::<Q>::empty() + Seq::<Q>::empty() =~= Seq::<Q>::empty()),
    }
}

/// Every pending query that could be parsed is asked about, at its place: the result is
/// the parsed queries before it, then the query itself, then the parsed queries after it,
/// whatever the other pending entries are. A query that could not be parsed leaves no
/// trace between the two.
pub proof fn law_every_parsed_query_kept<Q>(pending: Seq<Option<Q>>, i: int)
    requires
        0 <= i < pending.len(),
    ensures
        parsed(pending) == parsed(pending.take(i)) + match pending[i] {
            Some(q) => seq![q],
            None => Seq::<Q>::empty(),
        } + parsed(pending.skip(i + 1)),
        pending[i] matches Some(q) ==> parsed(pending)[parsed(pending.take(i)).len() as int] == q
            && parsed(pending).contains(q),
{
    let before = pending.take(i);
    let after = pending.skip(i + 1);
    assert(pending =~= before + seq![pending[i]] + after);
    law_parsed_concat(before + seq![pending[i]], after);
    law_parsed_concat(before, seq![pending[i]]);
    law_parsed_single(pending[i]);
    match pending[i] {
        Some(q) => {
            let k = parsed(before).len() as int;
            assert(parsed(pending)[k] == q);
        },
        None => {},
    }
}

/// The statuses that belong to the queries after the first `n`.
pub open spec fn statuses_after(statuses: Seq<bool>, n: nat) -> Seq<bool> {
    if n <= statuses.len() {
        statuses.skip(n as int)
    } else {
        Seq::empty()
    }
}

/// Asking about two lists of queries one after the other, the statuses of the second
/// following those of the first, marks the queries the first answer marks, then those the
/// second marks: whether a query is marked depends on its own status alone.
pub proof fn law_migrated_concat<Q>(a: Seq<Q>, b: Seq<Q>, statuses: Seq<bool>)
    ensures
        migrated(a + b, statuses) == migrated(a, statuses) + migrated(
            b,
            statuses_after(statuses, a.len()),
        ),
    decreases b.len(),
{
    let sb = statuses_after(statuses, a.len());
    if b.len() == 0 {
        assert(a + b =~= a);
        assert(migrated(a, statuses) + migrated(b, sb) =~= migrated(a, statuses));
    } else {
        law_migrated_concat(a, b.drop_last(), statuses);
        assert((a + b).drop_last() =~= a + b.drop_last());
        assert((a + b).last() == b.last());
        let i = a.len() + b.len() - 1;
        let j = b.len() - 1;
        assert((i < statuses.len() && statuses[i]) == (j < sb.len() && sb[j]));
        let tail = if j < sb.len() && sb[j] {
            seq![b.last()]
        } else {
            Seq::<Q>::empty()
        };
        assert(migrated(a + b, statuses) == migrated(a + b.drop_last(), statuses) + tail);
        assert(migrated(b, sb) == migrated(b.drop_last(), sb) + tail);
        assert(migrated(a, statuses) + migrated(b.drop_last(), sb) + tail =~= migrated(
            a,
            statuses,
        ) + (migrated(b.drop_last(), sb) + tail));
    }
}

/// A single query is marked exactly when the controller's first status is `true`.
pub proof fn law_migrated_single<Q>(q: Q, statuses: Seq<bool>)
    ensures
        migrated(seq![q], statuses) == if statuses.len() > 0 && statuses[0] {
            seq![q]
        } else {
            Seq::<Q>::empty()
        },
{
    assert(seq![q].drop_last() =~= Seq::<Q>::empty());
    assert(migrated(Seq::<Q>::empty(), statuses) == Seq::<Q>::empty());
    assert(Seq::<Q>::empty() + seq![q] =~= seq![q]);
    assert(Seq::<Q>::empty() + Seq::<Q>::empty() =~= Seq::<Q>::empty());
}

/// A query is marked as migrated exactly when its own status is `true`, at its place
/// among the marked queries: the result is what the queries before it give, then the
/// query if its status is `true`, then what the queries after it give, whatever the
/// other statuses are.
pub proof fn law_migrated_exactly_own_status<Q>(queries: Seq<Q>, statuses: Seq<bool>, i: int)
    requires
        0 <= i < queries.len(),
        i < statuses.len(),
    ensures
        migrated(queries, statuses) == migrated(queries.take(i), statuses) + (if statuses[i] {
            seq![queries[i]]
        } else {
            Seq::<Q>::empty()
        }) + migrated(queries.skip(i + 1), statuses.skip(i + 1)),
        statuses[i] ==> migrated(queries, statuses)[migrated(queries.take(i), statuses).len() as int]
            == queries[i],
{
    let before = queries.take(i);
    let after = queries.skip(i + 1);
    let both = before + seq![queries[i]];
    assert(queries =~= both + after);
    law_migrated_concat(both, after, statuses);
    law_migrated_concat(before, seq![queries[i]], statuses);
    assert(statuses_after(statuses, both.len()) =~= statuses.skip(i + 1));
    let si = statuses_after(statuses, before.len());
    assert(si.len() > 0 && si[0] == statuses[i]);
    law_migrated_single(queries[i], si);
}

/// The message of a wrong key column count names the expected count (the first field)
/// after `expected`, and the count that was used (the second) after `got`.
pub proof fn law_wrong_key_column_count_text(expected: usize, got: usize)
    ensures
        ReadySetError::WrongKeyColumnCount(expected, got).text()
            == "wrong number of key columns used: expected "@ + decimal(expected as nat)
            + ", got "@ + decimal(got as nat),
{
}

/// The message of a failed migration apply says that applying failed, then gives the
/// message of its cause; it is never the message of a failed plan with the same cause.
pub proof fn law_migration_apply_failed_text(source: ReadySetError)
    ensures
        (ReadySetError::MigrationApplyFailed { source: Box::new(source) }).text()
            == "Failed to apply migration: "@ + source.text(),
        (ReadySetError::MigrationApplyFailed { source: Box::new(source) }).text()
            != (ReadySetError::MigrationPlanFailed { source: Box::new(source) }).text(),
{
    reveal_strlit("Failed to apply migration: ");
    reveal_strlit("Failed to plan migration: ");
    let a = (ReadySetError::MigrationApplyFailed { source: Box::new(source) }).text();
    let p = (ReadySetError::MigrationPlanFailed { source: Box::new(source) }).text();
    assert(a[10] == 'a');
    assert(p[10] == 'p');
}

/// The message of a shard index out of bounds names the shard, then the domain, then
/// the number of shards, each at its own place.
pub proof fn law_shard_index_out_of_bounds_text(
    shard: usize,
    domain_index: usize,
    num_shards: usize,
)
    ensures
        (ReadySetError::ShardIndexOutOfBounds { shard, domain_index, num_shards }).text() == "Shard "@
            + decimal(shard as nat) + " out of bounds for domain "@ + decimal(domain_index as nat)
            + " with "@ + decimal(num_shards as nat) + " shards"@,
{
}

/// The message of a failed migration plan says that planning failed, then gives the
/// message of its cause.
pub proof fn law_migration_plan_failed_text(source: ReadySetError)
    ensures
        (ReadySetError::MigrationPlanFailed { source: Box::new(source) }).text()
            == "Failed to plan migration: "@ + source.text(),
{
}

/// The message of a failed RPC names what was being done, then gives the message of the
/// error that made it fail.
pub proof fn law_rpc_failed_text(during: String, source: ReadySetError)
    ensures
        (ReadySetError::RpcFailed { during, source: Box::new(source) }).text()
            == "Error during RPC ("@ + during@ + "): "@ + source.text(),
{
}

/// The message of a domain that failed to boot names the domain index, the shard and the
/// replica in that order, then the worker, then the message of the cause.
pub proof fn law_domain_creation_failed_text(
    domain_index: usize,
    shard: usize,
    replica: usize,
    worker_uri: Url,
    source: ReadySetError,
)
    ensures
        (ReadySetError::DomainCreationFailed {
            domain_index,
            shard,
            replica,
            worker_uri,
            source: Box::new(source),
        }).text() == "Failed to boot domain "@ + decimal(domain_index as nat) + "."@ + decimal(
            shard as nat,
        ) + "."@ + decimal(replica as nat) + " on worker '"@ + url_display_text(worker_uri)
            + "': "@ + source.text(),
{
}

/// The message of a view replica out of bounds names the replica, then the view, then
/// the number of replicas.
pub proof fn law_view_replica_out_of_bounds_text(
    replica: usize,
    view_name: String,
    num_replicas: usize,
)
    ensures
        (ReadySetError::ViewReplicaOutOfBounds { replica, view_name, num_replicas }).text()
            == "Replica "@ + decimal(replica as nat) + " out of bounds for view "@ + view_name@
            + " with "@ + decimal(num_replicas as nat) + " replicas"@,
{
}

/// The message of a missing replica names the domain index, the shard and the replica,
/// in that order.
pub proof fn law_no_such_replica_text(domain_index: usize, shard: usize, replica: usize)
    ensures
        (ReadySetError::NoSuchReplica { domain_index, shard, replica }).text()
            == "Could not find domain "@ + decimal(domain_index as nat) + "."@ + decimal(
            shard as nat,
        ) + "."@ + decimal(replica as nat) + " on worker"@,
{
}

/// The message of a domain without a healthy worker names the domain index, then the
/// shard.
pub proof fn law_no_available_workers_text(domain_index: usize, shard: usize)
    ensures
        (ReadySetError::NoAvailableWorkers { domain_index, shard }).text()
            == "Could not find healthy worker to place domain "@ + decimal(domain_index as nat)
            + "."@ + decimal(shard as nat),
{
}

/// The message of a wrong column count names the expected count (the first field), then
/// the count that was given (the second).
pub proof fn law_wrong_column_count_text(expected: usize, got: usize)
    ensures
        ReadySetError::WrongColumnCount(expected, got).text()
            == "wrong number of columns specified: expected "@ + decimal(expected as nat)
            + ", got "@ + decimal(got as nat),
{
}

/// The message of a wrong column type names the expected type (the first field), then
/// the type that came back (the second).
pub proof fn law_wrong_column_type_text(expected: String, got: String)
    ensures
        ReadySetError::WrongColumnType(expected, got).text()
            == "wrong column type returned from noria: expected "@ + expected@ + ", got "@
            + got@,
{
}

/// The message of a value conversion error names the source type, then the target type,
/// then the details.
pub proof fn law_df_value_conversion_error_text(
    src_type: String,
    target_type: String,
    details: String,
)
    ensures
        (ReadySetError::DfValueConversionError { src_type, target_type, details }).text()
            == "DfValue conversion error: Failed to convert value of type "@ + src_type@
            + " to the type "@ + target_type@ + ": "@ + details@,
{
}

/// The message of replication offsets from different logs names the expected log (the
/// first field), then the log that was found (the second).
pub proof fn law_replication_offset_log_different_text(expected: String, got: String)
    ensures
        ReadySetError::ReplicationOffsetLogDifferent(expected, got).text()
            == "Cannot compare replication offsets from different logs: expected "@ + expected@
            + ", but got "@ + got@ + " (did the replication log name change?)"@,
{
}

/// The message of an expression missing from the GROUP BY clause names the expression,
/// then where it appears.
pub proof fn law_expr_not_in_group_by_text(expression: String, position: String)
    ensures
        (ReadySetError::ExprNotInGroupBy { expression, position }).text() == "Expression `"@
            + expression@ + "` appears in "@ + position@
            + " but is not functionally dependent on columns in the GROUP BY clause"@,
{
}

/// The message of a failed ZooKeeper connection names where it connected, then why it
/// failed.
pub proof fn law_zookeeper_connection_failed_text(connect_string: String, reason: String)
    ensures
        (ReadySetError::ZookeeperConnectionFailed { connect_string, reason }).text()
            == "Failed to connect to ZooKeeper at '"@ + connect_string@ + "': "@ + reason@,
{
}

/// The message of an error in a built-in function names the function, then the message.
pub proof fn law_project_expr_built_in_function_error_text(function: String, message: String)
    ensures
        (ReadySetError::ProjectExprBuiltInFunctionError { function, message }).text()
            == "Error in project expression built-in function: "@ + function@ + ": "@ + message@,
{
}

/// The message of a non-existent column names the column, then the node it was looked
/// up in.
pub proof fn law_non_existent_column_text(column: String, node: String)
    ensures
        (ReadySetError::NonExistentColumn { column, node }).text()
            == "Could not look up non-existent column "@ + column@ + " in "@ + node@,
{
}

/// The message of a malformed array literal quotes the input, then gives the message.
pub proof fn law_array_parse_error_text(input: String, message: String)
    ensures
        (ReadySetError::ArrayParseError { input, message }).text() == "Malformed array literal '"@
            + input@ + "': "@ + message@,
{
}

} // verus!
