use petgraph::graph::NodeIndex;
use readyset::errors::{
    bad_request_err, no_table_for_col, rpc_err, rpc_err_no_downcast, table_err, view_err,
    wrap_boxed_error, BoxedErrorWrapper, NodeType, ReadySetError, Relation,
};
use url::Url;

#[test]
fn caused_by_unsupported_two_deep() {
    let err = ReadySetError::RpcFailed {
        during: "test".to_owned(),
        source: Box::new(ReadySetError::MigrationPlanFailed {
            source: Box::new(ReadySetError::Unsupported("Test".to_owned())),
        }),
    };
    assert!(err.caused_by_unsupported());
}

#[test]
fn caused_by_is_false_without_the_kind_in_the_chain() {
    let err = ReadySetError::RpcFailed {
        during: "test".to_owned(),
        source: Box::new(ReadySetError::ViewDestroyed),
    };
    assert!(!err.caused_by_unsupported());
    assert!(err.caused_by_view_destroyed());
    assert!(!err.is_unsupported());
}

#[test]
fn is_and_caused_by_each_kind() {
    let q = ReadySetError::UnparseableQuery { query: "SELEC".to_owned() };
    assert!(q.is_unparseable_query());
    assert!(q.caused_by_unparseable_query());
    let v = ReadySetError::ViewNotFound("v".to_owned());
    assert!(v.is_view_not_found());
    assert!(v.caused_by_view_not_found());
    let t = ReadySetError::TableNotFound { name: "t".to_owned(), schema: None };
    assert!(t.is_table_not_found());
    assert!(t.clone().context("while planning").caused_by_table_not_found());
    assert!(!t.clone().context("while planning").is_table_not_found());
    let d = ReadySetError::DfValueConversionError {
        src_type: "a".to_owned(),
        target_type: "b".to_owned(),
        details: "c".to_owned(),
    };
    assert!(d.caused_by_data_type_conversion());
    let i = ReadySetError::InvalidQuery("x".to_owned());
    assert!(i.is_invalid_query());
    assert!(!i.caused_by_unsupported());
}

#[test]
fn networking_related_errors() {
    assert!(ReadySetError::IOError("x".to_owned()).is_networking_related());
    assert!(ReadySetError::TcpSendError("x".to_owned()).is_networking_related());
    assert!(ReadySetError::ServiceUnavailable.is_networking_related());
    assert!(rpc_err_no_downcast("call", ReadySetError::ViewDestroyed).is_networking_related());
    let deep = ReadySetError::MigrationApplyFailed {
        source: Box::new(ReadySetError::ServiceUnavailable),
    };
    assert!(deep.is_networking_related());
    assert!(!ReadySetError::ViewDestroyed.is_networking_related());
}

#[test]
fn context_wraps_and_renders() {
    let e = ReadySetError::ViewDestroyed.context("reading view");
    assert_eq!(
        e,
        ReadySetError::Context {
            context: "reading view".to_owned(),
            error: Box::new(ReadySetError::ViewDestroyed)
        }
    );
    assert_eq!(e.to_string(), "view destroyed (reading view)");
    assert!(e.caused_by_view_destroyed());
}

#[test]
fn messages_of_simple_variants() {
    assert_eq!(
        ReadySetError::WrongColumnCount(3, 14).to_string(),
        "wrong number of columns specified: expected 3, got 14"
    );
    assert_eq!(ReadySetError::NoSuchNode(0).to_string(), "Node 0 not found in domain");
    assert_eq!(
        ReadySetError::NoSuchReplayPath(4294967295).to_string(),
        "Replay path identified by Tag(4294967295) not found"
    );
    assert_eq!(
        ReadySetError::PreparedStatementMissing { statement_id: 120 }.to_string(),
        "Prepared statement with ID 120 not found"
    );
    assert_eq!(
        ReadySetError::ExprNotInGroupBy { expression: "a + 1".to_owned(), position: "ORDER BY".to_owned() }
            .to_string(),
        "Expression `a + 1` appears in ORDER BY but is not functionally dependent on columns in the GROUP BY clause"
    );
    assert_eq!(ReadySetError::IOError("disk full".to_owned()).to_string(), "disk full");
    assert_eq!(
        ReadySetError::LeaderNotReady.to_string(),
        "The leader is not ready. Either it has not finished initializing, or there is an ongoing snapshotting operation."
    );
    assert_eq!(
        ReadySetError::ReplicationOffsetLogDifferent("a".to_owned(), "b".to_owned()).to_string(),
        "Cannot compare replication offsets from different logs: expected a, but got b (did the replication log name change?)"
    );
    assert_eq!(
        ReadySetError::ProjectExprInvalidColumnIndex(usize::MAX).to_string(),
        format!(
            "Column index out-of-bounds while evaluating project expression: index was {}",
            usize::MAX
        )
    );
}

#[test]
fn messages_with_schema_prefix() {
    assert_eq!(
        ReadySetError::TableNotFound { name: "t".to_owned(), schema: Some("public".to_owned()) }
            .to_string(),
        "Could not find table 'public.t'"
    );
    assert_eq!(
        ReadySetError::TableNotFound { name: "t".to_owned(), schema: None }.to_string(),
        "Could not find table 't'"
    );
    assert_eq!(
        ReadySetError::TableNotReplicated { name: "t".to_owned(), schema: Some("s".to_owned()) }
            .to_string(),
        "Table 's.t' is not being replicated by ReadySet"
    );
}

#[test]
fn messages_of_chained_variants() {
    let cause = ReadySetError::Unsupported("Test".to_owned());
    let e = ReadySetError::RpcFailed {
        during: "test".to_owned(),
        source: Box::new(ReadySetError::MigrationPlanFailed { source: Box::new(cause) }),
    };
    assert_eq!(
        e.to_string(),
        "Error during RPC (test): Failed to plan migration: Operation unsupported: Test"
    );
    let worker = Url::parse("http://worker:6033/").unwrap();
    let d = ReadySetError::DomainCreationFailed {
        domain_index: 1,
        shard: 2,
        replica: 3,
        worker_uri: worker,
        source: Box::new(ReadySetError::NotLeader),
    };
    assert_eq!(
        d.to_string(),
        "Failed to boot domain 1.2.3 on worker 'http://worker:6033/': This instance is not the leader"
    );
}

#[test]
fn messages_with_node_indices_urls_and_lists() {
    let v = view_err(NodeIndex::new(5), ReadySetError::ViewDestroyed);
    assert_eq!(v.to_string(), "Failed to manipulate view at NodeIndex(5): view destroyed");
    let m = ReadySetError::MirNodeToDataflowFailed {
        index: NodeIndex::new(12),
        source: Box::new(ReadySetError::EmptyKey),
    };
    assert_eq!(
        m.to_string(),
        "MIR node 'NodeIndex(12)' couldn't be made: the query specified an empty lookup key"
    );
    let workers = vec![
        Url::parse("http://a:1/").unwrap(),
        Url::parse("http://b:2/x").unwrap(),
    ];
    let expected = format!("Could not find view 'q' in workers '{:?}'", workers);
    let e = ReadySetError::ViewNotFoundInWorkers { name: "q".to_owned(), workers };
    assert_eq!(e.to_string(), expected);
    let empty = ReadySetError::ViewNotFoundInWorkers { name: "q".to_owned(), workers: vec![] };
    assert_eq!(empty.to_string(), "Could not find view 'q' in workers '[]'");
    let idx = ReadySetError::IndexNotFound { node: 3, columns: vec![1, 20, 300] };
    assert_eq!(idx.to_string(), "Node with local index 3 does not have an index for [1, 20, 300]");
    let one = ReadySetError::IndexNotFound { node: 3, columns: vec![7] };
    assert_eq!(one.to_string(), "Node with local index 3 does not have an index for [7]");
    let w = ReadySetError::WorkerFailed { uri: Url::parse("http://w/").unwrap() };
    assert_eq!(w.to_string(), "Worker at http://w/ failed");
}

#[test]
fn node_types_and_relations_render() {
    assert_eq!(NodeType::Base.to_string(), "Base");
    assert_eq!(NodeType::Sharder.to_string(), "Sharder");
    let e = ReadySetError::InvalidNodeType { node_index: 9, expected_type: NodeType::Reader };
    assert_eq!(e.to_string(), "Node 9 is not of type Reader");
    let r = Relation { schema: Some("s".to_owned()), name: "t".to_owned() };
    assert_eq!(r.to_string(), "s.t");
    let t = table_err(r.clone(), ReadySetError::KeyAlreadyFilled);
    assert_eq!(t.to_string(), "Failed to manipulate table s.t: attempted to fill already-filled key");
    let f = ReadySetError::FailedBaseOps { table: Relation { schema: None, name: "x".to_owned() } };
    assert_eq!(f.to_string(), "Failed to apply some operations to base node for x");
}

#[test]
fn constructors() {
    assert_eq!(bad_request_err("nope"), ReadySetError::BadRequest("nope".to_owned()));
    assert_eq!(
        no_table_for_col(),
        ReadySetError::Internal(
            "Implied table expansion should guarantee all columns reference a table".to_owned()
        )
    );
    assert_eq!(
        rpc_err_no_downcast("call", ReadySetError::NoQuorum),
        ReadySetError::RpcFailed { during: "call".to_owned(), source: Box::new(ReadySetError::NoQuorum) }
    );
    assert_eq!(
        rpc_err("call", "", Ok(ReadySetError::NoQuorum)),
        ReadySetError::RpcFailed { during: "call".to_owned(), source: Box::new(ReadySetError::NoQuorum) }
    );
    assert_eq!(
        rpc_err("call", "", Err("broken pipe".to_owned())),
        ReadySetError::RpcFailed {
            during: "call".to_owned(),
            source: Box::new(ReadySetError::Internal("failed to downcast: broken pipe".to_owned()))
        }
    );
    assert_eq!(
        rpc_err("call", "in src/rpc.rs:12:5: ", Err("broken pipe".to_owned())),
        ReadySetError::RpcFailed {
            during: "call".to_owned(),
            source: Box::new(ReadySetError::Internal(
                "in src/rpc.rs:12:5: failed to downcast: broken pipe".to_owned()
            ))
        }
    );
    let v = view_err(NodeIndex::new(1), ReadySetError::ViewDestroyed);
    assert_eq!(
        v,
        ReadySetError::ViewError { idx: NodeIndex::new(1), source: Box::new(ReadySetError::ViewDestroyed) }
    );
}

#[test]
fn clone_keeps_the_error() {
    let e = ReadySetError::ViewNotFoundInWorkers {
        name: "q".to_owned(),
        workers: vec![Url::parse("http://a:1/").unwrap()],
    }
    .context("c");
    assert_eq!(e.clone(), e);
}

#[test]
fn wrapped_boxed_error_keeps_its_message() {
    let boxed: Box<dyn std::error::Error + Send + Sync + 'static> =
        Box::new(std::io::Error::other("out of cheese"));
    let wrapped = wrap_boxed_error(BoxedErrorWrapper(boxed));
    assert_eq!(wrapped.to_string(), "out of cheese");
}

#[test]
fn a_clone_renders_as_the_original() {
    let e = ReadySetError::IndexNotFound { node: 2, columns: vec![4, 5] }.context("ctx");
    assert_eq!(e.clone().to_string(), e.to_string());
    assert_eq!(e.to_string(), "Node with local index 2 does not have an index for [4, 5] (ctx)");
}

#[test]
fn messages_keep_the_message_of_their_cause() {
    let cause = ReadySetError::NoSuchColumn("c".to_owned());
    let cause_text = cause.to_string();
    assert_eq!(cause_text, "Column c not found in table or view");
    let wrapped = ReadySetError::SelectQueryCreationFailed {
        qname: "q".to_owned(),
        source: Box::new(cause.clone()),
    };
    assert!(wrapped.to_string().ends_with(&cause_text));
    assert_eq!(wrapped.to_string(), "SQL SELECT query 'q' couldn't be added: Column c not found in table or view");
    assert!(cause.clone().context("x").to_string().starts_with(&cause_text));
}

#[test]
fn source_is_the_direct_cause() {
    let e = ReadySetError::TableError {
        table: Relation { schema: None, name: "t".to_owned() },
        source: Box::new(ReadySetError::NoQuorum),
    };
    assert_eq!(e.source(), Some(&ReadySetError::NoQuorum));
    assert_eq!(ReadySetError::NoQuorum.source(), None);
    let c = ReadySetError::ViewDestroyed.context("x");
    assert_eq!(c.source(), Some(&ReadySetError::ViewDestroyed));
}

#[test]
fn constructors_keep_their_text() {
    assert_eq!(bad_request_err("oops").to_string(), "Bad request: oops");
    assert_eq!(
        ReadySetError::ViewDestroyed.context("while reading").to_string(),
        "view destroyed (while reading)"
    );
    assert_eq!(
        rpc_err_no_downcast("lookup", ReadySetError::ServiceUnavailable).to_string(),
        "Error during RPC (lookup): Service unavailable"
    );
}
