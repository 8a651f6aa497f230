//! The error type used across ReadySet, what caused an error, and the
//! constructors of the common errors.

use vstd::prelude::*;
use petgraph::graph::NodeIndex;
use url::Url;

use crate::external::anyhow_from_boxed;

verus! {

/// Wraps a boxed `std::error::Error`, so that it can be handed to `anyhow`.
#[verifier::external_body]
pub struct BoxedErrorWrapper(pub Box<dyn std::error::Error + Send + Sync + 'static>);

/// Wrap a boxed `std::error::Error` in a nice warm `anyhow::Error` blanket.
///
/// The result holds the boxed error itself and displays as it does.
pub fn wrap_boxed_error(boxed: BoxedErrorWrapper) -> anyhow::Error {
    anyhow_from_boxed(boxed)
}

/// An (inexhaustive, currently) enumeration of the types of Node in the graph, for use in
/// [`ReadySetError::InvalidNodeType`]
#[derive(Clone, Copy, Debug, PartialEq, Eq, Structural)]
pub enum NodeType {
    /// Base table nodes
    Base,
    /// Egress nodes
    Egress,
    /// Reader nodes
    Reader,
    /// Sharder nodes
    Sharder,
}

/// A (potentially schema-qualified) name of a table or view.
#[derive(Debug, Default, PartialEq, Eq, Hash, PartialOrd, Ord)]
pub struct Relation {
    /// The schema that holds the relation, if one was given.
    pub schema: Option<String>,
    /// The name of the relation.
    pub name: String,
}

/// General error type to be used across all of the ReadySet codebase.
#[derive(Debug, PartialEq, Eq)]
pub enum ReadySetError {
    /// Additional context provided to another [`ReadySetError`] variant
    Context {
        /// Additional context provided to the error.
        context: String,
        /// The original error
        error: Box<ReadySetError>,
    },
    /// The query is invalid
    InvalidQuery(String),
    /// The adapter received a query id in CREATE CACHE that does not correspond to a known
    /// query
    NoQueryForId {
        id: String,
    },
    /// The adapter will return this error on any set statement that is not
    /// explicitly allowed.
    SetDisallowed {
        /// The set statement passed to the mysql adapter
        statement: String,
    },
    /// Could not connect to the upstream database provided
    InvalidUpstreamDatabase,
    /// An intra-ReadySet RPC call failed.
    RpcFailed {
        /// A textual description of the nature of the RPC call that failed.
        during: String,
        /// The error returned by the failed call.
        source: Box<ReadySetError>,
    },
    /// A SQL SELECT query couldn't be created.
    SelectQueryCreationFailed {
        /// The query name (identifier) of the query that couldn't be added.
        qname: String,
        /// The error encountered while adding the query.
        source: Box<ReadySetError>,
    },
    /// A migration failed during the planning stage. Nothing was touched.
    MigrationPlanFailed {
        /// The error encountered while planning the migration.
        source: Box<ReadySetError>,
    },
    /// A migration failed to apply. The dataflow graph may be in an inconsistent state.
    MigrationApplyFailed {
        /// The error encountered while applying the migration.
        source: Box<ReadySetError>,
    },
    /// Failures during recipe creation which may indicate ReadySet is in an invalid state.
    RecipeInvariantViolated(String),
    /// A domain couldn't be booted on the remote worker.
    DomainCreationFailed {
        /// The index of the domain.
        domain_index: usize,
        /// The shard of the domain.
        shard: usize,
        /// The replica of the domain.
        replica: usize,
        /// The URI of the worker where the domain was to be placed.
        worker_uri: Url,
        /// The error encountered while trying to boot the domain.
        source: Box<ReadySetError>,
    },
    /// A MIR node couldn't be turned into dataflow.
    MirNodeToDataflowFailed {
        /// The index (within the MirGraph) of the MIR node that couldn't
        /// be made.
        index: NodeIndex,
        /// The error encountered while adding the MIR node.
        source: Box<ReadySetError>,
    },
    /// A connection to Apache ZooKeeper failed.
    ZookeeperConnectionFailed {
        /// The connection string used to connect to ZooKeeper.
        connect_string: String,
        /// A textual reason why the connection failed.
        reason: String,
    },
    /// An error occurred while sending on a TCP socket.
    TcpSendError(String),
    /// Serializing/deserializing the result of an intra-ReadySet RPC call failed.
    ///
    /// This is created by the [`From`] impl on [`serde_json::error::Error`].
    SerializationFailed(String),
    /// The wrong number of columns was given when inserting a row or preparing
    /// a statement.
    WrongColumnCount(usize, usize),
    /// The wrong column type was returned from noria when preparing a statement.
    WrongColumnType(String, String),
    /// The wrong number of key columns was given when modifying a row.
    WrongKeyColumnCount(usize, usize),
    /// A table operation was passed an incorrect packet data type.
    WrongPacketDataType,
    /// A NOT NULL column was set to [`DfValue::None`].
    NonNullable {
        /// The column in question.
        col: String,
    },
    /// A column is declared NOT NULL, but was not provided (and has no default).
    ColumnRequired {
        /// The column in question.
        col: String,
    },
    /// An expression appears in either the select list, HAVING condition, or ORDER BY list that is
    /// not either named in the GROUP BY clause or is functionally dependent on (uniquely
    /// determined by) GROUP BY columns.
    ///
    /// cf <https://dev.mysql.com/doc/refman/8.0/en/sql-mode.html#sqlmode_only_full_group_by>
    ExprNotInGroupBy {
        /// A string representation (via [`.to_string()`](ToString::to_string)) of the expression
        /// in question
        expression: String,
        /// A name for where the expression appears in the query (eg "ORDER BY")
        position: String,
    },
    /// A table couldn't be found.
    TableNotFound {
        name: String,
        schema: Option<String>,
    },
    /// A query was made referencing a table that exists in the upstream database, but is not being
    /// replicated
    TableNotReplicated {
        name: String,
        schema: Option<String>,
    },
    /// A view is not yet available.
    ViewNotYetAvailable,
    /// A request was made to a destroyed view
    ViewDestroyed,
    /// A view couldn't be found.
    ViewNotFound(String),
    /// A view couldn't be found in the given pool of worker.
    ViewNotFoundInWorkers {
        /// The name of the view that could not be found.
        name: String,
        /// The pool of workers where the view was attempted to be found.
        workers: Vec<Url>,
    },
    /// A request to create a view that already exists.
    ViewAlreadyExists(String),
    /// A reader could not be found at the given worker.
    ReaderNotFound,
    /// The request cannot be serviced because the server is shutting down.
    ServerShuttingDown,
    /// Upquery timeout reached.
    UpqueryTimeout,
    /// The query specified an empty lookup key.
    EmptyKey,
    /// The queries lookup key is not found at the reader - a cache miss.
    ReaderMissingKey,
    /// A prepared statement is missing.
    PreparedStatementMissing {
        /// The prepared statement ID supplied by the user
        statement_id: u32,
    },
    /// An internal invariant has been violated.
    ///
    /// This is produced by the [`internal!`] and [`invariant!`] macros, as an alternative to
    /// panicking the whole database.
    /// It should **not** be used for errors we're expecting to be able to handle; this is
    /// a worst-case scenario.
    Internal(String),
    /// The user fed ReadySet bad input (and there's no more specific error).
    BadRequest(String),
    /// An operation isn't supported by ReadySet yet, but might be in the future.
    ///
    /// This is produced by the [`unsupported!`] macro.
    Unsupported(String),
    /// The query provided by the user could not be parsed by `nom-sql`.
    UnparseableQuery {
        /// The SQL of the query.
        query: String,
    },
    /// Manipulating a base table failed.
    TableError {
        /// The base table being manipulated.
        table: Relation,
        /// The underlying error that occurred while manipulating the table.
        source: Box<ReadySetError>,
    },
    /// Manipulating a view failed.
    ViewError {
        /// The index of the view being manipulated.
        idx: NodeIndex,
        /// The underlying error that occurred while manipulating the view.
        source: Box<ReadySetError>,
    },
    /// A user-provided SQL query referenced a function that does not exist
    NoSuchFunction(String),
    /// A user-provided SQL query used the wrong number of arguments in a call to a built-in
    /// function
    ArityError(String),
    /// Multiple `AUTO_INCREMENT` columns were provided, which isn't allowed.
    MultipleAutoIncrement,
    /// A column couldn't be found.
    NoSuchColumn(String),
    /// Conversion to or from a [`DfValue`](crate::DfValue) failed.
    DfValueConversionError {
        /// Source type.
        src_type: String,
        /// Target type.
        target_type: String,
        /// More details about the nature of the error.
        details: String,
    },
    /// Invalid index when evaluating a project expression.
    ProjectExprInvalidColumnIndex(usize),
    /// Error in built-in function of expression projection
    ProjectExprBuiltInFunctionError {
        /// The built-in function the error occured in.
        function: String,
        /// Details about the specific error.
        message: String,
    },
    /// Error parsing a string into a NativeDateTime.
    NaiveDateTimeParseError(String),
    /// Primary key is not on a primitive field.
    InvalidPrimaryKeyField,
    /// A worker operation couldn't be completed because the worker doesn't know where the
    /// controller is yet, or has lost track of it.
    LostController,
    /// An RPC request was made to a readyset-server instance that isn't the leader.
    NotLeader,
    /// An RPC request was made to the leader, but it's not ready. This is likely because
    /// snapshotting is currently ongoing.
    LeaderNotReady,
    /// An RPC request was made to a controller that doesn't have quorum.
    NoQuorum,
    /// A request was made to an API endpoint not known to the controller.
    UnknownEndpoint,
    /// A node index passed to the controller was invalid.
    NodeNotFound {
        /// The erroneous node index.
        index: usize,
    },
    /// A lookup was performed on a node with a nonexistent index
    IndexNotFound {
        /// The node that the lookup was performed into
        node: usize,
        /// The set of columns for the index
        columns: Vec<usize>,
    },
    /// A worker tried to check in with a heartbeat payload, but the controller is unaware of it.
    UnknownWorker {
        /// The URI of the worker that the controller didn't recognize.
        unknown_uri: Url,
    },
    /// A request for reader replication into a worker failed, because the worker URI provided
    /// could not be found in the list of registered workers.
    ReplicationUnknownWorker {
        /// The URI of the worker that could not be found.
        unknown_uri: Url,
    },
    /// An RPC request was attempted against a worker that has failed.
    WorkerFailed {
        /// The failed worker's URI.
        uri: Url,
    },
    /// Making a HTTP request failed.
    HttpRequestFailed(String),
    /// A shard index was used for a domain that doesn't have that many shards
    ShardIndexOutOfBounds {
        shard: usize,
        domain_index: usize,
        num_shards: usize,
    },
    /// A replica index was used for a domain that doesn't have that many shards
    ViewReplicaOutOfBounds {
        replica: usize,
        view_name: String,
        num_replicas: usize,
    },
    /// A request for a domain replica was sent to a worker that doesn't have that domain replica.
    NoSuchReplica {
        /// The index of the domain.
        domain_index: usize,
        /// The shard.
        shard: usize,
        /// The replica.
        replica: usize,
    },
    /// A request referencing a node was sent to a domain not responsible for that node.
    NoSuchNode(usize),
    /// An operation that is valid on only one type of node was made on a node that is not that
    /// type
    InvalidNodeType {
        /// The index of the node in question
        node_index: usize,
        /// The type of node that the operation is supported on
        expected_type: NodeType,
    },
    /// A request was sent to a domain with a nonexistent or unknown replay path
    NoSuchReplayPath(u32),
    /// Some of the controller's internal structures are missing state (like read addresses) for
    /// a given domain.
    UnmappableDomain {
        /// The index of the domain.
        domain_index: usize,
    },
    /// An unknown domain was requested
    UnknownDomain {
        /// The index of the domain.
        domain_index: usize,
    },
    /// The remote end isn't ready to handle requests yet, or has fallen over.
    ServiceUnavailable,
    /// An error was encountered when working with URLs.
    UrlParseFailed(String),
    /// An error was encountered when trying to parse an unknown sql mode.
    SqlModeParseFailed(String),
    /// An attempt was made to compare replication offsets from different logs.
    ///
    /// See the documentation for [`ReplicationOffset`](readyset_client::ReplicationOffset) for why
    /// this might happen
    ReplicationOffsetLogDifferent(String, String),
    /// An error that was encountered during snapshot/binlog/wal replication proccess
    ReplicationFailed(String),
    /// There are no available Workers to assign domains to.
    NoAvailableWorkers {
        /// The index of the domain.
        domain_index: usize,
        /// The shard.
        shard: usize,
    },
    /// A dataflow ingredient received a record of the wrong length
    InvalidRecordLength,
    /// Wrapper for [`io::Error`]
    IOError(String),
    /// A `Vec1` was constructed from a 0-length vector.
    Size0Error,
    /// Expected NodeType to be `Internal` but it's not.
    NonInternalNode,
    /// Node has already been taken, so we can't execute whatever action we need to.
    NodeAlreadyTaken,
    /// Attempted to fill a key that has already been filled.
    KeyAlreadyFilled,
    /// Attempted to fill a range, part of which has already been filled.
    RangeAlreadyFilled,
    /// Tried to look up non-existent column.
    NonExistentColumn {
        /// The column that was attempted to be looked up.
        column: String,
        /// The node the column was looked up in.
        node: String,
    },
    /// Error when calling a [`jemalloc_ctl`] API
    JemallocCtlError(String),
    /// Error when parsing a string as a literal for an array value
    ArrayParseError {
        input: String,
        message: String,
    },
    /// A change in DDL requires a partial resnapshot.
    ResnapshotNeeded,
    /// The root certificate could not be read.
    InvalidRootCertificate,
    /// Error when a node couldn't be found in MIR.
    MirNodeNotFound {
        index: usize,
    },
    /// Error when a relation couldn't be found in MIR.
    RelationNotFound {
        relation: String,
    },
    /// Error applying ops to base node
    FailedBaseOps {
        /// The base table being manipulated.
        table: Relation,
    },
}

impl Clone for Relation {
    fn clone(&self) -> (r: Self)
        ensures
            r == *self,
    {
        Relation { schema: self.schema.clone(), name: self.name.clone() }
    }
}

impl Clone for ReadySetError {
    fn clone(&self) -> (r: Self)
        ensures
            r.same_error(*self),
    {
        self.copy_of()
    }
}

impl ReadySetError {
    /// Whether two errors are the same: the same variant with equal fields, lists compared
    /// by their contents and causes compared in the same way.
    pub open spec fn same_error(self, other: ReadySetError) -> bool
        decreases self,
    {
        match self {
            ReadySetError::Context { context, error } => match other {
                ReadySetError::Context { context: o_context, error: o_error } => {
                    &&& context == o_context
                    &&& error.same_error(*o_error)
                },
                _ => false,
            },
            ReadySetError::InvalidQuery(f0) => match other {
                ReadySetError::InvalidQuery(o_f0) => f0 == o_f0,
                _ => false,
            },
            ReadySetError::NoQueryForId { id } => match other {
                ReadySetError::NoQueryForId { id: o_id } => id == o_id,
                _ => false,
            },
            ReadySetError::SetDisallowed { statement } => match other {
                ReadySetError::SetDisallowed { statement: o_statement } => statement == o_statement,
                _ => false,
            },
            ReadySetError::InvalidUpstreamDatabase => other is InvalidUpstreamDatabase,
            ReadySetError::RpcFailed { during, source } => match other {
                ReadySetError::RpcFailed { during: o_during, source: o_source } => {
                    &&& during == o_during
                    &&& source.same_error(*o_source)
                },
                _ => false,
            },
            ReadySetError::SelectQueryCreationFailed { qname, source } => match other {
                ReadySetError::SelectQueryCreationFailed { qname: o_qname, source: o_source } => {
                    &&& qname == o_qname
                    &&& source.same_error(*o_source)
                },
                _ => false,
            },
            ReadySetError::MigrationPlanFailed { source } => match other {
                ReadySetError::MigrationPlanFailed { source: o_source } => {
                    &&& source.same_error(*o_source)
                },
                _ => false,
            },
            ReadySetError::MigrationApplyFailed { source } => match other {
                ReadySetError::MigrationApplyFailed { source: o_source } => {
                    &&& source.same_error(*o_source)
                },
                _ => false,
            },
            ReadySetError::RecipeInvariantViolated(f0) => match other {
                ReadySetError::RecipeInvariantViolated(o_f0) => f0 == o_f0,
                _ => false,
            },
            ReadySetError::DomainCreationFailed { domain_index, shard, replica, worker_uri, source } => match other {
                ReadySetError::DomainCreationFailed {
                    domain_index: o_domain_index,
                    shard: o_shard,
                    replica: o_replica,
                    worker_uri: o_worker_uri,
                    source: o_source,
                } => {
                    &&& domain_index == o_domain_index
                    &&& shard == o_shard
                    &&& replica == o_replica
                    &&& worker_uri == o_worker_uri
                    &&& source.same_error(*o_source)
                },
                _ => false,
            },
            ReadySetError::MirNodeToDataflowFailed { index, source } => match other {
                ReadySetError::MirNodeToDataflowFailed { index: o_index, source: o_source } => {
                    &&& index == o_index
                    &&& source.same_error(*o_source)
                },
                _ => false,
            },
            ReadySetError::ZookeeperConnectionFailed { connect_string, reason } => match other {
                ReadySetError::ZookeeperConnectionFailed {
                    connect_string: o_connect_string,
                    reason: o_reason,
                } => {
                    &&& connect_string == o_connect_string
                    &&& reason == o_reason
                },
                _ => false,
            },
            ReadySetError::TcpSendError(f0) => match other {
                ReadySetError::TcpSendError(o_f0) => f0 == o_f0,
                _ => false,
            },
            ReadySetError::SerializationFailed(f0) => match other {
                ReadySetError::SerializationFailed(o_f0) => f0 == o_f0,
                _ => false,
            },
            ReadySetError::WrongColumnCount(f0, f1) => match other {
                ReadySetError::WrongColumnCount(o_f0, o_f1) => {
                    &&& f0 == o_f0
                    &&& f1 == o_f1
                },
                _ => false,
            },
            ReadySetError::WrongColumnType(f0, f1) => match other {
                ReadySetError::WrongColumnType(o_f0, o_f1) => {
                    &&& f0 == o_f0
                    &&& f1 == o_f1
                },
                _ => false,
            },
            ReadySetError::WrongKeyColumnCount(f0, f1) => match other {
                ReadySetError::WrongKeyColumnCount(o_f0, o_f1) => {
                    &&& f0 == o_f0
                    &&& f1 == o_f1
                },
                _ => false,
            },
            ReadySetError::WrongPacketDataType => other is WrongPacketDataType,
            ReadySetError::NonNullable { col } => match other {
                ReadySetError::NonNullable { col: o_col } => col == o_col,
                _ => false,
            },
            ReadySetError::ColumnRequired { col } => match other {
                ReadySetError::ColumnRequired { col: o_col } => col == o_col,
                _ => false,
            },
            ReadySetError::ExprNotInGroupBy { expression, position } => match other {
                ReadySetError::ExprNotInGroupBy {
                    expression: o_expression,
                    position: o_position,
                } => {
                    &&& expression == o_expression
                    &&& position == o_position
                },
                _ => false,
            },
            ReadySetError::TableNotFound { name, schema } => match other {
                ReadySetError::TableNotFound { name: o_name, schema: o_schema } => {
                    &&& name == o_name
                    &&& schema == o_schema
                },
                _ => false,
            },
            ReadySetError::TableNotReplicated { name, schema } => match other {
                ReadySetError::TableNotReplicated { name: o_name, schema: o_schema } => {
                    &&& name == o_name
                    &&& schema == o_schema
                },
                _ => false,
            },
            ReadySetError::ViewNotYetAvailable => other is ViewNotYetAvailable,
            ReadySetError::ViewDestroyed => other is ViewDestroyed,
            ReadySetError::ViewNotFound(f0) => match other {
                ReadySetError::ViewNotFound(o_f0) => f0 == o_f0,
                _ => false,
            },
            ReadySetError::ViewNotFoundInWorkers { name, workers } => match other {
                ReadySetError::ViewNotFoundInWorkers { name: o_name, workers: o_workers } => {
                    &&& name == o_name
                    &&& workers@ == o_workers@
                },
                _ => false,
            },
            ReadySetError::ViewAlreadyExists(f0) => match other {
                ReadySetError::ViewAlreadyExists(o_f0) => f0 == o_f0,
                _ => false,
            },
            ReadySetError::ReaderNotFound => other is ReaderNotFound,
            ReadySetError::ServerShuttingDown => other is ServerShuttingDown,
            ReadySetError::UpqueryTimeout => other is UpqueryTimeout,
            ReadySetError::EmptyKey => other is EmptyKey,
            ReadySetError::ReaderMissingKey => other is ReaderMissingKey,
            ReadySetError::PreparedStatementMissing { statement_id } => match other {
                ReadySetError::PreparedStatementMissing { statement_id: o_statement_id } => {
                    &&& statement_id == o_statement_id
                },
                _ => false,
            },
            ReadySetError::Internal(f0) => match other {
                ReadySetError::Internal(o_f0) => f0 == o_f0,
                _ => false,
            },
            ReadySetError::BadRequest(f0) => match other {
                ReadySetError::BadRequest(o_f0) => f0 == o_f0,
                _ => false,
            },
            ReadySetError::Unsupported(f0) => match other {
                ReadySetError::Unsupported(o_f0) => f0 == o_f0,
                _ => false,
            },
            ReadySetError::UnparseableQuery { query } => match other {
                ReadySetError::UnparseableQuery { query: o_query } => query == o_query,
                _ => false,
            },
            ReadySetError::TableError { table, source } => match other {
                ReadySetError::TableError { table: o_table, source: o_source } => {
                    &&& table == o_table
                    &&& source.same_error(*o_source)
                },
                _ => false,
            },
            ReadySetError::ViewError { idx, source } => match other {
                ReadySetError::ViewError { idx: o_idx, source: o_source } => {
                    &&& idx == o_idx
                    &&& source.same_error(*o_source)
                },
                _ => false,
            },
            ReadySetError::NoSuchFunction(f0) => match other {
                ReadySetError::NoSuchFunction(o_f0) => f0 == o_f0,
                _ => false,
            },
            ReadySetError::ArityError(f0) => match other {
                ReadySetError::ArityError(o_f0) => f0 == o_f0,
                _ => false,
            },
            ReadySetError::MultipleAutoIncrement => other is MultipleAutoIncrement,
            ReadySetError::NoSuchColumn(f0) => match other {
                ReadySetError::NoSuchColumn(o_f0) => f0 == o_f0,
                _ => false,
            },
            ReadySetError::DfValueConversionError { src_type, target_type, details } => match other {
                ReadySetError::DfValueConversionError {
                    src_type: o_src_type,
                    target_type: o_target_type,
                    details: o_details,
                } => {
                    &&& src_type == o_src_type
                    &&& target_type == o_target_type
                    &&& details == o_details
                },
                _ => false,
            },
            ReadySetError::ProjectExprInvalidColumnIndex(f0) => match other {
                ReadySetError::ProjectExprInvalidColumnIndex(o_f0) => f0 == o_f0,
                _ => false,
            },
            ReadySetError::ProjectExprBuiltInFunctionError { function, message } => match other {
                ReadySetError::ProjectExprBuiltInFunctionError {
                    function: o_function,
                    message: o_message,
                } => {
                    &&& function == o_function
                    &&& message == o_message
                },
                _ => false,
            },
            ReadySetError::NaiveDateTimeParseError(f0) => match other {
                ReadySetError::NaiveDateTimeParseError(o_f0) => f0 == o_f0,
                _ => false,
            },
            ReadySetError::InvalidPrimaryKeyField => other is InvalidPrimaryKeyField,
            ReadySetError::LostController => other is LostController,
            ReadySetError::NotLeader => other is NotLeader,
            ReadySetError::LeaderNotReady => other is LeaderNotReady,
            ReadySetError::NoQuorum => other is NoQuorum,
            ReadySetError::UnknownEndpoint => other is UnknownEndpoint,
            ReadySetError::NodeNotFound { index } => match other {
                ReadySetError::NodeNotFound { index: o_index } => index == o_index,
                _ => false,
            },
            ReadySetError::IndexNotFound { node, columns } => match other {
                ReadySetError::IndexNotFound { node: o_node, columns: o_columns } => {
                    &&& node == o_node
                    &&& columns@ == o_columns@
                },
                _ => false,
            },
            ReadySetError::UnknownWorker { unknown_uri } => match other {
                ReadySetError::UnknownWorker { unknown_uri: o_unknown_uri } => {
                    &&& unknown_uri == o_unknown_uri
                },
                _ => false,
            },
            ReadySetError::ReplicationUnknownWorker { unknown_uri } => match other {
                ReadySetError::ReplicationUnknownWorker { unknown_uri: o_unknown_uri } => {
                    &&& unknown_uri == o_unknown_uri
                },
                _ => false,
            },
            ReadySetError::WorkerFailed { uri } => match other {
                ReadySetError::WorkerFailed { uri: o_uri } => uri == o_uri,
                _ => false,
            },
            ReadySetError::HttpRequestFailed(f0) => match other {
                ReadySetError::HttpRequestFailed(o_f0) => f0 == o_f0,
                _ => false,
            },
            ReadySetError::ShardIndexOutOfBounds { shard, domain_index, num_shards } => match other {
                ReadySetError::ShardIndexOutOfBounds {
                    shard: o_shard,
                    domain_index: o_domain_index,
                    num_shards: o_num_shards,
                } => {
                    &&& shard == o_shard
                    &&& domain_index == o_domain_index
                    &&& num_shards == o_num_shards
                },
                _ => false,
            },
            ReadySetError::ViewReplicaOutOfBounds { replica, view_name, num_replicas } => match other {
                ReadySetError::ViewReplicaOutOfBounds {
                    replica: o_replica,
                    view_name: o_view_name,
                    num_replicas: o_num_replicas,
                } => {
                    &&& replica == o_replica
                    &&& view_name == o_view_name
                    &&& num_replicas == o_num_replicas
                },
                _ => false,
            },
            ReadySetError::NoSuchReplica { domain_index, shard, replica } => match other {
                ReadySetError::NoSuchReplica {
                    domain_index: o_domain_index,
                    shard: o_shard,
                    replica: o_replica,
                } => {
                    &&& domain_index == o_domain_index
                    &&& shard == o_shard
                    &&& replica == o_replica
                },
                _ => false,
            },
            ReadySetError::NoSuchNode(f0) => match other {
                ReadySetError::NoSuchNode(o_f0) => f0 == o_f0,
                _ => false,
            },
            ReadySetError::InvalidNodeType { node_index, expected_type } => match other {
                ReadySetError::InvalidNodeType {
                    node_index: o_node_index,
                    expected_type: o_expected_type,
                } => {
                    &&& node_index == o_node_index
                    &&& expected_type == o_expected_type
                },
                _ => false,
            },
            ReadySetError::NoSuchReplayPath(f0) => match other {
                ReadySetError::NoSuchReplayPath(o_f0) => f0 == o_f0,
                _ => false,
            },
            ReadySetError::UnmappableDomain { domain_index } => match other {
                ReadySetError::UnmappableDomain { domain_index: o_domain_index } => {
                    &&& domain_index == o_domain_index
                },
                _ => false,
            },
            ReadySetError::UnknownDomain { domain_index } => match other {
                ReadySetError::UnknownDomain { domain_index: o_domain_index } => {
                    &&& domain_index == o_domain_index
                },
                _ => false,
            },
            ReadySetError::ServiceUnavailable => other is ServiceUnavailable,
            ReadySetError::UrlParseFailed(f0) => match other {
                ReadySetError::UrlParseFailed(o_f0) => f0 == o_f0,
                _ => false,
            },
            ReadySetError::SqlModeParseFailed(f0) => match other {
                ReadySetError::SqlModeParseFailed(o_f0) => f0 == o_f0,
                _ => false,
            },
            ReadySetError::ReplicationOffsetLogDifferent(f0, f1) => match other {
                ReadySetError::ReplicationOffsetLogDifferent(o_f0, o_f1) => {
                    &&& f0 == o_f0
                    &&& f1 == o_f1
                },
                _ => false,
            },
            ReadySetError::ReplicationFailed(f0) => match other {
                ReadySetError::ReplicationFailed(o_f0) => f0 == o_f0,
                _ => false,
            },
            ReadySetError::NoAvailableWorkers { domain_index, shard } => match other {
                ReadySetError::NoAvailableWorkers {
                    domain_index: o_domain_index,
                    shard: o_shard,
                } => {
                    &&& domain_index == o_domain_index
                    &&& shard == o_shard
                },
                _ => false,
            },
            ReadySetError::InvalidRecordLength => other is InvalidRecordLength,
            ReadySetError::IOError(f0) => match other {
                ReadySetError::IOError(o_f0) => f0 == o_f0,
                _ => false,
            },
            ReadySetError::Size0Error => other is Size0Error,
            ReadySetError::NonInternalNode => other is NonInternalNode,
            ReadySetError::NodeAlreadyTaken => other is NodeAlreadyTaken,
            ReadySetError::KeyAlreadyFilled => other is KeyAlreadyFilled,
            ReadySetError::RangeAlreadyFilled => other is RangeAlreadyFilled,
            ReadySetError::NonExistentColumn { column, node } => match other {
                ReadySetError::NonExistentColumn { column: o_column, node: o_node } => {
                    &&& column == o_column
                    &&& node == o_node
                },
                _ => false,
            },
            ReadySetError::JemallocCtlError(f0) => match other {
                ReadySetError::JemallocCtlError(o_f0) => f0 == o_f0,
                _ => false,
            },
            ReadySetError::ArrayParseError { input, message } => match other {
                ReadySetError::ArrayParseError { input: o_input, message: o_message } => {
                    &&& input == o_input
                    &&& message == o_message
                },
                _ => false,
            },
            ReadySetError::ResnapshotNeeded => other is ResnapshotNeeded,
            ReadySetError::InvalidRootCertificate => other is InvalidRootCertificate,
            ReadySetError::MirNodeNotFound { index } => match other {
                ReadySetError::MirNodeNotFound { index: o_index } => index == o_index,
                _ => false,
            },
            ReadySetError::RelationNotFound { relation } => match other {
                ReadySetError::RelationNotFound { relation: o_relation } => relation == o_relation,
                _ => false,
            },
            ReadySetError::FailedBaseOps { table } => match other {
                ReadySetError::FailedBaseOps { table: o_table } => table == o_table,
                _ => false,
            },
        }
    }

    fn copy_of(&self) -> (r: Self)
        ensures
            r.same_error(*self),
        decreases self,
    {
        match self {
            ReadySetError::Context { context, error } => ReadySetError::Context {
                context: context.clone(),
                error: Box::new((**error).copy_of()),
            },
            ReadySetError::InvalidQuery(f0) => ReadySetError::InvalidQuery(f0.clone()),
            ReadySetError::NoQueryForId { id } => ReadySetError::NoQueryForId { id: id.clone() },
            ReadySetError::SetDisallowed { statement } => ReadySetError::SetDisallowed {
                statement: statement.clone(),
            },
            ReadySetError::InvalidUpstreamDatabase => ReadySetError::InvalidUpstreamDatabase,
            ReadySetError::RpcFailed { during, source } => ReadySetError::RpcFailed {
                during: during.clone(),
                source: Box::new((**source).copy_of()),
            },
            ReadySetError::SelectQueryCreationFailed { qname, source } => ReadySetError::SelectQueryCreationFailed {
                qname: qname.clone(),
                source: Box::new((**source).copy_of()),
            },
            ReadySetError::MigrationPlanFailed { source } => ReadySetError::MigrationPlanFailed {
                source: Box::new((**source).copy_of()),
            },
            ReadySetError::MigrationApplyFailed { source } => ReadySetError::MigrationApplyFailed {
                source: Box::new((**source).copy_of()),
            },
            ReadySetError::RecipeInvariantViolated(f0) => ReadySetError::RecipeInvariantViolated(
                f0.clone(),
            ),
            ReadySetError::DomainCreationFailed { domain_index, shard, replica, worker_uri, source } => ReadySetError::DomainCreationFailed {
                domain_index: *domain_index,
                shard: *shard,
                replica: *replica,
                worker_uri: worker_uri.clone(),
                source: Box::new((**source).copy_of()),
            },
            ReadySetError::MirNodeToDataflowFailed { index, source } => ReadySetError::MirNodeToDataflowFailed {
                index: *index,
                source: Box::new((**source).copy_of()),
            },
            ReadySetError::ZookeeperConnectionFailed { connect_string, reason } => ReadySetError::ZookeeperConnectionFailed {
                connect_string: connect_string.clone(),
                reason: reason.clone(),
            },
            ReadySetError::TcpSendError(f0) => ReadySetError::TcpSendError(f0.clone()),
            ReadySetError::SerializationFailed(f0) => ReadySetError::SerializationFailed(
                f0.clone(),
            ),
            ReadySetError::WrongColumnCount(f0, f1) => ReadySetError::WrongColumnCount(*f0, *f1),
            ReadySetError::WrongColumnType(f0, f1) => ReadySetError::WrongColumnType(
                f0.clone(),
                f1.clone(),
            ),
            ReadySetError::WrongKeyColumnCount(f0, f1) => ReadySetError::WrongKeyColumnCount(
                *f0,
                *f1,
            ),
            ReadySetError::WrongPacketDataType => ReadySetError::WrongPacketDataType,
            ReadySetError::NonNullable { col } => ReadySetError::NonNullable { col: col.clone() },
            ReadySetError::ColumnRequired { col } => ReadySetError::ColumnRequired {
                col: col.clone(),
            },
            ReadySetError::ExprNotInGroupBy { expression, position } => ReadySetError::ExprNotInGroupBy {
                expression: expression.clone(),
                position: position.clone(),
            },
            ReadySetError::TableNotFound { name, schema } => ReadySetError::TableNotFound {
                name: name.clone(),
                schema: schema.clone(),
            },
            ReadySetError::TableNotReplicated { name, schema } => ReadySetError::TableNotReplicated {
                name: name.clone(),
                schema: schema.clone(),
            },
            ReadySetError::ViewNotYetAvailable => ReadySetError::ViewNotYetAvailable,
            ReadySetError::ViewDestroyed => ReadySetError::ViewDestroyed,
            ReadySetError::ViewNotFound(f0) => ReadySetError::ViewNotFound(f0.clone()),
            ReadySetError::ViewNotFoundInWorkers { name, workers } => {
                let c_workers = workers.clone();
                assert(c_workers@ =~= workers@);
                ReadySetError::ViewNotFoundInWorkers { name: name.clone(), workers: c_workers }
            },
            ReadySetError::ViewAlreadyExists(f0) => ReadySetError::ViewAlreadyExists(f0.clone()),
            ReadySetError::ReaderNotFound => ReadySetError::ReaderNotFound,
            ReadySetError::ServerShuttingDown => ReadySetError::ServerShuttingDown,
            ReadySetError::UpqueryTimeout => ReadySetError::UpqueryTimeout,
            ReadySetError::EmptyKey => ReadySetError::EmptyKey,
            ReadySetError::ReaderMissingKey => ReadySetError::ReaderMissingKey,
            ReadySetError::PreparedStatementMissing { statement_id } => ReadySetError::PreparedStatementMissing {
                statement_id: *statement_id,
            },
            ReadySetError::Internal(f0) => ReadySetError::Internal(f0.clone()),
            ReadySetError::BadRequest(f0) => ReadySetError::BadRequest(f0.clone()),
            ReadySetError::Unsupported(f0) => ReadySetError::Unsupported(f0.clone()),
            ReadySetError::UnparseableQuery { query } => ReadySetError::UnparseableQuery {
                query: query.clone(),
            },
            ReadySetError::TableError { table, source } => ReadySetError::TableError {
                table: table.clone(),
                source: Box::new((**source).copy_of()),
            },
            ReadySetError::ViewError { idx, source } => ReadySetError::ViewError {
                idx: *idx,
                source: Box::new((**source).copy_of()),
            },
            ReadySetError::NoSuchFunction(f0) => ReadySetError::NoSuchFunction(f0.clone()),
            ReadySetError::ArityError(f0) => ReadySetError::ArityError(f0.clone()),
            ReadySetError::MultipleAutoIncrement => ReadySetError::MultipleAutoIncrement,
            ReadySetError::NoSuchColumn(f0) => ReadySetError::NoSuchColumn(f0.clone()),
            ReadySetError::DfValueConversionError { src_type, target_type, details } => ReadySetError::DfValueConversionError {
                src_type: src_type.clone(),
                target_type: target_type.clone(),
                details: details.clone(),
            },
            ReadySetError::ProjectExprInvalidColumnIndex(f0) => ReadySetError::ProjectExprInvalidColumnIndex(
                *f0,
            ),
            ReadySetError::ProjectExprBuiltInFunctionError { function, message } => ReadySetError::ProjectExprBuiltInFunctionError {
                function: function.clone(),
                message: message.clone(),
            },
            ReadySetError::NaiveDateTimeParseError(f0) => ReadySetError::NaiveDateTimeParseError(
                f0.clone(),
            ),
            ReadySetError::InvalidPrimaryKeyField => ReadySetError::InvalidPrimaryKeyField,
            ReadySetError::LostController => ReadySetError::LostController,
            ReadySetError::NotLeader => ReadySetError::NotLeader,
            ReadySetError::LeaderNotReady => ReadySetError::LeaderNotReady,
            ReadySetError::NoQuorum => ReadySetError::NoQuorum,
            ReadySetError::UnknownEndpoint => ReadySetError::UnknownEndpoint,
            ReadySetError::NodeNotFound { index } => ReadySetError::NodeNotFound { index: *index },
            ReadySetError::IndexNotFound { node, columns } => {
                let c_columns = columns.clone();
                assert(c_columns@ =~= columns@);
                ReadySetError::IndexNotFound { node: *node, columns: c_columns }
            },
            ReadySetError::UnknownWorker { unknown_uri } => ReadySetError::UnknownWorker {
                unknown_uri: unknown_uri.clone(),
            },
            ReadySetError::ReplicationUnknownWorker { unknown_uri } => ReadySetError::ReplicationUnknownWorker {
                unknown_uri: unknown_uri.clone(),
            },
            ReadySetError::WorkerFailed { uri } => ReadySetError::WorkerFailed { uri: uri.clone() },
            ReadySetError::HttpRequestFailed(f0) => ReadySetError::HttpRequestFailed(f0.clone()),
            ReadySetError::ShardIndexOutOfBounds { shard, domain_index, num_shards } => ReadySetError::ShardIndexOutOfBounds {
                shard: *shard,
                domain_index: *domain_index,
                num_shards: *num_shards,
            },
            ReadySetError::ViewReplicaOutOfBounds { replica, view_name, num_replicas } => ReadySetError::ViewReplicaOutOfBounds {
                replica: *replica,
                view_name: view_name.clone(),
                num_replicas: *num_replicas,
            },
            ReadySetError::NoSuchReplica { domain_index, shard, replica } => ReadySetError::NoSuchReplica {
                domain_index: *domain_index,
                shard: *shard,
                replica: *replica,
            },
            ReadySetError::NoSuchNode(f0) => ReadySetError::NoSuchNode(*f0),
            ReadySetError::InvalidNodeType { node_index, expected_type } => ReadySetError::InvalidNodeType {
                node_index: *node_index,
                expected_type: expected_type.clone(),
            },
            ReadySetError::NoSuchReplayPath(f0) => ReadySetError::NoSuchReplayPath(*f0),
            ReadySetError::UnmappableDomain { domain_index } => ReadySetError::UnmappableDomain {
                domain_index: *domain_index,
            },
            ReadySetError::UnknownDomain { domain_index } => ReadySetError::UnknownDomain {
                domain_index: *domain_index,
            },
            ReadySetError::ServiceUnavailable => ReadySetError::ServiceUnavailable,
            ReadySetError::UrlParseFailed(f0) => ReadySetError::UrlParseFailed(f0.clone()),
            ReadySetError::SqlModeParseFailed(f0) => ReadySetError::SqlModeParseFailed(f0.clone()),
            ReadySetError::ReplicationOffsetLogDifferent(f0, f1) => ReadySetError::ReplicationOffsetLogDifferent(
                f0.clone(),
                f1.clone(),
            ),
            ReadySetError::ReplicationFailed(f0) => ReadySetError::ReplicationFailed(f0.clone()),
            ReadySetError::NoAvailableWorkers { domain_index, shard } => ReadySetError::NoAvailableWorkers {
                domain_index: *domain_index,
                shard: *shard,
            },
            ReadySetError::InvalidRecordLength => ReadySetError::InvalidRecordLength,
            ReadySetError::IOError(f0) => ReadySetError::IOError(f0.clone()),
            ReadySetError::Size0Error => ReadySetError::Size0Error,
            ReadySetError::NonInternalNode => ReadySetError::NonInternalNode,
            ReadySetError::NodeAlreadyTaken => ReadySetError::NodeAlreadyTaken,
            ReadySetError::KeyAlreadyFilled => ReadySetError::KeyAlreadyFilled,
            ReadySetError::RangeAlreadyFilled => ReadySetError::RangeAlreadyFilled,
            ReadySetError::NonExistentColumn { column, node } => ReadySetError::NonExistentColumn {
                column: column.clone(),
                node: node.clone(),
            },
            ReadySetError::JemallocCtlError(f0) => ReadySetError::JemallocCtlError(f0.clone()),
            ReadySetError::ArrayParseError { input, message } => ReadySetError::ArrayParseError {
                input: input.clone(),
                message: message.clone(),
            },
            ReadySetError::ResnapshotNeeded => ReadySetError::ResnapshotNeeded,
            ReadySetError::InvalidRootCertificate => ReadySetError::InvalidRootCertificate,
            ReadySetError::MirNodeNotFound { index } => ReadySetError::MirNodeNotFound {
                index: *index,
            },
            ReadySetError::RelationNotFound { relation } => ReadySetError::RelationNotFound {
                relation: relation.clone(),
            },
            ReadySetError::FailedBaseOps { table } => ReadySetError::FailedBaseOps {
                table: table.clone(),
            },
        }
    }
}

/// Standard issue [`Result`] alias.
pub type ReadySetResult<T> = Result<T, ReadySetError>;

/// The kinds of error that callers ask about when they look along the chain of causes.
#[derive(Clone, Copy)]
enum CauseKind {
    UnparseableQuery,
    Unsupported,
    ViewNotFound,
    TableNotFound,
    Networking,
    DfValueConversion,
    ViewDestroyed,
}

/// Errors that could have been caused by a networking problem.
pub open spec fn is_networking_error(e: ReadySetError) -> bool {
    ||| e is RpcFailed
    ||| e is IOError
    ||| e is TcpSendError
    ||| e is ServiceUnavailable
}

impl CauseKind {
    spec fn holds_for(self, e: ReadySetError) -> bool {
        match self {
            CauseKind::UnparseableQuery => e is UnparseableQuery,
            CauseKind::Unsupported => e is Unsupported,
            CauseKind::ViewNotFound => e is ViewNotFound,
            CauseKind::TableNotFound => e is TableNotFound,
            CauseKind::Networking => is_networking_error(e),
            CauseKind::DfValueConversion => e is DfValueConversionError,
            CauseKind::ViewDestroyed => e is ViewDestroyed,
        }
    }

    fn holds(self, e: &ReadySetError) -> (r: bool)
        ensures
            r == self.holds_for(*e),
    {
        match self {
            CauseKind::UnparseableQuery => matches!(e, ReadySetError::UnparseableQuery { .. }),
            CauseKind::Unsupported => matches!(e, ReadySetError::Unsupported(..)),
            CauseKind::ViewNotFound => matches!(e, ReadySetError::ViewNotFound(..)),
            CauseKind::TableNotFound => matches!(e, ReadySetError::TableNotFound { .. }),
            CauseKind::Networking => matches!(
                e,
                ReadySetError::RpcFailed { .. } | ReadySetError::IOError(..)
                    | ReadySetError::TcpSendError(..) | ReadySetError::ServiceUnavailable
            ),
            CauseKind::DfValueConversion => matches!(e, ReadySetError::DfValueConversionError { .. }),
            CauseKind::ViewDestroyed => matches!(e, ReadySetError::ViewDestroyed),
        }
    }
}

impl ReadySetError {
    /// The error that directly caused this one, if any: the `error` of a
    /// [`ReadySetError::Context`], the `source` of the variants that carry one.
    pub open spec fn source_error(self) -> Option<ReadySetError> {
        match self {
            ReadySetError::Context { error, .. } => Some(*error),
            ReadySetError::RpcFailed { source, .. } => Some(*source),
            ReadySetError::SelectQueryCreationFailed { source, .. } => Some(*source),
            ReadySetError::MigrationPlanFailed { source, .. } => Some(*source),
            ReadySetError::MigrationApplyFailed { source, .. } => Some(*source),
            ReadySetError::DomainCreationFailed { source, .. } => Some(*source),
            ReadySetError::MirNodeToDataflowFailed { source, .. } => Some(*source),
            ReadySetError::TableError { source, .. } => Some(*source),
            ReadySetError::ViewError { source, .. } => Some(*source),
            _ => None,
        }
    }

    /// This error followed by the chain of errors that caused it, nearest first.
    pub open spec fn causes(self) -> Seq<ReadySetError>
        decreases self,
    {
        match self {
            ReadySetError::Context { error, .. } => seq![self] + error.causes(),
            ReadySetError::RpcFailed { source, .. } => seq![self] + source.causes(),
            ReadySetError::SelectQueryCreationFailed { source, .. } => seq![self] + source.causes(),
            ReadySetError::MigrationPlanFailed { source, .. } => seq![self] + source.causes(),
            ReadySetError::MigrationApplyFailed { source, .. } => seq![self] + source.causes(),
            ReadySetError::DomainCreationFailed { source, .. } => seq![self] + source.causes(),
            ReadySetError::MirNodeToDataflowFailed { source, .. } => seq![self] + source.causes(),
            ReadySetError::TableError { source, .. } => seq![self] + source.causes(),
            ReadySetError::ViewError { source, .. } => seq![self] + source.causes(),
            _ => seq![self],
        }
    }

    /// Whether this error, or an error that (directly or indirectly) caused it, satisfies `p`.
    pub open spec fn caused_by(self, p: spec_fn(ReadySetError) -> bool) -> bool {
        exists|i: int| 0 <= i < self.causes().len() && #[trigger] p(self.causes()[i])
    }

    /// The error that directly caused this one, if any.
    pub fn source(&self) -> (r: Option<&ReadySetError>)
        ensures
            match r {
                Some(s) => self.source_error() == Some(*s),
                None => self.source_error() is None,
            },
    {
        match self {
            ReadySetError::Context { error, .. } => Some(&**error),
            ReadySetError::RpcFailed { source, .. } => Some(&**source),
            ReadySetError::SelectQueryCreationFailed { source, .. } => Some(&**source),
            ReadySetError::MigrationPlanFailed { source, .. } => Some(&**source),
            ReadySetError::MigrationApplyFailed { source, .. } => Some(&**source),
            ReadySetError::DomainCreationFailed { source, .. } => Some(&**source),
            ReadySetError::MirNodeToDataflowFailed { source, .. } => Some(&**source),
            ReadySetError::TableError { source, .. } => Some(&**source),
            ReadySetError::ViewError { source, .. } => Some(&**source),
            _ => None,
        }
    }

    /// Add additional context to this error
    pub fn context<S>(self, context: S) -> (r: Self)
        where
            String: From<S>,
        ensures
            r matches ReadySetError::Context { context: c, error } && *error == self && call_ensures(
                String::from,
                (context,),
                c,
            ),
    {
        ReadySetError::Context { context: context.into(), error: Box::new(self) }
    }

    fn any_cause(&self, kind: CauseKind) -> (r: bool)
        ensures
            r == self.caused_by(|e: ReadySetError| kind.holds_for(e)),
        decreases self,
    {
        proof {
            crate::laws::lemma_caused_by_step(*self, |e: ReadySetError| kind.holds_for(e));
        }
        if kind.holds(self) {
            return true;
        }
        match self {
            ReadySetError::Context { error, .. } => error.any_cause(kind),
            ReadySetError::RpcFailed { source, .. } => source.any_cause(kind),
            ReadySetError::SelectQueryCreationFailed { source, .. } => source.any_cause(kind),
            ReadySetError::MigrationPlanFailed { source, .. } => source.any_cause(kind),
            ReadySetError::MigrationApplyFailed { source, .. } => source.any_cause(kind),
            ReadySetError::DomainCreationFailed { source, .. } => source.any_cause(kind),
            ReadySetError::MirNodeToDataflowFailed { source, .. } => source.any_cause(kind),
            ReadySetError::TableError { source, .. } => source.any_cause(kind),
            ReadySetError::ViewError { source, .. } => source.any_cause(kind),
            _ => false,
        }
    }

    /// Returns `true` if the error is an [`ReadySetError::UnparseableQuery`].
    pub fn is_unparseable_query(&self) -> (r: bool)
        ensures
            r == (*self is UnparseableQuery),
    {
        matches!(self, ReadySetError::UnparseableQuery { .. })
    }

    /// Returns true if the error either *is* [`ReadySetError::UnparseableQuery`], or was
    /// *caused by* [`ReadySetError::UnparseableQuery`]
    pub fn caused_by_unparseable_query(&self) -> (r: bool)
        ensures
            r == self.caused_by(|e: ReadySetError| e is UnparseableQuery),
    {
        let r = self.any_cause(CauseKind::UnparseableQuery);
        proof {
            crate::laws::lemma_caused_by_same_predicate(
                *self,
                |e: ReadySetError| CauseKind::UnparseableQuery.holds_for(e),
                |e: ReadySetError| e is UnparseableQuery,
            );
        }
        r
    }

    /// Returns `true` if the error is [`ReadySetError::Unsupported`].
    pub fn is_unsupported(&self) -> (r: bool)
        ensures
            r == (*self is Unsupported),
    {
        matches!(self, ReadySetError::Unsupported(..))
    }

    /// Returns true if the error either *is* [`ReadySetError::Unsupported`], or was *caused by*
    /// [`ReadySetError::Unsupported`]
    pub fn caused_by_unsupported(&self) -> (r: bool)
        ensures
            r == self.caused_by(|e: ReadySetError| e is Unsupported),
    {
        let r = self.any_cause(CauseKind::Unsupported);
        proof {
            crate::laws::lemma_caused_by_same_predicate(
                *self,
                |e: ReadySetError| CauseKind::Unsupported.holds_for(e),
                |e: ReadySetError| e is Unsupported,
            );
        }
        r
    }

    /// Returns `true` if self is [`ReadySetError::ViewNotFound`].
    pub fn is_view_not_found(&self) -> (r: bool)
        ensures
            r == (*self is ViewNotFound),
    {
        matches!(self, ReadySetError::ViewNotFound(..))
    }

    /// Returns `true` if self either *is* [`ReadySetError::ViewNotFound`], or was *caused by*
    /// [`ReadySetError::ViewNotFound`].
    pub fn caused_by_view_not_found(&self) -> (r: bool)
        ensures
            r == self.caused_by(|e: ReadySetError| e is ViewNotFound),
    {
        let r = self.any_cause(CauseKind::ViewNotFound);
        proof {
            crate::laws::lemma_caused_by_same_predicate(
                *self,
                |e: ReadySetError| CauseKind::ViewNotFound.holds_for(e),
                |e: ReadySetError| e is ViewNotFound,
            );
        }
        r
    }

    /// Returns `true` if self is [`ReadySetError::TableNotFound`].
    pub fn is_table_not_found(&self) -> (r: bool)
        ensures
            r == (*self is TableNotFound),
    {
        matches!(self, ReadySetError::TableNotFound { .. })
    }

    /// Returns `true` if self either *is* [`ReadySetError::TableNotFound`], or was *caused by*
    /// [`ReadySetError::TableNotFound`].
    pub fn caused_by_table_not_found(&self) -> (r: bool)
        ensures
            r == self.caused_by(|e: ReadySetError| e is TableNotFound),
    {
        let r = self.any_cause(CauseKind::TableNotFound);
        proof {
            crate::laws::lemma_caused_by_same_predicate(
                *self,
                |e: ReadySetError| CauseKind::TableNotFound.holds_for(e),
                |e: ReadySetError| e is TableNotFound,
            );
        }
        r
    }

    /// Returns `true` if the error could have been caused by a networking problem.
    pub fn is_networking_related(&self) -> (r: bool)
        ensures
            r == self.caused_by(|e: ReadySetError| is_networking_error(e)),
    {
        let r = self.any_cause(CauseKind::Networking);
        proof {
            crate::laws::lemma_caused_by_same_predicate(
                *self,
                |e: ReadySetError| CauseKind::Networking.holds_for(e),
                |e: ReadySetError| is_networking_error(e),
            );
        }
        r
    }

    /// Returns true if the error either *is* [`ReadySetError::DfValueConversionError`], or was
    /// *caused by* [`ReadySetError::DfValueConversionError`]
    pub fn caused_by_data_type_conversion(&self) -> (r: bool)
        ensures
            r == self.caused_by(|e: ReadySetError| e is DfValueConversionError),
    {
        let r = self.any_cause(CauseKind::DfValueConversion);
        proof {
            crate::laws::lemma_caused_by_same_predicate(
                *self,
                |e: ReadySetError| CauseKind::DfValueConversion.holds_for(e),
                |e: ReadySetError| e is DfValueConversionError,
            );
        }
        r
    }

    /// Returns true if the error either *is* [`ReadySetError::ViewDestroyed`], or was *caused by*
    /// [`ReadySetError::ViewDestroyed`]
    pub fn caused_by_view_destroyed(&self) -> (r: bool)
        ensures
            r == self.caused_by(|e: ReadySetError| e is ViewDestroyed),
    {
        let r = self.any_cause(CauseKind::ViewDestroyed);
        proof {
            crate::laws::lemma_caused_by_same_predicate(
                *self,
                |e: ReadySetError| CauseKind::ViewDestroyed.holds_for(e),
                |e: ReadySetError| e is ViewDestroyed,
            );
        }
        r
    }

    /// Returns `true` if the error is [`ReadySetError::InvalidQuery`].
    pub fn is_invalid_query(&self) -> (r: bool)
        ensures
            r == (*self is InvalidQuery),
    {
        matches!(self, ReadySetError::InvalidQuery(..))
    }
}

/// Make a new [`ReadySetError::BadRequest`] with the provided string-able argument.
pub fn bad_request_err<T: Into<String>>(err: T) -> (r: ReadySetError)
    ensures
        r matches ReadySetError::BadRequest(s) && call_ensures(T::into, (err,), s),
{
    ReadySetError::BadRequest(err.into())
}

/// Make a new [`ReadySetError::Internal`] for a column with no associated table. An internal error
/// is used, because the implied table expansion should guarantee that this should not happen.
pub fn no_table_for_col() -> (r: ReadySetError)
    ensures
        r matches ReadySetError::Internal(s)
            && s@ == "Implied table expansion should guarantee all columns reference a table"@,
{
    ReadySetError::Internal(
        String::from("Implied table expansion should guarantee all columns reference a table"),
    )
}

/// Make a new [`ReadySetError::RpcFailed`] with the provided string-able `during` value
/// and the provided `err` as cause.
pub fn rpc_err_no_downcast<T: Into<String>>(during: T, err: ReadySetError) -> (r: ReadySetError)
    ensures
        r matches ReadySetError::RpcFailed { during: d, source } && *source == err && call_ensures(
            T::into,
            (during,),
            d,
        ),
{
    ReadySetError::RpcFailed { during: during.into(), source: Box::new(err) }
}

/// Make a new [`ReadySetError::RpcFailed`] with the provided string-able `during` value, from
/// the outcome of turning the failed call's error back into a [`ReadySetError`]: the error
/// itself when that worked, else the text of the error that could not be turned back, which
/// is then reported as a [`ReadySetError::Internal`] whose message starts with `location`
/// (the caller's source location in debug builds, empty otherwise).
pub fn rpc_err<T: Into<String>>(
    during: T,
    location: &str,
    downcast: Result<ReadySetError, String>,
) -> (r: ReadySetError)
    ensures
        r matches ReadySetError::RpcFailed { during: d, source } && call_ensures(
            T::into,
            (during,),
            d,
        ) && match downcast {
            Ok(e) => *source == e,
            Err(m) => source.text_of_internal() == Some(location@ + "failed to downcast: "@ + m@),
        },
{
    let source = match downcast {
        Ok(e) => e,
        Err(m) => {
            let mut s = String::from(location);
            s.append("failed to downcast: ");
            s.append(m.as_str());
            ReadySetError::Internal(s)
        },
    };
    ReadySetError::RpcFailed { during: during.into(), source: Box::new(source) }
}

impl ReadySetError {
    /// The message of an [`ReadySetError::Internal`] error, `None` for other errors.
    pub open spec fn text_of_internal(self) -> Option<Seq<char>> {
        match self {
            ReadySetError::Internal(s) => Some(s@),
            _ => None,
        }
    }
}

/// Make a new [`ReadySetError::ViewError`] with the provided `idx` and `err` values.
pub fn view_err<A: Into<NodeIndex>, B: Into<ReadySetError>>(idx: A, err: B) -> (r: ReadySetError)
    ensures
        r matches ReadySetError::ViewError { idx: i, source } && call_ensures(A::into, (idx,), i)
            && call_ensures(B::into, (err,), *source),
{
    ReadySetError::ViewError { idx: idx.into(), source: Box::new(err.into()) }
}

/// Make a new `ReadySetError::TableError` with the provided `name` and `err` values.
pub fn table_err<E: Into<ReadySetError>>(table: Relation, err: E) -> (r: ReadySetError)
    ensures
        r matches ReadySetError::TableError { table: t, source } && t == table && call_ensures(
            E::into,
            (err,),
            *source,
        ),
{
    ReadySetError::TableError { table, source: Box::new(err.into()) }
}

} // verus!
