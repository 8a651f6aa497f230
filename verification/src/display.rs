//! The messages that errors render, as their `Display` text is written.

use vstd::prelude::*;

use crate::errors::{NodeType, ReadySetError, Relation};
use crate::external::{
    node_index_debug, node_index_debug_text, url_display, url_display_text,
};
use crate::text::{
    decimal, decimal_string, push_decimal, push_schema_prefix, schema_prefix,
    url_list_debug, url_list_debug_string, usize_list_debug, usize_list_debug_string,
};

verus! {

impl NodeType {
    /// The name of the node type.
    pub open spec fn text(self) -> Seq<char> {
        match self {
            NodeType::Base => "Base"@,
            NodeType::Egress => "Egress"@,
            NodeType::Reader => "Reader"@,
            NodeType::Sharder => "Sharder"@,
        }
    }

    /// Renders the name of the node type.
    pub fn to_string(&self) -> (r: String)
        ensures
            r@ == self.text(),
    {
        match self {
            NodeType::Base => String::from_str("Base"),
            NodeType::Egress => String::from_str("Egress"),
            NodeType::Reader => String::from_str("Reader"),
            NodeType::Sharder => String::from_str("Sharder"),
        }
    }
}

impl Relation {
    /// `schema.name`, or `name` alone when no schema is given.
    pub open spec fn text(self) -> Seq<char> {
        schema_prefix(self.schema) + self.name@
    }

    /// Renders the relation's (possibly schema-qualified) name.
    pub fn to_string(&self) -> (r: String)
        ensures
            r@ == self.text(),
    {
        let mut r = String::new();
        push_schema_prefix(&mut r, &self.schema);
        assert(r@ =~= schema_prefix(self.schema));
        r.append(self.name.as_str());
        r
    }
}

impl ReadySetError {
    /// The message that the error renders.
    pub open spec fn text(self) -> Seq<char>
        decreases self,
    {
        match self {
            ReadySetError::Context { context, error } => error.text() + " ("@ + context@ + ")"@,
            ReadySetError::InvalidQuery(f0) => "The provided query is invalid: "@ + f0@,
            ReadySetError::NoQueryForId { id } => "No query known by id "@ + id@,
            ReadySetError::SetDisallowed { statement } => {
                "Set statement disallowed: "@
                    + statement@
            },
            ReadySetError::InvalidUpstreamDatabase => {
                "Could not connect to the upstream database provided"@
            },
            ReadySetError::RpcFailed { during, source } => {
                "Error during RPC ("@
                    + during@
                    + "): "@
                    + source.text()
            },
            ReadySetError::SelectQueryCreationFailed { qname, source } => {
                "SQL SELECT query '"@
                    + qname@
                    + "' couldn't be added: "@
                    + source.text()
            },
            ReadySetError::MigrationPlanFailed { source } => {
                "Failed to plan migration: "@
                    + source.text()
            },
            ReadySetError::MigrationApplyFailed { source } => {
                "Failed to apply migration: "@
                    + source.text()
            },
            ReadySetError::RecipeInvariantViolated(f0) => {
                "Unable to create recipe from received DDL: "@
                    + f0@
            },
            ReadySetError::DomainCreationFailed { domain_index, shard, replica, worker_uri, source } => {
                "Failed to boot domain "@
                    + decimal(domain_index as nat)
                    + "."@
                    + decimal(shard as nat)
                    + "."@
                    + decimal(replica as nat)
                    + " on worker '"@
                    + url_display_text(worker_uri)
                    + "': "@
                    + source.text()
            },
            ReadySetError::MirNodeToDataflowFailed { index, source } => {
                "MIR node '"@
                    + node_index_debug_text(index)
                    + "' couldn't be made: "@
                    + source.text()
            },
            ReadySetError::ZookeeperConnectionFailed { connect_string, reason } => {
                "Failed to connect to ZooKeeper at '"@
                    + connect_string@
                    + "': "@
                    + reason@
            },
            ReadySetError::TcpSendError(f0) => "TCP send error: "@ + f0@,
            ReadySetError::SerializationFailed(f0) => "Failed to (de)serialize: "@ + f0@,
            ReadySetError::WrongColumnCount(f0, f1) => {
                "wrong number of columns specified: expected "@
                    + decimal(f0 as nat)
                    + ", got "@
                    + decimal(f1 as nat)
            },
            ReadySetError::WrongColumnType(f0, f1) => {
                "wrong column type returned from noria: expected "@
                    + f0@
                    + ", got "@
                    + f1@
            },
            ReadySetError::WrongKeyColumnCount(f0, f1) => {
                "wrong number of key columns used: expected "@
                    + decimal(f0 as nat)
                    + ", got "@
                    + decimal(f1 as nat)
            },
            ReadySetError::WrongPacketDataType => "wrong packet data type"@,
            ReadySetError::NonNullable { col } => {
                "Attempted to set NOT NULL column '"@
                    + col@
                    + "' to DfValue::None"@
            },
            ReadySetError::ColumnRequired { col } => {
                "Column '"@
                    + col@
                    + "' is declared NOT NULL, has no default, and was not provided"@
            },
            ReadySetError::ExprNotInGroupBy { expression, position } => {
                "Expression `"@
                    + expression@
                    + "` appears in "@
                    + position@
                    + " but is not functionally dependent on columns in the GROUP BY clause"@
            },
            ReadySetError::TableNotFound { name, schema } => {
                "Could not find table '"@
                    + schema_prefix(schema)
                    + name@
                    + "'"@
            },
            ReadySetError::TableNotReplicated { name, schema } => {
                "Table '"@
                    + schema_prefix(schema)
                    + name@
                    + "' is not being replicated by ReadySet"@
            },
            ReadySetError::ViewNotYetAvailable => "view not yet available"@,
            ReadySetError::ViewDestroyed => "view destroyed"@,
            ReadySetError::ViewNotFound(f0) => "Could not find view "@ + f0@,
            ReadySetError::ViewNotFoundInWorkers { name, workers } => {
                "Could not find view '"@
                    + name@
                    + "' in workers '"@
                    + url_list_debug(workers@)
                    + "'"@
            },
            ReadySetError::ViewAlreadyExists(f0) => "View '"@ + f0@ + "' already exists"@,
            ReadySetError::ReaderNotFound => "Reader not found"@,
            ReadySetError::ServerShuttingDown => "Server is shutting down"@,
            ReadySetError::UpqueryTimeout => "Upquery timeout"@,
            ReadySetError::EmptyKey => "the query specified an empty lookup key"@,
            ReadySetError::ReaderMissingKey => "the queries lookup key is not found at the reader"@,
            ReadySetError::PreparedStatementMissing { statement_id } => {
                "Prepared statement with ID "@
                    + decimal(statement_id as nat)
                    + " not found"@
            },
            ReadySetError::Internal(f0) => "Internal invariant violated: "@ + f0@,
            ReadySetError::BadRequest(f0) => "Bad request: "@ + f0@,
            ReadySetError::Unsupported(f0) => "Operation unsupported: "@ + f0@,
            ReadySetError::UnparseableQuery { query } => "Query failed to parse: "@ + query@,
            ReadySetError::TableError { table, source } => {
                "Failed to manipulate table "@
                    + table.text()
                    + ": "@
                    + source.text()
            },
            ReadySetError::ViewError { idx, source } => {
                "Failed to manipulate view at "@
                    + node_index_debug_text(idx)
                    + ": "@
                    + source.text()
            },
            ReadySetError::NoSuchFunction(f0) => "Function "@ + f0@ + " does not exist"@,
            ReadySetError::ArityError(f0) => {
                "Incorrect parameter count in the call to native function '"@
                    + f0@
                    + "'"@
            },
            ReadySetError::MultipleAutoIncrement => {
                "Multiple auto incrementing columns are not permitted"@
            },
            ReadySetError::NoSuchColumn(f0) => "Column "@ + f0@ + " not found in table or view"@,
            ReadySetError::DfValueConversionError { src_type, target_type, details } => {
                "DfValue conversion error: Failed to convert value of type "@
                    + src_type@
                    + " to the type "@
                    + target_type@
                    + ": "@
                    + details@
            },
            ReadySetError::ProjectExprInvalidColumnIndex(f0) => {
                "Column index out-of-bounds while evaluating project expression: index was "@
                    + decimal(f0 as nat)
            },
            ReadySetError::ProjectExprBuiltInFunctionError { function, message } => {
                "Error in project expression built-in function: "@
                    + function@
                    + ": "@
                    + message@
            },
            ReadySetError::NaiveDateTimeParseError(f0) => {
                "Error parsing a NaiveDateTime from the string: "@
                    + f0@
            },
            ReadySetError::InvalidPrimaryKeyField => "Primary key must be on a primitive field"@,
            ReadySetError::LostController => "Worker cannot find its controller"@,
            ReadySetError::NotLeader => "This instance is not the leader"@,
            ReadySetError::LeaderNotReady => {
                "The leader is not ready. Either it has not finished initializing, or there is an ongoing snapshotting operation."@
            },
            ReadySetError::NoQuorum => "A quorum of workers is not yet available"@,
            ReadySetError::UnknownEndpoint => "API endpoint not found"@,
            ReadySetError::NodeNotFound { index } => {
                "Node "@
                    + decimal(index as nat)
                    + " not found in controller"@
            },
            ReadySetError::IndexNotFound { node, columns } => {
                "Node with local index "@
                    + decimal(node as nat)
                    + " does not have an index for "@
                    + usize_list_debug(columns@)
            },
            ReadySetError::UnknownWorker { unknown_uri } => {
                "Unknown worker at "@
                    + url_display_text(unknown_uri)
                    + " tried to check in with heartbeat"@
            },
            ReadySetError::ReplicationUnknownWorker { unknown_uri } => {
                "Could not find worker at "@
                    + url_display_text(unknown_uri)
                    + " for reader replication"@
            },
            ReadySetError::WorkerFailed { uri } => {
                "Worker at "@
                    + url_display_text(uri)
                    + " failed"@
            },
            ReadySetError::HttpRequestFailed(f0) => "HTTP request failed: "@ + f0@,
            ReadySetError::ShardIndexOutOfBounds { shard, domain_index, num_shards } => {
                "Shard "@
                    + decimal(shard as nat)
                    + " out of bounds for domain "@
                    + decimal(domain_index as nat)
                    + " with "@
                    + decimal(num_shards as nat)
                    + " shards"@
            },
            ReadySetError::ViewReplicaOutOfBounds { replica, view_name, num_replicas } => {
                "Replica "@
                    + decimal(replica as nat)
                    + " out of bounds for view "@
                    + view_name@
                    + " with "@
                    + decimal(num_replicas as nat)
                    + " replicas"@
            },
            ReadySetError::NoSuchReplica { domain_index, shard, replica } => {
                "Could not find domain "@
                    + decimal(domain_index as nat)
                    + "."@
                    + decimal(shard as nat)
                    + "."@
                    + decimal(replica as nat)
                    + " on worker"@
            },
            ReadySetError::NoSuchNode(f0) => {
                "Node "@
                    + decimal(f0 as nat)
                    + " not found in domain"@
            },
            ReadySetError::InvalidNodeType { node_index, expected_type } => {
                "Node "@
                    + decimal(node_index as nat)
                    + " is not of type "@
                    + expected_type.text()
            },
            ReadySetError::NoSuchReplayPath(f0) => {
                "Replay path identified by Tag("@
                    + decimal(f0 as nat)
                    + ") not found"@
            },
            ReadySetError::UnmappableDomain { domain_index } => {
                "Internal state is missing for domain "@
                    + decimal(domain_index as nat)
            },
            ReadySetError::UnknownDomain { domain_index } => {
                "Unknown domain "@
                    + decimal(domain_index as nat)
            },
            ReadySetError::ServiceUnavailable => "Service unavailable"@,
            ReadySetError::UrlParseFailed(f0) => "URL parse failed: "@ + f0@,
            ReadySetError::SqlModeParseFailed(f0) => "SqlMode parse failed: "@ + f0@,
            ReadySetError::ReplicationOffsetLogDifferent(f0, f1) => {
                "Cannot compare replication offsets from different logs: expected "@
                    + f0@
                    + ", but got "@
                    + f1@
                    + " (did the replication log name change?)"@
            },
            ReadySetError::ReplicationFailed(f0) => "Error during replication: "@ + f0@,
            ReadySetError::NoAvailableWorkers { domain_index, shard } => {
                "Could not find healthy worker to place domain "@
                    + decimal(domain_index as nat)
                    + "."@
                    + decimal(shard as nat)
            },
            ReadySetError::InvalidRecordLength => "Record of invalid length received"@,
            ReadySetError::IOError(f0) => f0@,
            ReadySetError::Size0Error => "Vector length was unexpectedly zero"@,
            ReadySetError::NonInternalNode => "Not an internal node"@,
            ReadySetError::NodeAlreadyTaken => "Node already taken"@,
            ReadySetError::KeyAlreadyFilled => "attempted to fill already-filled key"@,
            ReadySetError::RangeAlreadyFilled => {
                "attempted to fill at least parially filled range"@
            },
            ReadySetError::NonExistentColumn { column, node } => {
                "Could not look up non-existent column "@
                    + column@
                    + " in "@
                    + node@
            },
            ReadySetError::JemallocCtlError(f0) => "Error from jemalloc_ctl: "@ + f0@,
            ReadySetError::ArrayParseError { input, message } => {
                "Malformed array literal '"@
                    + input@
                    + "': "@
                    + message@
            },
            ReadySetError::ResnapshotNeeded => "Change in DDL requires partial resnapshot"@,
            ReadySetError::InvalidRootCertificate => {
                "Root certificate must be a valid DER or PEM encoded certificate"@
            },
            ReadySetError::MirNodeNotFound { index } => {
                "Could not find MIR node "@
                    + decimal(index as nat)
            },
            ReadySetError::RelationNotFound { relation } => {
                "Could not find MIR node for relation '"@
                    + relation@
                    + "'"@
            },
            ReadySetError::FailedBaseOps { table } => {
                "Failed to apply some operations to base node for "@
                    + table.text()
            },
        }
    }

    /// Renders the error's message.
    pub fn to_string(&self) -> (r: String)
        ensures
            r@ == self.text(),
        decreases self,
    {
        match self {
            ReadySetError::Context { context, error } => {
                let mut r = ReadySetError::to_string(error);
                r.append(" (");
                r.append(context.as_str());
                r.append(")");
                r
            },
            ReadySetError::InvalidQuery(f0) => {
                let mut r = String::from_str("The provided query is invalid: ");
                r.append(f0.as_str());
                r
            },
            ReadySetError::NoQueryForId { id } => {
                let mut r = String::from_str("No query known by id ");
                r.append(id.as_str());
                r
            },
            ReadySetError::SetDisallowed { statement } => {
                let mut r = String::from_str("Set statement disallowed: ");
                r.append(statement.as_str());
                r
            },
            ReadySetError::InvalidUpstreamDatabase => {
                String::from_str("Could not connect to the upstream database provided")
            },
            ReadySetError::RpcFailed { during, source } => {
                let mut r = String::from_str("Error during RPC (");
                r.append(during.as_str());
                r.append("): ");
                let t = ReadySetError::to_string(source);
                r.append(t.as_str());
                r
            },
            ReadySetError::SelectQueryCreationFailed { qname, source } => {
                let mut r = String::from_str("SQL SELECT query '");
                r.append(qname.as_str());
                r.append("' couldn't be added: ");
                let t = ReadySetError::to_string(source);
                r.append(t.as_str());
                r
            },
            ReadySetError::MigrationPlanFailed { source } => {
                let mut r = String::from_str("Failed to plan migration: ");
                let t = ReadySetError::to_string(source);
                r.append(t.as_str());
                r
            },
            ReadySetError::MigrationApplyFailed { source } => {
                let mut r = String::from_str("Failed to apply migration: ");
                let t = ReadySetError::to_string(source);
                r.append(t.as_str());
                r
            },
            ReadySetError::RecipeInvariantViolated(f0) => {
                let mut r = String::from_str("Unable to create recipe from received DDL: ");
                r.append(f0.as_str());
                r
            },
            ReadySetError::DomainCreationFailed { domain_index, shard, replica, worker_uri, source } => {
                let mut r = String::from_str("Failed to boot domain ");
                push_decimal(&mut r, *domain_index);
                r.append(".");
                push_decimal(&mut r, *shard);
                r.append(".");
                push_decimal(&mut r, *replica);
                r.append(" on worker '");
                let t = url_display(worker_uri);
                r.append(t.as_str());
                r.append("': ");
                let t = ReadySetError::to_string(source);
                r.append(t.as_str());
                r
            },
            ReadySetError::MirNodeToDataflowFailed { index, source } => {
                let mut r = String::from_str("MIR node '");
                let t = node_index_debug(index);
                r.append(t.as_str());
                r.append("' couldn't be made: ");
                let t = ReadySetError::to_string(source);
                r.append(t.as_str());
                r
            },
            ReadySetError::ZookeeperConnectionFailed { connect_string, reason } => {
                let mut r = String::from_str("Failed to connect to ZooKeeper at '");
                r.append(connect_string.as_str());
                r.append("': ");
                r.append(reason.as_str());
                r
            },
            ReadySetError::TcpSendError(f0) => {
                let mut r = String::from_str("TCP send error: ");
                r.append(f0.as_str());
                r
            },
            ReadySetError::SerializationFailed(f0) => {
                let mut r = String::from_str("Failed to (de)serialize: ");
                r.append(f0.as_str());
                r
            },
            ReadySetError::WrongColumnCount(f0, f1) => {
                let mut r = String::from_str("wrong number of columns specified: expected ");
                push_decimal(&mut r, *f0);
                r.append(", got ");
                push_decimal(&mut r, *f1);
                r
            },
            ReadySetError::WrongColumnType(f0, f1) => {
                let mut r = String::from_str("wrong column type returned from noria: expected ");
                r.append(f0.as_str());
                r.append(", got ");
                r.append(f1.as_str());
                r
            },
            ReadySetError::WrongKeyColumnCount(f0, f1) => {
                let mut r = String::from_str("wrong number of key columns used: expected ");
                push_decimal(&mut r, *f0);
                r.append(", got ");
                push_decimal(&mut r, *f1);
                r
            },
            ReadySetError::WrongPacketDataType => String::from_str("wrong packet data type"),
            ReadySetError::NonNullable { col } => {
                let mut r = String::from_str("Attempted to set NOT NULL column '");
                r.append(col.as_str());
                r.append("' to DfValue::None");
                r
            },
            ReadySetError::ColumnRequired { col } => {
                let mut r = String::from_str("Column '");
                r.append(col.as_str());
                r.append("' is declared NOT NULL, has no default, and was not provided");
                r
            },
            ReadySetError::ExprNotInGroupBy { expression, position } => {
                let mut r = String::from_str("Expression `");
                r.append(expression.as_str());
                r.append("` appears in ");
                r.append(position.as_str());
                r.append(" but is not functionally dependent on columns in the GROUP BY clause");
                r
            },
            ReadySetError::TableNotFound { name, schema } => {
                let mut r = String::from_str("Could not find table '");
                push_schema_prefix(&mut r, schema);
                r.append(name.as_str());
                r.append("'");
                r
            },
            ReadySetError::TableNotReplicated { name, schema } => {
                let mut r = String::from_str("Table '");
                push_schema_prefix(&mut r, schema);
                r.append(name.as_str());
                r.append("' is not being replicated by ReadySet");
                r
            },
            ReadySetError::ViewNotYetAvailable => String::from_str("view not yet available"),
            ReadySetError::ViewDestroyed => String::from_str("view destroyed"),
            ReadySetError::ViewNotFound(f0) => {
                let mut r = String::from_str("Could not find view ");
                r.append(f0.as_str());
                r
            },
            ReadySetError::ViewNotFoundInWorkers { name, workers } => {
                let mut r = String::from_str("Could not find view '");
                r.append(name.as_str());
                r.append("' in workers '");
                let t = url_list_debug_string(workers);
                r.append(t.as_str());
                r.append("'");
                r
            },
            ReadySetError::ViewAlreadyExists(f0) => {
                let mut r = String::from_str("View '");
                r.append(f0.as_str());
                r.append("' already exists");
                r
            },
            ReadySetError::ReaderNotFound => String::from_str("Reader not found"),
            ReadySetError::ServerShuttingDown => String::from_str("Server is shutting down"),
            ReadySetError::UpqueryTimeout => String::from_str("Upquery timeout"),
            ReadySetError::EmptyKey => String::from_str("the query specified an empty lookup key"),
            ReadySetError::ReaderMissingKey => {
                String::from_str("the queries lookup key is not found at the reader")
            },
            ReadySetError::PreparedStatementMissing { statement_id } => {
                let mut r = String::from_str("Prepared statement with ID ");
                push_decimal(&mut r, *statement_id as usize);
                r.append(" not found");
                r
            },
            ReadySetError::Internal(f0) => {
                let mut r = String::from_str("Internal invariant violated: ");
                r.append(f0.as_str());
                r
            },
            ReadySetError::BadRequest(f0) => {
                let mut r = String::from_str("Bad request: ");
                r.append(f0.as_str());
                r
            },
            ReadySetError::Unsupported(f0) => {
                let mut r = String::from_str("Operation unsupported: ");
                r.append(f0.as_str());
                r
            },
            ReadySetError::UnparseableQuery { query } => {
                let mut r = String::from_str("Query failed to parse: ");
                r.append(query.as_str());
                r
            },
            ReadySetError::TableError { table, source } => {
                let mut r = String::from_str("Failed to manipulate table ");
                let t = table.to_string();
                r.append(t.as_str());
                r.append(": ");
                let t = ReadySetError::to_string(source);
                r.append(t.as_str());
                r
            },
            ReadySetError::ViewError { idx, source } => {
                let mut r = String::from_str("Failed to manipulate view at ");
                let t = node_index_debug(idx);
                r.append(t.as_str());
                r.append(": ");
                let t = ReadySetError::to_string(source);
                r.append(t.as_str());
                r
            },
            ReadySetError::NoSuchFunction(f0) => {
                let mut r = String::from_str("Function ");
                r.append(f0.as_str());
                r.append(" does not exist");
                r
            },
            ReadySetError::ArityError(f0) => {
                let mut r = String::from_str("Incorrect parameter count in the call to native function '");
                r.append(f0.as_str());
                r.append("'");
                r
            },
            ReadySetError::MultipleAutoIncrement => {
                String::from_str("Multiple auto incrementing columns are not permitted")
            },
            ReadySetError::NoSuchColumn(f0) => {
                let mut r = String::from_str("Column ");
                r.append(f0.as_str());
                r.append(" not found in table or view");
                r
            },
            ReadySetError::DfValueConversionError { src_type, target_type, details } => {
                let mut r = String::from_str("DfValue conversion error: Failed to convert value of type ");
                r.append(src_type.as_str());
                r.append(" to the type ");
                r.append(target_type.as_str());
                r.append(": ");
                r.append(details.as_str());
                r
            },
            ReadySetError::ProjectExprInvalidColumnIndex(f0) => {
                let mut r = String::from_str("Column index out-of-bounds while evaluating project expression: index was ");
                push_decimal(&mut r, *f0);
                r
            },
            ReadySetError::ProjectExprBuiltInFunctionError { function, message } => {
                let mut r = String::from_str("Error in project expression built-in function: ");
                r.append(function.as_str());
                r.append(": ");
                r.append(message.as_str());
                r
            },
            ReadySetError::NaiveDateTimeParseError(f0) => {
                let mut r = String::from_str("Error parsing a NaiveDateTime from the string: ");
                r.append(f0.as_str());
                r
            },
            ReadySetError::InvalidPrimaryKeyField => {
                String::from_str("Primary key must be on a primitive field")
            },
            ReadySetError::LostController => String::from_str("Worker cannot find its controller"),
            ReadySetError::NotLeader => String::from_str("This instance is not the leader"),
            ReadySetError::LeaderNotReady => {
                String::from_str("The leader is not ready. Either it has not finished initializing, or there is an ongoing snapshotting operation.")
            },
            ReadySetError::NoQuorum => String::from_str("A quorum of workers is not yet available"),
            ReadySetError::UnknownEndpoint => String::from_str("API endpoint not found"),
            ReadySetError::NodeNotFound { index } => {
                let mut r = String::from_str("Node ");
                push_decimal(&mut r, *index);
                r.append(" not found in controller");
                r
            },
            ReadySetError::IndexNotFound { node, columns } => {
                let mut r = String::from_str("Node with local index ");
                push_decimal(&mut r, *node);
                r.append(" does not have an index for ");
                let t = usize_list_debug_string(columns);
                r.append(t.as_str());
                r
            },
            ReadySetError::UnknownWorker { unknown_uri } => {
                let mut r = String::from_str("Unknown worker at ");
                let t = url_display(unknown_uri);
                r.append(t.as_str());
                r.append(" tried to check in with heartbeat");
                r
            },
            ReadySetError::ReplicationUnknownWorker { unknown_uri } => {
                let mut r = String::from_str("Could not find worker at ");
                let t = url_display(unknown_uri);
                r.append(t.as_str());
                r.append(" for reader replication");
                r
            },
            ReadySetError::WorkerFailed { uri } => {
                let mut r = String::from_str("Worker at ");
                let t = url_display(uri);
                r.append(t.as_str());
                r.append(" failed");
                r
            },
            ReadySetError::HttpRequestFailed(f0) => {
                let mut r = String::from_str("HTTP request failed: ");
                r.append(f0.as_str());
                r
            },
            ReadySetError::ShardIndexOutOfBounds { shard, domain_index, num_shards } => {
                let mut r = String::from_str("Shard ");
                push_decimal(&mut r, *shard);
                r.append(" out of bounds for domain ");
                push_decimal(&mut r, *domain_index);
                r.append(" with ");
                push_decimal(&mut r, *num_shards);
                r.append(" shards");
                r
            },
            ReadySetError::ViewReplicaOutOfBounds { replica, view_name, num_replicas } => {
                let mut r = String::from_str("Replica ");
                push_decimal(&mut r, *replica);
                r.append(" out of bounds for view ");
                r.append(view_name.as_str());
                r.append(" with ");
                push_decimal(&mut r, *num_replicas);
                r.append(" replicas");
                r
            },
            ReadySetError::NoSuchReplica { domain_index, shard, replica } => {
                let mut r = String::from_str("Could not find domain ");
                push_decimal(&mut r, *domain_index);
                r.append(".");
                push_decimal(&mut r, *shard);
                r.append(".");
                push_decimal(&mut r, *replica);
                r.append(" on worker");
                r
            },
            ReadySetError::NoSuchNode(f0) => {
                let mut r = String::from_str("Node ");
                push_decimal(&mut r, *f0);
                r.append(" not found in domain");
                r
            },
            ReadySetError::InvalidNodeType { node_index, expected_type } => {
                let mut r = String::from_str("Node ");
                push_decimal(&mut r, *node_index);
                r.append(" is not of type ");
                let t = expected_type.to_string();
                r.append(t.as_str());
                r
            },
            ReadySetError::NoSuchReplayPath(f0) => {
                let mut r = String::from_str("Replay path identified by Tag(");
                push_decimal(&mut r, *f0 as usize);
                r.append(") not found");
                r
            },
            ReadySetError::UnmappableDomain { domain_index } => {
                let mut r = String::from_str("Internal state is missing for domain ");
                push_decimal(&mut r, *domain_index);
                r
            },
            ReadySetError::UnknownDomain { domain_index } => {
                let mut r = String::from_str("Unknown domain ");
                push_decimal(&mut r, *domain_index);
                r
            },
            ReadySetError::ServiceUnavailable => String::from_str("Service unavailable"),
            ReadySetError::UrlParseFailed(f0) => {
                let mut r = String::from_str("URL parse failed: ");
                r.append(f0.as_str());
                r
            },
            ReadySetError::SqlModeParseFailed(f0) => {
                let mut r = String::from_str("SqlMode parse failed: ");
                r.append(f0.as_str());
                r
            },
            ReadySetError::ReplicationOffsetLogDifferent(f0, f1) => {
                let mut r = String::from_str("Cannot compare replication offsets from different logs: expected ");
                r.append(f0.as_str());
                r.append(", but got ");
                r.append(f1.as_str());
                r.append(" (did the replication log name change?)");
                r
            },
            ReadySetError::ReplicationFailed(f0) => {
                let mut r = String::from_str("Error during replication: ");
                r.append(f0.as_str());
                r
            },
            ReadySetError::NoAvailableWorkers { domain_index, shard } => {
                let mut r = String::from_str("Could not find healthy worker to place domain ");
                push_decimal(&mut r, *domain_index);
                r.append(".");
                push_decimal(&mut r, *shard);
                r
            },
            ReadySetError::InvalidRecordLength => {
                String::from_str("Record of invalid length received")
            },
            ReadySetError::IOError(f0) => f0.clone(),
            ReadySetError::Size0Error => String::from_str("Vector length was unexpectedly zero"),
            ReadySetError::NonInternalNode => String::from_str("Not an internal node"),
            ReadySetError::NodeAlreadyTaken => String::from_str("Node already taken"),
            ReadySetError::KeyAlreadyFilled => {
                String::from_str("attempted to fill already-filled key")
            },
            ReadySetError::RangeAlreadyFilled => {
                String::from_str("attempted to fill at least parially filled range")
            },
            ReadySetError::NonExistentColumn { column, node } => {
                let mut r = String::from_str("Could not look up non-existent column ");
                r.append(column.as_str());
                r.append(" in ");
                r.append(node.as_str());
                r
            },
            ReadySetError::JemallocCtlError(f0) => {
                let mut r = String::from_str("Error from jemalloc_ctl: ");
                r.append(f0.as_str());
                r
            },
            ReadySetError::ArrayParseError { input, message } => {
                let mut r = String::from_str("Malformed array literal '");
                r.append(input.as_str());
                r.append("': ");
                r.append(message.as_str());
                r
            },
            ReadySetError::ResnapshotNeeded => {
                String::from_str("Change in DDL requires partial resnapshot")
            },
            ReadySetError::InvalidRootCertificate => {
                String::from_str("Root certificate must be a valid DER or PEM encoded certificate")
            },
            ReadySetError::MirNodeNotFound { index } => {
                let mut r = String::from_str("Could not find MIR node ");
                push_decimal(&mut r, *index);
                r
            },
            ReadySetError::RelationNotFound { relation } => {
                let mut r = String::from_str("Could not find MIR node for relation '");
                r.append(relation.as_str());
                r.append("'");
                r
            },
            ReadySetError::FailedBaseOps { table } => {
                let mut r = String::from_str("Failed to apply some operations to base node for ");
                let t = table.to_string();
                r.append(t.as_str());
                r
            },
        }
    }
}

} // verus!
