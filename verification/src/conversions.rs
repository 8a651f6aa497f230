//! Conversions into [`ReadySetError`] from the errors of the crates that ReadySet talks
//! to. Each keeps the other error's message, so that the result can be serialized.
//! Where that message rests on the operating system, the platform or a server, the
//! contract says that it is what the other error's `to_string` gave back.

use vstd::prelude::*;
use vstd::std_specs::convert::FromSpecImpl;
use vstd::string::to_string_from_display_ensures;

use crate::errors::ReadySetError;
use crate::external::{
    build_error_string, create_pool_error_string, pool_error_string, postgres_error_string, url_parse_error_string, url_parse_error_text, build_error_text,
    is_url_parse_error_description, postgres_error_text, pool_error_text, create_pool_error_text,
};

verus! {

/// A [`ReadySetError::ReplicationFailed`] whose message is `origin` followed by `message`.
fn replication_failed(origin: &str, message: String) -> (r: ReadySetError)
    ensures
        r matches ReadySetError::ReplicationFailed(s) && s@ == origin@ + message@,
{
    let mut s = String::from_str(origin);
    s.append(message.as_str());
    ReadySetError::ReplicationFailed(s)
}

/// Whether `e` is a [`ReadySetError::ReplicationFailed`] whose message starts with `origin`.
pub open spec fn is_replication_failure_from(e: ReadySetError, origin: Seq<char>) -> bool {
    e matches ReadySetError::ReplicationFailed(s) && origin.is_prefix_of(s@)
}

proof fn lemma_prefix_of_concat(a: Seq<char>, b: Seq<char>)
    ensures
        a.is_prefix_of(a + b),
{
    assert((a + b).subrange(0, a.len() as int) =~= a);
}

proof fn lemma_prefix_of_extended(p: Seq<char>, a: Seq<char>, b: Seq<char>)
    requires
        a.is_prefix_of(b),
    ensures
        (p + a).is_prefix_of(p + b),
{
    assert((p + b).subrange(0, (p + a).len() as int) =~= p + a) by {
        assert(b.subrange(0, a.len() as int) =~= a);
    }
}

impl From<serde_json::Error> for ReadySetError {
    fn from(e: serde_json::Error) -> (r: ReadySetError)
        ensures
            r matches ReadySetError::SerializationFailed(s) && to_string_from_display_ensures::<
                serde_json::Error,
            >(&e, s),
    {
        ReadySetError::SerializationFailed(e.to_string())
    }
}

impl FromSpecImpl<serde_json::Error> for ReadySetError {
    open spec fn obeys_from_spec() -> bool {
        false
    }

    open spec fn from_spec(v: serde_json::Error) -> ReadySetError {
        arbitrary()
    }
}

impl From<bincode::Error> for ReadySetError {
    fn from(e: bincode::Error) -> (r: ReadySetError)
        ensures
            r matches ReadySetError::SerializationFailed(s) && to_string_from_display_ensures::<
                bincode::ErrorKind,
            >(&*e, s),
    {
        ReadySetError::SerializationFailed((*e).to_string())
    }
}

impl FromSpecImpl<bincode::Error> for ReadySetError {
    open spec fn obeys_from_spec() -> bool {
        false
    }

    open spec fn from_spec(v: bincode::Error) -> ReadySetError {
        arbitrary()
    }
}

impl From<url::ParseError> for ReadySetError {
    fn from(e: url::ParseError) -> (r: ReadySetError)
        ensures
            r matches ReadySetError::UrlParseFailed(s) && s@ == url_parse_error_text(e)
                && is_url_parse_error_description(s@),
    {
        ReadySetError::UrlParseFailed(url_parse_error_string(&e))
    }
}

impl FromSpecImpl<url::ParseError> for ReadySetError {
    open spec fn obeys_from_spec() -> bool {
        false
    }

    open spec fn from_spec(v: url::ParseError) -> ReadySetError {
        arbitrary()
    }
}

impl From<mysql_async::Error> for ReadySetError {
    fn from(e: mysql_async::Error) -> (r: ReadySetError)
        ensures
            is_replication_failure_from(r, "MySQL: "@),
            r matches ReadySetError::ReplicationFailed(s) && exists|m: String|
                #![trigger to_string_from_display_ensures::<mysql_async::Error>(&e, m)]
                to_string_from_display_ensures::<mysql_async::Error>(&e, m) && s@ == "MySQL: "@
                    + m@,
    {
        let m = e.to_string();
        proof {
            lemma_prefix_of_concat("MySQL: "@, m@);
        }
        replication_failed("MySQL: ", m)
    }
}

impl FromSpecImpl<mysql_async::Error> for ReadySetError {
    open spec fn obeys_from_spec() -> bool {
        false
    }

    open spec fn from_spec(v: mysql_async::Error) -> ReadySetError {
        arbitrary()
    }
}

impl From<tokio_postgres::Error> for ReadySetError {
    fn from(e: tokio_postgres::Error) -> (r: ReadySetError)
        ensures
            is_replication_failure_from(r, "PostgreSQL: "@),
            r matches ReadySetError::ReplicationFailed(s) && s@ == "PostgreSQL: "@
                + postgres_error_text(e),
    {
        let m = postgres_error_string(&e);
        proof {
            lemma_prefix_of_concat("PostgreSQL: "@, m@);
        }
        replication_failed("PostgreSQL: ", m)
    }
}

impl FromSpecImpl<tokio_postgres::Error> for ReadySetError {
    open spec fn obeys_from_spec() -> bool {
        false
    }

    open spec fn from_spec(v: tokio_postgres::Error) -> ReadySetError {
        arbitrary()
    }
}

impl From<deadpool_postgres::PoolError> for ReadySetError {
    fn from(e: deadpool_postgres::PoolError) -> (r: ReadySetError)
        ensures
            is_replication_failure_from(r, "PostgreSQL deadpool PoolError: "@),
            r matches ReadySetError::ReplicationFailed(s) && s@ == "PostgreSQL deadpool PoolError: "@
                + pool_error_text(e),
    {
        let m = pool_error_string(&e);
        proof {
            lemma_prefix_of_concat("PostgreSQL deadpool PoolError: "@, m@);
        }
        replication_failed("PostgreSQL deadpool PoolError: ", m)
    }
}

impl FromSpecImpl<deadpool_postgres::PoolError> for ReadySetError {
    open spec fn obeys_from_spec() -> bool {
        false
    }

    open spec fn from_spec(v: deadpool_postgres::PoolError) -> ReadySetError {
        arbitrary()
    }
}

impl From<deadpool_postgres::CreatePoolError> for ReadySetError {
    fn from(e: deadpool_postgres::CreatePoolError) -> (r: ReadySetError)
        ensures
            is_replication_failure_from(r, "PostgreSQL deadpool CreatePoolError: "@),
            r matches ReadySetError::ReplicationFailed(s) && s@
                == "PostgreSQL deadpool CreatePoolError: "@ + create_pool_error_text(e),
            r matches ReadySetError::ReplicationFailed(s) && (("PostgreSQL deadpool CreatePoolError: "@
                + "Config: configuration property \""@).is_prefix_of(s@) || s@
                == "PostgreSQL deadpool CreatePoolError: "@ + ("Build: "@ + build_error_text())),
    {
        let m = create_pool_error_string(&e);
        proof {
            lemma_prefix_of_concat("PostgreSQL deadpool CreatePoolError: "@, m@);
            if "Config: configuration property \""@.is_prefix_of(m@) {
                lemma_prefix_of_extended(
                    "PostgreSQL deadpool CreatePoolError: "@,
                    "Config: configuration property \""@,
                    m@,
                );
            }
        }
        replication_failed("PostgreSQL deadpool CreatePoolError: ", m)
    }
}

impl FromSpecImpl<deadpool_postgres::CreatePoolError> for ReadySetError {
    open spec fn obeys_from_spec() -> bool {
        false
    }

    open spec fn from_spec(v: deadpool_postgres::CreatePoolError) -> ReadySetError {
        arbitrary()
    }
}

impl From<deadpool_postgres::BuildError> for ReadySetError {
    fn from(e: deadpool_postgres::BuildError) -> (r: ReadySetError)
        ensures
            r matches ReadySetError::ReplicationFailed(s) && s@ == "PostgreSQL deadpool BuildError: "@
                + build_error_text(),
    {
        let m = build_error_string(&e);
        proof {
            lemma_prefix_of_concat("PostgreSQL deadpool BuildError: "@, m@);
        }
        replication_failed("PostgreSQL deadpool BuildError: ", m)
    }
}

impl FromSpecImpl<deadpool_postgres::BuildError> for ReadySetError {
    open spec fn obeys_from_spec() -> bool {
        false
    }

    open spec fn from_spec(v: deadpool_postgres::BuildError) -> ReadySetError {
        arbitrary()
    }
}

impl From<std::io::Error> for ReadySetError {
    fn from(e: std::io::Error) -> (r: ReadySetError)
        ensures
            r matches ReadySetError::IOError(s) && to_string_from_display_ensures::<
                std::io::Error,
            >(&e, s),
    {
        ReadySetError::IOError(e.to_string())
    }
}

impl FromSpecImpl<std::io::Error> for ReadySetError {
    open spec fn obeys_from_spec() -> bool {
        false
    }

    open spec fn from_spec(v: std::io::Error) -> ReadySetError {
        arbitrary()
    }
}

impl From<vec1::Size0Error> for ReadySetError {
    fn from(e: vec1::Size0Error) -> (r: ReadySetError)
        ensures
            r == ReadySetError::Size0Error,
    {
        ReadySetError::Size0Error
    }
}

impl FromSpecImpl<vec1::Size0Error> for ReadySetError {
    open spec fn obeys_from_spec() -> bool {
        true
    }

    open spec fn from_spec(v: vec1::Size0Error) -> ReadySetError {
        ReadySetError::Size0Error
    }
}

impl From<tikv_jemalloc_ctl::Error> for ReadySetError {
    fn from(e: tikv_jemalloc_ctl::Error) -> (r: ReadySetError)
        ensures
            r matches ReadySetError::JemallocCtlError(s) && to_string_from_display_ensures::<
                tikv_jemalloc_ctl::Error,
            >(&e, s),
    {
        ReadySetError::JemallocCtlError(e.to_string())
    }
}

impl FromSpecImpl<tikv_jemalloc_ctl::Error> for ReadySetError {
    open spec fn obeys_from_spec() -> bool {
        false
    }

    open spec fn from_spec(v: tikv_jemalloc_ctl::Error) -> ReadySetError {
        arbitrary()
    }
}

} // verus!
