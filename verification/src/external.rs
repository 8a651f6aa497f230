//! The outside types that the error library carries, and the trusted items
//! through which it calls into the crates that define them.
//!
//! Each function here is believed, not proved: its doc comment says which
//! outside function it calls and what its contract claims of it.

use vstd::prelude::*;
use petgraph::graph::NodeIndex;
use url::Url;

use crate::text::decimal;

verus! {

/// `url::Url`, carried opaque.
#[verifier::external_type_specification]
#[verifier::external_body]
pub struct ExUrl(url::Url);

/// `petgraph::graph::NodeIndex`, carried opaque.
#[verifier::external_type_specification]
#[verifier::external_body]
#[verifier::reject_recursive_types(Ix)]
pub struct ExNodeIndex<Ix>(petgraph::graph::NodeIndex<Ix>);

/// `anyhow::Error`, carried opaque.
#[verifier::external_type_specification]
#[verifier::external_body]
pub struct ExAnyhowError(anyhow::Error);

/// `serde_json::Error`, carried opaque.
#[verifier::external_type_specification]
#[verifier::external_body]
pub struct ExJsonError(serde_json::Error);

/// `bincode::ErrorKind` (a `bincode::Error` is a box of one), carried opaque.
#[verifier::external_type_specification]
#[verifier::external_body]
pub struct ExBincodeErrorKind(bincode::ErrorKind);

/// `url::ParseError`, carried opaque.
#[verifier::external_type_specification]
#[verifier::external_body]
pub struct ExUrlParseError(url::ParseError);

/// `mysql_async::Error`, carried opaque.
#[verifier::external_type_specification]
#[verifier::external_body]
pub struct ExMysqlError(mysql_async::Error);

/// `tokio_postgres::Error`, carried opaque.
#[verifier::external_type_specification]
#[verifier::external_body]
pub struct ExPostgresError(tokio_postgres::Error);

/// `deadpool::managed::PoolError` (what `deadpool_postgres::PoolError` names), carried opaque.
#[verifier::external_type_specification]
#[verifier::external_body]
#[verifier::reject_recursive_types(E)]
pub struct ExPoolError<E>(deadpool::managed::PoolError<E>);

/// `deadpool::managed::CreatePoolError` (what `deadpool_postgres::CreatePoolError` names),
/// carried opaque.
#[verifier::external_type_specification]
#[verifier::external_body]
#[verifier::reject_recursive_types(C)]
pub struct ExCreatePoolError<C>(deadpool::managed::CreatePoolError<C>);

/// `deadpool_postgres::ConfigError`, carried opaque.
#[verifier::external_type_specification]
#[verifier::external_body]
pub struct ExPoolConfigError(deadpool_postgres::ConfigError);

/// `deadpool_postgres::BuildError`, carried opaque.
#[verifier::external_type_specification]
#[verifier::external_body]
pub struct ExBuildError(deadpool_postgres::BuildError);

/// `std::io::Error`, carried opaque.
#[verifier::external_type_specification]
#[verifier::external_body]
pub struct ExIoError(std::io::Error);

/// `vec1::Size0Error`, carried opaque.
#[verifier::external_type_specification]
#[verifier::external_body]
pub struct ExSize0Error(vec1::Size0Error);

/// `tikv_jemalloc_ctl::Error`, carried opaque.
#[verifier::external_type_specification]
#[verifier::external_body]
pub struct ExJemallocError(tikv_jemalloc_ctl::Error);

/// `Url`'s derived `Clone`; claims that the copy equals the original (it copies each field).
pub assume_specification[ <url::Url as Clone>::clone ](u: &url::Url) -> (r: url::Url)
    ensures
        r == *u,
;

/// What `Url`'s `Display` writes (its serialization), a function of the URL alone.
pub uninterp spec fn url_display_text(u: Url) -> Seq<char>;

/// What `Url`'s `Debug` writes (its components, field by field), a function of the URL alone.
pub uninterp spec fn url_debug_text(u: Url) -> Seq<char>;

/// The number that a `NodeIndex` wraps (what `NodeIndex::index` gives back), a function
/// of the index alone.
pub uninterp spec fn node_index_value(i: NodeIndex) -> u32;

/// What `NodeIndex`'s `Debug` writes: `NodeIndex(` and the number it wraps, then `)`.
pub open spec fn node_index_debug_text(i: NodeIndex) -> Seq<char> {
    "NodeIndex("@ + decimal(node_index_value(i) as nat) + ")"@
}

/// What `url::ParseError`'s `Display` writes (a fixed description per variant).
pub uninterp spec fn url_parse_error_text(e: url::ParseError) -> Seq<char>;

/// What `tokio_postgres::Error`'s `Display` writes, a function of the error alone.
pub uninterp spec fn postgres_error_text(e: tokio_postgres::Error) -> Seq<char>;

/// What `deadpool_postgres::PoolError`'s `Display` writes, a function of the error alone.
pub uninterp spec fn pool_error_text(e: deadpool_postgres::PoolError) -> Seq<char>;

/// What `deadpool_postgres::CreatePoolError`'s `Display` writes, a function of the error
/// alone.
pub uninterp spec fn create_pool_error_text(e: deadpool_postgres::CreatePoolError) -> Seq<char>;

/// `String`'s conversion from a string slice; claims (as std documents) that the new
/// string holds the slice's characters.
pub assume_specification<'a>[ <String as From<&'a str>>::from ](s: &str) -> (r: String)
    ensures
        r@ == s@,
;

/// The descriptions that `url::ParseError`'s `Display` writes, one per variant.
pub open spec fn is_url_parse_error_description(t: Seq<char>) -> bool {
    ||| t == "empty host"@
    ||| t == "invalid international domain name"@
    ||| t == "invalid port number"@
    ||| t == "invalid IPv4 address"@
    ||| t == "invalid IPv6 address"@
    ||| t == "invalid domain character"@
    ||| t == "relative URL without a base"@
    ||| t == "relative URL with a cannot-be-a-base base"@
    ||| t == "a cannot-be-a-base URL doesn\u{2019}t have a host to set"@
    ||| t == "URLs more than 4 GB are not supported"@
}

/// What `deadpool_postgres::BuildError`'s `Display` writes; its one variant,
/// `NoRuntimeSpecified`, always writes this text.
pub open spec fn build_error_text() -> Seq<char> {
    "Error occurred while building the pool: Timeouts require a runtime"@
}

/// Calls `Url`'s `Display`; claims that the text is `url_display_text` of the URL.
#[verifier::external_body]
pub(crate) fn url_display(u: &Url) -> (r: String)
    ensures
        r@ == url_display_text(*u),
{
    u.to_string()
}

/// Calls `Url`'s `Debug`; claims that the text is `url_debug_text` of the URL.
#[verifier::external_body]
pub(crate) fn url_debug(u: &Url) -> (r: String)
    ensures
        r@ == url_debug_text(*u),
{
    format!("{:?}", u)
}

/// Calls `NodeIndex`'s `Debug`; claims that the text is `NodeIndex(` followed by the number
/// the index wraps, in decimal, and `)`.
#[verifier::external_body]
pub(crate) fn node_index_debug(i: &NodeIndex) -> (r: String)
    ensures
        r@ == "NodeIndex("@ + decimal(node_index_value(*i) as nat) + ")"@,
{
    format!("{:?}", i)
}

/// Calls `url::ParseError`'s `Display`; claims that the text is `url_parse_error_text` of it,
/// and one of the ten descriptions of its variants.
#[verifier::external_body]
pub(crate) fn url_parse_error_string(e: &url::ParseError) -> (r: String)
    ensures
        r@ == url_parse_error_text(*e),
        is_url_parse_error_description(r@),
{
    e.to_string()
}

/// Calls `tokio_postgres::Error`'s `Display`, which writes a fixed text per kind of error
/// (with the parameter, column or count that the kind carries); claims that the text is
/// `postgres_error_text` of the error.
#[verifier::external_body]
pub(crate) fn postgres_error_string(e: &tokio_postgres::Error) -> (r: String)
    ensures
        r@ == postgres_error_text(*e),
{
    e.to_string()
}

/// Calls `deadpool_postgres::PoolError`'s `Display`, which writes a fixed text per variant,
/// followed for a backend or hook error by that error's own text; claims that the text is
/// `pool_error_text` of the error.
#[verifier::external_body]
pub(crate) fn pool_error_string(e: &deadpool_postgres::PoolError) -> (r: String)
    ensures
        r@ == pool_error_text(*e),
{
    e.to_string()
}

/// Calls `deadpool_postgres::CreatePoolError`'s `Display`; claims that the text is
/// `create_pool_error_text` of the error, and one of the two forms it writes: `Config: `
/// and a configuration error's text (each of which starts with `configuration property "`),
/// or `Build: ` and the build error's fixed text.
#[verifier::external_body]
pub(crate) fn create_pool_error_string(e: &deadpool_postgres::CreatePoolError) -> (r: String)
    ensures
        r@ == create_pool_error_text(*e),
        "Config: configuration property \""@.is_prefix_of(r@) || r@ == "Build: "@
            + build_error_text(),
{
    e.to_string()
}

/// Calls `deadpool_postgres::BuildError`'s `Display`; claims its fixed text.
#[verifier::external_body]
pub(crate) fn build_error_string(e: &deadpool_postgres::BuildError) -> (r: String)
    ensures
        r@ == build_error_text(),
{
    e.to_string()
}

/// Calls `anyhow::Error::from_boxed` on the boxed error. Nothing is claimed of the
/// result: `anyhow::Error` is opaque here (it displays as the boxed error does).
#[verifier::external_body]
pub(crate) fn anyhow_from_boxed(boxed: crate::errors::BoxedErrorWrapper) -> anyhow::Error {
    anyhow::Error::from_boxed(boxed.0)
}

} // verus!
