use readyset::errors::ReadySetError;

#[test]
fn from_json_error_keeps_message() {
    let e = serde_json::from_str::<u32>("nope").unwrap_err();
    let msg = e.to_string();
    assert_eq!(ReadySetError::from(e), ReadySetError::SerializationFailed(msg));
}

#[test]
fn from_bincode_error_keeps_message() {
    let e: bincode::Error = Box::new(bincode::ErrorKind::SizeLimit);
    let msg = e.to_string();
    assert_eq!(ReadySetError::from(e), ReadySetError::SerializationFailed(msg));
}

#[test]
fn from_url_parse_error_keeps_message() {
    let e = url::Url::parse("no scheme").unwrap_err();
    assert_eq!(
        ReadySetError::from(e),
        ReadySetError::UrlParseFailed("relative URL without a base".to_owned())
    );
}

#[test]
fn from_io_error_keeps_message() {
    let e = std::io::Error::other("disk on fire");
    let r = ReadySetError::from(e);
    assert_eq!(r, ReadySetError::IOError("disk on fire".to_owned()));
    assert_eq!(r.to_string(), "disk on fire");
    assert!(r.is_networking_related());
}

#[test]
fn from_size0_error() {
    assert_eq!(ReadySetError::from(vec1::Size0Error), ReadySetError::Size0Error);
    assert_eq!(ReadySetError::Size0Error.to_string(), "Vector length was unexpectedly zero");
}

#[test]
fn from_mysql_error_is_prefixed() {
    let e = mysql_async::Error::Other("boom".into());
    let msg = e.to_string();
    assert_eq!(ReadySetError::from(e), ReadySetError::ReplicationFailed(format!("MySQL: {}", msg)));
}

#[test]
fn from_deadpool_build_error_is_prefixed() {
    let e = deadpool_postgres::BuildError::NoRuntimeSpecified;
    assert_eq!(
        ReadySetError::from(e),
        ReadySetError::ReplicationFailed(
            "PostgreSQL deadpool BuildError: Error occurred while building the pool: Timeouts require a runtime"
                .to_owned()
        )
    );
}

#[test]
fn from_deadpool_pool_error_is_prefixed() {
    let e: deadpool_postgres::PoolError = deadpool::managed::PoolError::Closed;
    let msg = e.to_string();
    assert_eq!(
        ReadySetError::from(e),
        ReadySetError::ReplicationFailed(format!("PostgreSQL deadpool PoolError: {}", msg))
    );
}

#[test]
fn from_jemalloc_error_keeps_message() {
    let mut mib = [0usize; 4];
    let e = tikv_jemalloc_ctl::raw::name_to_mib(b"no.such.control\0", &mut mib).unwrap_err();
    let msg = e.to_string();
    assert!(!msg.is_empty());
    assert_eq!(ReadySetError::from(e), ReadySetError::JemallocCtlError(msg));
}

#[test]
fn from_deadpool_create_pool_error_has_both_forms() {
    let build: deadpool_postgres::CreatePoolError =
        deadpool::managed::CreatePoolError::Build(deadpool_postgres::BuildError::NoRuntimeSpecified);
    assert_eq!(
        ReadySetError::from(build),
        ReadySetError::ReplicationFailed(
            "PostgreSQL deadpool CreatePoolError: Build: Error occurred while building the pool: Timeouts require a runtime"
                .to_owned()
        )
    );
    let config: deadpool_postgres::CreatePoolError =
        deadpool::managed::CreatePoolError::Config(deadpool_postgres::ConfigError::DbnameMissing);
    assert_eq!(
        ReadySetError::from(config),
        ReadySetError::ReplicationFailed(
            "PostgreSQL deadpool CreatePoolError: Config: configuration property \"dbname\" not found"
                .to_owned()
        )
    );
}

#[test]
fn from_postgres_error_keeps_message() {
    let e = "port=notanumber".parse::<tokio_postgres::Config>().unwrap_err();
    assert_eq!(
        ReadySetError::from(e),
        ReadySetError::ReplicationFailed("PostgreSQL: invalid connection string".to_owned())
    );
}

#[test]
fn from_deadpool_pool_error_keeps_message() {
    let e: deadpool_postgres::PoolError = deadpool::managed::PoolError::NoRuntimeSpecified;
    assert_eq!(
        ReadySetError::from(e),
        ReadySetError::ReplicationFailed("PostgreSQL deadpool PoolError: No runtime specified".to_owned())
    );
}
