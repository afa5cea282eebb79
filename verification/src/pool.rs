//! The connection pool manager: the settings a pool is built from, and the
//! registry that holds the one pool of a process.
//!
//! Building a pool opens connections, so it happens outside this module. The
//! module decides what the pool is built from ([`pool_settings`]) and keeps the
//! finished pool ([`init_diesel_pool`], [`get_diesel_pool`]). A registry is an
//! ordinary value: whoever starts the service makes one, fills it once and
//! hands it to the request handlers.

use std::sync::Arc;
use vstd::prelude::*;
use vstd::string::*;

verus! {

/// The largest number of connections a pool may hold at a time.
pub const MAX_POOL_SIZE: u32 = 15;

/// The name of the environment variable that holds the connection string.
pub const DATABASE_URL_VAR: &'static str = "DATABASE_URL";

/// Why the pool manager refused to go on. Each of these ends the start of a
/// service; none is a fault of a single request.
#[derive(Clone, Copy, Debug, PartialEq, Eq, Structural)]
pub enum PoolError {
    /// No connection string was configured.
    MissingConfiguration,
    /// The configured connection string is empty.
    EmptyConfiguration,
    /// The registry already holds a pool.
    AlreadyInitialized,
}

/// The diagnostic that goes with an error.
pub open spec fn diagnostic(error: PoolError) -> Seq<char> {
    match error {
        PoolError::MissingConfiguration => "❌ DATABASE_URL is not set"@,
        PoolError::EmptyConfiguration => "❌ DATABASE_URL is empty"@,
        PoolError::AlreadyInitialized => "Failed to set the Diesel DB pool"@,
    }
}

impl PoolError {
    /// The diagnostic to print before the process ends.
    pub fn describe(&self) -> (text: &'static str)
        ensures
            text@ == diagnostic(*self),
    {
        match self {
            PoolError::MissingConfiguration => "❌ DATABASE_URL is not set",
            PoolError::EmptyConfiguration => "❌ DATABASE_URL is empty",
            PoolError::AlreadyInitialized => "Failed to set the Diesel DB pool",
        }
    }
}

/// What a pool is built from.
#[derive(Debug, PartialEq, Eq)]
pub struct PoolSettings {
    database_url: String,
    max_size: u32,
}

impl PoolSettings {
    /// The connection string: address, credentials and database name.
    pub closed spec fn url(&self) -> Seq<char> {
        self.database_url@
    }

    /// The largest number of connections of the pool.
    pub closed spec fn limit(&self) -> u32 {
        self.max_size
    }

    #[verifier::type_invariant]
    spec fn valid(&self) -> bool {
        self.database_url@.len() > 0 && self.max_size == MAX_POOL_SIZE
    }

    /// The connection string. It is never empty.
    pub fn database_url(&self) -> (url: &str)
        ensures
            url@ == self.url(),
            url@.len() > 0,
    {
        proof {
            use_type_invariant(self);
        }
        self.database_url.as_str()
    }

    /// The largest number of connections of the pool. It is always
    /// [`MAX_POOL_SIZE`], and so never zero.
    pub fn max_size(&self) -> (size: u32)
        ensures
            size == self.limit(),
            size == MAX_POOL_SIZE,
    {
        proof {
            use_type_invariant(self);
        }
        self.max_size
    }
}

/// Reads the configuration of the pool: the connection string as it was found
/// in the environment, `None` when it was not there. A missing or empty string
/// is refused; any other string is taken as it is, with the fixed pool size.
pub fn pool_settings(database_url: Option<String>) -> (result: Result<PoolSettings, PoolError>)
    ensures
        match database_url {
            None => result == Err::<PoolSettings, PoolError>(PoolError::MissingConfiguration),
            Some(url) => if url@.len() == 0 {
                result == Err::<PoolSettings, PoolError>(PoolError::EmptyConfiguration)
            } else {
                result matches Ok(settings) && settings.url() == url@ && settings.limit()
                    == MAX_POOL_SIZE
            },
        },
{
    match database_url {
        None => Err(PoolError::MissingConfiguration),
        Some(url) => {
            if url.as_str().is_empty() {
                Err(PoolError::EmptyConfiguration)
            } else {
                Ok(PoolSettings { database_url: url, max_size: MAX_POOL_SIZE })
            }
        },
    }
}

/// A pool of PostgreSQL connections: the `Pool` of `diesel::r2d2`, managed by a
/// `ConnectionManager` for `PgConnection`. The pool hands out and takes back
/// connections on its own; nothing here looks inside it.
#[verifier::external_body]
pub struct DbPool {
    pub inner: diesel::r2d2::Pool<diesel::r2d2::ConnectionManager<diesel::pg::PgConnection>>,
}

/// `once_cell::sync::OnceCell`: a cell that can be written to at most once.
#[verifier::external_type_specification]
#[verifier::external_body]
#[verifier::reject_recursive_types(T)]
pub struct ExOnceCell<T>(once_cell::sync::OnceCell<T>);

/// What a cell holds: nothing, or the one handle it was set to.
pub uninterp spec fn stored_handle(cell: once_cell::sync::OnceCell<Arc<DbPool>>) -> Option<
    Arc<DbPool>,
>;

/// `OnceCell::new`: the new cell is empty.
#[verifier::external_body]
fn empty_cell() -> (cell: once_cell::sync::OnceCell<Arc<DbPool>>)
    ensures
        stored_handle(cell) is None,
{
    once_cell::sync::OnceCell::new()
}

/// `OnceCell::set`: an empty cell takes the handle and answers `Ok`; a full
/// cell keeps what it holds and hands the new handle back in `Err`.
#[verifier::external_body]
fn set_cell(cell: &mut once_cell::sync::OnceCell<Arc<DbPool>>, handle: Arc<DbPool>) -> (result:
    Result<(), Arc<DbPool>>)
    ensures
        match result {
            Ok(_) => stored_handle(*old(cell)) is None && stored_handle(*final(cell)) == Some(
                handle,
            ),
            Err(back) => stored_handle(*old(cell)) is Some && back == handle && stored_handle(
                *final(cell),
            ) == stored_handle(*old(cell)),
        },
{
    cell.set(handle)
}

/// `OnceCell::get`: a reference to the handle of a full cell, `None` for an
/// empty one.
#[verifier::external_body]
fn get_cell(cell: &once_cell::sync::OnceCell<Arc<DbPool>>) -> (found: Option<&Arc<DbPool>>)
    ensures
        match found {
            Some(handle) => stored_handle(*cell) == Some(*handle),
            None => stored_handle(*cell) is None,
        },
{
    cell.get()
}

/// `Arc::clone`: one more handle to the same pool.
#[verifier::external_body]
fn share(handle: &Arc<DbPool>) -> (shared: Arc<DbPool>)
    ensures
        shared == *handle,
{
    Arc::clone(handle)
}

/// The place of the one pool of a process. It starts empty, is filled at most
/// once and never emptied.
pub struct PoolRegistry {
    cell: once_cell::sync::OnceCell<Arc<DbPool>>,
}

/// What a registry holds after an attempt to store `pool` in it: the pool, if
/// it was empty; what it held before, if it was not.
pub open spec fn stored_after_init(before: Option<DbPool>, pool: DbPool) -> Option<DbPool> {
    match before {
        None => Some(pool),
        Some(kept) => Some(kept),
    }
}

impl PoolRegistry {
    /// The pool that the registry holds, if it holds one.
    pub closed spec fn pool(&self) -> Option<DbPool> {
        match stored_handle(self.cell) {
            Some(handle) => Some(*handle),
            None => None,
        }
    }

    /// An empty registry.
    pub fn new() -> (registry: Self)
        ensures
            registry.pool() is None,
    {
        PoolRegistry { cell: empty_cell() }
    }

    /// Whether the registry holds a pool.
    pub fn is_initialized(&self) -> (yes: bool)
        ensures
            yes == (self.pool() is Some),
    {
        get_cell(&self.cell).is_some()
    }
}

/// Stores the pool of the process and returns a handle to it. A registry takes
/// a pool once: a second pool is refused with
/// [`PoolError::AlreadyInitialized`], and the registry keeps the first.
pub fn init_diesel_pool(registry: &mut PoolRegistry, pool: DbPool) -> (result: Result<
    Arc<DbPool>,
    PoolError,
>)
    ensures
        final(registry).pool() == stored_after_init(old(registry).pool(), pool),
        match result {
            Ok(handle) => old(registry).pool() is None && *handle == pool,
            Err(error) => old(registry).pool() is Some && error == PoolError::AlreadyInitialized,
        },
{
    let handle = Arc::new(pool);
    match set_cell(&mut registry.cell, share(&handle)) {
        Ok(_) => Ok(handle),
        Err(_) => Err(PoolError::AlreadyInitialized),
    }
}

/// A handle to the pool of the process. To ask before a pool was stored is a
/// mistake of the program, not a condition to recover from.
pub fn get_diesel_pool(registry: &PoolRegistry) -> (handle: Arc<DbPool>)
    requires
        registry.pool() is Some,
    ensures
        registry.pool() == Some(*handle),
{
    match get_cell(&registry.cell) {
        Some(handle) => share(handle),
        None => vstd::pervasive::unreached(),
    }
}

} // verus!
