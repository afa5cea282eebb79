//! The core of a database health check service.
//!
//! The service has one endpoint. A request to it borrows a connection from
//! the pool of the process, runs a trivial query with a deadline, and is
//! answered with status 200 and a JSON body that says how it went.
//!
//! This crate holds the decisions of that service and proves them with Verus:
//!
//! * [`pool`]: what a pool is built from, and the registry that takes the pool
//!   of the process once and hands it out from then on;
//! * [`health`]: the result that belongs to the outcome of a probe;
//! * [`response`]: the answer that belongs to a result, and its JSON body;
//! * [`laws`]: what holds of every answer and of every registry.
//!
//! Opening connections, running the query, keeping time and serving HTTP are
//! left to the program around the crate.

pub mod health;
pub mod laws;
pub mod pool;
pub mod response;

pub use health::{check_health, HealthResult, ProbeOutcome, PROBE_QUERY, PROBE_TIMEOUT_SECS};
pub use pool::{
    get_diesel_pool, init_diesel_pool, pool_settings, DbPool, PoolError, PoolRegistry,
    PoolSettings, DATABASE_URL_VAR, MAX_POOL_SIZE,
};
pub use response::{db_healthcheck_handler, health_response, BodyField, HealthResponse, STATUS_OK};
