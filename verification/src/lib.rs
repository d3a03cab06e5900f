//! An incremental computation engine: a versioned, dependency-tracking
//! memoization layer. Clients define keys (opaque identifiers for units of
//! computation) and evaluators (functions from a key to a value that record
//! the dependencies they read). The engine guarantees that for any key at any
//! version the value is computed at most once, that recomputation is avoided
//! when the transitive dependencies have not changed, that in-flight work is
//! deduplicated, and that cancelled work is either superseded safely or, if
//! it finished in the race, adopted by its successor.

pub mod activation;
pub mod backend;
pub mod cycles;
pub mod deps;
pub mod evaluator;
pub mod globals;
pub mod events;
pub mod incremental;
pub mod key;
pub mod registry;
pub mod store;
pub mod task;
pub mod value;
pub mod versions;
