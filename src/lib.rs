//! Resolution of Aleo programs and their imports from a package, a cache of
//! proving and verifying keys, and the staged execution pipeline that turns a
//! program call into a transaction.
pub mod key_cache;
pub mod pipeline;
pub mod resolver;
pub mod snark;
pub mod stages;
