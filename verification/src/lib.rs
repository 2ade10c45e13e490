//! Boundary core for embedding an explicitly-managed runtime in a
//! garbage-collected host: opaque integer handles over owned values, a bridge
//! from internal failure values to host exceptions, and a shared execution
//! context that adapts asynchronous work to synchronous boundary calls.

pub mod bridge;
pub mod context;
pub mod registry;
