//! A small HTTP service core: request routing, endpoint bodies, a single-use
//! shutdown coordinator, a fan-out result combiner and the failure boundary
//! that turns every handler outcome into a response.

pub mod config;
pub mod endpoints;
pub mod error;
pub mod fanout;
pub mod hyper_types;
pub mod middleware;
pub mod reply;
pub mod router;
pub mod shutdown;
pub mod text;
