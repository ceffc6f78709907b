//! Recursive mutexes on atomics for SQLite, with the decisions of their lock protocol
//! and a model of the protocol in which mutual exclusion and wake-ups are proved.

pub mod methods;
pub mod model;
pub mod mutex;
pub mod protocol;
pub mod thread;
pub mod trace;
