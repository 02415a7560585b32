//! A minimal in-process message broker: named FIFO queues of messages, the
//! retrieval and deadline decisions of a bounded-wait get, and a registry
//! that maps queue names to queue instances. The core is sequential and
//! fully specified; an embedding supplies the locking, the parking and the
//! wake-on-post around it, driving each blocked consumer's wait loop from
//! the core's decision functions.

pub mod errors;
pub mod laws;
pub mod message;
pub mod queue;
pub mod registry;
