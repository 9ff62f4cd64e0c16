//! Streaming bridge between a code-generation backend and a byte destination.
//!
//! The backend emits an artifact through a stream that accepts sequential
//! appends and, for object code, later overwrites at offsets already written.
//! A destination only offers sequential writes, an optional seek and a flush.
//! The types here reconcile the two: they track where the backend believes its
//! next append lands, independently of where the destination's own cursor is.
//!
//! - [`destination`]: what a stream can be emitted into, and an in-memory buffer.
//! - [`sink`]: the adapter that keeps the append cursor, and the callbacks on it.
//! - [`session`]: one emission of object code or assembly, from its begin to its outcome.
//! - [`forward`]: one emission of bitcode or textual IR, which needs no cursor.
//! - [`outcome`]: how an emission ended.
//! - [`model`]: the mathematical model all contracts are stated over.
//! - [`lemmas`]: what holds of every stream, proved over that model.
//!
//! The backend itself is not here. Whoever drives it hands each of its
//! callbacks to a session and, once it has returned, its status.

pub mod destination;
pub mod forward;
pub mod lemmas;
pub mod model;
pub mod outcome;
pub mod session;
pub mod sink;
