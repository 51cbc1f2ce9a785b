//! The core of a reading-progress synchronisation service, free of I/O.
//!
//! Clients register a user name with a password, name both in two headers of
//! every later call, and store and fetch one progress record per document. All
//! state lives in a key-value backend that offers a read and a write of one key.
//!
//! The service never touches the backend itself. A route's function in [`api`]
//! returns a [`protocol::Step`]: a call for the backend, or the reply for the
//! client. A driver performs the call and hands the answer to [`api::resume`],
//! until the reply is there.
//!
//! - [`keys`] derives the backend's keys and proves that validated identifiers
//!   never share one.
//! - [`types`] holds the records and the closed set of failures.
//! - [`protocol`] holds the words of an exchange.
//! - [`db`] reads and writes credentials and progress records.
//! - [`api`] holds the routes.
//! - [`model`] says what the routes do, over text and numbers alone.
//! - [`store`] pictures a backend that never fails, and [`laws`] proves against
//!   it what holds of the service as a whole.
//! - [`status`] and [`clock`] state what is taken on trust of the `http` and
//!   `time` crates.

pub mod api;
pub mod clock;
pub mod db;
pub mod keys;
pub mod laws;
pub mod model;
pub mod protocol;
pub mod status;
pub mod store;
pub mod types;
