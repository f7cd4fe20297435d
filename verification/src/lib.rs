//! A custody ledger for environmental resources.
//!
//! Two admins, named once, record how a resource passes from holder to holder and release
//! amounts for it to one receiver. The ledger keeps two values, the admin set and the
//! receiver, and leaves everything else to the events that it emits: whoever wants the
//! history of a resource reads the events.
//!
//! - [`contract`] holds the three entry points, `initialize`, `log_trace` and
//!   `release_funds`, each stated over a model of what it does to its environment.
//! - [`env`] is that environment: the storage of the instance, the caller, the ledger
//!   time, and the events emitted so far. [`storage`], [`admin`], [`address`], [`event`]
//!   and [`error`] hold its parts.
//! - [`laws`] proves what holds over every run of calls: one initialisation at most,
//!   admins and receiver fixed from then on, nothing for anyone but the admins, and
//!   nothing at all before the initialisation.
//! - [`client`] holds the decisions of a client that reads a message from an instance
//!   and waits for a submitted transaction.

pub mod address;
pub mod admin;
pub mod client;
pub mod contract;
pub mod env;
pub mod error;
pub mod event;
pub mod laws;
pub mod storage;
