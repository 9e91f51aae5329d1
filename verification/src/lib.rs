//! A conformance and load-testing kit for a small "tasks" REST service.
//!
//! The service keeps tasks (`id`, `name`, `done`). A client creates one with
//! `POST {base}/tasks`, lists them with `GET {base}/tasks` and fetches one
//! with `GET {base}/tasks/{id}`; a create that breaks a rule is turned down
//! with a list of error codes.
//!
//! Nothing here touches the network. The kit builds requests and judges
//! responses, both as plain values, and leaves the sending to its caller:
//!
//! - [`json`] reads JSON text into a tree and writes string literals; both
//!   are done by `serde_json`.
//! - [`task`] holds the shapes on the wire and their JSON form.
//! - [`http`] holds requests, responses and the addresses of the service.
//! - [`scenario`] is the load scenario: the startup create and the two
//!   workloads, each exchange counted as a success or a failure.
//! - [`checks`] holds the conformance checks, one per promised behaviour.
//! - [`contract`] writes the service's contract down as a state machine,
//!   [`laws`] proves what follows from it, [`agreement`] proves that the
//!   checks accept it, and [`service`] is a service in memory that keeps it.
//! - [`numeral`] writes numbers in decimal.

pub mod agreement;
pub mod checks;
pub mod contract;
pub mod http;
pub mod json;
pub mod laws;
pub mod numeral;
pub mod scenario;
pub mod service;
pub mod task;
