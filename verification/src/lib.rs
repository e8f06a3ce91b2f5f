//! Native bridge for a sign-in plugin.
//!
//! The host runtime loads the plugin as a shared library and calls two
//! exported entry points: one reports a version string, the other performs a
//! sign-in given an employee number, a session token and the path of an
//! image. The entry points marshal host-managed strings to and from native
//! strings and delegate the sign-in itself to a backend library linked in at
//! build time.
//!
//! This crate holds the bridge's logic: a model of the host's local-reference
//! frame ([`host`]), the conversions between host and native values
//! ([`marshal`]), the per-call steps of the two entry points ([`bridge`]),
//! and the backend the unit tests exercise ([`backend`]).

pub mod backend;
pub mod bridge;
pub mod host;
pub mod marshal;
