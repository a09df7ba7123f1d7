//! A session-backed todo list served over HTTP, together with a small
//! "weight challenge" page.
//!
//! The library holds everything with real semantics: the session store and
//! its lifecycle, the route table, the typed parse functions for cookies,
//! query strings and form bodies, and the handlers that turn a session and
//! a request into a response. A thin unverified front end owns the TCP
//! listener and hands this library plain strings.

pub mod challenge;
pub mod form;
pub mod http;
pub mod laws;
pub mod router;
pub mod server;
pub mod session;
pub mod text;
pub mod todo;
pub mod welcome;
