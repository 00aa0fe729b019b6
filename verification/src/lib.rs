//! Client core for a remote attendance-tracking service.
//!
//! The library holds the session state, builds each remote operation as an
//! explicit HTTP request value, and decodes the textual responses into typed
//! records, surfacing every failure through one error type.  Everything here
//! is pure: the transport that actually sends a request and the terminal
//! front-end live outside the library and exchange plain values with it.
//!
//! Reading order: `errors` and `models` define the vocabulary, `config` the
//! persisted session; `numtext`, `validate`, `codec`, `jsonin` and `decode`
//! make up the wire format, written and read by verified code; `api` builds
//! and decodes each remote operation; `commands` holds each command's
//! decision core; `laws` states and proves the library-wide guarantees.

pub mod errors;
pub mod models;
pub mod config;
pub mod numtext;
pub mod validate;
pub mod codec;
pub mod jsonin;
pub mod decode;
pub mod api;
pub mod commands;
pub mod laws;
