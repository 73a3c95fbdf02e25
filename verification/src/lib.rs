//! The authentication gate of an edge HTTP server: salted password hashes,
//! the login decision, the session gate and the redirect to HTTPS.
//!
//! The library decides and does not reach out. The session store and the
//! directory service belong to the server: where a decision needs one of
//! them, the library hands back a step that says what to ask for, and goes
//! on from the answer. A handler is entered with the request; each step is
//! either an answer to send or something to ask, and `advance` takes what
//! came of asking.
//!
//! - [`credentials`]: storing and verifying passwords.
//! - [`login`]: the administrator, the directory service, the session.
//! - [`session_gate`]: logout, the query about a session, the filter.
//! - [`redirect_service`]: the HTTPS URL for a request on the plain listener.
//! - [`request`] and [`response`]: what is read of a request and what is
//!   answered, as plain values.
//! - [`hex`], [`decimal`] and [`json`]: the texts that the others write.

pub mod credentials;
pub mod decimal;
pub mod hex;
pub mod json;
pub mod login;
pub mod redirect_service;
pub mod request;
pub mod response;
pub mod session_gate;
