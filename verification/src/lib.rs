//! Request handling for a Gemini server.
//!
//! A client sends one absolute URL terminated by CRLF over a secure
//! connection and receives one status line, optionally followed by a body,
//! after which the connection is closed.  This crate holds everything that
//! decides what the reply is: extracting and validating the request line,
//! authorizing the URL against the server configuration, mapping its path to
//! a location under the document root, rendering the reply, and the
//! connection life cycle that ties these steps together.
//!
//! Network and file access are left to the caller, which feeds their results
//! to [`connection::Connection::step`].

pub mod status;
pub mod text;
pub mod response;
pub mod request;
pub mod config;
pub mod policy;
pub mod resolver;
pub mod handler;
pub mod connection;
pub mod properties;
