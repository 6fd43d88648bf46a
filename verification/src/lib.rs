//! A minimal fluent builder for issuing HTTP requests against a fixed base
//! connection.
//!
//! A `Connection` holds a parsed base URL, an optional set of default headers
//! and a shared transport handle. From it, single-use `Request` builders are
//! derived; each builder step consumes the receiver and returns an updated
//! value, so a stale intermediate can never be reused. A finished request is
//! turned into a plain wire-level value for the transport to carry, and the
//! transport's outcome is folded back into either the buffered response body
//! or one unified `Error`.

pub mod base_url;
pub mod connection;
pub mod err;
pub mod headers;
pub mod request;
pub mod response;
