//! Typed request, response, and event shapes of the wire protocol's
//! domains.  The schema is an external, stable contract; these are its
//! shapes as plain values, with the method name of each request pinned
//! down.

pub mod accessibility;
pub mod emulation;
pub mod input;
pub mod types;
