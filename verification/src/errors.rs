//! The error taxonomy of the driver.
//!
//! Launch failures, browser-reported protocol errors, a dropped connection,
//! an elapsed wait, and an absent element are kept distinct so that callers
//! can react to each: polling callers, in particular, treat "not yet present"
//! differently from a genuine protocol error.

use vstd::prelude::*;

verus! {

/// A protocol error reported by the browser: a numeric code and a message.
#[derive(Debug)]
pub struct RemoteError {
    pub code: i64,
    pub message: String,
}

impl RemoteError {
    /// A human-readable rendering of the error.
    pub fn describe(&self) -> (r: String)
        ensures
            r@ == self.message@,
    {
        self.message.clone()
    }
}

/// Why a method call failed: the browser answered with an error object, or
/// the connection dropped before a reply arrived.
#[derive(Debug)]
pub enum MethodCallError {
    Remote(RemoteError),
    TransportClosed,
}

/// Why launching the browser failed.
#[derive(Debug)]
pub enum ChromeLaunchError {
    /// The browser started but never printed a WebSocket URL in time.
    PortOpenTimeout,
    /// No port in the scanned range could be bound.
    NoAvailablePorts,
    /// The chosen debugging port is already in use.
    DebugPortInUse,
    /// No executable path was configured or discovered.
    ExecutableMissing,
}

/// A queried element or node is absent.  Kept apart from [`RemoteError`] so
/// that polling callers can coalesce "not yet present" into a retry.
#[derive(Debug)]
pub struct NoElementFound {}

/// The outcome of looking an element up: absent, or failed outright.
#[derive(Debug)]
pub enum ElementLookupError {
    NotFound(NoElementFound),
    Call(MethodCallError),
}

/// A navigation call that the browser rejected, with its error text.
#[derive(Debug)]
pub struct NavigationFailed {
    pub error_text: String,
}

/// A key name that the keyboard layout does not define.
#[derive(Debug)]
pub struct KeyNotFoundError {
    pub key: String,
}

/// The message with which the browser reports a stale or absent node id.
/// It is expected while a page is still loading.
pub open spec fn spec_node_gone_message() -> Seq<char> {
    "Could not find node with given id"@
}

fn node_gone_message() -> (r: String)
    ensures
        r@ == spec_node_gone_message(),
{
    String::from_str("Could not find node with given id")
}

impl NoElementFound {
    /// Shadow the browser's "node not found" error, which merely means the
    /// element is not there yet, as [`ElementLookupError::NotFound`]; report
    /// every other failure unchanged.
    pub fn map(error: MethodCallError) -> (r: ElementLookupError)
        ensures
            match error {
                MethodCallError::Remote(ref e) => if e.message@ == spec_node_gone_message() {
                    r is NotFound
                } else {
                    (r matches ElementLookupError::Call(MethodCallError::Remote(ref e2))
                        && e2.code == e.code && e2.message@ == e.message@)
                },
                MethodCallError::TransportClosed => (
                    r matches ElementLookupError::Call(c) && c is TransportClosed
                ),
            },
    {
        match error {
            MethodCallError::Remote(remote_error) => {
                if remote_error.message == node_gone_message() {
                    ElementLookupError::NotFound(NoElementFound {})
                } else {
                    ElementLookupError::Call(MethodCallError::Remote(remote_error))
                }
            },
            MethodCallError::TransportClosed => {
                ElementLookupError::Call(MethodCallError::TransportClosed)
            },
        }
    }
}

} // verus!
