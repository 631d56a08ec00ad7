//! The library's error type and the rules that turn the native layer's pending
//! error message into one.
//!
//! The native layer keeps at most one pending error message. An operation that
//! failed reports that message when there is a non-empty one and its own context
//! text otherwise.

use vstd::prelude::*;
use vstd::string::*;

verus! {

/// Error of a DepthAI operation: a message.
#[derive(Debug)]
pub struct DepthaiError(pub(crate) String);

impl View for DepthaiError {
    type V = Seq<char>;

    closed spec fn view(&self) -> Seq<char> {
        self.0@
    }
}

impl Clone for DepthaiError {
    fn clone(&self) -> (r: Self)
        ensures
            r@ == self@,
    {
        DepthaiError(self.0.clone())
    }
}

/// The message that an error built from a pending message and a context
/// carries: the pending message when it is present and non-empty, else the
/// context.
pub open spec fn reported_message(context: Seq<char>, pending: Option<Seq<char>>) -> Seq<char> {
    match pending {
        Some(msg) => if msg.len() > 0 {
            msg
        } else {
            context
        },
        None => context,
    }
}

/// The text of a pending message, if any.
pub open spec fn pending_text(pending: Option<String>) -> Option<Seq<char>> {
    match pending {
        Some(m) => Some(m@),
        None => None,
    }
}

impl DepthaiError {
    /// Error carrying `msg`.
    pub fn new(msg: &str) -> (r: DepthaiError)
        ensures
            r@ == msg@,
    {
        DepthaiError(String::from_str(msg))
    }

    /// Error carrying an owned message.
    pub(crate) fn from_string(msg: String) -> (r: DepthaiError)
        ensures
            r@ == msg@,
    {
        DepthaiError(msg)
    }

    /// The message of this error.
    pub fn to_string(&self) -> (r: String)
        ensures
            r@ == self@,
    {
        self.0.clone()
    }
}

/// Error for an operation that is known to have failed: the pending message of
/// the native layer if there is a non-empty one, else `context`.
pub fn last_error(context: &str, pending: Option<String>) -> (r: DepthaiError)
    ensures
        r@ == reported_message(context@, pending_text(pending)),
{
    match pending {
        Some(msg) => {
            if !msg.as_str().is_empty() {
                DepthaiError::from_string(msg)
            } else {
                DepthaiError::new(context)
            }
        },
        None => DepthaiError::new(context),
    }
}

/// Error for an operation whose outcome is known only from the native layer:
/// `None` when no message is pending, otherwise the pending message, or
/// `context` when that message is empty.
pub fn take_error_if_any(context: &str, pending: Option<String>) -> (r: Option<DepthaiError>)
    ensures
        r is Some <==> pending is Some,
        r matches Some(e) ==> e@ == reported_message(context@, pending_text(pending)),
{
    match pending {
        Some(msg) => Some(last_error(context, Some(msg))),
        None => None,
    }
}

/// Error of setting up a pipeline node on the host side.
#[derive(Debug)]
pub enum DaiError {
    /// The node's settings cannot be used; the text says why.
    InvalidConfiguration(String),
    /// The node was configured before.
    AlreadyInitialized,
    /// A file the node needs does not exist; the text names it.
    FileNotFound(String),
}

/// Outcome of a host-side node operation.
pub type DaiResult<T> = core::result::Result<T, DaiError>;

/// Outcome of an operation of the native layer.
pub type Result<T> = core::result::Result<T, DepthaiError>;

} // verus!
