//! The messages that travel over the command and result buses.
use vstd::prelude::*;
use crate::model::ShortKContainer;

verus! {

/// The kinds of failure that the worker can report.
#[derive(Clone, Copy, Debug, PartialEq, Eq, Structural)]
pub enum ErrorKind {
    /// A cluster client or session could not be constructed.
    ConnectionError,
    /// A resource was not found, was malformed, or an API call failed.
    LookupError,
    /// Log or tunnel I/O failed.
    StreamError,
    /// The local listener of a tunnel could not be bound.
    BindError,
}

/// A failure with its kind and a message for the consumer.
#[derive(Debug)]
pub struct ApiError {
    pub kind: ErrorKind,
    pub message: String,
}

impl ApiError {
    pub fn new(kind: ErrorKind, message: &str) -> (r: Self)
        ensures
            r.kind == kind,
            r.message@ == message@,
    {
        ApiError { kind, message: String::from_str(message) }
    }
}

/// A command from the consumer to the session worker.
#[derive(Debug)]
pub enum ApiCommand {
    /// Build a cluster client from the credential profile at this path.
    ReloadClientWithConfig(String),
    /// Build resource handles scoped to this namespace.
    ReloadApisWithNameSpace(String),
    /// List the workloads whose id starts with this prefix.
    PullPodsWithPrefix(String),
    /// Fetch the recent log lines of this workload.
    PullLogsForPodName(String),
    /// Open a tunnel to this workload's port.
    PortForwardForPodNamePort(String, u16),
}

/// A result from the session worker to the consumer.
#[derive(Debug)]
pub enum UIData {
    Pods(Vec<ShortKContainer>),
    Logs(Vec<String>),
    Error(ApiError),
}

/// Anything that travels over a bus.
#[derive(Debug)]
pub enum ThreadMessage {
    Api(ApiCommand),
    Data(UIData),
}

} // verus!
