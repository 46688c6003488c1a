use vstd::prelude::*;
use vstd::string::StringExecFns;

verus! {

/// The categories of failure the renderer surfaces.
#[derive(Clone, Copy, Debug, PartialEq, Eq, Structural)]
pub enum ErrorKind {
    /// The driver rejected the creation of a device-side object; fatal at
    /// startup.
    ResourceCreationFailure,
    /// An operation was invoked in a state that does not allow it: a recorder
    /// used while closed, a frame index out of range, a command allocator
    /// reused while its commands may still be executing.
    StateViolation,
    /// Signalling the fence or waiting on its event failed; the CPU/GPU
    /// synchronization state can no longer be trusted.
    SyncFailure,
    /// Presenting a finished frame failed.
    PresentFailure,
}

/// An error carrying its category, a human-readable message and, where an OS
/// wait reported one, the OS status code.
#[derive(Debug)]
pub struct Dx12Error {
    kind: ErrorKind,
    message: String,
    code: Option<u32>,
}

impl Dx12Error {
    /// The category of this error.
    pub closed spec fn kind_spec(&self) -> ErrorKind {
        self.kind
    }

    /// The message text of this error.
    pub closed spec fn message_spec(&self) -> Seq<char> {
        self.message@
    }

    /// The OS status code attached to this error, if any.
    pub closed spec fn code_spec(&self) -> Option<u32> {
        self.code
    }

    /// Wraps a message from a failed creation call.
    pub fn new(message: &str) -> (r: Dx12Error)
        ensures
            r.kind_spec() == ErrorKind::ResourceCreationFailure,
            r.message_spec() == message@,
            r.code_spec() is None,
    {
        Dx12Error {
            kind: ErrorKind::ResourceCreationFailure,
            message: String::from_str(message),
            code: None,
        }
    }

    /// An operation was used in a state that does not allow it.
    pub fn state_violation(message: &str) -> (r: Dx12Error)
        ensures
            r.kind_spec() == ErrorKind::StateViolation,
            r.message_spec() == message@,
            r.code_spec() is None,
    {
        Dx12Error {
            kind: ErrorKind::StateViolation,
            message: String::from_str(message),
            code: None,
        }
    }

    /// Fence signalling or waiting failed.
    pub fn sync_failure(message: &str) -> (r: Dx12Error)
        ensures
            r.kind_spec() == ErrorKind::SyncFailure,
            r.message_spec() == message@,
            r.code_spec() is None,
    {
        Dx12Error {
            kind: ErrorKind::SyncFailure,
            message: String::from_str(message),
            code: None,
        }
    }

    /// Fence waiting failed with an OS status code.
    pub fn sync_failure_with_code(message: &str, code: u32) -> (r: Dx12Error)
        ensures
            r.kind_spec() == ErrorKind::SyncFailure,
            r.message_spec() == message@,
            r.code_spec() == Some(code),
    {
        Dx12Error {
            kind: ErrorKind::SyncFailure,
            message: String::from_str(message),
            code: Some(code),
        }
    }

    /// Presenting a finished frame failed.
    pub fn present_failure(message: &str) -> (r: Dx12Error)
        ensures
            r.kind_spec() == ErrorKind::PresentFailure,
            r.message_spec() == message@,
            r.code_spec() is None,
    {
        Dx12Error {
            kind: ErrorKind::PresentFailure,
            message: String::from_str(message),
            code: None,
        }
    }

    /// The category of this error.
    pub fn kind(&self) -> (k: ErrorKind)
        ensures
            k == self.kind_spec(),
    {
        self.kind
    }

    /// The message text of this error.
    pub fn get_message(&self) -> (r: &str)
        ensures
            r@ == self.message_spec(),
    {
        self.message.as_str()
    }

    /// The OS status code attached to this error, if any.
    pub fn code(&self) -> (c: Option<u32>)
        ensures
            c == self.code_spec(),
    {
        self.code
    }
}

} // verus!
