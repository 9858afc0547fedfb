use vstd::prelude::*;
use vstd::string::StringExecFns;

verus! {

/// Discriminated error taxonomy returned by every ABI-facing operation of
/// the core. The message is informational; the variant tells a caller
/// whether the request, the host interface, or the sandbox engine failed.
#[derive(Debug)]
pub enum ABIError {
    /// generic runtime failure: a malformed request or a host-interface refusal
    Error(String),
    /// the sandbox engine trapped while executing guest code
    RuntimeError(String),
    /// the sandbox engine rejected the bytecode at compile time
    CompileError(String),
    /// the sandbox engine could not instantiate the compiled module
    InstantiationError(String),
    /// a request or response payload could not be encoded or decoded
    SerdeError(String),
}

/// The variant of an [`ABIError`], with the message stripped.
#[derive(Clone, Copy, PartialEq, Eq, Structural, Debug)]
pub enum ErrorKind {
    Error,
    RuntimeError,
    CompileError,
    InstantiationError,
    SerdeError,
}

/// Result of an ABI-facing operation of the core.
pub type ABIResult<T> = Result<T, ABIError>;

/// Failure reported by a sandbox engine while driving a compiled module.
#[derive(Debug)]
pub enum EngineError {
    /// guest code faulted or exhausted its resource budget
    Trap(String),
    /// the compiled module could not be instantiated
    Instantiation(String),
}

impl ABIError {
    /// The kind of this error.
    pub open spec fn kind_spec(&self) -> ErrorKind {
        match self {
            ABIError::Error(_) => ErrorKind::Error,
            ABIError::RuntimeError(_) => ErrorKind::RuntimeError,
            ABIError::CompileError(_) => ErrorKind::CompileError,
            ABIError::InstantiationError(_) => ErrorKind::InstantiationError,
            ABIError::SerdeError(_) => ErrorKind::SerdeError,
        }
    }

    /// The message this error carries.
    pub open spec fn message_spec(&self) -> Seq<char> {
        match self {
            ABIError::Error(m) => m@,
            ABIError::RuntimeError(m) => m@,
            ABIError::CompileError(m) => m@,
            ABIError::InstantiationError(m) => m@,
            ABIError::SerdeError(m) => m@,
        }
    }

    /// Report which variant this error is.
    pub fn kind(&self) -> (k: ErrorKind)
        ensures
            k == self.kind_spec(),
    {
        match self {
            ABIError::Error(_) => ErrorKind::Error,
            ABIError::RuntimeError(_) => ErrorKind::RuntimeError,
            ABIError::CompileError(_) => ErrorKind::CompileError,
            ABIError::InstantiationError(_) => ErrorKind::InstantiationError,
            ABIError::SerdeError(_) => ErrorKind::SerdeError,
        }
    }

    /// What [`Self::describe`] returns: a fixed prefix naming the variant,
    /// followed by the carried message.
    pub open spec fn describe_spec(&self) -> Seq<char> {
        match self {
            ABIError::Error(m) => "Runtime error: "@ + m@,
            ABIError::RuntimeError(m) => "Sandbox execution error: "@ + m@,
            ABIError::CompileError(m) => "Sandbox compile error: "@ + m@,
            ABIError::InstantiationError(m) => "Sandbox instantiation error: "@ + m@,
            ABIError::SerdeError(m) => "Serialization error: "@ + m@,
        }
    }

    /// Render the error as one line of text.
    pub fn describe(&self) -> (s: String)
        ensures
            s@ == self.describe_spec(),
    {
        match self {
            ABIError::Error(m) => String::from_str("Runtime error: ").concat(m.as_str()),
            ABIError::RuntimeError(m) => String::from_str("Sandbox execution error: ").concat(
                m.as_str(),
            ),
            ABIError::CompileError(m) => String::from_str("Sandbox compile error: ").concat(
                m.as_str(),
            ),
            ABIError::InstantiationError(m) => String::from_str(
                "Sandbox instantiation error: ",
            ).concat(m.as_str()),
            ABIError::SerdeError(m) => String::from_str("Serialization error: ").concat(m.as_str()),
        }
    }
}

impl EngineError {
    /// The message this failure carries.
    pub open spec fn message_spec(&self) -> Seq<char> {
        match self {
            EngineError::Trap(m) => m@,
            EngineError::Instantiation(m) => m@,
        }
    }
}

} // verus!
