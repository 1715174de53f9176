use vstd::prelude::*;

verus! {

/// The failure classes that the runtime distinguishes.
#[derive(Clone, Copy, Debug, PartialEq, Eq, Structural)]
pub enum ErrorKind {
    /// No adapter satisfies the selection constraints.
    DeviceSelection,
    /// A mandatory device capability is not reported as supported.
    FeatureUnsupported,
    /// No memory type satisfies the requested properties.
    MemoryTypeNotFound,
    /// Acquire or present reported a suboptimal or out-of-date swapchain.
    SwapchainStale,
    /// Any other failure of a driver call, or an invalid request.
    GenericGpu,
}

/// An error with its class and a human readable message.
#[derive(Debug)]
pub struct Error {
    kind: ErrorKind,
    message: String,
}

impl Error {
    pub closed spec fn spec_kind(&self) -> ErrorKind {
        self.kind
    }

    pub closed spec fn spec_message(&self) -> Seq<char> {
        self.message@
    }

    pub fn new(kind: ErrorKind, message: &str) -> (r: Error)
        ensures
            r.spec_kind() == kind,
            r.spec_message() == message@,
    {
        Error { kind, message: message.to_owned() }
    }

    pub fn kind(&self) -> (r: ErrorKind)
        ensures
            r == self.spec_kind(),
    {
        self.kind
    }

    pub fn message(&self) -> (r: &String)
        ensures
            r@ == self.spec_message(),
    {
        &self.message
    }
}

} // verus!
