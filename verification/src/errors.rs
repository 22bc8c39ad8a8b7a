use vstd::prelude::*;

verus! {

/// The failure kinds of the fetch-and-persist flow.
///
/// `ConfigMissing` is fatal and raised before any request is issued;
/// `NetworkError` and `DecodeError` are fatal for the address-list call and
/// non-fatal for a per-hash detail call; `FilesystemError` covers directory
/// creation and file I/O failures during setup.
#[derive(Clone, Copy, Debug, PartialEq, Eq, Structural)]
pub enum FlowError {
    ConfigMissing,
    NetworkError,
    DecodeError,
    FilesystemError,
}

/// The diagnostic text for each failure kind.
pub open spec fn describe_spec(e: FlowError) -> Seq<char> {
    match e {
        FlowError::ConfigMissing => "required environment variable not set"@,
        FlowError::NetworkError => "network request failed"@,
        FlowError::DecodeError => "JSON was not well-formatted"@,
        FlowError::FilesystemError => "file system operation failed"@,
    }
}

impl FlowError {
    /// A one-line diagnostic message for this error.
    pub fn describe(&self) -> (r: String)
        ensures
            r@ == describe_spec(*self),
    {
        match self {
            FlowError::ConfigMissing => "required environment variable not set".to_owned(),
            FlowError::NetworkError => "network request failed".to_owned(),
            FlowError::DecodeError => "JSON was not well-formatted".to_owned(),
            FlowError::FilesystemError => "file system operation failed".to_owned(),
        }
    }
}

} // verus!
