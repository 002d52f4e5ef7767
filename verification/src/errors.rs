use vstd::prelude::*;
use vstd::string::StringExecFns;

verus! {

/// The ways package generation can fail.
///
/// `TargetNotEmpty` carries the offending target path, `VcsInitFailed` and
/// `IoError` carry a description of the underlying failure supplied by the
/// caller, and `MalformedManifest` marks a manifest without an insertion
/// point (a defensive case: the rendered skeleton always has one).
#[derive(Debug)]
pub enum GenError {
    TargetNotEmpty(String),
    VcsInitFailed(String),
    IoError(String),
    MalformedManifest,
}

impl GenError {
    /// The characters of the human-readable description of this error.
    pub open spec fn message_spec(&self) -> Seq<char> {
        match self {
            GenError::TargetNotEmpty(p) => p@ + " is not empty"@,
            GenError::VcsInitFailed(c) => "failed to initialize repository: "@ + c@,
            GenError::IoError(m) => m@,
            GenError::MalformedManifest => "manifest has no insertion point"@,
        }
    }

    /// A human-readable description of this error.
    pub fn message(&self) -> (r: String)
        ensures
            r@ == self.message_spec(),
    {
        match self {
            GenError::TargetNotEmpty(p) => {
                let mut s = p.clone();
                s.append(" is not empty");
                s
            },
            GenError::VcsInitFailed(c) => {
                let mut s = String::from_str("failed to initialize repository: ");
                s.append(c.as_str());
                s
            },
            GenError::IoError(m) => m.clone(),
            GenError::MalformedManifest => String::from_str("manifest has no insertion point"),
        }
    }
}

} // verus!
