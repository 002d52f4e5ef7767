use vstd::prelude::*;
use crate::strutil::str_eq;

verus! {

/// The default value of the names option: it stands for "no license
/// requested".
pub open spec fn sentinel_names() -> Seq<char> {
    "<copyright holders>"@
}

/// Whether `names` asks for a license: it must be non-empty and not the
/// sentinel default.
pub open spec fn license_names_ok(names: Seq<char>) -> bool {
    names.len() > 0 && names != sentinel_names()
}

/// The validated command-line configuration handed to the core.
pub struct Args {
    /// Where the new package is created.
    pub path: String,
    /// How talkative the logging collaborator should be.
    pub verbose: u8,
    /// Whether a README is requested.  Giving the flag means a README is
    /// created; leaving it out means none is.
    pub readme: bool,
    /// Copyright holders for an MIT license; the sentinel default means no
    /// license is created.
    pub names: String,
}

impl Args {
    /// Whether a README should be created: exactly when the flag was given.
    pub fn wants_readme(&self) -> (r: bool)
        ensures
            r == self.readme,
    {
        self.readme
    }

    /// Whether a license should be created: exactly when the configured
    /// names are non-empty and differ from the sentinel default.
    pub fn wants_license(&self) -> (r: bool)
        ensures
            r == license_names_ok(self.names@),
    {
        !self.names.as_str().is_empty() && !str_eq(self.names.as_str(), "<copyright holders>")
    }
}

} // verus!
