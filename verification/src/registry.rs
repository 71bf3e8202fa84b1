//! Write-once storage for the path of the executable under test.
//!
//! The registry is a single-assignment cell: the harness stores the path
//! exactly once at startup, and every later read returns that same path.
//! Reading before the write, or writing a second time, is a harness bug and
//! is reported as a distinguished configuration error, never as an empty or
//! default path.

use vstd::prelude::*;

verus! {

/// A misuse of the registry protocol: these indicate a bug in the calling
/// harness, not a transient condition.
#[derive(Clone, Copy, Debug, PartialEq, Eq)]
pub enum ConfigError {
    /// `get_runtime_path` was called before any `set_runtime_path`.
    RuntimePathNotSet,
    /// `set_runtime_path` was called a second time.
    RuntimePathAlreadySet,
}

/// The write-once cell holding the runtime path.
pub struct RuntimeRegistry {
    path: Option<String>,
}

impl RuntimeRegistry {
    /// The stored path, if one was stored.
    pub closed spec fn path_spec(&self) -> Option<Seq<char>> {
        match self.path {
            Some(p) => Some(p@),
            None => None,
        }
    }

    /// Whether the single write has happened.
    pub open spec fn is_set(&self) -> bool {
        self.path_spec() is Some
    }

    /// A fresh registry with no path stored yet.
    pub fn new() -> (r: Self)
        ensures
            !r.is_set(),
    {
        RuntimeRegistry { path: None }
    }

    /// Stores `path`. Succeeds exactly when nothing was stored before; a
    /// second write changes nothing and reports the write-once violation.
    pub fn set_runtime_path(&mut self, path: &str) -> (r: Result<(), ConfigError>)
        ensures
            r is Ok <==> !old(self).is_set(),
            !old(self).is_set() ==> final(self).path_spec() == Some(path@),
            old(self).is_set() ==> *final(self) == *old(self) && r == Err::<(), ConfigError>(
                ConfigError::RuntimePathAlreadySet,
            ),
    {
        match self.path {
            Some(_) => Err(ConfigError::RuntimePathAlreadySet),
            None => {
                self.path = Some(path.to_owned());
                Ok(())
            },
        }
    }

    /// Returns the stored path. Succeeds exactly when the write has
    /// happened, and returns the stored path unchanged.
    pub fn get_runtime_path(&self) -> (r: Result<&String, ConfigError>)
        ensures
            match r {
                Ok(p) => self.is_set() && Some(p@) == self.path_spec(),
                Err(e) => !self.is_set() && e == ConfigError::RuntimePathNotSet,
            },
    {
        match &self.path {
            Some(p) => Ok(p),
            None => Err(ConfigError::RuntimePathNotSet),
        }
    }
}

} // verus!
