use vstd::prelude::*;

verus! {

/// The failure modes of the mod manager.
///
/// Lookup failures carry the identifier that was not found; filesystem and
/// external-tool failures carry the diagnostic text of the underlying error.
#[derive(Debug, Clone)]
pub enum ModManagerError {
    /// A filesystem operation (copy, remove, read, write) failed.
    Io(String),
    /// No profile with the given identifier exists in the current state.
    ProfileNotFound(u128),
    /// No mod with the given identifier exists in the current state.
    ModNotFound(u128),
    /// The external deployment tool failed; holds its captured output.
    ExternalToolFailure(String),
}

impl ModManagerError {
    /// A short human-readable rendering of the error: lookup failures get a
    /// fixed text, and the carried diagnostic text is handed back verbatim.
    pub fn message(&self) -> (r: String)
        ensures
            match self {
                ModManagerError::Io(s) => r@ == s@,
                ModManagerError::ProfileNotFound(_) => r@ == "could not find profile by uuid"@,
                ModManagerError::ModNotFound(_) => r@ == "could not find mod by uuid"@,
                ModManagerError::ExternalToolFailure(s) => r@ == s@,
            },
    {
        match self {
            ModManagerError::Io(s) => s.clone(),
            ModManagerError::ProfileNotFound(_) => "could not find profile by uuid".to_owned(),
            ModManagerError::ModNotFound(_) => "could not find mod by uuid".to_owned(),
            ModManagerError::ExternalToolFailure(s) => s.clone(),
        }
    }
}

} // verus!
