use vstd::prelude::*;
use vstd::string::*;

verus! {

/// The three ways an inventory operation can fail.
#[derive(Debug)]
pub enum FilamentError {
    /// No roll with this id is stored; carries the id that was asked for.
    NotFound(String),
    /// A field or a requested change breaks one of a roll's rules.
    InvalidData(String),
    /// The storage mechanism itself failed.
    RepositoryError(String),
}

/// The human-readable text of an error.
pub open spec fn error_text(e: FilamentError) -> Seq<char> {
    match e {
        FilamentError::NotFound(id) => "Filament with id '"@ + id@ + "' not found"@,
        FilamentError::InvalidData(msg) => "Invalid filament data: "@ + msg@,
        FilamentError::RepositoryError(msg) => "Repository error: "@ + msg@,
    }
}

impl FilamentError {
    /// Renders the error for a person to read.
    pub fn to_string(&self) -> (r: String)
        ensures
            r@ == error_text(*self),
    {
        match self {
            FilamentError::NotFound(id) => {
                let mut s = String::from_str("Filament with id '");
                s.append(id.as_str());
                s.append("' not found");
                s
            },
            FilamentError::InvalidData(msg) => {
                let mut s = String::from_str("Invalid filament data: ");
                s.append(msg.as_str());
                s
            },
            FilamentError::RepositoryError(msg) => {
                let mut s = String::from_str("Repository error: ");
                s.append(msg.as_str());
                s
            },
        }
    }
}

} // verus!
