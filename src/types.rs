use vstd::prelude::*;

verus! {

/// An authenticated identity (a user, a provider, a patient).
#[derive(Clone, Copy, Debug, PartialEq, Eq, Structural, Hash)]
pub struct Address {
    pub id: u64,
}

impl Address {
    pub fn from_id(id: u64) -> (r: Address)
        ensures
            r.id == id,
    {
        Address { id }
    }
}

/// Level of access a patient shares with a third party, ordered
/// `NoAccess < Read < Write < Full`.
#[derive(Clone, Copy, Debug, PartialEq, Eq, Structural)]
pub enum AccessLevel {
    NoAccess,
    Read,
    Write,
    Full,
}

/// Kind of a vision record.
#[derive(Clone, Copy, Debug, PartialEq, Eq, Structural)]
pub enum RecordType {
    Examination,
    Prescription,
    Diagnosis,
    Treatment,
    Surgery,
    LabResult,
}

/// Typed failures of the entry points.
#[derive(Clone, Copy, Debug, PartialEq, Eq, Structural)]
pub enum ContractError {
    NotInitialized,
    AlreadyInitialized,
    Unauthorized,
    UserNotFound,
    RecordNotFound,
    InvalidInput,
    AccessDenied,
    Paused,
    VersionNotFound,
}

} // verus!
