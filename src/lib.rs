//! Authorization and versioning engine for medical vision records: role-based
//! permissions with overrides and delegation, patient-controlled access grants
//! with expiry, and an append-only version history per record.

pub mod types;
pub mod rbac;
pub mod access;
pub mod versioning;
pub mod contract;

pub use types::{AccessLevel, Address, ContractError, RecordType};
pub use rbac::{Permission, PermissionSet, Role};
pub use access::AccessGrant;
pub use versioning::{RecordComparison, RecordVersion};
pub use contract::{User, VisionRecord, VisionRecordsContract};
