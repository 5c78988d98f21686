//! The persisted records: identities, pools, the platform and governance.
pub mod address;
pub mod pair;
pub mod platform;
pub mod proposal;
