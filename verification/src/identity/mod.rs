//! Principals: identities and groups, and the verdict over their policies.

pub mod group;
pub mod identity;
pub mod role;
pub mod subject;
