//! Authorization policy engine: glob patterns are compiled into matchers,
//! a policy is evaluated against a request into a tri-state result, and the
//! results of all policies linked to a principal are folded into one verdict
//! in which a denial overrides everything else.

pub mod compiler;
pub mod err;
pub mod identity;
pub mod policy;
pub mod utils;
