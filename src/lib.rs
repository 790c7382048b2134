//! Validation and preparation logic for a single-request code execution broker:
//! entropy payloads for the kernel pool, clock arguments, workspace staging and
//! language routing. The side effects themselves are performed by the caller.

pub mod entropy;
pub mod clock;
pub mod request;
pub mod plan;
pub mod outcome;
