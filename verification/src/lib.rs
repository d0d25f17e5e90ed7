//! Core data model of the Prexager knowledge base: epistemic tiers, property
//! strictness levels, typed property keys and values, and storage error codes.
pub mod epistemic;
pub mod strictness;
pub mod properties;
pub mod storage_error;
