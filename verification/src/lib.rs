//! Kapsule: a minimal OCI container runtime, with its decision logic verified.
pub mod text;
pub mod sys;
pub mod runtime;
pub mod layers;
