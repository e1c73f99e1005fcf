pub mod manifests;
pub mod platform;
pub mod reference;
pub mod retry;
