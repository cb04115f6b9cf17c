//! Platform-specific scanner backends. Each backend answers the same two
//! questions under the same contract; only the resolution mechanism
//! differs. Hosts without a working backend still expose the contract and
//! fail every call explicitly.

pub mod linux;
pub mod macos;
pub mod windows;
