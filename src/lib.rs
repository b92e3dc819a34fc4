//! Verified core of a foreign-function layer: the native type vocabulary,
//! value marshalling, the registry of opened libraries, call descriptors and
//! function handles. Loading code and making the native call happen outside
//! this crate; every decision around them is made and proved here.

pub mod call;
pub mod error;
pub mod handle;
pub mod library;
pub mod marshal;
pub mod native_type;
pub mod registry;
