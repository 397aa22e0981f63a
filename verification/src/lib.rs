//! Decoding of WebAssembly script test suites into typed test commands,
//! and the settings of the conversions between module text and binary.

pub mod binary;
pub mod bits;
pub mod convert;
pub mod decimal;
pub mod error;
pub mod features;
pub mod json;
pub mod runner;
pub mod script;
pub mod text;

pub use crate::convert::ReadBinaryOptions;
pub use crate::convert::Wasm2Wat;
pub use crate::convert::Wat2Wasm;
pub use crate::error::Error;
pub use crate::error::ErrorKind;
pub use crate::features::Features;
