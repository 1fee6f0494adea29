//! A bridge between a dynamically typed host and typed WebAssembly functions.
//!
//! The host hands over values whose kind is known only when the program
//! runs; an exported function takes and returns values of fixed kinds. A call
//! through the bridge reads the function's signature, converts each argument
//! to the kind of its parameter, runs the function inside a store, and hands
//! back what it returned.

pub mod error;
pub mod kind;
pub mod marshal;
pub mod runtime;
pub mod value;
pub mod vm;

pub use crate::error::{BridgeError, Side};
pub use crate::kind::{ValueKind, WasmFunctionTy};
pub use crate::runtime::{JSEngine, JSInstance, JSLinker, JSModule, JSStore, WasmFunction};
pub use crate::value::{HostValue, Value};
