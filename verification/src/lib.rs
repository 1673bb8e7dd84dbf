//! Decision logic shared by the SafeMesh Python and WebAssembly bindings.
pub mod ordered;
pub mod text;
pub mod wire;
pub mod wasm;
pub mod python;
pub mod version;
pub mod allocation;
pub mod identity;
pub mod record;
pub mod readings;
pub mod registry;
pub mod envelope;
pub mod managed;
