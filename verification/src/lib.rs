//! A session driver for a native SPIR-V cross-compiler, targeting HLSL.
//!
//! The native engine parses SPIR-V and emits source text. This library decides
//! what is handed to it and what its replies mean: it converts options and
//! binding descriptors into flat records, rejects text that cannot cross the
//! boundary, orders the native calls of each operation, and tracks the
//! lifecycle of the session. It performs no native call itself: every
//! operation yields a [`bindings::NativeCall`] for the embedder to perform, and
//! takes the engine's [`bindings::NativeReply`] back.

pub mod bindings;
pub mod error;
pub mod hlsl;
pub mod spirv;
pub mod text;

pub use error::ErrorCode;
