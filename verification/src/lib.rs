//! A bridge that carries log calls made inside an embedded Java runtime to the
//! structured logging of the native host process.
//!
//! The runtime-side logger calls one native method with a severity code and a
//! message. This crate holds the rules of that bridge: how a severity code
//! becomes a [`Severity`], what one incoming call emits, how the native method
//! is bound to its class, and how the build step that packages the runtime-side
//! companion archive proceeds and picks its artifact.

pub mod severity;
pub mod runtime_text;
pub mod dispatch;
pub mod jvm;
pub mod registrar;
pub mod artifact;
pub mod packager;

pub use crate::dispatch::{dispatch, dispatch_bytes, receive_log_call, LogRecord};
pub use crate::jvm::Runtime;
pub use crate::registrar::{register_log_fn, BridgeError, NativeMethodDescriptor};
pub use crate::severity::Severity;
