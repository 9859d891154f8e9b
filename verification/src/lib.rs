//! Platform-neutral core of a webview control binding.
//!
//! A webview control wraps a native web engine behind a toolkit-independent
//! interface.  The engine calls back into the host through a fixed-signature
//! trampoline, and the host exposes named commands that embedded content can
//! invoke.  This crate verifies the bridging protocol those callbacks rest on:
//! the handle registry that recovers the owning control from a native handle,
//! the command dispatcher with its lifecycle-bound closure store, the
//! translation of native status codes, and the bookkeeping that keeps every
//! string handed to the native side free of embedded null bytes.

pub mod deferred;
pub mod engine;
pub mod error;
pub mod laws;
pub mod layout;
pub mod registry;
pub mod seq_util;
pub mod text;
pub mod trampoline;

pub use deferred::NavState;
pub use engine::{
    CommandResponse, DispatchOutcome, NativeCall, Webview, WebviewBindContext, WebviewCallback,
    WebviewEngine, WebviewExt,
};
pub use error::WebviewError;
pub use layout::{ControlLayout, Margins, SizeRule, Visibility};
pub use registry::{ClassRegistration, HandleRegistry};
pub use trampoline::{deliver, DeliverOutcome, NativeEvent};
