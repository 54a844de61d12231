//! Failure bridging between a host program and an embedded script engine.
//!
//! The engine reports failures as tagged return values together with a
//! pending-exception slot; the host reports them as `Result` values and, for
//! defects, as panics. This crate holds the rules that reconcile the two:
//! the error taxonomy and its rendering, the choice of the native exception
//! that stands for a host error, and the hand-over of a panic payload across
//! the engine's call frames.
//!
//! Everything here computes on plain values. The embedding performs the
//! engine calls and the unwinding that these rules ask for.

pub mod cause;
pub mod decimal;
pub mod error;
pub mod ferry;
pub mod format;
pub mod kind;
pub mod strings;
pub mod throw;
pub mod value;

pub use cause::{CStrCause, FromUtf8Cause, IoCause, NulCause, Utf8Cause};
pub use error::{Error, ErrorView, Result, Text};
pub use ferry::{Caught, PanicSlot};
pub use kind::Type;
pub use throw::{throw_message_set, Throw, ThrowKind, ThrowView};
pub use value::{JsValue, JS_TAG_EXCEPTION};
