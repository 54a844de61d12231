//! Reporting a host error to the script: which native exception stands for
//! it, and the steps that make that exception pending in a context.
//!
//! The rules decide; the embedding performs. Each function here answers with
//! a [`Throw`], the next thing to do at the engine, and the embedding comes
//! back with what the engine said where the answer asks for it.

use crate::error::{Error, ErrorView, Result};
use crate::format::{lemma_c_string_terminated_once, terminated_once};
use crate::value::JsValue;
use vstd::prelude::*;
use vstd::string::*;

verus! {

/// The native exception that stands for an error.
#[derive(Clone, Copy, Debug, PartialEq, Eq, Structural)]
pub enum ThrowKind {
    /// The exception that is already pending in the context.
    Pending,
    /// The engine's out-of-memory exception.
    OutOfMemory,
    /// A native type error that carries the description.
    TypeError,
    /// A native reference error that carries the description.
    ReferenceError,
    /// A native internal error that carries the description.
    InternalError,
    /// A plain error object whose `message` property is the description.
    Generic,
}

/// The next thing to do at the engine.
#[derive(Debug, PartialEq, Eq)]
pub enum Throw {
    /// Hand this value back to the engine; nothing else is to be done.
    Return(JsValue),
    /// Have the engine raise its out-of-memory exception, and hand back what
    /// it returns.
    OutOfMemory,
    /// Have the engine raise a type error with this terminated message, and
    /// hand back what it returns.
    TypeError(Vec<u8>),
    /// Have the engine raise a reference error with this terminated message,
    /// and hand back what it returns.
    ReferenceError(Vec<u8>),
    /// Have the engine raise an internal error with this terminated message,
    /// and hand back what it returns.
    InternalError(Vec<u8>),
    /// Have the engine create a plain error object, and come back with it
    /// to [`Error::throw_created`].
    NewError,
    /// Set the property `message` of `object` to `message`, and come back
    /// with the outcome to [`throw_message_set`].
    SetMessage { object: JsValue, message: String },
    /// Have the engine make this value the pending exception, and hand back
    /// what it returns.
    Raise(JsValue),
    /// Stop the program with this message: the engine broke its word.
    Abort(String),
}

/// The mathematical content of a [`Throw`].
pub enum ThrowView {
    Return(JsValue),
    OutOfMemory,
    TypeError(Seq<u8>),
    ReferenceError(Seq<u8>),
    InternalError(Seq<u8>),
    NewError,
    SetMessage { object: JsValue, message: Seq<char> },
    Raise(JsValue),
    Abort(Seq<char>),
}

impl View for Throw {
    type V = ThrowView;

    open spec fn view(&self) -> ThrowView {
        match *self {
            Throw::Return(value) => ThrowView::Return(value),
            Throw::OutOfMemory => ThrowView::OutOfMemory,
            Throw::TypeError(message) => ThrowView::TypeError(message@),
            Throw::ReferenceError(message) => ThrowView::ReferenceError(message@),
            Throw::InternalError(message) => ThrowView::InternalError(message@),
            Throw::NewError => ThrowView::NewError,
            Throw::SetMessage { object, message } => ThrowView::SetMessage {
                object,
                message: message@,
            },
            Throw::Raise(value) => ThrowView::Raise(value),
            Throw::Abort(message) => ThrowView::Abort(message@),
        }
    }
}

/// The outcome of setting a property, as the rules read it.
pub open spec fn outcome_view(outcome: Result<()>) -> std::result::Result<(), ErrorView> {
    match outcome {
        Ok(_) => Ok(()),
        Err(error) => Err(error@),
    }
}

impl ErrorView {
    /// The native exception that stands for the error. An error that the
    /// list does not name becomes a plain error object.
    pub open spec fn throw_kind(self) -> ThrowKind {
        match self {
            ErrorView::Exception => ThrowKind::Pending,
            ErrorView::Allocation => ThrowKind::OutOfMemory,
            ErrorView::InvalidString(_) => ThrowKind::TypeError,
            ErrorView::Utf8(_) => ThrowKind::TypeError,
            ErrorView::FromJs { .. } => ThrowKind::TypeError,
            ErrorView::IntoJs { .. } => ThrowKind::TypeError,
            ErrorView::NumArgs { .. } => ThrowKind::TypeError,
            ErrorView::Resolving { .. } => ThrowKind::ReferenceError,
            ErrorView::Loading { .. } => ThrowKind::ReferenceError,
            ErrorView::Unknown => ThrowKind::InternalError,
            _ => ThrowKind::Generic,
        }
    }

    /// The first step of reporting the error.
    pub open spec fn throw(self) -> ThrowView {
        match self.throw_kind() {
            ThrowKind::Pending => ThrowView::Return(JsValue::exception()),
            ThrowKind::OutOfMemory => ThrowView::OutOfMemory,
            ThrowKind::TypeError => ThrowView::TypeError(self.c_string()),
            ThrowKind::ReferenceError => ThrowView::ReferenceError(self.c_string()),
            ThrowKind::InternalError => ThrowView::InternalError(self.c_string()),
            ThrowKind::Generic => ThrowView::NewError,
        }
    }

    /// The step after the engine was asked for a plain error object and
    /// answered with `created`. Where the answer carries the exception tag
    /// the engine could not allocate, and its answer is handed back as it
    /// is: nothing more is asked of an engine that is out of memory.
    pub open spec fn throw_created(self, created: JsValue) -> ThrowView {
        if created.is_exception() {
            ThrowView::Return(created)
        } else {
            ThrowView::SetMessage { object: created, message: self.text() }
        }
    }
}

/// The text with which the program stops when setting the message failed
/// for a reason of the host's.
pub open spec fn abort_text(error: ErrorView) -> Seq<char> {
    "generated error while throwing error: "@ + error.text()
}

/// The step after the `message` property of `object` was set, with
/// `outcome`. Success raises the object. A pending exception means that the
/// engine raised one of its own meanwhile, and that one is reported. Any
/// other failure cannot come from the engine, and stops the program.
pub open spec fn message_set(
    object: JsValue,
    outcome: std::result::Result<(), ErrorView>,
) -> ThrowView {
    match outcome {
        Ok(_) => ThrowView::Raise(object),
        Err(ErrorView::Exception) => ThrowView::Return(JsValue::exception()),
        Err(error) => ThrowView::Abort(abort_text(error)),
    }
}

impl Error {
    /// The native exception that stands for the error.
    pub fn throw_kind(&self) -> (kind: ThrowKind)
        ensures
            kind == self@.throw_kind(),
    {
        match self {
            Error::Exception => ThrowKind::Pending,
            Error::Allocation => ThrowKind::OutOfMemory,
            Error::InvalidString(_)
            | Error::Utf8(_)
            | Error::FromJs { .. }
            | Error::IntoJs { .. }
            | Error::NumArgs { .. } => ThrowKind::TypeError,
            Error::Resolving { .. } | Error::Loading { .. } => ThrowKind::ReferenceError,
            Error::Unknown => ThrowKind::InternalError,
            _ => ThrowKind::Generic,
        }
    }

    /// Throw an exception: the first step of reporting the error to the
    /// script.
    pub fn throw(&self) -> (step: Throw)
        ensures
            step@ == self@.throw(),
    {
        match self.throw_kind() {
            ThrowKind::Pending => Throw::Return(JsValue::exception()),
            ThrowKind::OutOfMemory => Throw::OutOfMemory,
            ThrowKind::TypeError => Throw::TypeError(self.to_cstring()),
            ThrowKind::ReferenceError => Throw::ReferenceError(self.to_cstring()),
            ThrowKind::InternalError => Throw::InternalError(self.to_cstring()),
            ThrowKind::Generic => Throw::NewError,
        }
    }

    /// The step after the engine answered [`Throw::NewError`] with
    /// `created`.
    pub fn throw_created(&self, created: JsValue) -> (step: Throw)
        ensures
            step@ == self@.throw_created(created),
    {
        if created.is_exception() {
            // allocation failed in the engine: the error cannot be raised
            // properly, so its answer goes back at once
            Throw::Return(created)
        } else {
            Throw::SetMessage { object: created, message: self.to_string() }
        }
    }
}

/// The step after the engine answered [`Throw::SetMessage`] on `object`
/// with `outcome`.
pub fn throw_message_set(object: JsValue, outcome: Result<()>) -> (step: Throw)
    ensures
        step@ == message_set(object, outcome_view(outcome)),
{
    match outcome {
        Ok(_) => Throw::Raise(object),
        Err(Error::Exception) => Throw::Return(JsValue::exception()),
        Err(error) => {
            let mut message = String::from_str("generated error while throwing error: ");
            error.fmt(&mut message);
            Throw::Abort(message)
        },
    }
}

/// The message that goes to one of the engine's error constructors is the
/// terminated description of the error. It holds one terminator, at its
/// end, exactly when the texts that the error carries hold none; so the
/// engine reads the whole description then, and a prefix of it otherwise.
pub proof fn lemma_thrown_message(error: ErrorView)
    ensures
        match error.throw() {
            ThrowView::TypeError(message)
            | ThrowView::ReferenceError(message)
            | ThrowView::InternalError(message) => {
                &&& message == error.c_string()
                &&& terminated_once(message) == error.nul_free()
            },
            _ => true,
        },
{
    lemma_c_string_terminated_once(error);
}

/// Every error is reported in one of two ways: by an exception that the
/// engine builds itself, or by a plain error object whose `message` is the
/// description of the error.
pub proof fn lemma_reported_as_native_or_with_text(error: ErrorView, created: JsValue)
    requires
        !created.is_exception(),
    ensures
        error.throw_kind() != ThrowKind::Generic ==> !(error.throw() is NewError),
        error.throw_kind() == ThrowKind::Generic ==> {
            &&& error.throw() is NewError
            &&& error.throw_created(created) == (ThrowView::SetMessage {
                object: created,
                message: error.text(),
            })
            &&& message_set(created, Ok(())) == ThrowView::Raise(created)
        },
{
}

} // verus!
