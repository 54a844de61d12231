//! The error taxonomy: every failure that a host caller can observe.

use crate::cause::{
    CStrCause, FromUtf8Cause, IoCause, NulCause, NulCauseView, Utf8Cause,
    Utf8CauseView,
};
use crate::kind::Type;
use std::ops::Range;
use vstd::prelude::*;
use vstd::std_specs::convert::FromSpecImpl;
use vstd::string::*;

verus! {

/// Result type used throughout the library.
pub type Result<T> = std::result::Result<T, Error>;

/// Error type of the library.
#[derive(Debug)]
#[non_exhaustive]
pub enum Error {
    /// Could not allocate memory.
    /// This is generally only triggered when out of memory.
    Allocation,
    /// A module defined two exported values with the same name.
    DuplicateExports,
    /// Found a string with an internal null byte while converting to a C
    /// string.
    InvalidString(NulCause),
    /// Found a byte buffer that is no terminated C string.
    InvalidCStr(CStrCause),
    /// A string from the engine was not UTF-8.
    Utf8(Utf8Cause),
    /// An I/O error.
    Io(IoCause),
    /// An exception raised by the engine itself. The value of the exception
    /// stays pending in the context and is fetched from there.
    ///
    /// When returned from a callback, the script continues to unwind with the
    /// pending exception.
    Exception,
    /// Error converting from an engine value to a host type.
    FromJs { from: &'static str, to: &'static str, message: Option<String> },
    /// Error converting from a host type to an engine value.
    IntoJs { from: &'static str, to: &'static str, message: Option<String> },
    /// A function was called with a number of arguments that it does not
    /// take. An `expected.end` of `usize::MAX` stands for "no upper bound".
    NumArgs { expected: Range<usize>, given: usize },
    /// Error when resolving a script module.
    Resolving { base: String, name: String, message: Option<String> },
    /// Error when loading a script module.
    Loading { name: String, message: Option<String> },
    /// An object captured under one runtime was restored in another.
    UnrelatedRuntime,
    /// An error from the engine of which the specifics are unknown.
    Unknown,
}

/// The mathematical content of an [`Error`].
pub enum ErrorView {
    Allocation,
    DuplicateExports,
    InvalidString(NulCauseView),
    InvalidCStr(Seq<char>),
    Utf8(Utf8CauseView),
    Io(Seq<char>),
    Exception,
    FromJs { from: Seq<char>, to: Seq<char>, message: Option<Seq<char>> },
    IntoJs { from: Seq<char>, to: Seq<char>, message: Option<Seq<char>> },
    /// `most` is `None` where the number of arguments has no upper bound.
    NumArgs { least: nat, most: Option<nat>, given: nat },
    Resolving { base: Seq<char>, name: Seq<char>, message: Option<Seq<char>> },
    Loading { name: Seq<char>, message: Option<Seq<char>> },
    UnrelatedRuntime,
    Unknown,
}

/// The content of an optional message.
pub open spec fn message_view(message: Option<String>) -> Option<Seq<char>> {
    match message {
        Some(m) => Some(m@),
        None => None,
    }
}

/// The upper bound that the end of an expected range stands for.
pub open spec fn most_view(end: usize) -> Option<nat> {
    if end < usize::MAX {
        Some(end as nat)
    } else {
        None
    }
}

impl View for Error {
    type V = ErrorView;

    open spec fn view(&self) -> ErrorView {
        match *self {
            Error::Allocation => ErrorView::Allocation,
            Error::DuplicateExports => ErrorView::DuplicateExports,
            Error::InvalidString(cause) => ErrorView::InvalidString(cause@),
            Error::InvalidCStr(cause) => ErrorView::InvalidCStr(cause@),
            Error::Utf8(cause) => ErrorView::Utf8(cause@),
            Error::Io(cause) => ErrorView::Io(cause@),
            Error::Exception => ErrorView::Exception,
            Error::FromJs { from, to, message } => ErrorView::FromJs {
                from: from@,
                to: to@,
                message: message_view(message),
            },
            Error::IntoJs { from, to, message } => ErrorView::IntoJs {
                from: from@,
                to: to@,
                message: message_view(message),
            },
            Error::NumArgs { expected, given } => ErrorView::NumArgs {
                least: expected.start as nat,
                most: most_view(expected.end),
                given: given as nat,
            },
            Error::Resolving { base, name, message } => ErrorView::Resolving {
                base: base@,
                name: name@,
                message: message_view(message),
            },
            Error::Loading { name, message } => ErrorView::Loading {
                name: name@,
                message: message_view(message),
            },
            Error::UnrelatedRuntime => ErrorView::UnrelatedRuntime,
            Error::Unknown => ErrorView::Unknown,
        }
    }
}

/// Text that a constructor takes: a string slice, an owned string, or a
/// reference to one.
pub trait Text: Sized {
    /// The characters of the text.
    spec fn chars(self) -> Seq<char>;

    /// The text as an owned string.
    fn into_string(self) -> (owned: String)
        ensures
            owned@ == self.chars(),
    ;
}

impl<'a> Text for &'a str {
    open spec fn chars(self) -> Seq<char> {
        self@
    }

    fn into_string(self) -> (owned: String) {
        String::from_str(self)
    }
}

impl Text for String {
    open spec fn chars(self) -> Seq<char> {
        self@
    }

    fn into_string(self) -> (owned: String) {
        self
    }
}

impl<'a> Text for &'a String {
    open spec fn chars(self) -> Seq<char> {
        self@
    }

    fn into_string(self) -> (owned: String) {
        self.clone()
    }
}

impl ErrorView {
    /// True when the bounds of an argument-count error are in order. Every
    /// other error is well formed as it stands.
    pub open spec fn well_formed(self) -> bool {
        match self {
            ErrorView::NumArgs { least, most: Some(most), .. } => least <= most,
            _ => true,
        }
    }
}

impl Error {
    /// Create resolving error
    pub fn new_resolving<B: Text, N: Text>(base: B, name: N) -> (error: Self)
        ensures
            error@ == (ErrorView::Resolving {
                base: base.chars(),
                name: name.chars(),
                message: None,
            }),
    {
        Error::Resolving { base: base.into_string(), name: name.into_string(), message: None }
    }

    /// Create resolving error with message
    pub fn new_resolving_message<B: Text, N: Text, M: Text>(base: B, name: N, msg: M) -> (error:
        Self)
        ensures
            error@ == (ErrorView::Resolving {
                base: base.chars(),
                name: name.chars(),
                message: Some(msg.chars()),
            }),
    {
        Error::Resolving {
            base: base.into_string(),
            name: name.into_string(),
            message: Some(msg.into_string()),
        }
    }

    /// Returns whether the error is a resolving error
    pub fn is_resolving(&self) -> (yes: bool)
        ensures
            yes == (self@ is Resolving),
    {
        matches!(self, Error::Resolving { .. })
    }

    /// Create loading error
    pub fn new_loading<N: Text>(name: N) -> (error: Self)
        ensures
            error@ == (ErrorView::Loading { name: name.chars(), message: None }),
    {
        Error::Loading { name: name.into_string(), message: None }
    }

    /// Create loading error with message
    pub fn new_loading_message<N: Text, M: Text>(name: N, msg: M) -> (error: Self)
        ensures
            error@ == (ErrorView::Loading { name: name.chars(), message: Some(msg.chars()) }),
    {
        Error::Loading { name: name.into_string(), message: Some(msg.into_string()) }
    }

    /// Returns whether the error is a loading error
    pub fn is_loading(&self) -> (yes: bool)
        ensures
            yes == (self@ is Loading),
    {
        matches!(self, Error::Loading { .. })
    }

    /// Returns whether the error is an exception that the engine raised.
    pub fn is_exception(&self) -> (yes: bool)
        ensures
            yes == (self@ is Exception),
    {
        matches!(self, Error::Exception)
    }

    /// Create from JS conversion error
    pub fn new_from_js(from: &'static str, to: &'static str) -> (error: Self)
        ensures
            error == (Error::FromJs { from, to, message: None }),
            error@ == (ErrorView::FromJs { from: from@, to: to@, message: None }),
    {
        Error::FromJs { from, to, message: None }
    }

    /// Create from JS conversion error with message
    pub fn new_from_js_message<M: Text>(from: &'static str, to: &'static str, msg: M) -> (error:
        Self)
        ensures
            error@ == (ErrorView::FromJs { from: from@, to: to@, message: Some(msg.chars()) }),
    {
        Error::FromJs { from, to, message: Some(msg.into_string()) }
    }

    /// Create into JS conversion error
    pub fn new_into_js(from: &'static str, to: &'static str) -> (error: Self)
        ensures
            error == (Error::IntoJs { from, to, message: None }),
            error@ == (ErrorView::IntoJs { from: from@, to: to@, message: None }),
    {
        Error::IntoJs { from, to, message: None }
    }

    /// Create into JS conversion error with message
    pub fn new_into_js_message<M: Text>(from: &'static str, to: &'static str, msg: M) -> (error:
        Self)
        ensures
            error@ == (ErrorView::IntoJs { from: from@, to: to@, message: Some(msg.chars()) }),
    {
        Error::IntoJs { from, to, message: Some(msg.into_string()) }
    }

    /// Returns whether the error is a from JS conversion error
    pub fn is_from_js(&self) -> (yes: bool)
        ensures
            yes == (self@ is FromJs),
    {
        matches!(self, Self::FromJs { .. })
    }

    /// Returns whether the error is a from JS to JS type conversion error:
    /// a conversion from an engine value whose target label names a kind of
    /// engine value.
    pub fn is_from_js_to_js(&self) -> (yes: bool)
        ensures
            yes == (self@ matches ErrorView::FromJs { to, .. } && Type::named(to) is Some),
    {
        match self {
            Self::FromJs { to, .. } => Type::from_str(to).is_ok(),
            _ => false,
        }
    }

    /// Returns whether the error is an into JS conversion error
    pub fn is_into_js(&self) -> (yes: bool)
        ensures
            yes == (self@ is IntoJs),
    {
        matches!(self, Self::IntoJs { .. })
    }

    /// Create function args mismatch error
    pub fn new_num_args(expected: Range<usize>, given: usize) -> (error: Self)
        ensures
            error == (Error::NumArgs { expected, given }),
            error@ == (ErrorView::NumArgs {
                least: expected.start as nat,
                most: most_view(expected.end),
                given: given as nat,
            }),
            error@.well_formed() == (expected.start <= expected.end),
    {
        Self::NumArgs { expected, given }
    }

    /// Return whether the error is a function args mismatch error
    pub fn is_num_args(&self) -> (yes: bool)
        ensures
            yes == (self@ is NumArgs),
    {
        matches!(self, Self::NumArgs { .. })
    }
}

impl From<NulCause> for Error {
    fn from(error: NulCause) -> (converted: Error) {
        Error::InvalidString(error)
    }
}

impl FromSpecImpl<NulCause> for Error {
    open spec fn obeys_from_spec() -> bool {
        true
    }

    open spec fn from_spec(error: NulCause) -> Error {
        Error::InvalidString(error)
    }
}

impl From<CStrCause> for Error {
    fn from(error: CStrCause) -> (converted: Error) {
        Error::InvalidCStr(error)
    }
}

impl FromSpecImpl<CStrCause> for Error {
    open spec fn obeys_from_spec() -> bool {
        true
    }

    open spec fn from_spec(error: CStrCause) -> Error {
        Error::InvalidCStr(error)
    }
}

impl From<Utf8Cause> for Error {
    fn from(error: Utf8Cause) -> (converted: Error) {
        Error::Utf8(error)
    }
}

impl FromSpecImpl<Utf8Cause> for Error {
    open spec fn obeys_from_spec() -> bool {
        true
    }

    open spec fn from_spec(error: Utf8Cause) -> Error {
        Error::Utf8(error)
    }
}

impl From<IoCause> for Error {
    fn from(error: IoCause) -> (converted: Error) {
        Error::Io(error)
    }
}

impl FromSpecImpl<IoCause> for Error {
    open spec fn obeys_from_spec() -> bool {
        true
    }

    open spec fn from_spec(error: IoCause) -> Error {
        Error::Io(error)
    }
}

/// The bytes that were offered are dropped; the cause is kept.
impl From<FromUtf8Cause> for Error {
    fn from(error: FromUtf8Cause) -> (converted: Error) {
        Error::Utf8(error.cause)
    }
}

impl FromSpecImpl<FromUtf8Cause> for Error {
    open spec fn obeys_from_spec() -> bool {
        true
    }

    open spec fn from_spec(error: FromUtf8Cause) -> Error {
        Error::Utf8(error.cause)
    }
}

} // verus!
