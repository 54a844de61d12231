//! What the bridge keeps of a failure that another layer reported.
//!
//! Each record holds the facts that the reporting layer exposes, and the
//! sentence with which that layer describes the failure. The bridge renders
//! the sentence as it is and never composes one of its own.

use vstd::prelude::*;

verus! {

/// A host string held a zero byte and cannot become a native C string.
#[derive(Clone, Debug, PartialEq, Eq)]
pub struct NulCause {
    /// Where the zero byte stands in `bytes`.
    pub position: usize,
    /// The bytes of the rejected string.
    pub bytes: Vec<u8>,
    /// The reporting layer's description.
    pub description: String,
}

/// A native byte buffer was not a properly terminated C string.
#[derive(Clone, Debug, PartialEq, Eq)]
pub struct CStrCause {
    /// The reporting layer's description.
    pub description: String,
}

/// Bytes that came from the engine were not valid UTF-8.
#[derive(Clone, Debug, PartialEq, Eq)]
pub struct Utf8Cause {
    /// The length of the longest valid prefix.
    pub valid_up_to: usize,
    /// The length of the invalid sequence, or `None` where the input ended
    /// in the middle of a character.
    pub error_len: Option<usize>,
    /// The reporting layer's description.
    pub description: String,
}

/// A host I/O operation failed.
#[derive(Clone, Debug, PartialEq, Eq)]
pub struct IoCause {
    /// The reporting layer's description.
    pub description: String,
}

/// A string was being built from bytes that turned out not to be UTF-8.
#[derive(Clone, Debug, PartialEq, Eq)]
pub struct FromUtf8Cause {
    /// The bytes that were offered.
    pub bytes: Vec<u8>,
    /// Why they were refused.
    pub cause: Utf8Cause,
}

pub struct NulCauseView {
    pub position: nat,
    pub bytes: Seq<u8>,
    pub description: Seq<char>,
}

pub struct Utf8CauseView {
    pub valid_up_to: nat,
    pub error_len: Option<nat>,
    pub description: Seq<char>,
}

impl View for NulCause {
    type V = NulCauseView;

    open spec fn view(&self) -> NulCauseView {
        NulCauseView {
            position: self.position as nat,
            bytes: self.bytes@,
            description: self.description@,
        }
    }
}

impl View for CStrCause {
    type V = Seq<char>;

    open spec fn view(&self) -> Seq<char> {
        self.description@
    }
}

impl View for Utf8Cause {
    type V = Utf8CauseView;

    open spec fn view(&self) -> Utf8CauseView {
        Utf8CauseView {
            valid_up_to: self.valid_up_to as nat,
            error_len: match self.error_len {
                Some(n) => Some(n as nat),
                None => None,
            },
            description: self.description@,
        }
    }
}

impl View for IoCause {
    type V = Seq<char>;

    open spec fn view(&self) -> Seq<char> {
        self.description@
    }
}

} // verus!
