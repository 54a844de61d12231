//! Values as the engine hands them across the call boundary.

use vstd::prelude::*;

verus! {

/// The tag of a returned value that says "an exception is pending in the
/// context; look there, not at this value".
pub const JS_TAG_EXCEPTION: i32 = 6;

/// What the bridge keeps of a native value: its normalised tag, and the bits
/// that tell one value of a tag from another.
#[derive(Clone, Copy, Debug, PartialEq, Eq, Structural)]
pub struct JsValue {
    pub tag: i32,
    pub payload: u64,
}

impl JsValue {
    /// The exception sentinel: the exception tag with an empty payload.
    pub open spec fn exception_spec() -> JsValue {
        JsValue { tag: JS_TAG_EXCEPTION, payload: 0 }
    }

    /// The exception sentinel.
    #[verifier::when_used_as_spec(exception_spec)]
    pub fn exception() -> (value: JsValue)
        ensures
            value == Self::exception_spec(),
    {
        JsValue { tag: JS_TAG_EXCEPTION, payload: 0 }
    }

    /// True when the value carries the exception tag, whatever its payload.
    pub open spec fn is_exception_spec(&self) -> bool {
        self.tag == JS_TAG_EXCEPTION
    }

    /// Whether the value carries the exception tag.
    #[verifier::when_used_as_spec(is_exception_spec)]
    pub fn is_exception(&self) -> (tagged: bool)
        ensures
            tagged == self.is_exception_spec(),
    {
        self.tag == JS_TAG_EXCEPTION
    }
}

} // verus!
