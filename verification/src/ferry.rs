//! Carrying a host panic across the engine's call frames.
//!
//! A panic must not unwind through the engine. Where the engine calls the
//! host, the embedding catches a panic and gives its payload to
//! [`PanicSlot::handle_panic`], which stores it and answers with the
//! exception sentinel to raise. Where the host calls the engine and gets a
//! value with the exception tag back, [`PanicSlot::handle_exception`] takes
//! the payload out again, and the embedding resumes the panic with it as if
//! the engine had never stood in between.

use crate::error::Error;
use crate::throw::{Throw, ThrowView};
use crate::value::JsValue;
use vstd::prelude::*;

verus! {

/// The place of one context for a panic payload on its way through the
/// engine. It is empty when the context is made, filled when a panic is
/// caught, and emptied by whoever sees the engine's exception tag next.
pub struct PanicSlot<P> {
    panic: Option<P>,
}

/// What the host is to do about an exception that the engine signalled.
#[derive(Debug)]
pub enum Caught<P> {
    /// Resume the panic that carries this payload.
    Panic(P),
    /// Report this error.
    Error(Error),
}

/// What catching leaves of a slot, and what was caught: a stored payload
/// leaves the slot and is the panic to resume; without one, the engine's
/// own exception is pending.
pub open spec fn raise<P>(slot: Option<P>) -> (Option<P>, Caught<P>) {
    match slot {
        Some(payload) => (None, Caught::Panic(payload)),
        None => (None, Caught::Error(Error::Exception)),
    }
}

/// What resolving the returned value `js_val` leaves of a slot, and what it
/// answers: a value without the exception tag passes through and leaves
/// the slot alone; one with it is caught.
pub open spec fn resolve<P>(slot: Option<P>, js_val: JsValue) -> (
    Option<P>,
    Result<JsValue, Caught<P>>,
) {
    if js_val.is_exception() {
        (raise(slot).0, Err(raise(slot).1))
    } else {
        (slot, Ok(js_val))
    }
}

/// What ferrying the outcome of a callback leaves of a slot, and the step
/// it asks for: a value goes back as it is; the payload of a panic goes
/// into the slot, over what was there, and the exception sentinel is raised.
pub open spec fn ferry<P>(slot: Option<P>, outcome: Result<JsValue, P>) -> (Option<P>, ThrowView) {
    match outcome {
        Ok(value) => (slot, ThrowView::Return(value)),
        Err(payload) => (Some(payload), ThrowView::Raise(JsValue::exception())),
    }
}

impl<P> View for PanicSlot<P> {
    type V = Option<P>;

    closed spec fn view(&self) -> Option<P> {
        self.panic
    }
}

impl<P> PanicSlot<P> {
    /// The slot of a new context: empty.
    pub fn new() -> (slot: Self)
        ensures
            slot@ is None,
    {
        PanicSlot { panic: None }
    }

    /// Ferries the outcome of a callback that the engine invoked: `Ok` with
    /// the value that it produced, or `Err` with the payload of the panic
    /// that was caught around it.
    ///
    /// One call into the engine is in flight per context, so no payload
    /// waits in the slot when a panic is caught. Should one wait all the
    /// same, it is dropped and the later payload takes its place.
    pub fn handle_panic(&mut self, outcome: Result<JsValue, P>) -> (step: Throw)
        ensures
            (final(self)@, step@) == ferry(old(self)@, outcome),
    {
        match outcome {
            Ok(value) => Throw::Return(value),
            Err(payload) => {
                self.panic = Some(payload);
                Throw::Raise(JsValue::exception())
            },
        }
    }

    /// Handles a possible exception in a value that the engine returned:
    /// the value itself where it is no exception, else what was caught.
    pub fn handle_exception(&mut self, js_val: JsValue) -> (resolved: Result<JsValue, Caught<P>>)
        ensures
            (final(self)@, resolved) == resolve(old(self)@, js_val),
    {
        if !js_val.is_exception() {
            Ok(js_val)
        } else {
            Err(self.raise_exception())
        }
    }

    /// Answers with `Error::Exception` if no panic is stored, and otherwise
    /// with the panic to go on with.
    pub fn raise_exception(&mut self) -> (caught: Caught<P>)
        ensures
            (final(self)@, caught) == raise(old(self)@),
    {
        match self.panic.take() {
            Some(payload) => Caught::Panic(payload),
            None => Caught::Error(Error::Exception),
        }
    }
}

/// A value with the exception tag that meets an empty slot resolves to
/// `Error::Exception`, whatever error was thrown to make the engine return
/// it: what the exception was is to be fetched from the context.
pub proof fn lemma_exception_resolves_to_error<P>(js_val: JsValue)
    requires
        js_val.is_exception(),
    ensures
        resolve::<P>(None, js_val) == (None::<P>, Err::<JsValue, Caught<P>>(Caught::Error(Error::Exception))),
{
}

/// Resolving empties the slot, so a payload is resumed once: a second
/// resolution of a value with the exception tag finds no panic and answers
/// with `Error::Exception`.
pub proof fn lemma_resolve_twice<P>(slot: Option<P>, first: JsValue, second: JsValue)
    requires
        first.is_exception(),
        second.is_exception(),
    ensures
        resolve(slot, first).0 is None,
        resolve(resolve(slot, first).0, second) == (
            None::<P>,
            Err::<JsValue, Caught<P>>(Caught::Error(Error::Exception)),
        ),
{
}

/// A panic that was ferried comes out where the engine's answer is
/// resolved, with the payload it went in with, and leaves the slot empty.
pub proof fn lemma_ferried_panic_resumes<P>(slot: Option<P>, payload: P, js_val: JsValue)
    requires
        js_val.is_exception(),
    ensures
        ferry(slot, Err(payload)).1 == ThrowView::Raise(JsValue::exception()),
        resolve(ferry(slot, Err(payload)).0, js_val) == (
            None::<P>,
            Err::<JsValue, Caught<P>>(Caught::Panic(payload)),
        ),
{
}

/// A callback that returns leaves the slot as it was, and a value without
/// the exception tag passes through both boundaries unchanged.
pub proof fn lemma_value_passes<P>(slot: Option<P>, value: JsValue)
    requires
        !value.is_exception(),
    ensures
        ferry(slot, Ok(value)) == (slot, ThrowView::Return(value)),
        resolve(slot, value) == (slot, Ok::<JsValue, Caught<P>>(value)),
{
}

} // verus!
