//! Registered callbacks, one variant per supported arity.
//!
//! The callable itself is opaque to verification: it is user code boxed behind
//! one uniform calling shape, a slice that always holds exactly the declared
//! number of arguments. Each constructor builds the adapter and the matching
//! variant together, so a handler made through them can never disagree with
//! its own arity tag.

use vstd::prelude::*;

verus! {

/// The stored form of one callback: the user's callable, boxed behind a
/// uniform argument-slice calling shape. The adapter built by the matching
/// `CallbackHandler` constructor reads exactly the leading arguments its
/// callback declares, and the dispatcher always supplies exactly that many.
#[verifier::external_body]
#[verifier::reject_recursive_types(T)]
pub struct RawHandler<T> {
    call: Box<dyn FnMut(&[T]) + Send + 'static>,
}

impl<T> RawHandler<T> {
    /// Runs the boxed callable on `args`: the one call of user code in the
    /// crate. Only the slot's lock-and-invoke wrapper calls this, under the
    /// slot's mutual-exclusion lock. Whatever the callback does is its own
    /// business, so nothing is promised of the call.
    #[verifier::external_body]
    pub(crate) fn run(&mut self, args: &[T]) {
        (self.call)(args)
    }
}

/// A callback of a fixed arity, ready for registration. One variant per
/// supported argument count, from zero through twelve, each built by the
/// constructor of the same number.
///
/// Build values only through those constructors: each pairs the variant's
/// arity tag with an adapter that reads exactly that many arguments. Moving a
/// payload out of one variant and into another breaks that pairing, and a
/// dispatch that trusts the new tag may then panic inside the adapter.
#[verifier::reject_recursive_types(T)]
pub enum CallbackHandler<T> {
    Callback0(RawHandler<T>),
    Callback1(RawHandler<T>),
    Callback2(RawHandler<T>),
    Callback3(RawHandler<T>),
    Callback4(RawHandler<T>),
    Callback5(RawHandler<T>),
    Callback6(RawHandler<T>),
    Callback7(RawHandler<T>),
    Callback8(RawHandler<T>),
    Callback9(RawHandler<T>),
    Callback10(RawHandler<T>),
    Callback11(RawHandler<T>),
    Callback12(RawHandler<T>),
}

impl<T> CallbackHandler<T> {
    /// The number of arguments this handler's callback declares.
    pub open spec fn spec_arity(&self) -> nat {
        match *self {
            CallbackHandler::Callback0(..) => 0,
            CallbackHandler::Callback1(..) => 1,
            CallbackHandler::Callback2(..) => 2,
            CallbackHandler::Callback3(..) => 3,
            CallbackHandler::Callback4(..) => 4,
            CallbackHandler::Callback5(..) => 5,
            CallbackHandler::Callback6(..) => 6,
            CallbackHandler::Callback7(..) => 7,
            CallbackHandler::Callback8(..) => 8,
            CallbackHandler::Callback9(..) => 9,
            CallbackHandler::Callback10(..) => 10,
            CallbackHandler::Callback11(..) => 11,
            CallbackHandler::Callback12(..) => 12,
        }
    }

    /// Splits the handler into its declared arity and the stored callable.
    pub(crate) fn into_parts(self) -> (r: (usize, RawHandler<T>))
        ensures
            r.0 as nat == self.spec_arity(),
    {
        match self {
            CallbackHandler::Callback0(raw) => (0, raw),
            CallbackHandler::Callback1(raw) => (1, raw),
            CallbackHandler::Callback2(raw) => (2, raw),
            CallbackHandler::Callback3(raw) => (3, raw),
            CallbackHandler::Callback4(raw) => (4, raw),
            CallbackHandler::Callback5(raw) => (5, raw),
            CallbackHandler::Callback6(raw) => (6, raw),
            CallbackHandler::Callback7(raw) => (7, raw),
            CallbackHandler::Callback8(raw) => (8, raw),
            CallbackHandler::Callback9(raw) => (9, raw),
            CallbackHandler::Callback10(raw) => (10, raw),
            CallbackHandler::Callback11(raw) => (11, raw),
            CallbackHandler::Callback12(raw) => (12, raw),
        }
    }
}

impl<T: Copy> CallbackHandler<T> {
    /// Wraps a no-argument callback. Relies on `Box::new` to erase the
    /// callable's concrete type behind the uniform calling shape.
    #[verifier::external_body]
    pub fn callback0<F: FnMut() + Send + 'static>(mut f: F) -> (r: Self)
        ensures
            r.spec_arity() == 0,
    {
        CallbackHandler::Callback0(RawHandler { call: Box::new(move |_a: &[T]| f()) })
    }

    /// Wraps a one-argument callback. Relies on `Box::new`; the adapter hands
    /// the callback the first supplied argument.
    #[verifier::external_body]
    pub fn callback1<F: FnMut(T) + Send + 'static>(mut f: F) -> (r: Self)
        ensures
            r.spec_arity() == 1,
    {
        CallbackHandler::Callback1(RawHandler { call: Box::new(move |a: &[T]| f(a[0])) })
    }

    /// Wraps a two-argument callback. Relies on `Box::new`; the adapter hands
    /// the callback the first two supplied arguments.
    #[verifier::external_body]
    pub fn callback2<F: FnMut(T, T) + Send + 'static>(mut f: F) -> (r: Self)
        ensures
            r.spec_arity() == 2,
    {
        CallbackHandler::Callback2(RawHandler { call: Box::new(move |a: &[T]| f(a[0], a[1])) })
    }

    /// Wraps a three-argument callback. Relies on `Box::new`; the adapter
    /// hands the callback the first three supplied arguments.
    #[verifier::external_body]
    pub fn callback3<F: FnMut(T, T, T) + Send + 'static>(mut f: F) -> (r: Self)
        ensures
            r.spec_arity() == 3,
    {
        CallbackHandler::Callback3(RawHandler { call: Box::new(move |a: &[T]| f(a[0], a[1], a[2])) })
    }

    /// Wraps a four-argument callback. Relies on `Box::new`; the adapter
    /// hands the callback the first four supplied arguments.
    #[verifier::external_body]
    pub fn callback4<F: FnMut(T, T, T, T) + Send + 'static>(mut f: F) -> (r: Self)
        ensures
            r.spec_arity() == 4,
    {
        CallbackHandler::Callback4(RawHandler { call: Box::new(move |a: &[T]| f(a[0], a[1], a[2], a[3])) })
    }

    /// Wraps a five-argument callback. Relies on `Box::new`; the adapter
    /// hands the callback the first five supplied arguments.
    #[verifier::external_body]
    pub fn callback5<F: FnMut(T, T, T, T, T) + Send + 'static>(mut f: F) -> (r: Self)
        ensures
            r.spec_arity() == 5,
    {
        CallbackHandler::Callback5(RawHandler { call: Box::new(move |a: &[T]| f(a[0], a[1], a[2], a[3], a[4])) })
    }

    /// Wraps a six-argument callback. Relies on `Box::new`; the adapter
    /// hands the callback the first six supplied arguments.
    #[verifier::external_body]
    pub fn callback6<F: FnMut(T, T, T, T, T, T) + Send + 'static>(mut f: F) -> (r: Self)
        ensures
            r.spec_arity() == 6,
    {
        CallbackHandler::Callback6(RawHandler {
            call: Box::new(move |a: &[T]| f(a[0], a[1], a[2], a[3], a[4], a[5])),
        })
    }

    /// Wraps a seven-argument callback. Relies on `Box::new`; the adapter
    /// hands the callback the first seven supplied arguments.
    #[verifier::external_body]
    pub fn callback7<F: FnMut(T, T, T, T, T, T, T) + Send + 'static>(mut f: F) -> (r: Self)
        ensures
            r.spec_arity() == 7,
    {
        CallbackHandler::Callback7(RawHandler {
            call: Box::new(move |a: &[T]| f(a[0], a[1], a[2], a[3], a[4], a[5], a[6])),
        })
    }

    /// Wraps an eight-argument callback. Relies on `Box::new`; the adapter
    /// hands the callback the first eight supplied arguments.
    #[verifier::external_body]
    pub fn callback8<F: FnMut(T, T, T, T, T, T, T, T) + Send + 'static>(mut f: F) -> (r: Self)
        ensures
            r.spec_arity() == 8,
    {
        CallbackHandler::Callback8(RawHandler {
            call: Box::new(move |a: &[T]| f(a[0], a[1], a[2], a[3], a[4], a[5], a[6], a[7])),
        })
    }

    /// Wraps a nine-argument callback. Relies on `Box::new`; the adapter
    /// hands the callback the first nine supplied arguments.
    #[verifier::external_body]
    pub fn callback9<F: FnMut(T, T, T, T, T, T, T, T, T) + Send + 'static>(mut f: F) -> (r: Self)
        ensures
            r.spec_arity() == 9,
    {
        CallbackHandler::Callback9(RawHandler {
            call: Box::new(move |a: &[T]| f(a[0], a[1], a[2], a[3], a[4], a[5], a[6], a[7], a[8])),
        })
    }

    /// Wraps a ten-argument callback. Relies on `Box::new`; the adapter
    /// hands the callback the first ten supplied arguments.
    #[verifier::external_body]
    pub fn callback10<F: FnMut(T, T, T, T, T, T, T, T, T, T) + Send + 'static>(mut f: F) -> (r: Self)
        ensures
            r.spec_arity() == 10,
    {
        CallbackHandler::Callback10(RawHandler {
            call: Box::new(move |a: &[T]| f(a[0], a[1], a[2], a[3], a[4], a[5], a[6], a[7], a[8], a[9])),
        })
    }

    /// Wraps an eleven-argument callback. Relies on `Box::new`; the adapter
    /// hands the callback the first eleven supplied arguments.
    #[verifier::external_body]
    pub fn callback11<F: FnMut(T, T, T, T, T, T, T, T, T, T, T) + Send + 'static>(mut f: F) -> (r: Self)
        ensures
            r.spec_arity() == 11,
    {
        CallbackHandler::Callback11(RawHandler {
            call: Box::new(move |a: &[T]| f(a[0], a[1], a[2], a[3], a[4], a[5], a[6], a[7], a[8], a[9], a[10])),
        })
    }

    /// Wraps a twelve-argument callback. Relies on `Box::new`; the adapter
    /// hands the callback the first twelve supplied arguments.
    #[verifier::external_body]
    pub fn callback12<F: FnMut(T, T, T, T, T, T, T, T, T, T, T, T) + Send + 'static>(mut f: F) -> (r: Self)
        ensures
            r.spec_arity() == 12,
    {
        CallbackHandler::Callback12(RawHandler {
            call: Box::new(move |a: &[T]| {
                f(a[0], a[1], a[2], a[3], a[4], a[5], a[6], a[7], a[8], a[9], a[10], a[11])
            }),
        })
    }
}

} // verus!
