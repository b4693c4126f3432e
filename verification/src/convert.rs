//! Converters: functions that turn an error of unknown kind into a
//! user-facing error, where they know its kind.

use crate::cause::UserFacingError;
use crate::opaque::OpaqueError;
use vstd::prelude::*;

verus! {

/// Types that can describe themselves as a [`UserFacingError`].
pub trait AsUserFacingError {
    /// Turns the value into a [`UserFacingError`].
    fn as_user_facing_error(&self, ctx: &UFEContext) -> UserFacingError;
}

/// What a conversion is given besides the error. Only the library makes one.
#[derive(Debug)]
pub struct UFEContext {
    _private: (),
}

impl UFEContext {
    /// The context that the library hands to conversions.
    pub closed spec fn token() -> UFEContext {
        UFEContext { _private: () }
    }

    pub(crate) fn new() -> (ctx: UFEContext)
        ensures
            ctx == UFEContext::token(),
    {
        UFEContext { _private: () }
    }
}

/// A function that turns an error of unknown kind into a
/// [`UserFacingError`], or into nothing where the error is not of its kind.
///
/// There are two ways to make one:
///
/// - [`UFEConverter::for_ufe`], for kinds that implement
///   [`AsUserFacingError`];
/// - [`UFEConverter::custom`], for any function.
#[derive(Debug)]
pub struct UFEConverter<F> {
    /// The function.
    pub convert: F,
}

/// What the typed conversion gives for the outcome `narrowed` of the
/// narrowing check: nothing where the check failed, and else what the value
/// says of itself.
pub open spec fn typed_outcome<T: AsUserFacingError>(
    narrowed: Option<&T>,
    ctx: &UFEContext,
    out: Option<UserFacingError>,
) -> bool {
    match narrowed {
        Some(value) => out is Some && call_ensures(
            T::as_user_facing_error,
            (value, ctx),
            out->Some_0,
        ),
        None => out is None,
    }
}

/// The conversion of a kind `T` that describes itself: given the outcome of
/// narrowing an error to `T`, the value's own description, or nothing where
/// the error is of another kind.
pub fn convert<T: AsUserFacingError>(narrowed: Option<&T>, ctx: &UFEContext) -> (out: Option<
    UserFacingError,
>)
    ensures
        typed_outcome(narrowed, ctx, out),
{
    if let Some(value) = narrowed {
        Some(value.as_user_facing_error(ctx))
    } else {
        None
    }
}

/// `convert` is the typed conversion that narrows with `narrow`: whatever
/// it returns, `narrow` gave an outcome of which it is the typed conversion.
pub open spec fn converts_by_narrowing<
    E,
    T: AsUserFacingError,
    N: Fn(&OpaqueError<E>) -> Option<&T>,
    F: Fn(&OpaqueError<E>, &UFEContext) -> Option<UserFacingError>,
>(convert: F, narrow: N) -> bool {
    forall|error: &OpaqueError<E>, ctx: &UFEContext, out: Option<UserFacingError>| #[trigger]
        call_ensures(convert, (error, ctx), out) ==> exists|narrowed: Option<&T>|
            call_ensures(narrow, (error,), narrowed) && typed_outcome(narrowed, ctx, out)
}

/// `f` may be called on every error and context.
pub open spec fn total<E, F: Fn(&OpaqueError<E>, &UFEContext) -> Option<UserFacingError>>(
    f: F,
) -> bool {
    forall|error: &OpaqueError<E>, ctx: &UFEContext| #[trigger] call_requires(f, (error, ctx))
}

impl<F> UFEConverter<F> {
    /// A converter for a kind `T` that implements [`AsUserFacingError`].
    ///
    /// `narrow` is the check that tells whether an error is of kind `T`, and
    /// gives the value if it is.
    pub fn for_ufe<E, T: AsUserFacingError>(narrow: F) -> (converter: UFEConverter<
        impl Fn(&OpaqueError<E>, &UFEContext) -> Option<UserFacingError>,
    >) where F: Fn(&OpaqueError<E>) -> Option<&T>
        requires
            forall|error: &OpaqueError<E>| #[trigger] call_requires(narrow, (error,)),
        ensures
            total(converter.convert),
            converts_by_narrowing(converter.convert, narrow),
    {
        let check: Ghost<F> = Ghost(narrow);
        let typed = move |error: &OpaqueError<E>, ctx: &UFEContext| -> (out: Option<
            UserFacingError,
        >)
            ensures
                exists|narrowed: Option<&T>|
                    call_ensures(check@, (error,), narrowed) && typed_outcome(narrowed, ctx, out),
            {
                let narrowed = narrow(error);
                self::convert(narrowed, ctx)
            };
        UFEConverter { convert: typed }
    }

    /// A converter that is the function `f`.
    ///
    /// `f` must return nothing for every error that it does not recognise:
    /// one that always returns a result answers for every error that the
    /// converters before it let through, and none after it is asked.
    pub fn custom(f: F) -> (converter: UFEConverter<F>)
        ensures
            converter.convert == f,
    {
        UFEConverter { convert: f }
    }
}

} // verus!
