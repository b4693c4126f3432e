//! The registry: the converters of a program, in the order in which they were
//! registered.
//!
//! Converters are only ever added, at the end. Every converter of a registry
//! is a function that may be called on every error.

use crate::cause::UserFacingError;
use crate::convert::{total, UFEContext, UFEConverter};
use crate::opaque::OpaqueError;
use crate::resolve::{all_total, resolve, resolves_to};
use std::marker::PhantomData;
use vstd::prelude::*;

verus! {

/// The converters that are asked when an error of kind `E` is resolved.
#[derive(Debug)]
pub struct Registry<E, F: Fn(&OpaqueError<E>, &UFEContext) -> Option<UserFacingError>> {
    converters: Vec<UFEConverter<F>>,
    errors: PhantomData<E>,
}

impl<E, F: Fn(&OpaqueError<E>, &UFEContext) -> Option<UserFacingError>> View for Registry<E, F> {
    type V = Seq<UFEConverter<F>>;

    /// The converters, in the order in which they were registered.
    closed spec fn view(&self) -> Seq<UFEConverter<F>> {
        self.converters@
    }
}

impl<E, F: Fn(&OpaqueError<E>, &UFEContext) -> Option<UserFacingError>> Registry<E, F> {
    #[verifier::type_invariant]
    spec fn every_converter_total(self) -> bool {
        all_total::<E, F>(self.converters@)
    }

    /// The registry that holds no converter.
    pub fn new() -> (registry: Registry<E, F>)
        ensures
            registry@ == Seq::<UFEConverter<F>>::empty(),
    {
        Registry { converters: Vec::new(), errors: PhantomData }
    }

    /// The registry with `converter` registered behind the converters that
    /// are there.
    pub fn register(self, converter: UFEConverter<F>) -> (registry: Registry<E, F>)
        requires
            total::<E, F>(converter.convert),
        ensures
            registry@ == self@.push(converter),
    {
        proof {
            use_type_invariant(&self);
        }
        let mut converters = self.converters;
        converters.push(converter);
        Registry { converters, errors: PhantomData }
    }

    /// The converters, in the order in which they were registered.
    pub fn converters(&self) -> (converters: &[UFEConverter<F>])
        ensures
            converters@ == self@,
            all_total::<E, F>(converters@),
    {
        proof {
            use_type_invariant(self);
        }
        self.converters.as_slice()
    }

    /// Resolves `error` with the converters of the registry, with the
    /// context that the library hands to conversions.
    pub fn resolve(&self, error: &OpaqueError<E>) -> (out: UserFacingError)
        ensures
            resolves_to(self@, error, &UFEContext::token(), out),
    {
        let ctx = UFEContext::new();
        resolve(self.converters(), error, &ctx)
    }
}

} // verus!
