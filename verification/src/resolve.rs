//! Resolution: from an error of unknown kind and the registered converters to
//! one user-facing error.
//!
//! The converters are asked in the order in which they were registered, and
//! the first result is taken. Where none gives a result, the error is
//! described by what it reports of itself, and its cause is resolved in the
//! same way.

use crate::cause::{ErrorCause, ErrorCauseView, UserFacingError, UserFacingErrorView};
use crate::convert::{converts_by_narrowing, total, AsUserFacingError, UFEContext, UFEConverter};
use crate::opaque::OpaqueError;
use vstd::prelude::*;

verus! {

/// The converter was asked about `error` and returned nothing.
pub open spec fn declined<E, F: Fn(&OpaqueError<E>, &UFEContext) -> Option<UserFacingError>>(
    converter: UFEConverter<F>,
    error: &OpaqueError<E>,
    ctx: &UFEContext,
) -> bool {
    call_ensures(converter.convert, (error, ctx), None::<UserFacingError>)
}

/// The converter was asked about `error` and returned `out`.
pub open spec fn answered<E, F: Fn(&OpaqueError<E>, &UFEContext) -> Option<UserFacingError>>(
    converter: UFEConverter<F>,
    error: &OpaqueError<E>,
    ctx: &UFEContext,
    out: UserFacingError,
) -> bool {
    call_ensures(converter.convert, (error, ctx), Some(out))
}

/// The converter at `index` returned `out`, after every converter before it
/// had returned nothing.
pub open spec fn first_answer<E, F: Fn(&OpaqueError<E>, &UFEContext) -> Option<UserFacingError>>(
    converters: Seq<UFEConverter<F>>,
    error: &OpaqueError<E>,
    ctx: &UFEContext,
    index: int,
    out: UserFacingError,
) -> bool {
    &&& 0 <= index < converters.len()
    &&& forall|j: int| 0 <= j < index ==> declined(#[trigger] converters[j], error, ctx)
    &&& answered(converters[index], error, ctx, out)
}

/// Every converter returned nothing.
pub open spec fn all_declined<E, F: Fn(&OpaqueError<E>, &UFEContext) -> Option<UserFacingError>>(
    converters: Seq<UFEConverter<F>>,
    error: &OpaqueError<E>,
    ctx: &UFEContext,
) -> bool {
    forall|j: int| 0 <= j < converters.len() ==> declined(#[trigger] converters[j], error, ctx)
}

/// `out` is a resolution of `error`: the result of the first converter that
/// gave one, or, where every converter returned nothing, the error's own
/// description with the resolution of its cause as the one related error.
pub open spec fn resolves_to<E, F: Fn(&OpaqueError<E>, &UFEContext) -> Option<UserFacingError>>(
    converters: Seq<UFEConverter<F>>,
    error: &OpaqueError<E>,
    ctx: &UFEContext,
    out: UserFacingError,
) -> bool
    decreases error,
{
    ||| exists|index: int| first_answer(converters, error, ctx, index, out)
    ||| {
        &&& all_declined(converters, error, ctx)
        &&& out.error@ == ErrorCauseView::plain(error.description@)
        &&& match error.source {
            Some(cause) => out.related@.len() == 1 && resolves_to(
                converters,
                &*cause,
                ctx,
                out.related@[0],
            ),
            None => out.related@.len() == 0,
        }
    }
}

/// Every converter may be called on every error and context.
pub open spec fn all_total<E, F: Fn(&OpaqueError<E>, &UFEContext) -> Option<UserFacingError>>(
    converters: Seq<UFEConverter<F>>,
) -> bool {
    forall|i: int| 0 <= i < converters.len() ==> total::<E, F>((#[trigger] converters[i]).convert)
}

/// Resolves `error` with the converters of `converters`, in their order.
pub fn resolve<E, F: Fn(&OpaqueError<E>, &UFEContext) -> Option<UserFacingError>>(
    converters: &[UFEConverter<F>],
    error: &OpaqueError<E>,
    ctx: &UFEContext,
) -> (out: UserFacingError)
    requires
        all_total::<E, F>(converters@),
    ensures
        resolves_to(converters@, error, ctx, out),
    decreases error,
{
    let mut i: usize = 0;
    while i < converters.len()
        invariant
            i <= converters@.len(),
            all_total::<E, F>(converters@),
            forall|j: int| 0 <= j < i ==> declined(#[trigger] converters@[j], error, ctx),
        decreases converters@.len() - i,
    {
        assert(total::<E, F>(converters@[i as int].convert));
        if let Some(found) = (converters[i].convert)(error, ctx) {
            assert(first_answer(converters@, error, ctx, i as int, found));
            return found;
        }
        i += 1;
    }
    let mut related: Vec<UserFacingError> = Vec::new();
    if let Some(cause) = &error.source {
        let inner = resolve(converters, cause, ctx);
        related.push(inner);
    }
    UserFacingError { error: ErrorCause::default().summary(error.description.clone()), related }
}

/// A helper that turns a reference to an error of unknown kind into the best
/// [`UserFacingError`] that the converters it was made with give.
#[derive(Debug)]
pub struct PotentiallyUnclearError<'a, E, F: Fn(&OpaqueError<E>, &UFEContext) -> Option<
    UserFacingError,
>> {
    error: &'a OpaqueError<E>,
    converters: &'a [UFEConverter<F>],
}

impl<'a, E, F: Fn(&OpaqueError<E>, &UFEContext) -> Option<UserFacingError>> PotentiallyUnclearError<
    'a,
    E,
    F,
> {
    #[verifier::type_invariant]
    spec fn converters_total(self) -> bool {
        all_total::<E, F>(self.converters@)
    }

    /// The error that is to be resolved.
    pub closed spec fn error(&self) -> &OpaqueError<E> {
        self.error
    }

    /// The converters that are asked, in their order.
    pub closed spec fn converters(&self) -> Seq<UFEConverter<F>> {
        self.converters@
    }

    /// The helper for `error`, which asks the converters of `converters` in
    /// their order.
    pub fn from_error(error: &'a OpaqueError<E>, converters: &'a [UFEConverter<F>]) -> (unclear:
        PotentiallyUnclearError<'a, E, F>)
        requires
            all_total::<E, F>(converters@),
        ensures
            unclear.error() == error,
            unclear.converters() == converters@,
    {
        PotentiallyUnclearError { error, converters }
    }

    /// Resolves the error, with the context that the library hands to
    /// conversions.
    pub fn resolve(&self) -> (out: UserFacingError)
        ensures
            resolves_to(self.converters(), self.error(), &UFEContext::token(), out),
    {
        let ctx = UFEContext::new();
        self.as_user_facing_error(&ctx)
    }
}

impl<'a, E, F: Fn(&OpaqueError<E>, &UFEContext) -> Option<
    UserFacingError,
>> AsUserFacingError for PotentiallyUnclearError<'a, E, F> {
    /// Resolves the error: the result of the first converter that gives one,
    /// or else the error's own description and the resolution of its cause.
    fn as_user_facing_error(&self, ctx: &UFEContext) -> (out: UserFacingError)
        ensures
            resolves_to(self.converters(), self.error(), ctx, out),
    {
        proof {
            use_type_invariant(self);
        }
        resolve(self.converters, self.error, ctx)
    }
}

/// Whatever the converter returns for `error`, it is nothing.
pub open spec fn never_answers<E, F: Fn(&OpaqueError<E>, &UFEContext) -> Option<UserFacingError>>(
    converter: UFEConverter<F>,
    error: &OpaqueError<E>,
    ctx: &UFEContext,
) -> bool {
    forall|out: Option<UserFacingError>| #[trigger]
        call_ensures(converter.convert, (error, ctx), out) ==> out is None
}

/// Whatever the converter returns for `error`, it is `result`.
pub open spec fn always_answers<E, F: Fn(&OpaqueError<E>, &UFEContext) -> Option<UserFacingError>>(
    converter: UFEConverter<F>,
    error: &OpaqueError<E>,
    ctx: &UFEContext,
    result: UserFacingError,
) -> bool {
    forall|out: Option<UserFacingError>| #[trigger]
        call_ensures(converter.convert, (error, ctx), out) ==> out == Some(result)
}

/// No converter ever gives a result for `error`.
pub open spec fn unmatched<E, F: Fn(&OpaqueError<E>, &UFEContext) -> Option<UserFacingError>>(
    converters: Seq<UFEConverter<F>>,
    error: &OpaqueError<E>,
    ctx: &UFEContext,
) -> bool {
    forall|i: int| 0 <= i < converters.len() ==> never_answers(#[trigger] converters[i], error, ctx)
}

/// No converter ever gives a result for `error`, nor for any error of its
/// cause chain.
pub open spec fn unmatched_along<E, F: Fn(&OpaqueError<E>, &UFEContext) -> Option<UserFacingError>>(
    converters: Seq<UFEConverter<F>>,
    error: &OpaqueError<E>,
    ctx: &UFEContext,
) -> bool
    decreases error,
{
    &&& unmatched(converters, error, ctx)
    &&& match error.source {
        Some(cause) => unmatched_along(converters, &*cause, ctx),
        None => true,
    }
}

/// The description of a chain of errors by what they report of themselves:
/// the first description is the summary, and the description of the rest of
/// the chain is the one related error.
pub open spec fn generic(chain: Seq<Seq<char>>) -> UserFacingErrorView
    decreases chain.len(),
{
    if chain.len() == 0 {
        UserFacingErrorView::plain(Seq::empty(), Seq::empty())
    } else if chain.len() == 1 {
        UserFacingErrorView::plain(chain[0], Seq::empty())
    } else {
        UserFacingErrorView::plain(chain[0], seq![generic(chain.drop_first())])
    }
}

/// The error that is reached from `error` by going `depth` times to the
/// first related error.
pub open spec fn descend(error: UserFacingErrorView, depth: nat) -> UserFacingErrorView
    decreases depth,
{
    if depth == 0 || error.related.len() == 0 {
        error
    } else {
        descend(error.related[0], (depth - 1) as nat)
    }
}

/// An error that no converter matches resolves to an error whose summary is
/// the error's own description, with no extended reason and no highlight.
pub proof fn lemma_unmatched_summary<E, F: Fn(&OpaqueError<E>, &UFEContext) -> Option<
    UserFacingError,
>>(converters: Seq<UFEConverter<F>>, error: &OpaqueError<E>, ctx: &UFEContext, out: UserFacingError)
    requires
        unmatched(converters, error, ctx),
        resolves_to(converters, error, ctx, out),
    ensures
        out@.error.summary == error.description@,
        out@.error == ErrorCauseView::plain(error.description@),
        error.source is None ==> out@.related.len() == 0,
        error.source is Some ==> out@.related.len() == 1,
{
    out.lemma_view_related();
    if exists|index: int| first_answer(converters, error, ctx, index, out) {
        let index = choose|index: int| first_answer(converters, error, ctx, index, out);
        assert(never_answers(converters[index], error, ctx));
        assert(call_ensures(converters[index].convert, (error, ctx), Some(out)));
    }
}

/// Where no converter matches at any level of the cause chain, the error
/// resolves to the generic description of the chain.
pub proof fn lemma_unmatched_chain<E, F: Fn(&OpaqueError<E>, &UFEContext) -> Option<
    UserFacingError,
>>(converters: Seq<UFEConverter<F>>, error: &OpaqueError<E>, ctx: &UFEContext, out: UserFacingError)
    requires
        unmatched_along(converters, error, ctx),
        resolves_to(converters, error, ctx, out),
    ensures
        out@ == generic(error.chain()),
    decreases error,
{
    lemma_unmatched_summary(converters, error, ctx, out);
    out.lemma_view_related();
    match error.source {
        Some(cause) => {
            lemma_unmatched_chain(converters, &*cause, ctx, out.related@[0]);
            lemma_chain_len(&*cause);
            assert(error.chain().drop_first() =~= cause.chain());
            assert(out@.related =~= seq![generic(cause.chain())]);
        },
        None => {
            assert(out@.related =~= Seq::empty());
        },
    }
}

/// A cause chain holds at least the error's own description.
pub proof fn lemma_chain_len<E>(error: &OpaqueError<E>)
    ensures
        error.chain().len() >= 1,
        error.chain()[0] == error.description@,
    decreases error,
{
    match error.source {
        Some(cause) => {
            lemma_chain_len(&*cause);
        },
        None => {},
    }
}

/// The generic description of a chain has one level for each description,
/// in the order of the chain: at depth `depth` the summary is the
/// description at that place of the chain, and there is a related error
/// exactly where the chain goes on.
pub proof fn lemma_generic_levels(chain: Seq<Seq<char>>, depth: nat)
    requires
        depth < chain.len(),
    ensures
        descend(generic(chain), depth).error == ErrorCauseView::plain(chain[depth as int]),
        descend(generic(chain), depth).related.len() == (if depth + 1 < chain.len() {
            1nat
        } else {
            0nat
        }),
    decreases depth,
{
    if depth > 0 {
        lemma_generic_levels(chain.drop_first(), (depth - 1) as nat);
    }
}

/// A typed converter whose narrowing does not recognise the error never
/// answers for it.
pub proof fn lemma_typed_declines<E, T: AsUserFacingError, N: Fn(&OpaqueError<E>) -> Option<&T>, F: Fn(
    &OpaqueError<E>,
    &UFEContext,
) -> Option<UserFacingError>>(
    converter: UFEConverter<F>,
    error: &OpaqueError<E>,
    ctx: &UFEContext,
    narrow: N,
)
    requires
        converts_by_narrowing::<E, T, N, F>(converter.convert, narrow),
        forall|narrowed: Option<&T>| #[trigger]
            call_ensures(narrow, (error,), narrowed) ==> narrowed is None,
    ensures
        never_answers(converter, error, ctx),
{
}

/// A typed converter whose narrowing check recognises the error keeps the
/// resolution from falling through to the generic description: the result
/// is the answer of that converter or of one before it.
pub proof fn lemma_typed_match<E, T: AsUserFacingError, N: Fn(&OpaqueError<E>) -> Option<&T>, F: Fn(
    &OpaqueError<E>,
    &UFEContext,
) -> Option<UserFacingError>>(
    converters: Seq<UFEConverter<F>>,
    error: &OpaqueError<E>,
    ctx: &UFEContext,
    index: int,
    narrow: N,
    out: UserFacingError,
)
    requires
        0 <= index < converters.len(),
        converts_by_narrowing::<E, T, N, F>(converters[index].convert, narrow),
        forall|narrowed: Option<&T>| #[trigger]
            call_ensures(narrow, (error,), narrowed) ==> narrowed is Some,
        resolves_to(converters, error, ctx, out),
    ensures
        exists|i: int| 0 <= i <= index && first_answer(converters, error, ctx, i, out),
{
    if declined(converters[index], error, ctx) {
        assert(call_ensures(converters[index].convert, (error, ctx), None::<UserFacingError>));
        assert(false);
    }
    let i = choose|i: int| first_answer(converters, error, ctx, i, out);
    assert(first_answer(converters, error, ctx, i, out));
    assert(i <= index);
}

/// Where every converter before a typed converter never answers, and the
/// narrowing check recognises the error, the result is what the narrowed
/// value says of itself.
pub proof fn lemma_typed_describes<E, T: AsUserFacingError, N: Fn(&OpaqueError<E>) -> Option<
    &T,
>, F: Fn(&OpaqueError<E>, &UFEContext) -> Option<UserFacingError>>(
    converters: Seq<UFEConverter<F>>,
    error: &OpaqueError<E>,
    ctx: &UFEContext,
    index: int,
    narrow: N,
    out: UserFacingError,
)
    requires
        0 <= index < converters.len(),
        forall|j: int| 0 <= j < index ==> never_answers(#[trigger] converters[j], error, ctx),
        converts_by_narrowing::<E, T, N, F>(converters[index].convert, narrow),
        forall|narrowed: Option<&T>| #[trigger]
            call_ensures(narrow, (error,), narrowed) ==> narrowed is Some,
        resolves_to(converters, error, ctx, out),
    ensures
        first_answer(converters, error, ctx, index, out),
        exists|value: &T|
            call_ensures(narrow, (error,), Some(value)) && call_ensures(
                T::as_user_facing_error,
                (value, ctx),
                out,
            ),
{
    lemma_typed_match::<E, T, N, F>(converters, error, ctx, index, narrow, out);
    let i = choose|i: int| 0 <= i <= index && first_answer(converters, error, ctx, i, out);
    if i < index {
        assert(never_answers(converters[i], error, ctx));
        assert(call_ensures(converters[i].convert, (error, ctx), Some(out)));
    }
    assert(call_ensures(converters[index].convert, (error, ctx), Some(out)));
    let narrowed = choose|narrowed: Option<&T>|
        call_ensures(narrow, (error,), narrowed) && crate::convert::typed_outcome(
            narrowed,
            ctx,
            Some(out),
        );
    assert(call_ensures(narrow, (error,), Some(narrowed->Some_0)));
}

/// The first converter that answers wins: where every converter before the
/// one at `index` never answers and that one always answers `result`, the
/// resolution is `result`, whatever the converters after it would say.
pub proof fn lemma_first_match_wins<E, F: Fn(&OpaqueError<E>, &UFEContext) -> Option<
    UserFacingError,
>>(
    converters: Seq<UFEConverter<F>>,
    error: &OpaqueError<E>,
    ctx: &UFEContext,
    index: int,
    result: UserFacingError,
    out: UserFacingError,
)
    requires
        0 <= index < converters.len(),
        forall|j: int| 0 <= j < index ==> never_answers(#[trigger] converters[j], error, ctx),
        always_answers(converters[index], error, ctx, result),
        resolves_to(converters, error, ctx, out),
    ensures
        out == result,
{
    if declined(converters[index], error, ctx) {
        assert(call_ensures(converters[index].convert, (error, ctx), None::<UserFacingError>));
        assert(false);
    }
    let i = choose|i: int| first_answer(converters, error, ctx, i, out);
    assert(first_answer(converters, error, ctx, i, out));
    if i < index {
        assert(never_answers(converters[i], error, ctx));
        assert(call_ensures(converters[i].convert, (error, ctx), Some(out)));
    }
    assert(call_ensures(converters[index].convert, (error, ctx), Some(out)));
}

} // verus!
