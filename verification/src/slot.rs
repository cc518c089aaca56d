//! The place that holds a suspended or resting state of the interpreter.
use vstd::prelude::*;

use crate::host::{ErrorView, Host, PyError, Tracker};

verus! {

/// A state of the interpreter under either tracker, or nothing once it has
/// been taken out.
pub enum Either<N, L> {
    NoLimit(N),
    Limited(L),
    /// The state has been taken out to run it.
    Done,
}

/// A run suspended at a call.
pub type EitherSnapshot<H> = Either<
    <<H as Host>::NoLimit as Tracker>::Snapshot,
    <<H as Host>::Limited as Tracker>::Snapshot,
>;

/// A run suspended on futures.
pub type EitherFutureSnapshot<H> = Either<
    Pending<<<H as Host>::NoLimit as Tracker>::FutureSnapshot>,
    Pending<<<H as Host>::Limited as Tracker>::FutureSnapshot>,
>;

/// A REPL session.
pub type EitherRepl<H> = Either<
    <<H as Host>::NoLimit as Tracker>::Repl,
    <<H as Host>::Limited as Tracker>::Repl,
>;

/// A REPL snippet suspended at a call.
pub type EitherReplSnapshot<H> = Either<
    <<H as Host>::NoLimit as Tracker>::ReplSnapshot,
    <<H as Host>::Limited as Tracker>::ReplSnapshot,
>;

/// A REPL snippet suspended on futures.
pub type EitherReplFutureSnapshot<H> = Either<
    Pending<<<H as Host>::NoLimit as Tracker>::ReplFutureSnapshot>,
    Pending<<<H as Host>::Limited as Tracker>::ReplFutureSnapshot>,
>;

/// A state that waits for futures, with the identifiers of the calls it waits
/// for.
pub struct Pending<S> {
    pub state: S,
    pub call_ids: Vec<u32>,
}

/// A state taken out of its place, with what the interpreter is to continue
/// with and what the next stage inherits.
pub struct Ready<S, A, C> {
    pub state: S,
    pub input: A,
    pub context: C,
}

/// A state ready to continue, under the tracker that it runs under.
pub enum Launch<N, L, A, C> {
    NoLimit(Ready<N, A, C>),
    Limited(Ready<L, A, C>),
}

/// Which tracker a state runs under, or that there is no state.
#[derive(Clone, Copy, PartialEq, Eq, Structural, Debug)]
pub enum Variant {
    NoLimit,
    Limited,
    Done,
}

/// The position of a variant, by which it is saved.
pub open spec fn variant_index(variant: Variant) -> nat {
    match variant {
        Variant::NoLimit => 0,
        Variant::Limited => 1,
        Variant::Done => 2,
    }
}

impl<N, L> Either<N, L> {
    /// Which tracker the state runs under.
    pub open spec fn spec_variant(self) -> Variant {
        match self {
            Either::NoLimit(_) => Variant::NoLimit,
            Either::Limited(_) => Variant::Limited,
            Either::Done => Variant::Done,
        }
    }

    /// Which tracker the state runs under.
    pub fn variant(&self) -> (variant: Variant)
        ensures
            variant == self.spec_variant(),
    {
        match self {
            Either::NoLimit(_) => Variant::NoLimit,
            Either::Limited(_) => Variant::Limited,
            Either::Done => Variant::Done,
        }
    }

    /// Takes the state out. Nothing is left in its place.
    pub fn take(&mut self) -> (taken: Self)
        ensures
            taken == *old(self),
            *final(self) == Self::Done,
    {
        let mut taken: Self = Either::Done;
        std::mem::swap(self, &mut taken);
        taken
    }

    /// The launch of the state on `input`, which exists unless the state was
    /// taken out before.
    pub open spec fn launched<A, C>(self, input: A, context: C) -> Option<Launch<N, L, A, C>> {
        match self {
            Either::NoLimit(state) => Some(Launch::NoLimit(Ready { state, input, context })),
            Either::Limited(state) => Some(Launch::Limited(Ready { state, input, context })),
            Either::Done => None,
        }
    }

    /// Takes the state out, ready to continue with `input`.
    ///
    /// `RuntimeError` if the state was taken out before.
    pub fn launch<A, C, H: Host>(&mut self, input: A, context: C) -> (launched: Result<
        Launch<N, L, A, C>,
        PyError<H>,
    >)
        ensures
            match old(self).launched(input, context) {
                Some(launch) => launched == Ok::<Launch<N, L, A, C>, PyError<H>>(launch)
                    && *final(self) == Self::Done,
                None => crate::host::fails(launched, resumed_error()) && *final(self) == *old(self),
            },
    {
        match self.take() {
            Either::NoLimit(state) => Ok(Launch::NoLimit(Ready { state, input, context })),
            Either::Limited(state) => Ok(Launch::Limited(Ready { state, input, context })),
            Either::Done => Err(PyError::RuntimeError("Progress already resumed".to_owned())),
        }
    }
}

/// The exception for a state that was taken out before.
pub open spec fn resumed_error<H: Host>() -> ErrorView<H> {
    ErrorView::RuntimeError("Progress already resumed"@)
}

/// A state continues at most once: where it was taken out, nothing can be
/// launched, whatever the input.
pub proof fn launched_at_most_once<N, L, A, C>(left: Either<N, L>, input: A, context: C)
    ensures
        left is Done <==> left.launched(input, context) is None,
{
}

/// A state continues under the tracker that it waited under, with the input
/// that it was given.
pub proof fn launched_under_its_tracker<N, L, A, C>(
    state: Either<N, L>,
    input: A,
    context: C,
    launch: Launch<N, L, A, C>,
)
    requires
        state.launched(input, context) == Some(launch),
    ensures
        match launch {
            Launch::NoLimit(ready) => state == Either::<N, L>::NoLimit(ready.state) && ready.input
                == input && ready.context == context,
            Launch::Limited(ready) => state == Either::<N, L>::Limited(ready.state) && ready.input
                == input && ready.context == context,
        },
{
}

/// Whether two launches run on alike: both are refused with the same failure,
/// or the same state continues under the same tracker with the same input.
pub open spec fn runs_alike<N, L, A, C, E>(
    one: Result<Launch<N, L, A, C>, E>,
    other: Result<Launch<N, L, A, C>, E>,
) -> bool {
    match (one, other) {
        (Ok(Launch::NoLimit(one)), Ok(Launch::NoLimit(other))) => one.state == other.state
            && one.input == other.input,
        (Ok(Launch::Limited(one)), Ok(Launch::Limited(other))) => one.state == other.state
            && one.input == other.input,
        (Err(one), Err(other)) => one == other,
        _ => false,
    }
}

/// A state is told by the tracker that it is under, and the variants are saved
/// by their positions, of which there are three.
pub proof fn variants_are_told_apart<N, L>(no_limit: N, limited: L)
    ensures
        Either::<N, L>::NoLimit(no_limit).spec_variant() == Variant::NoLimit,
        Either::<N, L>::Limited(limited).spec_variant() == Variant::Limited,
        Either::<N, L>::Done.spec_variant() == Variant::Done,
        variant_index(Variant::NoLimit) == 0,
        variant_index(Variant::Limited) == 1,
        variant_index(Variant::Done) == 2,
{
}

/// Every state that is there is launched under its tracker, itself, on the very
/// input and with the very context that are given.
pub proof fn every_state_is_launched<N, L, A, C>(no_limit: N, limited: L, input: A, context: C)
    ensures
        Either::<N, L>::NoLimit(no_limit).launched(input, context) == Some(
            Launch::<N, L, A, C>::NoLimit(Ready { state: no_limit, input, context }),
        ),
        Either::<N, L>::Limited(limited).launched(input, context) == Some(
            Launch::<N, L, A, C>::Limited(Ready { state: limited, input, context }),
        ),
        Either::<N, L>::Done.launched(input, context) is None,
{
}

} // verus!
