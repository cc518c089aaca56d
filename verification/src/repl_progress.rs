//! Where a REPL snippet stands after the interpreter has run, and the objects
//! in which the embedder receives it.
use std::sync::Arc;
use vstd::prelude::*;

use crate::host::{ErrorView, Host, PyError, Tracker};
use crate::object::MontyObject;
use crate::progress::{Completion, PendingCall};
use crate::repl::PyMontyRepl;
use crate::repl_snapshot::{PyMontyReplFutureSnapshot, PyMontyReplSnapshot};
use crate::slot::{
    Either, EitherRepl, EitherReplFutureSnapshot, EitherReplSnapshot, Pending, Variant,
};

verus! {

/// Where the interpreter stopped in a snippet.
pub enum ReplProgress<H: Host, T: Tracker> {
    /// The snippet ran to its end and gives the session back.
    Complete { repl: T::Repl, value: MontyObject<H> },
    /// The snippet called a function of the embedder.
    FunctionCall {
        function_name: String,
        args: Vec<MontyObject<H>>,
        kwargs: Vec<(MontyObject<H>, MontyObject<H>)>,
        call_id: u32,
        /// The call is a method call on a dataclass, whose first argument is
        /// the instance.
        method_call: bool,
        state: T::ReplSnapshot,
    },
    /// The snippet cannot go on before some futures are resolved.
    ResolveFutures(Pending<T::ReplFutureSnapshot>),
    /// The snippet called a function of the operating system.
    OsCall {
        function: String,
        args: Vec<MontyObject<H>>,
        kwargs: Vec<(MontyObject<H>, MontyObject<H>)>,
        call_id: u32,
        state: T::ReplSnapshot,
    },
}

/// A snippet that raised: the exception, and the session as it is after it.
pub struct ReplStartError<H: Host, T: Tracker> {
    pub repl: T::Repl,
    pub error: H::Exception,
}

/// Where the interpreter stopped in a snippet, under either tracker.
pub enum EitherReplProgress<H: Host> {
    NoLimit(ReplProgress<H, H::NoLimit>),
    Limited(ReplProgress<H, H::Limited>),
}

/// A snippet that raised, under either tracker.
pub enum EitherReplStartError<H: Host> {
    NoLimit(ReplStartError<H, H::NoLimit>),
    Limited(ReplStartError<H, H::Limited>),
}

/// What running a snippet came to.
pub enum StartOutcome<H: Host> {
    Progress(EitherReplProgress<H>),
    Error(EitherReplStartError<H>),
}

/// What every stage of a snippet passes on to the next one.
pub struct ReplContext<H: Host> {
    pub script_name: String,
    pub print_callback: Option<Arc<H::Callback>>,
    pub dc_registry: Arc<H::Registry>,
    /// The object that owns the session.
    pub py_repl: Arc<H::ReplHandle>,
}

/// How a snippet goes on.
pub enum ReplSuspension<H: Host> {
    Complete(Completion<H>),
    Call(PendingCall<H, EitherReplSnapshot<H>, ReplContext<H>>),
    Futures(PyMontyReplFutureSnapshot<H>),
}

/// What the embedder gets where `progress` stopped, and the owner of the
/// session after it, which was `owner` before. The former inherits `context`;
/// the latter has the session back if the snippet ran to its end and is
/// unchanged otherwise. States go into their places by `at_rest`, `at_call` and
/// `on_futures`.
pub open spec fn repl_suspended_as<H: Host, T: Tracker>(
    progress: ReplProgress<H, T>,
    context: ReplContext<H>,
    owner: PyMontyRepl<H>,
    at_rest: spec_fn(T::Repl) -> EitherRepl<H>,
    at_call: spec_fn(T::ReplSnapshot) -> EitherReplSnapshot<H>,
    on_futures: spec_fn(Pending<T::ReplFutureSnapshot>) -> EitherReplFutureSnapshot<H>,
) -> (ReplSuspension<H>, PyMontyRepl<H>) {
    match progress {
        ReplProgress::Complete { repl, value } => (
            ReplSuspension::Complete(
                Completion { output: value, dc_registry: context.dc_registry },
            ),
            PyMontyRepl { repl: at_rest(repl), ..owner },
        ),
        ReplProgress::FunctionCall { function_name, args, kwargs, call_id, method_call, state } => (
            ReplSuspension::Call(
                PendingCall {
                    snapshot: at_call(state),
                    context,
                    is_os_function: false,
                    is_method_call: method_call,
                    function_name,
                    args,
                    kwargs,
                    call_id,
                },
            ),
            owner,
        ),
        ReplProgress::ResolveFutures(pending) => (
            ReplSuspension::Futures(
                PyMontyReplFutureSnapshot {
                    snapshot: on_futures(pending),
                    print_callback: context.print_callback,
                    dc_registry: context.dc_registry,
                    py_repl: context.py_repl,
                    script_name: context.script_name,
                },
            ),
            owner,
        ),
        ReplProgress::OsCall { function, args, kwargs, call_id, state } => (
            ReplSuspension::Call(
                PendingCall {
                    snapshot: at_call(state),
                    context,
                    is_os_function: true,
                    is_method_call: false,
                    function_name: function,
                    args,
                    kwargs,
                    call_id,
                },
            ),
            owner,
        ),
    }
}

/// What the embedder gets where `progress` stopped, and the owner of the
/// session after it, which was `owner` before. States wait, and go back, under
/// the tracker that they ran under.
pub open spec fn repl_suspended<H: Host>(
    progress: EitherReplProgress<H>,
    context: ReplContext<H>,
    owner: PyMontyRepl<H>,
) -> (ReplSuspension<H>, PyMontyRepl<H>) {
    match progress {
        EitherReplProgress::NoLimit(progress) => repl_suspended_as(
            progress,
            context,
            owner,
            |repl: <H::NoLimit as Tracker>::Repl| Either::NoLimit(repl),
            |state: <H::NoLimit as Tracker>::ReplSnapshot| Either::NoLimit(state),
            |pending: Pending<<H::NoLimit as Tracker>::ReplFutureSnapshot>|
                Either::NoLimit(pending),
        ),
        EitherReplProgress::Limited(progress) => repl_suspended_as(
            progress,
            context,
            owner,
            |repl: <H::Limited as Tracker>::Repl| Either::Limited(repl),
            |state: <H::Limited as Tracker>::ReplSnapshot| Either::Limited(state),
            |pending: Pending<<H::Limited as Tracker>::ReplFutureSnapshot>|
                Either::Limited(pending),
        ),
    }
}

/// What the embedder gets after the interpreter has run a snippet, and the
/// owner of the session after it, which was `owner` before.
pub open spec fn repl_settled<H: Host>(
    outcome: StartOutcome<H>,
    context: ReplContext<H>,
    owner: PyMontyRepl<H>,
) -> (Result<ReplSuspension<H>, ErrorView<H>>, PyMontyRepl<H>) {
    match outcome {
        StartOutcome::Progress(progress) => {
            let (suspension, after) = repl_suspended(progress, context, owner);
            (Ok(suspension), after)
        },
        StartOutcome::Error(error) => (
            Err(ErrorView::Monty(error.spec_error())),
            PyMontyRepl { repl: error.spec_repl(), ..owner },
        ),
    }
}

impl<H: Host> EitherReplProgress<H> {
    /// Which tracker the snippet ran under.
    pub open spec fn spec_variant(self) -> Variant {
        match self {
            EitherReplProgress::NoLimit(_) => Variant::NoLimit,
            EitherReplProgress::Limited(_) => Variant::Limited,
        }
    }

    /// Whether the snippet ran to its end.
    pub open spec fn is_complete(self) -> bool {
        match self {
            EitherReplProgress::NoLimit(progress) => progress is Complete,
            EitherReplProgress::Limited(progress) => progress is Complete,
        }
    }

    /// Turns the progress of the interpreter into what the embedder gets. The
    /// session of a snippet that ran to its end goes back to its owner.
    pub fn progress_or_complete(self, context: ReplContext<H>, py_repl: &mut PyMontyRepl<H>) -> (
    suspension: ReplSuspension<H>)
        ensures
            (suspension, *final(py_repl)) == repl_suspended(self, context, *old(py_repl)),
    {
        match self {
            EitherReplProgress::NoLimit(progress) => match progress {
                ReplProgress::Complete { repl, value } => {
                    py_repl.repl = Either::NoLimit(repl);
                    ReplSuspension::Complete(
                        Completion { output: value, dc_registry: context.dc_registry },
                    )
                },
                ReplProgress::FunctionCall {
                    function_name,
                    args,
                    kwargs,
                    call_id,
                    method_call,
                    state,
                } => Self::function_snapshot(
                    function_name,
                    args,
                    kwargs,
                    call_id,
                    method_call,
                    Either::NoLimit(state),
                    context,
                ),
                ReplProgress::ResolveFutures(pending) => Self::future_snapshot(
                    Either::NoLimit(pending),
                    context,
                ),
                ReplProgress::OsCall { function, args, kwargs, call_id, state } => {
                    Self::os_function_snapshot(
                        function,
                        args,
                        kwargs,
                        call_id,
                        Either::NoLimit(state),
                        context,
                    )
                },
            },
            EitherReplProgress::Limited(progress) => match progress {
                ReplProgress::Complete { repl, value } => {
                    py_repl.repl = Either::Limited(repl);
                    ReplSuspension::Complete(
                        Completion { output: value, dc_registry: context.dc_registry },
                    )
                },
                ReplProgress::FunctionCall {
                    function_name,
                    args,
                    kwargs,
                    call_id,
                    method_call,
                    state,
                } => Self::function_snapshot(
                    function_name,
                    args,
                    kwargs,
                    call_id,
                    method_call,
                    Either::Limited(state),
                    context,
                ),
                ReplProgress::ResolveFutures(pending) => Self::future_snapshot(
                    Either::Limited(pending),
                    context,
                ),
                ReplProgress::OsCall { function, args, kwargs, call_id, state } => {
                    Self::os_function_snapshot(
                        function,
                        args,
                        kwargs,
                        call_id,
                        Either::Limited(state),
                        context,
                    )
                },
            },
        }
    }

    /// A call of a function of the embedder.
    fn function_snapshot(
        function_name: String,
        args: Vec<MontyObject<H>>,
        kwargs: Vec<(MontyObject<H>, MontyObject<H>)>,
        call_id: u32,
        method_call: bool,
        snapshot: EitherReplSnapshot<H>,
        context: ReplContext<H>,
    ) -> (suspension: ReplSuspension<H>)
        ensures
            suspension == ReplSuspension::<H>::Call(
                PendingCall {
                    snapshot,
                    context,
                    is_os_function: false,
                    is_method_call: method_call,
                    function_name,
                    args,
                    kwargs,
                    call_id,
                },
            ),
    {
        ReplSuspension::Call(
            PendingCall {
                snapshot,
                context,
                is_os_function: false,
                is_method_call: method_call,
                function_name,
                args,
                kwargs,
                call_id,
            },
        )
    }

    /// A call of a function of the operating system.
    fn os_function_snapshot(
        function: String,
        args: Vec<MontyObject<H>>,
        kwargs: Vec<(MontyObject<H>, MontyObject<H>)>,
        call_id: u32,
        snapshot: EitherReplSnapshot<H>,
        context: ReplContext<H>,
    ) -> (suspension: ReplSuspension<H>)
        ensures
            suspension == ReplSuspension::<H>::Call(
                PendingCall {
                    snapshot,
                    context,
                    is_os_function: true,
                    is_method_call: false,
                    function_name: function,
                    args,
                    kwargs,
                    call_id,
                },
            ),
    {
        ReplSuspension::Call(
            PendingCall {
                snapshot,
                context,
                is_os_function: true,
                is_method_call: false,
                function_name: function,
                args,
                kwargs,
                call_id,
            },
        )
    }

    /// A snippet that waits for futures.
    fn future_snapshot(snapshot: EitherReplFutureSnapshot<H>, context: ReplContext<H>) -> (
    suspension: ReplSuspension<H>)
        ensures
            suspension == ReplSuspension::<H>::Futures(
                PyMontyReplFutureSnapshot {
                    snapshot,
                    print_callback: context.print_callback,
                    dc_registry: context.dc_registry,
                    py_repl: context.py_repl,
                    script_name: context.script_name,
                },
            ),
    {
        ReplSuspension::Futures(
            PyMontyReplFutureSnapshot {
                snapshot,
                print_callback: context.print_callback,
                dc_registry: context.dc_registry,
                py_repl: context.py_repl,
                script_name: context.script_name,
            },
        )
    }
}

impl<H: Host> EitherReplStartError<H> {
    /// The session that a snippet that raised gives back.
    pub open spec fn spec_repl(self) -> EitherRepl<H> {
        match self {
            EitherReplStartError::NoLimit(error) => Either::NoLimit(error.repl),
            EitherReplStartError::Limited(error) => Either::Limited(error.repl),
        }
    }

    /// What the snippet raised.
    pub open spec fn spec_error(self) -> H::Exception {
        match self {
            EitherReplStartError::NoLimit(error) => error.error,
            EitherReplStartError::Limited(error) => error.error,
        }
    }
}

impl<H: Host> ReplContext<H> {
    /// How a snippet goes on after the interpreter has run. The session goes
    /// back to its owner if the snippet ran to its end or raised.
    ///
    /// An exception of the interpreter is passed on.
    pub fn settle(self, outcome: StartOutcome<H>, py_repl: &mut PyMontyRepl<H>) -> (result: Result<
        ReplSuspension<H>,
        PyError<H>,
    >)
        ensures
            (crate::host::outcome(result), *final(py_repl)) == repl_settled(
                outcome,
                self,
                *old(py_repl),
            ),
    {
        match outcome {
            StartOutcome::Progress(progress) => Ok(progress.progress_or_complete(self, py_repl)),
            StartOutcome::Error(EitherReplStartError::NoLimit(error)) => {
                py_repl.repl = Either::NoLimit(error.repl);
                Err(PyError::Monty(error.error))
            },
            StartOutcome::Error(EitherReplStartError::Limited(error)) => {
                py_repl.repl = Either::Limited(error.repl);
                Err(PyError::Monty(error.error))
            },
        }
    }
}

impl<H: Host> PendingCall<H, EitherReplSnapshot<H>, ReplContext<H>> {
    /// The object that the embedder gets for the call.
    pub open spec fn finished(
        self,
        args: Result<Vec<H::Value>, H::Error>,
        kwargs: Result<Vec<(H::Value, H::Value)>, H::Error>,
    ) -> Result<PyMontyReplSnapshot<H>, ErrorView<H>> {
        match crate::progress::converted::<H>(args, kwargs) {
            Ok((args, kwargs)) => Ok(
                PyMontyReplSnapshot {
                    snapshot: self.snapshot,
                    print_callback: self.context.print_callback,
                    dc_registry: self.context.dc_registry,
                    py_repl: self.context.py_repl,
                    script_name: self.context.script_name,
                    is_os_function: self.is_os_function,
                    is_method_call: self.is_method_call,
                    function_name: self.function_name,
                    args,
                    kwargs,
                    call_id: self.call_id,
                },
            ),
            Err(error) => Err(error),
        }
    }

    /// The object that the embedder gets for the call, given its converted
    /// arguments.
    ///
    /// An exception that converting an argument raised is passed on.
    pub fn finish(
        self,
        args: Result<Vec<H::Value>, H::Error>,
        kwargs: Result<Vec<(H::Value, H::Value)>, H::Error>,
    ) -> (result: Result<PyMontyReplSnapshot<H>, PyError<H>>)
        ensures
            crate::host::outcome(result) == self.finished(args, kwargs),
            result matches Ok(snapshot) ==> snapshot.spec_context() == self.context,
    {
        let (args, kwargs) = crate::progress::convert_arguments::<H>(args, kwargs)?;
        Ok(
            PyMontyReplSnapshot {
                snapshot: self.snapshot,
                print_callback: self.context.print_callback,
                dc_registry: self.context.dc_registry,
                py_repl: self.context.py_repl,
                script_name: self.context.script_name,
                is_os_function: self.is_os_function,
                is_method_call: self.is_method_call,
                function_name: self.function_name,
                args,
                kwargs,
                call_id: self.call_id,
            },
        )
    }
}

impl<H: Host> ReplSuspension<H> {
    /// Whether the session waits inside of the suspension.
    pub open spec fn holds_session(self) -> bool {
        match self {
            ReplSuspension::Complete(_) => false,
            ReplSuspension::Call(call) => !(call.snapshot is Done),
            ReplSuspension::Futures(futures) => !(futures.snapshot is Done),
        }
    }
}

/// A session is in one place. While a snippet is under way its owner does not
/// have it; when the interpreter stops, either the suspension holds it, or the
/// snippet has run to its end and the owner has it back, never both and never
/// neither. Nothing else of the owner changes.
pub proof fn session_is_in_one_place<H: Host>(
    progress: EitherReplProgress<H>,
    context: ReplContext<H>,
    owner: PyMontyRepl<H>,
)
    requires
        owner.repl is Done,
    ensures
        ({
            let (suspension, after) = repl_suspended(progress, context, owner);
            &&& suspension.holds_session() <==> after.repl is Done
            &&& suspension.holds_session() <==> !progress.is_complete()
            &&& after == PyMontyRepl { repl: after.repl, ..owner }
        }),
{
}

/// The limits of a session do not change while a snippet runs: it waits, and it
/// goes back to its owner, under the tracker that it ran under.
pub proof fn session_tracker_is_kept<H: Host>(
    progress: EitherReplProgress<H>,
    context: ReplContext<H>,
    owner: PyMontyRepl<H>,
)
    ensures
        ({
            let (suspension, after) = repl_suspended(progress, context, owner);
            match suspension {
                ReplSuspension::Complete(_) => after.repl.spec_variant() == progress.spec_variant(),
                ReplSuspension::Call(call) => call.snapshot.spec_variant()
                    == progress.spec_variant(),
                ReplSuspension::Futures(futures) => futures.snapshot.spec_variant()
                    == progress.spec_variant(),
            }
        }),
{
}

/// The name of the script, the print callback, the registry and the owner of
/// the session stay the same from one stage of a snippet to the next.
pub proof fn repl_context_is_inherited<H: Host>(
    progress: EitherReplProgress<H>,
    context: ReplContext<H>,
    owner: PyMontyRepl<H>,
)
    ensures
        match repl_suspended(progress, context, owner).0 {
            ReplSuspension::Complete(completion) => completion.dc_registry == context.dc_registry,
            ReplSuspension::Call(call) => call.context == context,
            ReplSuspension::Futures(futures) => futures.spec_context() == context,
        },
{
}

/// A snippet that raised gives the session back, under the tracker that it ran
/// under, so that the next snippet can be fed.
pub proof fn session_survives_exception<H: Host>(error: EitherReplStartError<H>)
    ensures
        !(error.spec_repl() is Done),
        error.spec_repl().spec_variant() == match error {
            EitherReplStartError::NoLimit(_) => Variant::NoLimit,
            EitherReplStartError::Limited(_) => Variant::Limited,
        },
{
}

/// A call of a function of the embedder is shown as it was made: the snapshot that the
/// embedder gets has its name, its identifier, and its arguments as they were
/// converted, is a method call if and only if it was one, keeps the state under
/// its tracker, and inherits the context. A keyword argument that cannot be
/// converted is reported before a positional one.
/// The owner of the session is unchanged.
pub proof fn snippet_function_call_is_shown<H: Host>(
    context: ReplContext<H>,
    owner: PyMontyRepl<H>,
    function_name: String,
    args: Vec<MontyObject<H>>,
    kwargs: Vec<(MontyObject<H>, MontyObject<H>)>,
    call_id: u32,
    method_call: bool,
    limited: bool,
    no_limit_state: <H::NoLimit as Tracker>::ReplSnapshot,
    limited_state: <H::Limited as Tracker>::ReplSnapshot,
    converted_args: Result<Vec<H::Value>, H::Error>,
    converted_kwargs: Result<Vec<(H::Value, H::Value)>, H::Error>,
)
    ensures
        ({
            let progress = if limited {
                EitherReplProgress::Limited(
                    ReplProgress::FunctionCall {
                        function_name,
                        args,
                        kwargs,
                        call_id,
                        method_call,
                        state: limited_state,
                    },
                )
            } else {
                EitherReplProgress::NoLimit(
                    ReplProgress::FunctionCall {
                        function_name,
                        args,
                        kwargs,
                        call_id,
                        method_call,
                        state: no_limit_state,
                    },
                )
            };
            &&& repl_suspended(progress, context, owner).1 == owner
            &&& repl_suspended(progress, context, owner).0 matches ReplSuspension::Call(call)
            &&& call.args == args
            &&& call.kwargs == kwargs
            &&& match (converted_args, converted_kwargs) {
                (_, Err(error)) => call.finished(converted_args, converted_kwargs) == Err::<
                    PyMontyReplSnapshot<H>,
                    ErrorView<H>,
                >(ErrorView::Raised(error)),
                (Err(error), Ok(_)) => call.finished(converted_args, converted_kwargs) == Err::<
                    PyMontyReplSnapshot<H>,
                    ErrorView<H>,
                >(ErrorView::Raised(error)),
                (Ok(shown_args), Ok(shown_kwargs)) => {
                    &&& call.finished(converted_args, converted_kwargs) matches Ok(snapshot)
                    &&& snapshot.snapshot == if limited {
                        Either::Limited(limited_state)
                    } else {
                        Either::NoLimit(no_limit_state)
                    }
                    &&& snapshot.is_os_function == false
                    &&& snapshot.is_method_call == method_call
                    &&& snapshot.function_name == function_name
                    &&& snapshot.args == shown_args
                    &&& snapshot.kwargs == shown_kwargs
                    &&& snapshot.call_id == call_id
                    &&& snapshot.script_name == context.script_name
                    &&& snapshot.print_callback == context.print_callback
                    &&& snapshot.dc_registry == context.dc_registry
                    &&& snapshot.py_repl == context.py_repl
                },
            }
        }),
{
}

/// A call of a function of the operating system is shown as it was made: the snapshot that the
/// embedder gets has its name, its identifier, and its arguments as they were
/// converted, is marked as such and as no method call, keeps the state under
/// its tracker, and inherits the context. A keyword argument that cannot be
/// converted is reported before a positional one.
/// The owner of the session is unchanged.
pub proof fn snippet_os_call_is_shown<H: Host>(
    context: ReplContext<H>,
    owner: PyMontyRepl<H>,
    function_name: String,
    args: Vec<MontyObject<H>>,
    kwargs: Vec<(MontyObject<H>, MontyObject<H>)>,
    call_id: u32,
    limited: bool,
    no_limit_state: <H::NoLimit as Tracker>::ReplSnapshot,
    limited_state: <H::Limited as Tracker>::ReplSnapshot,
    converted_args: Result<Vec<H::Value>, H::Error>,
    converted_kwargs: Result<Vec<(H::Value, H::Value)>, H::Error>,
)
    ensures
        ({
            let progress = if limited {
                EitherReplProgress::Limited(
                    ReplProgress::OsCall {
                        function: function_name,
                        args,
                        kwargs,
                        call_id,
                        state: limited_state,
                    },
                )
            } else {
                EitherReplProgress::NoLimit(
                    ReplProgress::OsCall {
                        function: function_name,
                        args,
                        kwargs,
                        call_id,
                        state: no_limit_state,
                    },
                )
            };
            &&& repl_suspended(progress, context, owner).1 == owner
            &&& repl_suspended(progress, context, owner).0 matches ReplSuspension::Call(call)
            &&& call.args == args
            &&& call.kwargs == kwargs
            &&& match (converted_args, converted_kwargs) {
                (_, Err(error)) => call.finished(converted_args, converted_kwargs) == Err::<
                    PyMontyReplSnapshot<H>,
                    ErrorView<H>,
                >(ErrorView::Raised(error)),
                (Err(error), Ok(_)) => call.finished(converted_args, converted_kwargs) == Err::<
                    PyMontyReplSnapshot<H>,
                    ErrorView<H>,
                >(ErrorView::Raised(error)),
                (Ok(shown_args), Ok(shown_kwargs)) => {
                    &&& call.finished(converted_args, converted_kwargs) matches Ok(snapshot)
                    &&& snapshot.snapshot == if limited {
                        Either::Limited(limited_state)
                    } else {
                        Either::NoLimit(no_limit_state)
                    }
                    &&& snapshot.is_os_function == true
                    &&& snapshot.is_method_call == false
                    &&& snapshot.function_name == function_name
                    &&& snapshot.args == shown_args
                    &&& snapshot.kwargs == shown_kwargs
                    &&& snapshot.call_id == call_id
                    &&& snapshot.script_name == context.script_name
                    &&& snapshot.print_callback == context.print_callback
                    &&& snapshot.dc_registry == context.dc_registry
                    &&& snapshot.py_repl == context.py_repl
                },
            }
        }),
{
}

/// Where a snippet waits for futures, the embedder gets the waiting state under its
/// tracker, and what it gets inherits the context. The owner of the session is
/// unchanged.
pub proof fn snippet_futures_are_shown<H: Host>(
    context: ReplContext<H>,
    owner: PyMontyRepl<H>,
    no_limit: Pending<<H::NoLimit as Tracker>::ReplFutureSnapshot>,
    limited: Pending<<H::Limited as Tracker>::ReplFutureSnapshot>,
)
    ensures
        ({
            let (suspension, after) = repl_suspended(
                EitherReplProgress::NoLimit(ReplProgress::ResolveFutures(no_limit)),
                context,
                owner,
            );
            &&& after == owner
            &&& suspension matches ReplSuspension::Futures(futures)
            &&& futures.snapshot == EitherReplFutureSnapshot::<H>::NoLimit(no_limit)
            &&& futures.script_name == context.script_name
            &&& futures.print_callback == context.print_callback
            &&& futures.dc_registry == context.dc_registry
            &&& futures.py_repl == context.py_repl
        }),
        ({
            let (suspension, after) = repl_suspended(
                EitherReplProgress::Limited(ReplProgress::ResolveFutures(limited)),
                context,
                owner,
            );
            &&& after == owner
            &&& suspension matches ReplSuspension::Futures(futures)
            &&& futures.snapshot == EitherReplFutureSnapshot::<H>::Limited(limited)
            &&& futures.script_name == context.script_name
            &&& futures.print_callback == context.print_callback
            &&& futures.dc_registry == context.dc_registry
            &&& futures.py_repl == context.py_repl
        }),
{
}


/// Where a snippet ran to its end, the embedder gets its value and the owner the
/// session; where it raised, the embedder gets the exception and the owner the
/// session as well. The session goes back under its tracker, and nothing else of
/// the owner changes.
pub proof fn snippet_ends_are_reported<H: Host>(
    context: ReplContext<H>,
    owner: PyMontyRepl<H>,
    value: MontyObject<H>,
    exception: H::Exception,
    no_limit: <H::NoLimit as Tracker>::Repl,
    limited: <H::Limited as Tracker>::Repl,
)
    ensures
        repl_settled(
            StartOutcome::Progress(
                EitherReplProgress::NoLimit(ReplProgress::Complete { repl: no_limit, value }),
            ),
            context,
            owner,
        ) == (
            Ok::<ReplSuspension<H>, ErrorView<H>>(
                ReplSuspension::Complete(
                    Completion { output: value, dc_registry: context.dc_registry },
                ),
            ),
            PyMontyRepl { repl: Either::NoLimit(no_limit), ..owner },
        ),
        repl_settled(
            StartOutcome::Progress(
                EitherReplProgress::Limited(ReplProgress::Complete { repl: limited, value }),
            ),
            context,
            owner,
        ) == (
            Ok::<ReplSuspension<H>, ErrorView<H>>(
                ReplSuspension::Complete(
                    Completion { output: value, dc_registry: context.dc_registry },
                ),
            ),
            PyMontyRepl { repl: Either::Limited(limited), ..owner },
        ),
        repl_settled(
            StartOutcome::Error(
                EitherReplStartError::NoLimit(ReplStartError { repl: no_limit, error: exception }),
            ),
            context,
            owner,
        ) == (
            Err::<ReplSuspension<H>, ErrorView<H>>(ErrorView::Monty(exception)),
            PyMontyRepl { repl: Either::NoLimit(no_limit), ..owner },
        ),
        repl_settled(
            StartOutcome::Error(
                EitherReplStartError::Limited(ReplStartError { repl: limited, error: exception }),
            ),
            context,
            owner,
        ) == (
            Err::<ReplSuspension<H>, ErrorView<H>>(ErrorView::Monty(exception)),
            PyMontyRepl { repl: Either::Limited(limited), ..owner },
        ),
{
}

/// How a snippet goes on is what it stopped at: settling passes every suspension
/// on as it is, with the owner of the session as it is then.
pub proof fn stops_are_passed_on<H: Host>(
    progress: EitherReplProgress<H>,
    context: ReplContext<H>,
    owner: PyMontyRepl<H>,
)
    ensures
        repl_settled(StartOutcome::Progress(progress), context, owner) == (
            Ok::<ReplSuspension<H>, ErrorView<H>>(repl_suspended(progress, context, owner).0),
            repl_suspended(progress, context, owner).1,
        ),
{
}

} // verus!
