//! Where an execution stands after the interpreter has run, and the objects
//! in which the embedder receives it.
use std::sync::Arc;
use vstd::prelude::*;
use vstd::string::*;

use crate::future::PyMontyFutureSnapshot;
use crate::host::{raised, ErrorView, Host, PyError, Tracker};
use crate::object::MontyObject;
use crate::slot::{Either, EitherFutureSnapshot, EitherSnapshot, Pending, Variant};
use crate::snapshot::PyMontySnapshot;

verus! {

/// Where the interpreter stopped.
pub enum RunProgress<H: Host, T: Tracker> {
    /// The code ran to its end.
    Complete(MontyObject<H>),
    /// The code called a function of the embedder.
    FunctionCall {
        function_name: String,
        args: Vec<MontyObject<H>>,
        kwargs: Vec<(MontyObject<H>, MontyObject<H>)>,
        call_id: u32,
        /// The call is a method call on a dataclass, whose first argument is
        /// the instance.
        method_call: bool,
        state: T::Snapshot,
    },
    /// The code cannot go on before some futures are resolved.
    ResolveFutures(Pending<T::FutureSnapshot>),
    /// The code called a function of the operating system.
    OsCall {
        function: String,
        args: Vec<MontyObject<H>>,
        kwargs: Vec<(MontyObject<H>, MontyObject<H>)>,
        call_id: u32,
        state: T::Snapshot,
    },
}

/// Where the interpreter stopped, under either tracker.
pub enum EitherProgress<H: Host> {
    NoLimit(RunProgress<H, H::NoLimit>),
    Limited(RunProgress<H, H::Limited>),
}

/// What every stage of an execution passes on to the next one.
pub struct Context<H: Host> {
    pub script_name: String,
    pub print_callback: Option<Arc<H::Callback>>,
    pub dc_registry: Arc<H::Registry>,
}

/// The output of code that ran to its end, before it is converted with the
/// types of the registry.
pub struct Completion<H: Host> {
    pub output: MontyObject<H>,
    pub dc_registry: Arc<H::Registry>,
}

/// A call that waits for its answer, before its arguments are converted.
pub struct PendingCall<H: Host, S, C> {
    pub snapshot: S,
    pub context: C,
    pub is_os_function: bool,
    pub is_method_call: bool,
    pub function_name: String,
    pub args: Vec<MontyObject<H>>,
    pub kwargs: Vec<(MontyObject<H>, MontyObject<H>)>,
    pub call_id: u32,
}

/// How an execution goes on.
pub enum Suspension<H: Host> {
    Complete(Completion<H>),
    Call(PendingCall<H, EitherSnapshot<H>, Context<H>>),
    Futures(PyMontyFutureSnapshot<H>),
}

/// The result of code that ran to its end.
pub struct PyMontyComplete<H: Host> {
    pub output: H::Value,
}

/// What the embedder gets where `progress` stopped. It inherits `context`, and
/// a state goes into its place by `at_call` or `on_futures`.
pub open spec fn suspended_as<H: Host, T: Tracker>(
    progress: RunProgress<H, T>,
    context: Context<H>,
    at_call: spec_fn(T::Snapshot) -> EitherSnapshot<H>,
    on_futures: spec_fn(Pending<T::FutureSnapshot>) -> EitherFutureSnapshot<H>,
) -> Suspension<H> {
    match progress {
        RunProgress::Complete(output) => Suspension::Complete(
            Completion { output, dc_registry: context.dc_registry },
        ),
        RunProgress::FunctionCall { function_name, args, kwargs, call_id, method_call, state } => {
            Suspension::Call(
                PendingCall {
                    snapshot: at_call(state),
                    context,
                    is_os_function: false,
                    is_method_call: method_call,
                    function_name,
                    args,
                    kwargs,
                    call_id,
                },
            )
        },
        RunProgress::ResolveFutures(pending) => Suspension::Futures(
            PyMontyFutureSnapshot {
                snapshot: on_futures(pending),
                print_callback: context.print_callback,
                dc_registry: context.dc_registry,
                script_name: context.script_name,
            },
        ),
        RunProgress::OsCall { function, args, kwargs, call_id, state } => Suspension::Call(
            PendingCall {
                snapshot: at_call(state),
                context,
                is_os_function: true,
                is_method_call: false,
                function_name: function,
                args,
                kwargs,
                call_id,
            },
        ),
    }
}

/// What the embedder gets where `progress` stopped. It inherits `context`, and
/// a state waits under the tracker that it ran under.
pub open spec fn suspended<H: Host>(progress: EitherProgress<H>, context: Context<H>) -> Suspension<
    H,
> {
    match progress {
        EitherProgress::NoLimit(progress) => suspended_as(
            progress,
            context,
            |state: <H::NoLimit as Tracker>::Snapshot| Either::NoLimit(state),
            |pending: Pending<<H::NoLimit as Tracker>::FutureSnapshot>| Either::NoLimit(pending),
        ),
        EitherProgress::Limited(progress) => suspended_as(
            progress,
            context,
            |state: <H::Limited as Tracker>::Snapshot| Either::Limited(state),
            |pending: Pending<<H::Limited as Tracker>::FutureSnapshot>| Either::Limited(pending),
        ),
    }
}

/// What the embedder gets after the interpreter has run.
pub open spec fn settled<H: Host>(
    ran: Result<EitherProgress<H>, H::Exception>,
    context: Context<H>,
) -> Result<Suspension<H>, ErrorView<H>> {
    match ran {
        Ok(progress) => Ok(suspended(progress, context)),
        Err(exception) => Err(ErrorView::Monty(exception)),
    }
}

impl<H: Host> EitherProgress<H> {
    /// Which tracker the execution ran under.
    pub open spec fn spec_variant(self) -> Variant {
        match self {
            EitherProgress::NoLimit(_) => Variant::NoLimit,
            EitherProgress::Limited(_) => Variant::Limited,
        }
    }

    /// Whether the code ran to its end.
    pub open spec fn is_complete(self) -> bool {
        match self {
            EitherProgress::NoLimit(progress) => progress is Complete,
            EitherProgress::Limited(progress) => progress is Complete,
        }
    }

    /// Turns the progress of the interpreter into what the embedder gets.
    pub fn progress_or_complete(self, context: Context<H>) -> (suspension: Suspension<H>)
        ensures
            suspension == suspended(self, context),
    {
        match self {
            EitherProgress::NoLimit(progress) => match progress {
                RunProgress::Complete(output) => Suspension::Complete(
                    Completion { output, dc_registry: context.dc_registry },
                ),
                RunProgress::FunctionCall {
                    function_name,
                    args,
                    kwargs,
                    call_id,
                    method_call,
                    state,
                } => Self::function_snapshot(
                    function_name,
                    args,
                    kwargs,
                    call_id,
                    method_call,
                    Either::NoLimit(state),
                    context,
                ),
                RunProgress::ResolveFutures(pending) => Self::future_snapshot(
                    Either::NoLimit(pending),
                    context,
                ),
                RunProgress::OsCall { function, args, kwargs, call_id, state } => {
                    Self::os_function_snapshot(
                        function,
                        args,
                        kwargs,
                        call_id,
                        Either::NoLimit(state),
                        context,
                    )
                },
            },
            EitherProgress::Limited(progress) => match progress {
                RunProgress::Complete(output) => Suspension::Complete(
                    Completion { output, dc_registry: context.dc_registry },
                ),
                RunProgress::FunctionCall {
                    function_name,
                    args,
                    kwargs,
                    call_id,
                    method_call,
                    state,
                } => Self::function_snapshot(
                    function_name,
                    args,
                    kwargs,
                    call_id,
                    method_call,
                    Either::Limited(state),
                    context,
                ),
                RunProgress::ResolveFutures(pending) => Self::future_snapshot(
                    Either::Limited(pending),
                    context,
                ),
                RunProgress::OsCall { function, args, kwargs, call_id, state } => {
                    Self::os_function_snapshot(
                        function,
                        args,
                        kwargs,
                        call_id,
                        Either::Limited(state),
                        context,
                    )
                },
            },
        }
    }

    /// A call of a function of the embedder.
    fn function_snapshot(
        function_name: String,
        args: Vec<MontyObject<H>>,
        kwargs: Vec<(MontyObject<H>, MontyObject<H>)>,
        call_id: u32,
        method_call: bool,
        snapshot: EitherSnapshot<H>,
        context: Context<H>,
    ) -> (suspension: Suspension<H>)
        ensures
            suspension == Suspension::<H>::Call(
                PendingCall {
                    snapshot,
                    context,
                    is_os_function: false,
                    is_method_call: method_call,
                    function_name,
                    args,
                    kwargs,
                    call_id,
                },
            ),
    {
        Suspension::Call(
            PendingCall {
                snapshot,
                context,
                is_os_function: false,
                is_method_call: method_call,
                function_name,
                args,
                kwargs,
                call_id,
            },
        )
    }

    /// A call of a function of the operating system.
    fn os_function_snapshot(
        function: String,
        args: Vec<MontyObject<H>>,
        kwargs: Vec<(MontyObject<H>, MontyObject<H>)>,
        call_id: u32,
        snapshot: EitherSnapshot<H>,
        context: Context<H>,
    ) -> (suspension: Suspension<H>)
        ensures
            suspension == Suspension::<H>::Call(
                PendingCall {
                    snapshot,
                    context,
                    is_os_function: true,
                    is_method_call: false,
                    function_name: function,
                    args,
                    kwargs,
                    call_id,
                },
            ),
    {
        Suspension::Call(
            PendingCall {
                snapshot,
                context,
                is_os_function: true,
                is_method_call: false,
                function_name: function,
                args,
                kwargs,
                call_id,
            },
        )
    }

    /// Code that waits for futures.
    fn future_snapshot(snapshot: EitherFutureSnapshot<H>, context: Context<H>) -> (suspension:
        Suspension<H>)
        ensures
            suspension == Suspension::<H>::Futures(
                PyMontyFutureSnapshot {
                    snapshot,
                    print_callback: context.print_callback,
                    dc_registry: context.dc_registry,
                    script_name: context.script_name,
                },
            ),
    {
        Suspension::Futures(
            PyMontyFutureSnapshot {
                snapshot,
                print_callback: context.print_callback,
                dc_registry: context.dc_registry,
                script_name: context.script_name,
            },
        )
    }
}

impl<H: Host> Context<H> {
    /// How an execution goes on after the interpreter has run.
    ///
    /// An exception of the interpreter is passed on.
    pub fn settle(self, ran: Result<EitherProgress<H>, H::Exception>) -> (result: Result<
        Suspension<H>,
        PyError<H>,
    >)
        ensures
            crate::host::outcome(result) == settled(ran, self),
    {
        match ran {
            Ok(progress) => Ok(progress.progress_or_complete(self)),
            Err(exception) => Err(PyError::Monty(exception)),
        }
    }
}

/// The converted arguments of a call, or the exception that converting them
/// raised. An exception from a keyword argument goes before one from a
/// positional argument.
pub open spec fn converted<H: Host>(
    args: Result<Vec<H::Value>, H::Error>,
    kwargs: Result<Vec<(H::Value, H::Value)>, H::Error>,
) -> Result<(Vec<H::Value>, Vec<(H::Value, H::Value)>), ErrorView<H>> {
    match (args, kwargs) {
        (_, Err(error)) => Err(ErrorView::Raised(error)),
        (Err(error), Ok(_)) => Err(ErrorView::Raised(error)),
        (Ok(args), Ok(kwargs)) => Ok((args, kwargs)),
    }
}

/// Puts the converted arguments of a call together.
pub fn convert_arguments<H: Host>(
    args: Result<Vec<H::Value>, H::Error>,
    kwargs: Result<Vec<(H::Value, H::Value)>, H::Error>,
) -> (result: Result<(Vec<H::Value>, Vec<(H::Value, H::Value)>), PyError<H>>)
    ensures
        crate::host::outcome(result) == converted::<H>(args, kwargs),
{
    let kwargs = raised::<_, H>(kwargs)?;
    let args = raised::<_, H>(args)?;
    Ok((args, kwargs))
}

impl<H: Host> PendingCall<H, EitherSnapshot<H>, Context<H>> {
    /// The object that the embedder gets for the call.
    pub open spec fn finished(
        self,
        args: Result<Vec<H::Value>, H::Error>,
        kwargs: Result<Vec<(H::Value, H::Value)>, H::Error>,
    ) -> Result<PyMontySnapshot<H>, ErrorView<H>> {
        match converted::<H>(args, kwargs) {
            Ok((args, kwargs)) => Ok(
                PyMontySnapshot {
                    snapshot: self.snapshot,
                    print_callback: self.context.print_callback,
                    dc_registry: self.context.dc_registry,
                    script_name: self.context.script_name,
                    is_os_function: self.is_os_function,
                    is_method_call: self.is_method_call,
                    function_name: self.function_name,
                    args,
                    kwargs,
                    call_id: self.call_id,
                },
            ),
            Err(error) => Err(error),
        }
    }

    /// The object that the embedder gets for the call, given its converted
    /// arguments.
    ///
    /// An exception that converting an argument raised is passed on.
    pub fn finish(
        self,
        args: Result<Vec<H::Value>, H::Error>,
        kwargs: Result<Vec<(H::Value, H::Value)>, H::Error>,
    ) -> (result: Result<PyMontySnapshot<H>, PyError<H>>)
        ensures
            crate::host::outcome(result) == self.finished(args, kwargs),
            result matches Ok(snapshot) ==> snapshot.spec_context() == self.context,
    {
        let (args, kwargs) = convert_arguments::<H>(args, kwargs)?;
        Ok(
            PyMontySnapshot {
                snapshot: self.snapshot,
                print_callback: self.context.print_callback,
                dc_registry: self.context.dc_registry,
                script_name: self.context.script_name,
                is_os_function: self.is_os_function,
                is_method_call: self.is_method_call,
                function_name: self.function_name,
                args,
                kwargs,
                call_id: self.call_id,
            },
        )
    }
}

impl<H: Host> PyMontyComplete<H> {
    /// The object that the embedder gets for code that ran to its end, given
    /// its converted output.
    ///
    /// An exception that converting the output raised is passed on.
    pub fn create(output: Result<H::Value, H::Error>) -> (result: Result<Self, PyError<H>>)
        ensures
            crate::host::outcome(result) == match output {
                Ok(output) => Ok::<Self, ErrorView<H>>(PyMontyComplete { output }),
                Err(error) => Err(ErrorView::Raised(error)),
            },
    {
        Ok(PyMontyComplete { output: raised::<_, H>(output)? })
    }

    /// The printed form, given that of the output.
    pub fn repr(&self, output: Result<String, H::Error>) -> (result: Result<String, PyError<H>>)
        ensures
            match output {
                Ok(output) => result matches Ok(text) && text@ == "MontyComplete(output="@
                    + output@ + ")"@,
                Err(error) => crate::host::fails(result, ErrorView::Raised(error)),
            },
    {
        let output = raised::<_, H>(output)?;
        let mut text: String = "MontyComplete(output=".to_owned();
        text.append(output.as_str());
        text.append(")");
        Ok(text)
    }
}

/// The output of code that the interpreter ran in one go.
pub open spec fn output<H: Host>(ran: Result<MontyObject<H>, H::Exception>) -> Result<
    MontyObject<H>,
    ErrorView<H>,
> {
    match ran {
        Ok(output) => Ok(output),
        Err(exception) => Err(ErrorView::Monty(exception)),
    }
}

/// The output of code that the interpreter ran in one go.
///
/// An exception of the interpreter is passed on.
pub fn output_of<H: Host>(ran: Result<MontyObject<H>, H::Exception>) -> (result: Result<
    MontyObject<H>,
    PyError<H>,
>)
    ensures
        crate::host::outcome(result) == output::<H>(ran),
{
    match ran {
        Ok(output) => Ok(output),
        Err(exception) => Err(PyError::Monty(exception)),
    }
}

/// The limits of an execution do not change at a suspension: its state waits
/// under the tracker that it ran under.
pub proof fn tracker_is_kept<H: Host>(progress: EitherProgress<H>, context: Context<H>)
    ensures
        match suspended(progress, context) {
            Suspension::Complete(_) => true,
            Suspension::Call(call) => call.snapshot.spec_variant() == progress.spec_variant(),
            Suspension::Futures(futures) => futures.snapshot.spec_variant()
                == progress.spec_variant(),
        },
{
}

/// The name of the script, the print callback and the registry stay the same
/// from one stage of an execution to the next.
pub proof fn context_is_inherited<H: Host>(progress: EitherProgress<H>, context: Context<H>)
    ensures
        match suspended(progress, context) {
            Suspension::Complete(completion) => completion.dc_registry == context.dc_registry,
            Suspension::Call(call) => call.context == context,
            Suspension::Futures(futures) => futures.spec_context() == context,
        },
{
}

/// An execution has ended if and only if the interpreter ran the code to its
/// end; otherwise its state waits to be resumed.
pub proof fn suspended_unless_complete<H: Host>(progress: EitherProgress<H>, context: Context<H>)
    ensures
        match suspended(progress, context) {
            Suspension::Complete(_) => progress.is_complete(),
            Suspension::Call(call) => !progress.is_complete() && !(call.snapshot is Done),
            Suspension::Futures(futures) => !progress.is_complete() && !(futures.snapshot is Done),
        },
{
}

/// A call of a function of the embedder is shown as it was made: the snapshot that the
/// embedder gets has its name, its identifier, and its arguments as they were
/// converted, is a method call if and only if it was one, keeps the state under
/// its tracker, and inherits the context. A keyword argument that cannot be
/// converted is reported before a positional one.
pub proof fn function_call_is_shown<H: Host>(
    context: Context<H>,
    function_name: String,
    args: Vec<MontyObject<H>>,
    kwargs: Vec<(MontyObject<H>, MontyObject<H>)>,
    call_id: u32,
    method_call: bool,
    limited: bool,
    no_limit_state: <H::NoLimit as Tracker>::Snapshot,
    limited_state: <H::Limited as Tracker>::Snapshot,
    converted_args: Result<Vec<H::Value>, H::Error>,
    converted_kwargs: Result<Vec<(H::Value, H::Value)>, H::Error>,
)
    ensures
        ({
            let progress = if limited {
                EitherProgress::Limited(
                    RunProgress::FunctionCall {
                        function_name,
                        args,
                        kwargs,
                        call_id,
                        method_call,
                        state: limited_state,
                    },
                )
            } else {
                EitherProgress::NoLimit(
                    RunProgress::FunctionCall {
                        function_name,
                        args,
                        kwargs,
                        call_id,
                        method_call,
                        state: no_limit_state,
                    },
                )
            };
            &&& suspended(progress, context) matches Suspension::Call(call)
            &&& call.args == args
            &&& call.kwargs == kwargs
            &&& match (converted_args, converted_kwargs) {
                (_, Err(error)) => call.finished(converted_args, converted_kwargs) == Err::<
                    PyMontySnapshot<H>,
                    ErrorView<H>,
                >(ErrorView::Raised(error)),
                (Err(error), Ok(_)) => call.finished(converted_args, converted_kwargs) == Err::<
                    PyMontySnapshot<H>,
                    ErrorView<H>,
                >(ErrorView::Raised(error)),
                (Ok(shown_args), Ok(shown_kwargs)) => {
                    &&& call.finished(converted_args, converted_kwargs) matches Ok(snapshot)
                    &&& snapshot.snapshot == if limited {
                        Either::Limited(limited_state)
                    } else {
                        Either::NoLimit(no_limit_state)
                    }
                    &&& snapshot.is_os_function == false
                    &&& snapshot.is_method_call == method_call
                    &&& snapshot.function_name == function_name
                    &&& snapshot.args == shown_args
                    &&& snapshot.kwargs == shown_kwargs
                    &&& snapshot.call_id == call_id
                    &&& snapshot.script_name == context.script_name
                    &&& snapshot.print_callback == context.print_callback
                    &&& snapshot.dc_registry == context.dc_registry
                },
            }
        }),
{
}

/// A call of a function of the operating system is shown as it was made: the snapshot that the
/// embedder gets has its name, its identifier, and its arguments as they were
/// converted, is marked as such and as no method call, keeps the state under
/// its tracker, and inherits the context. A keyword argument that cannot be
/// converted is reported before a positional one.
pub proof fn os_call_is_shown<H: Host>(
    context: Context<H>,
    function_name: String,
    args: Vec<MontyObject<H>>,
    kwargs: Vec<(MontyObject<H>, MontyObject<H>)>,
    call_id: u32,
    limited: bool,
    no_limit_state: <H::NoLimit as Tracker>::Snapshot,
    limited_state: <H::Limited as Tracker>::Snapshot,
    converted_args: Result<Vec<H::Value>, H::Error>,
    converted_kwargs: Result<Vec<(H::Value, H::Value)>, H::Error>,
)
    ensures
        ({
            let progress = if limited {
                EitherProgress::Limited(
                    RunProgress::OsCall {
                        function: function_name,
                        args,
                        kwargs,
                        call_id,
                        state: limited_state,
                    },
                )
            } else {
                EitherProgress::NoLimit(
                    RunProgress::OsCall {
                        function: function_name,
                        args,
                        kwargs,
                        call_id,
                        state: no_limit_state,
                    },
                )
            };
            &&& suspended(progress, context) matches Suspension::Call(call)
            &&& call.args == args
            &&& call.kwargs == kwargs
            &&& match (converted_args, converted_kwargs) {
                (_, Err(error)) => call.finished(converted_args, converted_kwargs) == Err::<
                    PyMontySnapshot<H>,
                    ErrorView<H>,
                >(ErrorView::Raised(error)),
                (Err(error), Ok(_)) => call.finished(converted_args, converted_kwargs) == Err::<
                    PyMontySnapshot<H>,
                    ErrorView<H>,
                >(ErrorView::Raised(error)),
                (Ok(shown_args), Ok(shown_kwargs)) => {
                    &&& call.finished(converted_args, converted_kwargs) matches Ok(snapshot)
                    &&& snapshot.snapshot == if limited {
                        Either::Limited(limited_state)
                    } else {
                        Either::NoLimit(no_limit_state)
                    }
                    &&& snapshot.is_os_function == true
                    &&& snapshot.is_method_call == false
                    &&& snapshot.function_name == function_name
                    &&& snapshot.args == shown_args
                    &&& snapshot.kwargs == shown_kwargs
                    &&& snapshot.call_id == call_id
                    &&& snapshot.script_name == context.script_name
                    &&& snapshot.print_callback == context.print_callback
                    &&& snapshot.dc_registry == context.dc_registry
                },
            }
        }),
{
}

/// Where the code waits for futures, the embedder gets the waiting state under its
/// tracker, and what it gets inherits the context.
pub proof fn futures_are_shown<H: Host>(
    context: Context<H>,
    no_limit: Pending<<H::NoLimit as Tracker>::FutureSnapshot>,
    limited: Pending<<H::Limited as Tracker>::FutureSnapshot>,
)
    ensures
        suspended(EitherProgress::NoLimit(RunProgress::ResolveFutures(no_limit)), context) matches
            Suspension::Futures(futures) && {
            &&& futures.snapshot == EitherFutureSnapshot::<H>::NoLimit(no_limit)
            &&& futures.script_name == context.script_name
            &&& futures.print_callback == context.print_callback
            &&& futures.dc_registry == context.dc_registry
        },
        suspended(EitherProgress::Limited(RunProgress::ResolveFutures(limited)), context) matches
            Suspension::Futures(futures) && {
            &&& futures.snapshot == EitherFutureSnapshot::<H>::Limited(limited)
            &&& futures.script_name == context.script_name
            &&& futures.print_callback == context.print_callback
            &&& futures.dc_registry == context.dc_registry
        },
{
}


/// Where the code ran to its end, the embedder gets its output, to be converted
/// with the registry of the execution; where it raised, the exception. Code that
/// was run in one go gives its output or its exception as well.
pub proof fn ends_are_reported<H: Host>(
    context: Context<H>,
    value: MontyObject<H>,
    exception: H::Exception,
    progress: EitherProgress<H>,
)
    ensures
        settled(Ok(EitherProgress::NoLimit(RunProgress::Complete(value))), context) == Ok::<
            Suspension<H>,
            ErrorView<H>,
        >(Suspension::Complete(Completion { output: value, dc_registry: context.dc_registry })),
        settled(Ok(EitherProgress::Limited(RunProgress::Complete(value))), context) == Ok::<
            Suspension<H>,
            ErrorView<H>,
        >(Suspension::Complete(Completion { output: value, dc_registry: context.dc_registry })),
        settled(Ok(progress), context) == Ok::<Suspension<H>, ErrorView<H>>(
            suspended(progress, context),
        ),
        settled(Err(exception), context) == Err::<Suspension<H>, ErrorView<H>>(
            ErrorView::Monty(exception),
        ),
        output::<H>(Ok(value)) == Ok::<MontyObject<H>, ErrorView<H>>(value),
        output::<H>(Err(exception)) == Err::<MontyObject<H>, ErrorView<H>>(
            ErrorView::Monty(exception),
        ),
{
}

} // verus!
