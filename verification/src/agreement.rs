//! The ways to run the same code agree.
//!
//! The interpreter can run code in one go or up to its next stop, and an
//! execution can be driven by `run` or by hand. Where the interpreter's own
//! outcomes agree, so does what the bindings make of them.
use std::sync::Arc;
use vstd::prelude::*;

use crate::external::{ExternalResult, ResultDict};
use crate::host::{ErrorView, Host, Tracker};
use crate::monty::PyMonty;
use crate::object::MontyObject;
use crate::progress::{Completion, Context, EitherProgress, RunProgress, Suspension};
use crate::repl::PyMontyRepl;
use crate::repl_progress::{
    EitherReplProgress, ReplContext, ReplProgress, ReplSuspension, StartOutcome,
};
use crate::run::{ActionView, Answerers, HostCall, OsCandidate, Path};
use crate::slot::{Either, EitherRepl, EitherSnapshot, Launch};

verus! {

/// Whether code that was run in one go and code that was run up to its first
/// stop came to the same: to the same output at its end or to the same
/// exception.
pub open spec fn came_to_the_same<H: Host, T: Tracker>(
    at_once: Result<MontyObject<H>, H::Exception>,
    stepwise: Result<RunProgress<H, T>, H::Exception>,
) -> bool {
    match (at_once, stepwise) {
        (Ok(output), Ok(RunProgress::Complete(completed))) => output == completed,
        (Err(exception), Err(raised)) => exception == raised,
        _ => false,
    }
}

/// Code that calls nothing gives the same on both paths of a run. A callback
/// for calls of the operating system sends a program that could be run in one go
/// on the iterative path, with the same code, inputs, limits and print callback;
/// where the interpreter comes to the same, so does the run, and the callback is
/// not called.
pub proof fn paths_agree<H: Host, T: Tracker>(
    program: PyMonty<H>,
    input_values: Vec<MontyObject<H>>,
    limits: Option<Result<H::Limits, H::Error>>,
    external_functions: bool,
    print_callback: Option<Arc<H::Callback>>,
    os: OsCandidate<H>,
    at_once: Result<MontyObject<H>, H::Exception>,
    stepwise: Result<RunProgress<H, T>, H::Exception>,
    answerers: Answerers,
)
    requires
        program.external_function_names@.len() == 0,
        !crate::object::any_has_dataclass(input_values@),
        os.callable,
        came_to_the_same(at_once, stepwise),
    ensures
        match (
            program.readied_run(input_values, limits, external_functions, print_callback, None),
            program.readied_run(
                input_values,
                limits,
                external_functions,
                print_callback,
                Some(os),
            ),
        ) {
            (Ok(direct), Ok(iterative)) => {
                &&& direct.path == Path::Direct
                &&& iterative.path == Path::Iterative
                &&& direct.runner == iterative.runner
                &&& direct.print_callback == iterative.print_callback
                &&& direct.input_values == iterative.input_values
                &&& direct.tracking == iterative.tracking
            },
            (Err(direct), Err(iterative)) => direct == iterative,
            _ => false,
        },
        crate::run::next_action(stepwise, answerers) == match crate::progress::output::<H>(
            at_once,
        ) {
            Ok(output) => Ok::<ActionView<H, T::Snapshot>, ErrorView<H>>(
                ActionView::Return(output),
            ),
            Err(error) => Err(error),
        },
{
}

/// Whether code that was run in one go and code that was started came to the
/// same.
pub open spec fn started_to_the_same<H: Host>(
    at_once: Result<MontyObject<H>, H::Exception>,
    started: Result<EitherProgress<H>, H::Exception>,
) -> bool {
    match started {
        Ok(EitherProgress::NoLimit(progress)) => came_to_the_same(at_once, Ok(progress)),
        Ok(EitherProgress::Limited(progress)) => came_to_the_same(at_once, Ok(progress)),
        Err(exception) => at_once == Err::<MontyObject<H>, H::Exception>(exception),
    }
}

/// Code that calls nothing gives the same whether it is run or started. Both
/// run the same code with the same inputs, limits and print callback, or are
/// refused alike; where the interpreter comes to the same, so do both: a started
/// program is complete with the output of the run, or fails with its exception.
pub proof fn start_agrees_with_run<H: Host>(
    program: PyMonty<H>,
    input_values: Vec<MontyObject<H>>,
    limits: Option<Result<H::Limits, H::Error>>,
    external_functions: bool,
    print_callback: Option<Arc<H::Callback>>,
    at_once: Result<MontyObject<H>, H::Exception>,
    started: Result<EitherProgress<H>, H::Exception>,
    context: Context<H>,
)
    requires
        started_to_the_same(at_once, started),
    ensures
        match (
            program.readied_run(input_values, limits, external_functions, print_callback, None),
            program.readied_start(input_values, limits, print_callback),
        ) {
            (Ok(run), Ok(start)) => {
                &&& run.runner == start.runner
                &&& run.input_values == start.input_values
                &&& run.tracking == start.tracking
                &&& run.print_callback == start.context.print_callback
            },
            (Err(run), Err(start)) => run == start,
            _ => false,
        },
        crate::progress::settled(started, context) == match crate::progress::output::<H>(at_once) {
            Ok(output) => Ok::<Suspension<H>, ErrorView<H>>(
                Suspension::Complete(Completion { output, dc_registry: context.dc_registry }),
            ),
            Err(error) => Err(error),
        },
{
}

/// Whether a snippet that was fed and a snippet that was started came to the
/// same: to the same value at its end or to the same exception, and to the same
/// session, which is `fed` after feeding.
pub open spec fn snippets_came_to_the_same<H: Host>(
    fed: EitherRepl<H>,
    value: Result<MontyObject<H>, H::Exception>,
    outcome: StartOutcome<H>,
) -> bool {
    match (value, outcome) {
        (
            Ok(value),
            StartOutcome::Progress(
                EitherReplProgress::NoLimit(ReplProgress::Complete { repl, value: completed }),
            ),
        ) => value == completed && fed == EitherRepl::<H>::NoLimit(repl),
        (
            Ok(value),
            StartOutcome::Progress(
                EitherReplProgress::Limited(ReplProgress::Complete { repl, value: completed }),
            ),
        ) => value == completed && fed == EitherRepl::<H>::Limited(repl),
        (Err(exception), StartOutcome::Error(error)) => exception == error.spec_error() && fed
            == error.spec_repl(),
        _ => false,
    }
}

/// A snippet that calls nothing gives the same whether it is fed or started.
/// Both print to the same callback; where the interpreter comes to the same,
/// the started snippet is complete with the value that feeding gives or fails
/// with its exception, and leaves the very session behind that feeding leaves,
/// so that every further snippet finds the same.
pub proof fn start_agrees_with_feed<H: Host>(
    session: PyMontyRepl<H>,
    print_callback: Option<Arc<H::Callback>>,
    py_repl: Arc<H::ReplHandle>,
    fed: EitherRepl<H>,
    value: Result<MontyObject<H>, H::Exception>,
    outcome: StartOutcome<H>,
)
    requires
        snippets_came_to_the_same(fed, value, outcome),
    ensures
        session.spec_context(print_callback, py_repl).print_callback == session.spec_callback(
            print_callback,
        ),
        ({
            let away = PyMontyRepl { repl: Either::Done, ..session };
            let context = session.spec_context(print_callback, py_repl);
            let (result, after) = crate::repl_progress::repl_settled(outcome, context, away);
            &&& result == match crate::progress::output::<H>(value) {
                Ok(output) => Ok::<ReplSuspension<H>, ErrorView<H>>(
                    ReplSuspension::Complete(
                        Completion { output, dc_registry: session.dc_registry },
                    ),
                ),
                Err(error) => Err(error),
            }
            &&& after == PyMontyRepl { repl: fed, ..session }
        }),
{
}

/// An interpreter and an embedder, each of which does the same whenever it is
/// asked the same.
#[verifier::reject_recursive_types(H)]
pub struct Play<H: Host> {
    /// Where the interpreter stops when a state continues with an answer.
    pub resume: spec_fn(EitherSnapshot<H>, ExternalResult<H>) -> Result<
        EitherProgress<H>,
        H::Exception,
    >,
    /// What an external function returns for its arguments.
    pub answer: spec_fn(
        Seq<char>,
        Vec<MontyObject<H>>,
        Vec<(MontyObject<H>, MontyObject<H>)>,
    ) -> MontyObject<H>,
    /// Positional arguments as the embedder sees them.
    pub args: spec_fn(Vec<MontyObject<H>>) -> Vec<H::Value>,
    /// Keyword arguments as the embedder sees them.
    pub kwargs: spec_fn(Vec<(MontyObject<H>, MontyObject<H>)>) -> Vec<(H::Value, H::Value)>,
}

/// The action with its state in its place.
pub open spec fn placed<H: Host, S>(
    action: Result<ActionView<H, S>, ErrorView<H>>,
    place: spec_fn(S) -> EitherSnapshot<H>,
) -> Result<ActionView<H, EitherSnapshot<H>>, ErrorView<H>> {
    match action {
        Err(error) => Err(error),
        Ok(ActionView::Return(output)) => Ok(ActionView::Return(output)),
        Ok(ActionView::CallMethod(call)) => Ok(ActionView::CallMethod(placed_call(call, place))),
        Ok(ActionView::CallFunction(call)) => Ok(
            ActionView::CallFunction(placed_call(call, place)),
        ),
        Ok(ActionView::CallOs(call)) => Ok(ActionView::CallOs(placed_call(call, place))),
        Ok(ActionView::NotImplemented { message, state }) => Ok(
            ActionView::NotImplemented { message, state: place(state) },
        ),
    }
}

/// The call with its state in its place.
pub open spec fn placed_call<H: Host, S>(
    call: HostCall<H, S>,
    place: spec_fn(S) -> EitherSnapshot<H>,
) -> HostCall<H, EitherSnapshot<H>> {
    HostCall {
        function_name: call.function_name,
        args: call.args,
        kwargs: call.kwargs,
        state: place(call.state),
    }
}

/// What a run does next, under either tracker.
pub open spec fn run_action<H: Host>(
    ran: Result<EitherProgress<H>, H::Exception>,
    answerers: Answerers,
) -> Result<ActionView<H, EitherSnapshot<H>>, ErrorView<H>> {
    match ran {
        Ok(EitherProgress::NoLimit(progress)) => placed(
            crate::run::next_action(Ok(progress), answerers),
            |state: <H::NoLimit as Tracker>::Snapshot| Either::NoLimit(state),
        ),
        Ok(EitherProgress::Limited(progress)) => placed(
            crate::run::next_action(Ok(progress), answerers),
            |state: <H::Limited as Tracker>::Snapshot| Either::Limited(state),
        ),
        Err(exception) => Err(ErrorView::Monty(exception)),
    }
}

/// What a run comes to within `stops` stops, if it ends within them.
pub open spec fn run_course<H: Host>(
    play: Play<H>,
    ran: Result<EitherProgress<H>, H::Exception>,
    answerers: Answerers,
    stops: nat,
) -> Option<Result<MontyObject<H>, ErrorView<H>>>
    decreases stops,
{
    if stops == 0 {
        None
    } else {
        match run_action(ran, answerers) {
            Err(error) => Some(Err(error)),
            Ok(ActionView::Return(output)) => Some(Ok(output)),
            Ok(ActionView::CallFunction(call)) => {
                let value = (play.answer)(call.function_name@, call.args, call.kwargs);
                run_course(
                    play,
                    (play.resume)(call.state, ExternalResult::Return(value)),
                    answerers,
                    (stops - 1) as nat,
                )
            },
            Ok(_) => None,
        }
    }
}

/// The arguments of a `resume` with a return value.
pub open spec fn returning<H: Host>(value: MontyObject<H>) -> ResultDict<H> {
    ResultDict { len: 1, return_value: Ok(Some(Ok(value))), exception: Ok(None), future: Ok(None) }
}

/// What stepping by hand comes to within `stops` stops, if it ends within them:
/// the embedder answers every call that it gets by a `resume` with what the
/// function returns.
pub open spec fn hand_course<H: Host>(
    play: Play<H>,
    ran: Result<EitherProgress<H>, H::Exception>,
    context: Context<H>,
    stops: nat,
) -> Option<Result<MontyObject<H>, ErrorView<H>>>
    decreases stops,
{
    if stops == 0 {
        None
    } else {
        match crate::progress::settled(ran, context) {
            Err(error) => Some(Err(error)),
            Ok(Suspension::Complete(completion)) => Some(Ok(completion.output)),
            Ok(Suspension::Call(call)) => {
                let value = (play.answer)(call.function_name@, call.args, call.kwargs);
                match call.finished(Ok((play.args)(call.args)), Ok((play.kwargs)(call.kwargs))) {
                    Err(error) => Some(Err(error)),
                    Ok(snapshot) => match snapshot.resumed(Some(returning(value))).0 {
                        Err(error) => Some(Err(error)),
                        Ok(Launch::NoLimit(ready)) => hand_course(
                            play,
                            (play.resume)(Either::NoLimit(ready.state), ready.input),
                            ready.context,
                            (stops - 1) as nat,
                        ),
                        Ok(Launch::Limited(ready)) => hand_course(
                            play,
                            (play.resume)(Either::Limited(ready.state), ready.input),
                            ready.context,
                            (stops - 1) as nat,
                        ),
                    },
                }
            },
            Ok(Suspension::Futures(_)) => None,
        }
    }
}

/// Whether the interpreter stopped at the end of the code, at an exception or
/// at a call of an external function.
pub open spec fn at_function_or_end<H: Host>(
    ran: Result<EitherProgress<H>, H::Exception>,
) -> bool {
    match ran {
        Ok(EitherProgress::NoLimit(RunProgress::FunctionCall { method_call, .. })) => !method_call,
        Ok(EitherProgress::Limited(RunProgress::FunctionCall { method_call, .. })) => !method_call,
        Ok(progress) => progress.is_complete(),
        Err(_) => true,
    }
}

/// Whether the code calls external functions only, within `stops` stops of a
/// run.
pub open spec fn calls_functions_only<H: Host>(
    play: Play<H>,
    ran: Result<EitherProgress<H>, H::Exception>,
    answerers: Answerers,
    stops: nat,
) -> bool
    decreases stops,
{
    stops == 0 || {
        &&& at_function_or_end(ran)
        &&& run_action(ran, answerers) matches Ok(ActionView::CallFunction(call))
            ==> calls_functions_only(
            play,
            (play.resume)(
                call.state,
                ExternalResult::Return((play.answer)(call.function_name@, call.args, call.kwargs)),
            ),
            answerers,
            (stops - 1) as nat,
        )
    }
}

/// Stepping by hand and running in one go agree: code that calls external
/// functions only comes to the same, after however many stops, whether `run`
/// calls the functions or the embedder resumes every snapshot with what they
/// return. Both hand the interpreter the same answers to the same states.
pub proof fn stepping_agrees_with_run<H: Host>(
    play: Play<H>,
    ran: Result<EitherProgress<H>, H::Exception>,
    answerers: Answerers,
    context: Context<H>,
    stops: nat,
)
    requires
        answerers.external_functions,
        calls_functions_only(play, ran, answerers, stops),
    ensures
        hand_course(play, ran, context, stops) == run_course(play, ran, answerers, stops),
    decreases stops,
{
    if stops > 0 {
        if let Ok(ActionView::CallFunction(call)) = run_action(ran, answerers) {
            let value = (play.answer)(call.function_name@, call.args, call.kwargs);
            stepping_agrees_with_run(
                play,
                (play.resume)(call.state, ExternalResult::Return(value)),
                answerers,
                context,
                (stops - 1) as nat,
            );
        }
    }
}

/// A call as the interpreter makes it.
pub struct CallView<H: Host> {
    pub is_os_function: bool,
    pub is_method_call: bool,
    pub function_name: String,
    pub args: Vec<MontyObject<H>>,
    pub kwargs: Vec<(MontyObject<H>, MontyObject<H>)>,
    pub call_id: u32,
}

/// The call at which the interpreter stopped, if it stopped at one.
pub open spec fn call_of<H: Host, T: Tracker>(progress: RunProgress<H, T>) -> Option<CallView<H>> {
    match progress {
        RunProgress::FunctionCall { function_name, args, kwargs, call_id, method_call, state } => {
            Some(
                CallView {
                    is_os_function: false,
                    is_method_call: method_call,
                    function_name,
                    args,
                    kwargs,
                    call_id,
                },
            )
        },
        RunProgress::OsCall { function, args, kwargs, call_id, state } => Some(
            CallView {
                is_os_function: true,
                is_method_call: false,
                function_name: function,
                args,
                kwargs,
                call_id,
            },
        ),
        _ => None,
    }
}

/// The call at which the interpreter stopped in a snippet, if it stopped at
/// one.
pub open spec fn repl_call_of<H: Host, T: Tracker>(progress: ReplProgress<H, T>) -> Option<
    CallView<H>,
> {
    match progress {
        ReplProgress::FunctionCall { function_name, args, kwargs, call_id, method_call, state } => {
            Some(
                CallView {
                    is_os_function: false,
                    is_method_call: method_call,
                    function_name,
                    args,
                    kwargs,
                    call_id,
                },
            )
        },
        ReplProgress::OsCall { function, args, kwargs, call_id, state } => Some(
            CallView {
                is_os_function: true,
                is_method_call: false,
                function_name: function,
                args,
                kwargs,
                call_id,
            },
        ),
        _ => None,
    }
}

/// The call at which an execution stopped under either tracker.
pub open spec fn either_call_of<H: Host>(progress: EitherProgress<H>) -> Option<CallView<H>> {
    match progress {
        EitherProgress::NoLimit(progress) => call_of(progress),
        EitherProgress::Limited(progress) => call_of(progress),
    }
}

/// The call at which a snippet stopped under either tracker.
pub open spec fn either_repl_call_of<H: Host>(progress: EitherReplProgress<H>) -> Option<
    CallView<H>,
> {
    match progress {
        EitherReplProgress::NoLimit(progress) => repl_call_of(progress),
        EitherReplProgress::Limited(progress) => repl_call_of(progress),
    }
}

/// The embedder sees the same call whether a program or a snippet makes it: the
/// snapshots agree in the name of the script, the kind of the call, the name of
/// the function, the arguments and the identifier, and arguments that cannot be
/// converted are refused alike.
pub proof fn snippet_calls_agree<H: Host>(
    progress: EitherProgress<H>,
    snippet: EitherReplProgress<H>,
    context: Context<H>,
    repl_context: ReplContext<H>,
    owner: PyMontyRepl<H>,
    args: Result<Vec<H::Value>, H::Error>,
    kwargs: Result<Vec<(H::Value, H::Value)>, H::Error>,
)
    requires
        either_call_of(progress) is Some,
        either_call_of(progress) == either_repl_call_of(snippet),
        context.script_name == repl_context.script_name,
    ensures
        match (
            crate::progress::suspended(progress, context),
            crate::repl_progress::repl_suspended(snippet, repl_context, owner).0,
        ) {
            (Suspension::Call(call), ReplSuspension::Call(repl_call)) => match (
                call.finished(args, kwargs),
                repl_call.finished(args, kwargs),
            ) {
                (Ok(snapshot), Ok(repl_snapshot)) => {
                    &&& snapshot.script_name == repl_snapshot.script_name
                    &&& snapshot.is_os_function == repl_snapshot.is_os_function
                    &&& snapshot.is_method_call == repl_snapshot.is_method_call
                    &&& snapshot.function_name == repl_snapshot.function_name
                    &&& snapshot.args == repl_snapshot.args
                    &&& snapshot.kwargs == repl_snapshot.kwargs
                    &&& snapshot.call_id == repl_snapshot.call_id
                },
                (Err(error), Err(repl_error)) => error == repl_error,
                _ => false,
            },
            _ => false,
        },
{
}

} // verus!
