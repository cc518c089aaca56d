//! A REPL snippet suspended at a call or on futures.
use std::sync::Arc;
use vstd::prelude::*;
use vstd::string::*;

use crate::external::{ExternalResult, ResultDict};
use crate::future::Results;
use crate::host::{ErrorView, Host, PyError, Tracker};
use crate::object::MontyObject;
use crate::repl_progress::ReplContext;
use crate::slot::{Either, EitherReplFutureSnapshot, EitherReplSnapshot, Launch, Pending};
use crate::snapshot::read_answer;

verus! {

/// A call of a snippet that waits for its answer.
pub struct PyMontyReplSnapshot<H: Host> {
    pub snapshot: EitherReplSnapshot<H>,
    pub print_callback: Option<Arc<H::Callback>>,
    pub dc_registry: Arc<H::Registry>,
    /// The object that owns the session.
    pub py_repl: Arc<H::ReplHandle>,
    /// Name of the script being executed.
    pub script_name: String,
    /// Whether this call refers to an OS function.
    pub is_os_function: bool,
    /// Whether this call is a dataclass method call, whose first argument is
    /// the instance.
    pub is_method_call: bool,
    /// The name of the function being called.
    pub function_name: String,
    /// The positional arguments passed to the function.
    pub args: Vec<H::Value>,
    /// The keyword arguments passed to the function, as pairs of key and value.
    pub kwargs: Vec<(H::Value, H::Value)>,
    /// The unique identifier for this call.
    pub call_id: u32,
}

/// A snippet that waits for futures.
pub struct PyMontyReplFutureSnapshot<H: Host> {
    pub snapshot: EitherReplFutureSnapshot<H>,
    pub print_callback: Option<Arc<H::Callback>>,
    pub dc_registry: Arc<H::Registry>,
    /// The object that owns the session.
    pub py_repl: Arc<H::ReplHandle>,
    /// Name of the script being executed.
    pub script_name: String,
}

/// A call of a snippet ready to be resumed.
pub type ReplSnapshotLaunch<H> = Launch<
    <<H as Host>::NoLimit as Tracker>::ReplSnapshot,
    <<H as Host>::Limited as Tracker>::ReplSnapshot,
    ExternalResult<H>,
    ReplContext<H>,
>;

/// A snippet ready to be resumed with results for its futures.
pub type ReplFutureLaunch<H> = Launch<
    Pending<<<H as Host>::NoLimit as Tracker>::ReplFutureSnapshot>,
    Pending<<<H as Host>::Limited as Tracker>::ReplFutureSnapshot>,
    Vec<(u32, ExternalResult<H>)>,
    ReplContext<H>,
>;

impl<H: Host> PyMontyReplSnapshot<H> {
    /// What the next stage of the snippet inherits.
    pub open spec fn spec_context(self) -> ReplContext<H> {
        ReplContext {
            script_name: self.script_name,
            print_callback: self.print_callback,
            dc_registry: self.dc_registry,
            py_repl: self.py_repl,
        }
    }

    /// What the next stage of the snippet inherits.
    pub fn context(&self) -> (context: ReplContext<H>)
        ensures
            context == self.spec_context(),
    {
        ReplContext {
            script_name: self.script_name.clone(),
            print_callback: match &self.print_callback {
                Some(callback) => Some(Arc::clone(callback)),
                None => None,
            },
            dc_registry: Arc::clone(&self.dc_registry),
            py_repl: Arc::clone(&self.py_repl),
        }
    }

    /// What resuming with `kwargs` gives, and the snapshot after it. The state is
    /// taken out before the arguments are looked at, so that wrong arguments use
    /// it up as well.
    pub open spec fn resumed(self, kwargs: Option<ResultDict<H>>) -> (
        Result<ReplSnapshotLaunch<H>, ErrorView<H>>,
        Self,
    ) {
        (
            match crate::snapshot::resume_answer(kwargs) {
                Err(error) => Err(error),
                Ok(answer) => match self.snapshot.launched(answer, self.spec_context()) {
                    Some(launch) => Ok(launch),
                    None => Err(crate::slot::resumed_error()),
                },
            },
            PyMontyReplSnapshot { snapshot: Either::Done, ..self },
        )
    }

    /// Takes the state out to resume it with either a return value, an
    /// exception or a future.
    ///
    /// `TypeError` unless exactly one of `return_value`, `exception` and
    /// `future` is given; an exception that reading the answer raised is passed
    /// on; `RuntimeError` if the state was taken out before. The state is taken
    /// out whether the arguments are right or not.
    pub fn resume(&mut self, kwargs: Option<ResultDict<H>>) -> (result: Result<
        ReplSnapshotLaunch<H>,
        PyError<H>,
    >)
        ensures
            crate::host::outcome(result) == old(self).resumed(kwargs).0,
            *final(self) == old(self).resumed(kwargs).1,
    {
        let mut taken = self.snapshot.take();
        let answer = read_answer(kwargs)?;
        taken.launch(answer, self.context())
    }

    /// The printed form.
    pub fn repr(&self) -> (text: String)
        ensures
            text@ == "MontyReplSnapshot(script_name='"@ + self.script_name@ + "', function_name='"@
                + self.function_name@ + "')"@,
    {
        let mut text: String = "MontyReplSnapshot(script_name='".to_owned();
        text.append(self.script_name.as_str());
        text.append("', function_name='");
        text.append(self.function_name.as_str());
        text.append("')");
        text
    }
}

impl<H: Host> PyMontyReplFutureSnapshot<H> {
    /// What the next stage of the snippet inherits.
    pub open spec fn spec_context(self) -> ReplContext<H> {
        ReplContext {
            script_name: self.script_name,
            print_callback: self.print_callback,
            dc_registry: self.dc_registry,
            py_repl: self.py_repl,
        }
    }

    /// What the next stage of the snippet inherits.
    pub fn context(&self) -> (context: ReplContext<H>)
        ensures
            context == self.spec_context(),
    {
        ReplContext {
            script_name: self.script_name.clone(),
            print_callback: match &self.print_callback {
                Some(callback) => Some(Arc::clone(callback)),
                None => None,
            },
            dc_registry: Arc::clone(&self.dc_registry),
            py_repl: Arc::clone(&self.py_repl),
        }
    }

    /// What resuming with the results gives, as they were read, and the snapshot
    /// after it. The state is taken out before the results are looked at, so that
    /// wrong results use it up as well.
    pub open spec fn resumed(self, results: Result<Results<H>, PyError<H>>) -> (
        Result<ReplFutureLaunch<H>, ErrorView<H>>,
        Self,
    ) {
        (
            match results {
                Err(error) => Err(error@),
                Ok(results) => match self.snapshot.launched(
                    results.answers,
                    self.spec_context(),
                ) {
                    Some(launch) => Ok(launch),
                    None => Err(crate::slot::resumed_error()),
                },
            },
            PyMontyReplFutureSnapshot { snapshot: Either::Done, ..self },
        )
    }

    /// Takes the state out to resume it with results for one or more futures.
    ///
    /// The failure of the first wrong entry is passed on; `RuntimeError` if the
    /// state was taken out before. The state is taken out whether the results
    /// are right or not.
    pub fn resume(&mut self, results: Result<Results<H>, PyError<H>>) -> (result: Result<
        ReplFutureLaunch<H>,
        PyError<H>,
    >)
        ensures
            crate::host::outcome(result) == old(self).resumed(results).0,
            *final(self) == old(self).resumed(results).1,
    {
        let mut taken = self.snapshot.take();
        let results = results?;
        taken.launch(results.answers, self.context())
    }

    /// The identifiers of the calls that the snippet waits for.
    ///
    /// `RuntimeError` if the snapshot has been resumed.
    pub fn pending_call_ids(&self) -> (result: Result<&Vec<u32>, PyError<H>>)
        ensures
            if self.snapshot is Done {
                crate::host::fails(
                    result,
                    ErrorView::RuntimeError("MontyReplFutureSnapshot already resumed"@),
                )
            } else {
                result matches Ok(ids) && ids@ == crate::future::pending_ids(self.snapshot)
            },
    {
        match &self.snapshot {
            Either::NoLimit(pending) => Ok(&pending.call_ids),
            Either::Limited(pending) => Ok(&pending.call_ids),
            Either::Done => Err(
                PyError::RuntimeError("MontyReplFutureSnapshot already resumed".to_owned()),
            ),
        }
    }

    /// The printed form.
    pub fn repr(&self) -> (text: String)
        ensures
            text@ == "MontyReplFutureSnapshot(script_name='"@ + self.script_name@ + "')"@,
    {
        let mut text: String = "MontyReplFutureSnapshot(script_name='".to_owned();
        text.append(self.script_name.as_str());
        text.append("')");
        text
    }
}

/// A call of a snippet is resumed at most once: after any resume, accepted or
/// not, every right answer is refused, because the state was taken out before.
/// One that was not resumed takes every right answer.
pub proof fn repl_resumed_once<H: Host>(
    snapshot: PyMontyReplSnapshot<H>,
    first: Option<ResultDict<H>>,
    second: Option<ResultDict<H>>,
)
    requires
        crate::snapshot::resume_answer(second) is Ok,
    ensures
        snapshot.resumed(first).1.resumed(second).0 == Err::<ReplSnapshotLaunch<H>, ErrorView<H>>(
            crate::slot::resumed_error(),
        ),
        snapshot.resumed(second).0 is Ok <==> !(snapshot.snapshot is Done),
{
}

/// A snippet on futures is resumed at most once: after any resume, accepted or
/// not, all right results are refused, because the state was taken out before.
/// One that was not resumed takes all right results.
pub proof fn repl_futures_resumed_once<H: Host>(
    snapshot: PyMontyReplFutureSnapshot<H>,
    first: Result<Results<H>, PyError<H>>,
    second: Results<H>,
)
    ensures
        snapshot.resumed(first).1.resumed(Ok(second)).0 == Err::<
            ReplFutureLaunch<H>,
            ErrorView<H>,
        >(crate::slot::resumed_error()),
        snapshot.resumed(Ok(second)).0 is Ok <==> !(snapshot.snapshot is Done),
{
}

/// An answer reaches the call of the snippet that waits for it. A snapshot whose
/// state is there continues, when it is resumed with a return value, an
/// exception or a future, from its own state, under its own tracker, with that
/// very answer. It keeps the name of the script, the print callback, the
/// registry and the owner of the session. The state is away after it, and
/// nothing else of the snapshot changes.
pub proof fn answer_reaches_the_snippet<H: Host>(
    snapshot: PyMontyReplSnapshot<H>,
    dict: ResultDict<H>,
    value: MontyObject<H>,
    raised: H::Exception,
    answer: ExternalResult<H>,
)
    requires
        ({
            ||| dict == (ResultDict::<H> {
                len: 1,
                return_value: Ok(Some(Ok(value))),
                exception: Ok(None),
                future: Ok(None),
            }) && answer == ExternalResult::<H>::Return(value)
            ||| dict == (ResultDict::<H> {
                len: 1,
                return_value: Ok(None),
                exception: Ok(Some(raised)),
                future: Ok(None),
            }) && answer == ExternalResult::<H>::Error(raised)
            ||| dict == (ResultDict::<H> {
                len: 1,
                return_value: Ok(None),
                exception: Ok(None),
                future: Ok(Some(true)),
            }) && answer == ExternalResult::<H>::Future
        }),
    ensures
        ({
            let (result, after) = snapshot.resumed(Some(dict));
            &&& after == PyMontyReplSnapshot { snapshot: Either::Done, ..snapshot }
            &&& match snapshot.snapshot {
                Either::NoLimit(state) => {
                    &&& result matches Ok(Launch::NoLimit(ready))
                    &&& ready.state == state
                    &&& ready.input == answer
                    &&& ready.context.script_name == snapshot.script_name
                    &&& ready.context.print_callback == snapshot.print_callback
                    &&& ready.context.dc_registry == snapshot.dc_registry
                    &&& ready.context.py_repl == snapshot.py_repl
                },
                Either::Limited(state) => {
                    &&& result matches Ok(Launch::Limited(ready))
                    &&& ready.state == state
                    &&& ready.input == answer
                    &&& ready.context.script_name == snapshot.script_name
                    &&& ready.context.print_callback == snapshot.print_callback
                    &&& ready.context.dc_registry == snapshot.dc_registry
                    &&& ready.context.py_repl == snapshot.py_repl
                },
                Either::Done => result == Err::<ReplSnapshotLaunch<H>, ErrorView<H>>(
                    ErrorView::RuntimeError("Progress already resumed"@),
                ),
            }
        }),
{
}

/// A `resume` of a snippet without arguments, or with more or fewer than one, is
/// refused with a `TypeError`, whatever the snapshot.
pub proof fn snippet_resume_takes_one_argument<H: Host>(
    snapshot: PyMontyReplSnapshot<H>,
    kwargs: Option<ResultDict<H>>,
)
    requires
        kwargs matches Some(dict) ==> dict.len != 1,
    ensures
        snapshot.resumed(kwargs).0 == Err::<ReplSnapshotLaunch<H>, ErrorView<H>>(
            ErrorView::TypeError("resume() accepts either return_value or exception, not both"@),
        ),
        snapshot.resumed(kwargs).1 == (PyMontyReplSnapshot { snapshot: Either::Done, ..snapshot }),
{
}

/// Results reach the snippet that waits for them. A snapshot whose state is
/// there continues from its own state, under its own tracker, with the very
/// answers that were read, and keeps the name of the script, the print callback,
/// the registry and the owner of the session. Results that could not be read
/// fail with what was wrong with them. The state is away after either.
pub proof fn results_reach_the_snippet<H: Host>(
    snapshot: PyMontyReplFutureSnapshot<H>,
    results: Results<H>,
    error: PyError<H>,
)
    ensures
        snapshot.resumed(Err(error)) == (
            Err::<ReplFutureLaunch<H>, ErrorView<H>>(error@),
            PyMontyReplFutureSnapshot { snapshot: Either::Done, ..snapshot },
        ),
        ({
            let (result, after) = snapshot.resumed(Ok(results));
            &&& after == PyMontyReplFutureSnapshot { snapshot: Either::Done, ..snapshot }
            &&& match snapshot.snapshot {
                Either::NoLimit(state) => {
                    &&& result matches Ok(Launch::NoLimit(ready))
                    &&& ready.state == state
                    &&& ready.input == results.answers
                    &&& ready.context.script_name == snapshot.script_name
                    &&& ready.context.print_callback == snapshot.print_callback
                    &&& ready.context.dc_registry == snapshot.dc_registry
                    &&& ready.context.py_repl == snapshot.py_repl
                },
                Either::Limited(state) => {
                    &&& result matches Ok(Launch::Limited(ready))
                    &&& ready.state == state
                    &&& ready.input == results.answers
                    &&& ready.context.script_name == snapshot.script_name
                    &&& ready.context.print_callback == snapshot.print_callback
                    &&& ready.context.dc_registry == snapshot.dc_registry
                    &&& ready.context.py_repl == snapshot.py_repl
                },
                Either::Done => result == Err::<ReplFutureLaunch<H>, ErrorView<H>>(
                    ErrorView::RuntimeError("Progress already resumed"@),
                ),
            }
        }),
{
}

} // verus!
