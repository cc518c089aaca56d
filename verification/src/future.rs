//! A run suspended on futures.
use std::sync::Arc;
use vstd::prelude::*;
use vstd::string::*;

use crate::external::{extract_external_result, ExternalResult, ResultDict};
use crate::host::{raised, ErrorView, Host, PyError, Tracker};
use crate::object::MontyObject;
use crate::progress::Context;
use crate::save::{Decoded, Encoded};
use crate::slot::{Either, EitherFutureSnapshot, Launch, Pending};
use crate::text::print_ids;

verus! {

/// Code that waits for futures.
pub struct PyMontyFutureSnapshot<H: Host> {
    pub snapshot: EitherFutureSnapshot<H>,
    pub print_callback: Option<Arc<H::Callback>>,
    pub dc_registry: Arc<H::Registry>,
    /// Name of the script being executed.
    pub script_name: String,
}

/// One entry of the results that futures are resumed with: its key as a call
/// identifier and its value as a dictionary.
pub struct ResultEntry<H: Host> {
    pub key: Result<u32, H::Error>,
    pub value: Result<ResultDict<H>, H::Error>,
}

/// The answers that were read out of results, entry by entry.
pub struct Results<H: Host> {
    pub answers: Vec<(u32, ExternalResult<H>)>,
    /// The entries that were read.
    pub entries: Ghost<Seq<ResultEntry<H>>>,
}

/// Code ready to be resumed with results for its futures.
pub type FutureLaunch<H> = Launch<
    Pending<<<H as Host>::NoLimit as Tracker>::FutureSnapshot>,
    Pending<<<H as Host>::Limited as Tracker>::FutureSnapshot>,
    Vec<(u32, ExternalResult<H>)>,
    Context<H>,
>;

/// What is wrong with a result handed to `resume`.
pub open spec fn results_error() -> Seq<char> {
    "results values must be a dict with either 'return_value' or 'exception', not both"@
}

/// The call that an entry of the results answers, and its answer. A key that is
/// no call identifier goes before a value that is no dictionary.
pub open spec fn entry_answer<H: Host>(entry: ResultEntry<H>) -> Result<
    (u32, ExternalResult<H>),
    ErrorView<H>,
> {
    match (entry.key, entry.value) {
        (Err(error), _) => Err(ErrorView::Raised(error)),
        (Ok(_), Err(error)) => Err(ErrorView::Raised(error)),
        (Ok(call_id), Ok(dict)) => match crate::external::extracted(dict, results_error()) {
            Ok(answer) => Ok((call_id, answer)),
            Err(error) => Err(error),
        },
    }
}

/// The answers of all entries, in their order, or the failure of the first
/// entry that is wrong.
pub open spec fn all_answers<H: Host>(entries: Seq<ResultEntry<H>>) -> Result<
    Seq<(u32, ExternalResult<H>)>,
    ErrorView<H>,
> {
    crate::inputs::collected(entries.map_values(|entry: ResultEntry<H>| entry_answer(entry)))
}

impl<H: Host> Results<H> {
    /// Whether the answers are those of the entries that were read.
    pub open spec fn wf(self) -> bool {
        all_answers(self.entries@) == Ok::<Seq<(u32, ExternalResult<H>)>, ErrorView<H>>(
            self.answers@,
        )
    }

    /// No answers, of no entries.
    pub fn new() -> (results: Self)
        ensures
            results.wf(),
            results.entries@ == Seq::<ResultEntry<H>>::empty(),
    {
        let results = Results { answers: Vec::new(), entries: Ghost(Seq::empty()) };
        assert(results.entries@.map_values(|entry: ResultEntry<H>| entry_answer(entry)) =~= seq![]);
        results
    }

    /// Reads one more entry.
    ///
    /// `TypeError` unless its value holds exactly one of the three keys; an
    /// exception that reading the entry raised is passed on. An entry that is
    /// wrong is not read.
    pub fn read(&mut self, entry: ResultEntry<H>) -> (result: Result<(), PyError<H>>)
        requires
            old(self).wf(),
        ensures
            final(self).wf(),
            match all_answers(old(self).entries@.push(entry)) {
                Ok(answers) => {
                    &&& result is Ok
                    &&& final(self).answers@ == answers
                    &&& final(self).entries@ == old(self).entries@.push(entry)
                },
                Err(error) => crate::host::fails(result, error) && *final(self) == *old(self),
            },
    {
        proof {
            all_answers_grow(self.entries@.push(entry));
            assert(self.entries@.push(entry).drop_last() =~= self.entries@);
        }
        let ghost read = self.entries@.push(entry);
        let call_id = raised::<_, H>(entry.key)?;
        let dict = raised::<_, H>(entry.value)?;
        let answer = extract_external_result(
            dict,
            "results values must be a dict with either 'return_value' or 'exception', not both",
        )?;
        self.answers.push((call_id, answer));
        self.entries = Ghost(read);
        Ok(())
    }
}

/// Reading one more entry goes on from the answers before it: the answers of
/// all entries are those of all but the last one with that of the last one
/// behind them, and a failure of the last one counts only if none went before.
pub proof fn all_answers_grow<H: Host>(entries: Seq<ResultEntry<H>>)
    requires
        entries.len() > 0,
    ensures
        all_answers(entries) == match (
            all_answers(entries.drop_last()),
            entry_answer(entries.last()),
        ) {
            (Ok(answers), Ok(answer)) => Ok::<Seq<(u32, ExternalResult<H>)>, ErrorView<H>>(
                answers.push(answer),
            ),
            (Ok(_), Err(error)) => Err(error),
            (Err(error), _) => Err(error),
        },
{
    let items = entries.map_values(|entry: ResultEntry<H>| entry_answer(entry));
    assert(items.drop_last() =~= entries.drop_last().map_values(
        |entry: ResultEntry<H>| entry_answer(entry),
    ));
}

/// Where every entry is right there is one answer for each, in their order.
pub proof fn one_answer_per_entry<H: Host>(
    entries: Seq<ResultEntry<H>>,
    answers: Seq<(u32, ExternalResult<H>)>,
)
    requires
        answers.len() == entries.len(),
        forall|i: int|
            0 <= i < entries.len() ==> entry_answer(#[trigger] entries[i]) == Ok::<
                (u32, ExternalResult<H>),
                ErrorView<H>,
            >(answers[i]),
    ensures
        all_answers(entries) == Ok::<Seq<(u32, ExternalResult<H>)>, ErrorView<H>>(answers),
{
    let items = entries.map_values(|entry: ResultEntry<H>| entry_answer(entry));
    assert forall|i: int| 0 <= i < items.len() implies (#[trigger] items[i]) is Ok by {
        assert(entry_answer(entries[i]) is Ok);
    }
    crate::inputs::collected_in_order(items);
    let found = items.map_values(
        |item: Result<(u32, ExternalResult<H>), ErrorView<H>>| item->Ok_0,
    );
    assert forall|i: int| 0 <= i < answers.len() implies found[i] == answers[i] by {
        assert(entry_answer(entries[i]) is Ok);
    }
    assert(found =~= answers);
}

/// The first entry that is wrong decides, whatever stands behind it.
pub proof fn first_wrong_entry_decides<H: Host>(entries: Seq<ResultEntry<H>>, at: int)
    requires
        0 <= at < entries.len(),
        entry_answer(entries[at]) is Err,
        forall|i: int| 0 <= i < at ==> entry_answer(#[trigger] entries[i]) is Ok,
    ensures
        all_answers(entries) == Err::<Seq<(u32, ExternalResult<H>)>, ErrorView<H>>(
            entry_answer(entries[at])->Err_0,
        ),
{
    let items = entries.map_values(|entry: ResultEntry<H>| entry_answer(entry));
    assert forall|i: int| 0 <= i < at implies (#[trigger] items[i]) is Ok by {
        assert(entry_answer(entries[i]) is Ok);
    }
    crate::inputs::first_failure_decides(items, at);
}

/// The calls that a state waits for; none once it has been taken out.
pub open spec fn pending_ids<N, L>(snapshot: Either<Pending<N>, Pending<L>>) -> Seq<u32> {
    match snapshot {
        Either::NoLimit(pending) => pending.call_ids@,
        Either::Limited(pending) => pending.call_ids@,
        Either::Done => seq![],
    }
}

impl<H: Host> PyMontyFutureSnapshot<H> {
    /// What the next stage of the execution inherits.
    pub open spec fn spec_context(self) -> Context<H> {
        Context {
            script_name: self.script_name,
            print_callback: self.print_callback,
            dc_registry: self.dc_registry,
        }
    }

    /// What the next stage of the execution inherits.
    pub fn context(&self) -> (context: Context<H>)
        ensures
            context == self.spec_context(),
    {
        Context {
            script_name: self.script_name.clone(),
            print_callback: match &self.print_callback {
                Some(callback) => Some(Arc::clone(callback)),
                None => None,
            },
            dc_registry: Arc::clone(&self.dc_registry),
        }
    }

    /// What resuming with the collected answers gives, and the snapshot after
    /// it. The state is taken out only if it continues.
    pub open spec fn resumed(self, results: Results<H>) -> (
        Result<FutureLaunch<H>, ErrorView<H>>,
        Self,
    ) {
        match self.snapshot.launched(results.answers, self.spec_context()) {
            Some(launch) => (Ok(launch), PyMontyFutureSnapshot { snapshot: Either::Done, ..self }),
            None => (Err(crate::slot::resumed_error()), self),
        }
    }

    /// Takes the state out to resume it with results for one or more futures.
    ///
    /// `RuntimeError` if the snapshot has already been resumed; it then stays
    /// as it was.
    pub fn resume(&mut self, results: Results<H>) -> (result: Result<
        FutureLaunch<H>,
        PyError<H>,
    >)
        ensures
            crate::host::outcome(result) == old(self).resumed(results).0,
            *final(self) == old(self).resumed(results).1,
            result is Err ==> *final(self) == *old(self),
    {
        let context = self.context();
        self.snapshot.launch(results.answers, context)
    }

    /// The identifiers of the calls that the code waits for.
    ///
    /// `RuntimeError` if the snapshot has been resumed.
    pub fn pending_call_ids(&self) -> (result: Result<&Vec<u32>, PyError<H>>)
        ensures
            if self.snapshot is Done {
                crate::host::fails(
                    result,
                    ErrorView::RuntimeError("MontyFutureSnapshot already resumed"@),
                )
            } else {
                result matches Ok(ids) && ids@ == pending_ids(self.snapshot)
            },
    {
        match &self.snapshot {
            Either::NoLimit(pending) => Ok(&pending.call_ids),
            Either::Limited(pending) => Ok(&pending.call_ids),
            Either::Done => Err(
                PyError::RuntimeError("MontyFutureSnapshot already resumed".to_owned()),
            ),
        }
    }

    /// The printed form. A snapshot that has been resumed waits for no call.
    pub fn repr(&self) -> (text: String)
        ensures
            text@ == "MontyFutureSnapshot(script_name='"@ + self.script_name@
                + "', pending_call_ids="@ + crate::text::id_list(pending_ids(self.snapshot)) + ")"@,
    {
        let ids = match &self.snapshot {
            Either::NoLimit(pending) => print_ids(&pending.call_ids),
            Either::Limited(pending) => print_ids(&pending.call_ids),
            Either::Done => print_ids(&Vec::new()),
        };
        let mut text: String = "MontyFutureSnapshot(script_name='".to_owned();
        text.append(self.script_name.as_str());
        text.append("', pending_call_ids=");
        text.append(ids.as_str());
        text.append(")");
        text
    }

    /// Refuses a snapshot that has been resumed.
    ///
    /// `RuntimeError` if the state has been taken out.
    pub fn check_dump(&self) -> (result: Result<(), PyError<H>>)
        ensures
            crate::host::outcome(result) == if self.snapshot is Done {
                Err::<(), ErrorView<H>>(crate::snapshot::resumed_dump_error())
            } else {
                Ok(())
            },
    {
        match self.snapshot {
            Either::Done => Err(
                PyError::RuntimeError(
                    "Cannot dump progress that has already been resumed".to_owned(),
                ),
            ),
            _ => Ok(()),
        }
    }

    /// What saving the snapshot gives.
    pub open spec fn dumped(self, state: Encoded) -> Result<Seq<u8>, ErrorView<H>> {
        if self.snapshot is Done {
            Err(crate::snapshot::resumed_dump_error())
        } else {
            match state {
                Ok(state) => Ok(
                    crate::save::session_bytes(
                        self.snapshot.spec_variant(),
                        state@,
                        self.script_name@,
                    ),
                ),
                Err(message) => Err(ErrorView::ValueError(message@)),
            }
        }
    }

    /// Saves the snapshot, given its encoded state. The callback and the
    /// registry are not saved.
    ///
    /// `RuntimeError` if the snapshot has been resumed; `ValueError` if the
    /// state could not be encoded.
    pub fn dump(&self, state: Encoded) -> (result: Result<Vec<u8>, PyError<H>>)
        ensures
            match self.dumped(state) {
                Ok(expected) => result matches Ok(bytes) && bytes@ == expected,
                Err(error) => crate::host::fails(result, error),
            },
    {
        self.check_dump()?;
        crate::save::dump_session(self.snapshot.variant(), state, self.script_name.as_str())
    }

    /// Whether `result` is the snapshot with this decoded state and the bytes behind
    /// it.
    pub open spec fn is_loaded(
        decoded: Result<(EitherFutureSnapshot<H>, Seq<u8>), Seq<char>>,
        print_callback: Option<Arc<H::Callback>>,
        dc_registry: Result<Arc<H::Registry>, H::Error>,
        result: Result<Self, PyError<H>>,
    ) -> bool {
        match decoded {
            Err(message) => crate::host::fails(result, ErrorView::ValueError(message)),
            Ok((snapshot, rest)) => match (crate::codec::string_taken(rest), dc_registry) {
                (Err(fault), _) => crate::host::fails(result, crate::save::fault_error(fault)),
                (Ok(_), Err(error)) => crate::host::fails(result, ErrorView::Raised(error)),
                (Ok((script_name, _)), Ok(dc_registry)) => {
                    &&& result matches Ok(loaded)
                    &&& loaded.snapshot == snapshot
                    &&& loaded.print_callback == print_callback
                    &&& loaded.dc_registry == dc_registry
                    &&& loaded.script_name@ == script_name
                },
            },
        }
    }

    /// Restores a snapshot from its decoded state and the bytes behind it.
    ///
    /// `ValueError` if the state could not be decoded or if the bytes do not
    /// start with the name of the script; an exception from the registry is
    /// passed on.
    pub fn load(
        decoded: Decoded<'_, EitherFutureSnapshot<H>>,
        print_callback: Option<Arc<H::Callback>>,
        dc_registry: Result<Arc<H::Registry>, H::Error>,
    ) -> (result: Result<Self, PyError<H>>)
        ensures
            Self::is_loaded(
                crate::save::decoded_view(decoded),
                print_callback,
                dc_registry,
                result,
            ),
    {
        let (snapshot, rest) = match decoded {
            Ok(decoded) => decoded,
            Err(message) => return Err(PyError::ValueError(message)),
        };
        let script_name = crate::save::load_script_name(rest)?;
        let dc_registry = raised::<_, H>(dc_registry)?;
        Ok(PyMontyFutureSnapshot { snapshot, print_callback, dc_registry, script_name })
    }
}

/// Code on futures is resumed once: after a resume every further one is
/// refused, because the snapshot has already been resumed, and a refused one
/// changes nothing.
pub proof fn futures_resumed_once<H: Host>(
    snapshot: PyMontyFutureSnapshot<H>,
    first: Results<H>,
    second: Results<H>,
)
    ensures
        snapshot.resumed(first).0 is Ok <==> !(snapshot.snapshot is Done),
        snapshot.resumed(first).0 is Err ==> snapshot.resumed(first).1 == snapshot,
        snapshot.resumed(first).1.resumed(second).0 == Err::<FutureLaunch<H>, ErrorView<H>>(
            crate::slot::resumed_error(),
        ),
{
}

/// An answer is for the call whose identifier is the key of its entry, and is
/// what the entry holds: a return value, an exception, or the ellipsis that puts
/// it off once more.
pub proof fn answer_is_for_its_key<H: Host>(
    call_id: u32,
    dict: ResultDict<H>,
    value: MontyObject<H>,
    raised: H::Exception,
    answer: ExternalResult<H>,
)
    requires
        ({
            ||| dict == (ResultDict::<H> {
                len: 1,
                return_value: Ok(Some(Ok(value))),
                exception: Ok(None),
                future: Ok(None),
            }) && answer == ExternalResult::<H>::Return(value)
            ||| dict == (ResultDict::<H> {
                len: 1,
                return_value: Ok(None),
                exception: Ok(Some(raised)),
                future: Ok(None),
            }) && answer == ExternalResult::<H>::Error(raised)
            ||| dict == (ResultDict::<H> {
                len: 1,
                return_value: Ok(None),
                exception: Ok(None),
                future: Ok(Some(true)),
            }) && answer == ExternalResult::<H>::Future
        }),
    ensures
        entry_answer(ResultEntry { key: Ok(call_id), value: Ok(dict) }) == Ok::<
            (u32, ExternalResult<H>),
            ErrorView<H>,
        >((call_id, answer)),
{
}

/// What is wrong with an entry is reported as what it is: with what Python
/// raised if its key is no identifier, or else if its value is no dictionary,
/// and with a message of its own unless the value has exactly one entry.
pub proof fn wrong_entries_are_refused<H: Host>(
    call_id: u32,
    error: H::Error,
    value: Result<ResultDict<H>, H::Error>,
    dict: ResultDict<H>,
)
    ensures
        entry_answer(ResultEntry::<H> { key: Err(error), value }) == Err::<
            (u32, ExternalResult<H>),
            ErrorView<H>,
        >(ErrorView::Raised(error)),
        entry_answer(ResultEntry::<H> { key: Ok(call_id), value: Err(error) }) == Err::<
            (u32, ExternalResult<H>),
            ErrorView<H>,
        >(ErrorView::Raised(error)),
        dict.len != 1 ==> entry_answer(ResultEntry { key: Ok(call_id), value: Ok(dict) }) == Err::<
            (u32, ExternalResult<H>),
            ErrorView<H>,
        >(
            ErrorView::TypeError(
                "results values must be a dict with either 'return_value' or 'exception', not both"@,
            ),
        ),
{
}

/// The answers of entries are for their keys, position by position: there is one
/// for each entry, its identifier is the key of the entry, and it is the return
/// value, the exception or the future that the entry holds.
pub proof fn answers_keep_their_keys<H: Host>(
    entries: Seq<ResultEntry<H>>,
    answers: Seq<(u32, ExternalResult<H>)>,
)
    requires
        all_answers(entries) == Ok::<Seq<(u32, ExternalResult<H>)>, ErrorView<H>>(answers),
    ensures
        answers.len() == entries.len(),
        forall|i: int|
            0 <= i < entries.len() ==> (#[trigger] entries[i]).key == Ok::<u32, H::Error>(
                answers[i].0,
            ),
        forall|i: int|
            0 <= i < entries.len() ==> ((#[trigger] entries[i]).value matches Ok(dict) && match (
                dict.return_value,
                dict.exception,
            ) {
                (Ok(Some(Ok(value))), _) => answers[i].1 == ExternalResult::<H>::Return(value),
                (Ok(None), Ok(Some(raised))) => answers[i].1 == ExternalResult::<H>::Error(raised),
                _ => answers[i].1 == ExternalResult::<H>::Future,
            }),
    decreases entries.len(),
{
    if entries.len() == 0 {
        assert(entries.map_values(|entry: ResultEntry<H>| entry_answer(entry)) =~= seq![]);
    } else {
        all_answers_grow(entries);
        let before = all_answers(entries.drop_last())->Ok_0;
        answers_keep_their_keys(entries.drop_last(), before);
        assert forall|i: int| 0 <= i < entries.len() implies (#[trigger] entries[i]).key == Ok::<
            u32,
            H::Error,
        >(answers[i].0) by {
            if i < entries.len() - 1 {
                assert(entries.drop_last()[i] == entries[i]);
            }
        }
        assert forall|i: int| 0 <= i < entries.len() implies ((
        #[trigger] entries[i]).value matches Ok(dict) && match (
            dict.return_value,
            dict.exception,
        ) {
            (Ok(Some(Ok(value))), _) => answers[i].1 == ExternalResult::<H>::Return(value),
            (Ok(None), Ok(Some(raised))) => answers[i].1 == ExternalResult::<H>::Error(raised),
            _ => answers[i].1 == ExternalResult::<H>::Future,
        }) by {
            if i < entries.len() - 1 {
                assert(entries.drop_last()[i] == entries[i]);
            }
        }
    }
}

/// Collected answers are those of the entries that were read: as many, and each
/// for the key of its entry.
pub proof fn collected_answers_keep_their_keys<H: Host>(results: Results<H>)
    requires
        results.wf(),
    ensures
        results.answers@.len() == results.entries@.len(),
        forall|i: int|
            0 <= i < results.entries@.len() ==> (#[trigger] results.entries@[i]).key == Ok::<
                u32,
                H::Error,
            >(results.answers@[i].0),
{
    answers_keep_their_keys(results.entries@, results.answers@);
}

/// Results reach the code that waits for them. A snapshot that has not been
/// resumed continues from its own state, under its own tracker, with the very
/// answers that were read, and keeps the name of the script, the print callback
/// and the registry. The snapshot is used up by it, and nothing else of it
/// changes.
pub proof fn results_reach_the_code<H: Host>(
    snapshot: PyMontyFutureSnapshot<H>,
    results: Results<H>,
)
    ensures
        ({
            let (result, after) = snapshot.resumed(results);
            match snapshot.snapshot {
                Either::NoLimit(state) => {
                    &&& result matches Ok(Launch::NoLimit(ready))
                    &&& ready.state == state
                    &&& ready.input == results.answers
                    &&& ready.context.script_name == snapshot.script_name
                    &&& ready.context.print_callback == snapshot.print_callback
                    &&& ready.context.dc_registry == snapshot.dc_registry
                    &&& after == PyMontyFutureSnapshot { snapshot: Either::Done, ..snapshot }
                },
                Either::Limited(state) => {
                    &&& result matches Ok(Launch::Limited(ready))
                    &&& ready.state == state
                    &&& ready.input == results.answers
                    &&& ready.context.script_name == snapshot.script_name
                    &&& ready.context.print_callback == snapshot.print_callback
                    &&& ready.context.dc_registry == snapshot.dc_registry
                    &&& after == PyMontyFutureSnapshot { snapshot: Either::Done, ..snapshot }
                },
                Either::Done => {
                    &&& result == Err::<FutureLaunch<H>, ErrorView<H>>(
                        ErrorView::RuntimeError("Progress already resumed"@),
                    )
                    &&& after == snapshot
                },
            }
        }),
{
}

/// The calls that code waits for are those of its state, under either tracker.
pub proof fn pending_calls_are_those_of_the_state<N, L>(
    no_limit: Pending<N>,
    limited: Pending<L>,
)
    ensures
        pending_ids(Either::<Pending<N>, Pending<L>>::NoLimit(no_limit)) == no_limit.call_ids@,
        pending_ids(Either::<Pending<N>, Pending<L>>::Limited(limited)) == limited.call_ids@,
        pending_ids(Either::<Pending<N>, Pending<L>>::Done).len() == 0,
{
}

/// Code on futures that has been resumed cannot be saved, and one that has not
/// can be saved if and only if its state can be encoded.
pub proof fn futures_are_saved_unless_resumed<H: Host>(
    snapshot: PyMontyFutureSnapshot<H>,
    state: Encoded,
)
    ensures
        snapshot.snapshot is Done ==> snapshot.dumped(state) == Err::<Seq<u8>, ErrorView<H>>(
            ErrorView::RuntimeError("Cannot dump progress that has already been resumed"@),
        ),
        !(snapshot.snapshot is Done) && state is Err ==> snapshot.dumped(state) == Err::<
            Seq<u8>,
            ErrorView<H>,
        >(ErrorView::ValueError(state->Err_0@)),
        !(snapshot.snapshot is Done) && state is Ok ==> snapshot.dumped(state) is Ok,
{
}

/// A snapshot whose state cannot be decoded, or behind whose state no name of a
/// script can be read, is refused with a `ValueError`, before the registry is
/// looked at; an exception from the registry is passed on.
pub proof fn futures_load_or_fail<H: Host>(
    snapshot: EitherFutureSnapshot<H>,
    behind: Seq<u8>,
    message: Seq<char>,
    print_callback: Option<Arc<H::Callback>>,
    dc_registry: Result<Arc<H::Registry>, H::Error>,
    result: Result<PyMontyFutureSnapshot<H>, PyError<H>>,
)
    ensures
        PyMontyFutureSnapshot::is_loaded(Err(message), print_callback, dc_registry, result)
            ==> result is Err && result->Err_0@ == ErrorView::<H>::ValueError(message),
        PyMontyFutureSnapshot::is_loaded(
            Ok((snapshot, behind)),
            print_callback,
            dc_registry,
            result,
        ) ==> {
            let name = crate::codec::string_taken(behind);
            if name is Err {
                result is Err && result->Err_0@ == ErrorView::<H>::ValueError(
                    crate::codec::fault_text(name->Err_0),
                )
            } else if dc_registry is Err {
                result is Err && result->Err_0@ == ErrorView::<H>::Raised(dc_registry->Err_0)
            } else {
                &&& result matches Ok(loaded)
                &&& loaded.snapshot == snapshot
                &&& loaded.print_callback == print_callback
                &&& loaded.dc_registry == dc_registry->Ok_0
                &&& loaded.script_name@ == name->Ok_0.0
            }
        },
{
}

} // verus!
