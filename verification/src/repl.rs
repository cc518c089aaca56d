//! A REPL session.
use std::sync::Arc;
use vstd::prelude::*;
use vstd::string::*;

use crate::host::{raised, ErrorView, Host, PyError, Tracker};
use crate::repl_progress::ReplContext;
use crate::save::{Decoded, Encoded};
use crate::slot::{Either, EitherRepl, Launch, Ready};

verus! {

/// A REPL session, fed snippet by snippet.
pub struct PyMontyRepl<H: Host> {
    /// The session, which is away while a snippet runs.
    pub repl: EitherRepl<H>,
    pub print_callback: Option<Arc<H::Callback>>,
    pub dc_registry: Arc<H::Registry>,
    /// Name of the script being executed.
    pub script_name: String,
}

/// A session lent out to run a snippet to its end, the code of the snippet, and
/// the callback that receives what it prints.
pub enum Feed<'a, H: Host> {
    NoLimit(&'a mut <H::NoLimit as Tracker>::Repl, &'a str, Option<Arc<H::Callback>>),
    Limited(&'a mut <H::Limited as Tracker>::Repl, &'a str, Option<Arc<H::Callback>>),
}

/// A session taken out to run a snippet step by step, with the code of the
/// snippet.
pub type ReplLaunch<'a, H> = Launch<
    <<H as Host>::NoLimit as Tracker>::Repl,
    <<H as Host>::Limited as Tracker>::Repl,
    &'a str,
    ReplContext<H>,
>;

/// The exception for a session that is running a snippet in another thread.
pub fn repl_locked<H: Host>() -> (error: PyError<H>)
    ensures
        error@ == ErrorView::<H>::RuntimeError(
            "REPL session is currently executing another snippet"@,
        ),
{
    PyError::RuntimeError("REPL session is currently executing another snippet".to_owned())
}

impl<H: Host> PyMontyRepl<H> {
    /// The callback that receives what a snippet prints: its own if it has one,
    /// else that of the session.
    pub open spec fn spec_callback(self, print_callback: Option<Arc<H::Callback>>) -> Option<
        Arc<H::Callback>,
    > {
        match print_callback {
            Some(callback) => Some(callback),
            None => self.print_callback,
        }
    }

    /// The callback that receives what a snippet prints: its own if it has one,
    /// else that of the session.
    pub fn callback(&self, print_callback: Option<Arc<H::Callback>>) -> (callback: Option<
        Arc<H::Callback>,
    >)
        ensures
            callback == self.spec_callback(print_callback),
    {
        match print_callback {
            Some(callback) => Some(callback),
            None => match &self.print_callback {
                Some(callback) => Some(Arc::clone(callback)),
                None => None,
            },
        }
    }

    /// Lends the session out to run the snippet `code` to its end.
    ///
    /// `RuntimeError` if the session is away. Nothing but the session can
    /// change.
    pub fn feed<'a>(&'a mut self, code: &'a str, print_callback: Option<Arc<H::Callback>>) -> (
    result: Result<Feed<'a, H>, PyError<H>>)
        ensures
            match old(self).repl {
                Either::NoLimit(session) => {
                    &&& result matches Ok(Feed::NoLimit(repl, snippet, callback))
                    &&& snippet@ == code@
                    &&& *repl == session
                    &&& callback == old(self).spec_callback(print_callback)
                    &&& *final(self) == (PyMontyRepl {
                        repl: Either::NoLimit(*final(repl)),
                        ..*old(self)
                    })
                },
                Either::Limited(session) => {
                    &&& result matches Ok(Feed::Limited(repl, snippet, callback))
                    &&& snippet@ == code@
                    &&& *repl == session
                    &&& callback == old(self).spec_callback(print_callback)
                    &&& *final(self) == (PyMontyRepl {
                        repl: Either::Limited(*final(repl)),
                        ..*old(self)
                    })
                },
                Either::Done => {
                    &&& crate::host::fails(result, ErrorView::RuntimeError("REPL is busy"@))
                    &&& *final(self) == *old(self)
                },
            },
    {
        let print_callback = self.callback(print_callback);
        match &mut self.repl {
            Either::NoLimit(repl) => Ok(Feed::NoLimit(repl, code, print_callback)),
            Either::Limited(repl) => Ok(Feed::Limited(repl, code, print_callback)),
            Either::Done => Err(PyError::RuntimeError("REPL is busy".to_owned())),
        }
    }

    /// What the stages of a snippet inherit from the session, which is owned by
    /// the object behind `py_repl`.
    pub open spec fn spec_context(
        self,
        print_callback: Option<Arc<H::Callback>>,
        py_repl: Arc<H::ReplHandle>,
    ) -> ReplContext<H> {
        ReplContext {
            script_name: self.script_name,
            print_callback: self.spec_callback(print_callback),
            dc_registry: self.dc_registry,
            py_repl,
        }
    }

    /// Takes the session out to run the snippet `code` step by step. It is away
    /// until the snippet has run to its end or has raised.
    pub fn start<'a>(
        &mut self,
        code: &'a str,
        print_callback: Option<Arc<H::Callback>>,
        py_repl: Arc<H::ReplHandle>,
    ) -> (launch: ReplLaunch<'a, H>)
        requires
            !(old(self).repl is Done),
        ensures
            *final(self) == (PyMontyRepl { repl: Either::Done, ..*old(self) }),
            old(self).repl.launched(code, old(self).spec_context(print_callback, py_repl)) == Some(
                launch,
            ),
    {
        let print_callback = self.callback(print_callback);
        let context = ReplContext {
            script_name: self.script_name.clone(),
            print_callback,
            dc_registry: Arc::clone(&self.dc_registry),
            py_repl,
        };
        match self.repl.take() {
            Either::NoLimit(state) => Launch::NoLimit(Ready { state, input: code, context }),
            Either::Limited(state) => Launch::Limited(Ready { state, input: code, context }),
            Either::Done => vstd::pervasive::unreached(),
        }
    }

    /// What saving the session gives.
    pub open spec fn dumped(self, state: Encoded) -> Result<Seq<u8>, ErrorView<H>> {
        match (self.repl, state) {
            (Either::Done, _) => Ok(
                crate::save::session_bytes(
                    self.repl.spec_variant(),
                    seq![],
                    self.script_name@,
                ),
            ),
            (_, Ok(state)) => Ok(
                crate::save::session_bytes(
                    self.repl.spec_variant(),
                    state@,
                    self.script_name@,
                ),
            ),
            (_, Err(message)) => Err(ErrorView::ValueError(message@)),
        }
    }

    /// Saves the session, given its encoded state. A session that is away is
    /// saved as such. The callback and the registry are not saved.
    ///
    /// `ValueError` if the state could not be encoded.
    pub fn dump(&self, state: Encoded) -> (result: Result<Vec<u8>, PyError<H>>)
        ensures
            match self.dumped(state) {
                Ok(expected) => result matches Ok(bytes) && bytes@ == expected,
                Err(error) => crate::host::fails(result, error),
            },
    {
        let state = match self.repl {
            Either::Done => Ok(Vec::new()),
            _ => state,
        };
        crate::save::dump_session(self.repl.variant(), state, self.script_name.as_str())
    }

    /// Whether `result` is the session with this decoded state and the bytes behind
    /// it.
    pub open spec fn is_loaded(
        decoded: Result<(EitherRepl<H>, Seq<u8>), Seq<char>>,
        print_callback: Option<Arc<H::Callback>>,
        dc_registry: Result<Arc<H::Registry>, H::Error>,
        result: Result<Self, PyError<H>>,
    ) -> bool {
        match decoded {
            Err(message) => crate::host::fails(result, ErrorView::ValueError(message)),
            Ok((repl, rest)) => match (crate::codec::string_taken(rest), dc_registry) {
                (Err(fault), _) => crate::host::fails(result, crate::save::fault_error(fault)),
                (Ok(_), Err(error)) => crate::host::fails(result, ErrorView::Raised(error)),
                (Ok((script_name, _)), Ok(dc_registry)) => {
                    &&& result matches Ok(loaded)
                    &&& loaded.repl == repl
                    &&& loaded.print_callback == print_callback
                    &&& loaded.dc_registry == dc_registry
                    &&& loaded.script_name@ == script_name
                },
            },
        }
    }

    /// Restores a session from its decoded state and the bytes behind it.
    ///
    /// `ValueError` if the state could not be decoded or if the bytes do not
    /// start with the name of the script; an exception from the registry is
    /// passed on.
    pub fn load(
        decoded: Decoded<'_, EitherRepl<H>>,
        print_callback: Option<Arc<H::Callback>>,
        dc_registry: Result<Arc<H::Registry>, H::Error>,
    ) -> (result: Result<Self, PyError<H>>)
        ensures
            Self::is_loaded(
                crate::save::decoded_view(decoded),
                print_callback,
                dc_registry,
                result,
            ),
    {
        let (repl, rest) = match decoded {
            Ok(decoded) => decoded,
            Err(message) => return Err(PyError::ValueError(message)),
        };
        let script_name = crate::save::load_script_name(rest)?;
        let dc_registry = raised::<_, H>(dc_registry)?;
        Ok(PyMontyRepl { repl, print_callback, dc_registry, script_name })
    }

    /// The printed form.
    pub fn repr(&self) -> (text: String)
        ensures
            text@ == "MontyRepl(script_name='"@ + self.script_name@ + "')"@,
    {
        let mut text: String = "MontyRepl(script_name='".to_owned();
        text.append(self.script_name.as_str());
        text.append("')");
        text
    }
}

/// A session can be saved if and only if it is away or its state can be encoded.
pub proof fn session_is_saved<H: Host>(session: PyMontyRepl<H>, state: Encoded)
    ensures
        session.repl is Done || state is Ok ==> session.dumped(state) is Ok,
        !(session.repl is Done) && state is Err ==> session.dumped(state) == Err::<
            Seq<u8>,
            ErrorView<H>,
        >(ErrorView::ValueError(state->Err_0@)),
{
}

/// A snippet prints to its own callback if it has one, and else to that of the
/// session.
pub proof fn snippet_prints_to_its_callback<H: Host>(
    session: PyMontyRepl<H>,
    callback: Arc<H::Callback>,
)
    ensures
        session.spec_callback(Some(callback)) == Some(callback),
        session.spec_callback(None) == session.print_callback,
{
}

/// A snippet that is started runs its own code in the state of the session,
/// under the tracker of the session. It inherits the name of the script and the
/// registry of the session, prints to its own callback or to that of the
/// session, and knows the owner of the session.
pub proof fn snippet_starts_in_the_session<H: Host>(
    session: PyMontyRepl<H>,
    code: &str,
    print_callback: Option<Arc<H::Callback>>,
    py_repl: Arc<H::ReplHandle>,
)
    ensures
        ({
            let launch = session.repl.launched(code, session.spec_context(print_callback, py_repl));
            let prints_to = if print_callback is Some {
                print_callback
            } else {
                session.print_callback
            };
            match session.repl {
                Either::NoLimit(state) => {
                    &&& launch matches Some(Launch::NoLimit(ready))
                    &&& ready.state == state
                    &&& ready.input@ == code@
                    &&& ready.context.script_name == session.script_name
                    &&& ready.context.print_callback == prints_to
                    &&& ready.context.dc_registry == session.dc_registry
                    &&& ready.context.py_repl == py_repl
                },
                Either::Limited(state) => {
                    &&& launch matches Some(Launch::Limited(ready))
                    &&& ready.state == state
                    &&& ready.input@ == code@
                    &&& ready.context.script_name == session.script_name
                    &&& ready.context.print_callback == prints_to
                    &&& ready.context.dc_registry == session.dc_registry
                    &&& ready.context.py_repl == py_repl
                },
                Either::Done => launch is None,
            }
        }),
{
}

/// A session whose state cannot be decoded, or behind whose state no name of a
/// script can be read, is refused with a `ValueError`, before the registry is
/// looked at; an exception from the registry is passed on.
pub proof fn session_loads_or_fails<H: Host>(
    repl: EitherRepl<H>,
    behind: Seq<u8>,
    message: Seq<char>,
    print_callback: Option<Arc<H::Callback>>,
    dc_registry: Result<Arc<H::Registry>, H::Error>,
    result: Result<PyMontyRepl<H>, PyError<H>>,
)
    ensures
        PyMontyRepl::is_loaded(Err(message), print_callback, dc_registry, result) ==> result is Err
            && result->Err_0@ == ErrorView::<H>::ValueError(message),
        PyMontyRepl::is_loaded(Ok((repl, behind)), print_callback, dc_registry, result) ==> {
            let name = crate::codec::string_taken(behind);
            if name is Err {
                result is Err && result->Err_0@ == ErrorView::<H>::ValueError(
                    crate::codec::fault_text(name->Err_0),
                )
            } else if dc_registry is Err {
                result is Err && result->Err_0@ == ErrorView::<H>::Raised(dc_registry->Err_0)
            } else {
                &&& result matches Ok(loaded)
                &&& loaded.repl == repl
                &&& loaded.print_callback == print_callback
                &&& loaded.dc_registry == dc_registry->Ok_0
                &&& loaded.script_name@ == name->Ok_0.0
            }
        },
{
}

} // verus!
