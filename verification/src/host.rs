//! The two worlds that the bindings connect: the interpreter and its embedder.
use vstd::prelude::*;

verus! {

/// The states of the interpreter under one resource tracker.
///
/// The interpreter is generic over its tracker; these are its suspended and
/// its resting states for one choice of it.
pub trait Tracker {
    /// Execution suspended at a call.
    type Snapshot;

    /// Execution suspended on unresolved futures.
    type FutureSnapshot;

    /// A REPL session at rest.
    type Repl;

    /// A REPL snippet suspended at a call.
    type ReplSnapshot;

    /// A REPL snippet suspended on unresolved futures.
    type ReplFutureSnapshot;
}

/// The values that pass between the interpreter and its embedder. The
/// bindings move them and never look inside.
pub trait Host {
    /// A dataclass instance of the interpreter.
    type Dataclass;

    /// A value of the interpreter that is neither a container nor a dataclass
    /// instance.
    type Leaf;

    /// A value of the embedding Python.
    type Value;

    /// An exception of the interpreter.
    type Exception;

    /// What the type checker reports.
    type Diagnostic;

    /// An exception raised in the embedding Python.
    type Error;

    /// A callback that receives printed output.
    type Callback;

    /// The registry of dataclass types, shared by everything that belongs to
    /// one program.
    type Registry;

    /// Compiled code.
    type Runner;

    /// Resource limits.
    type Limits;

    /// A reference to the object that owns a REPL session.
    type ReplHandle;

    /// Execution without limits.
    type NoLimit: Tracker;

    /// Execution under limits.
    type Limited: Tracker;
}

/// An exception for the embedding Python.
pub enum PyError<H: Host> {
    TypeError(String),
    RuntimeError(String),
    ValueError(String),
    KeyError(String),
    /// An exception that the interpreter raised.
    Monty(H::Exception),
    /// Type errors in the code.
    Typing(H::Diagnostic),
    /// An exception that Python raised, passed on.
    Raised(H::Error),
}

/// An exception with its message as text.
pub enum ErrorView<H: Host> {
    TypeError(Seq<char>),
    RuntimeError(Seq<char>),
    ValueError(Seq<char>),
    KeyError(Seq<char>),
    Monty(H::Exception),
    Typing(H::Diagnostic),
    Raised(H::Error),
}

impl<H: Host> View for PyError<H> {
    type V = ErrorView<H>;

    open spec fn view(&self) -> ErrorView<H> {
        match *self {
            PyError::TypeError(message) => ErrorView::TypeError(message@),
            PyError::RuntimeError(message) => ErrorView::RuntimeError(message@),
            PyError::ValueError(message) => ErrorView::ValueError(message@),
            PyError::KeyError(message) => ErrorView::KeyError(message@),
            PyError::Monty(exception) => ErrorView::Monty(exception),
            PyError::Typing(diagnostic) => ErrorView::Typing(diagnostic),
            PyError::Raised(error) => ErrorView::Raised(error),
        }
    }
}

/// A result whose exception is taken by its text.
pub open spec fn outcome<T, H: Host>(result: Result<T, PyError<H>>) -> Result<T, ErrorView<H>> {
    match result {
        Ok(value) => Ok(value),
        Err(error) => Err(error@),
    }
}

/// Whether `result` is the exception `error`.
pub open spec fn fails<T, H: Host>(result: Result<T, PyError<H>>, error: ErrorView<H>) -> bool {
    result matches Err(raised) && raised@ == error
}

/// Passes on the exception that Python raised, if it did.
pub fn raised<T, H: Host>(result: Result<T, H::Error>) -> (passed: Result<T, PyError<H>>)
    ensures
        passed == match result {
            Ok(value) => Ok::<T, PyError<H>>(value),
            Err(error) => Err(PyError::Raised(error)),
        },
{
    match result {
        Ok(value) => Ok(value),
        Err(error) => Err(PyError::Raised(error)),
    }
}

/// An exception keeps its kind and its message, and what it carries.
pub proof fn exceptions_keep_their_kind<H: Host>(
    message: String,
    exception: H::Exception,
    diagnostic: H::Diagnostic,
    error: H::Error,
)
    ensures
        PyError::<H>::TypeError(message)@ == ErrorView::<H>::TypeError(message@),
        PyError::<H>::RuntimeError(message)@ == ErrorView::<H>::RuntimeError(message@),
        PyError::<H>::ValueError(message)@ == ErrorView::<H>::ValueError(message@),
        PyError::<H>::KeyError(message)@ == ErrorView::<H>::KeyError(message@),
        PyError::<H>::Monty(exception)@ == ErrorView::<H>::Monty(exception),
        PyError::<H>::Typing(diagnostic)@ == ErrorView::<H>::Typing(diagnostic),
        PyError::<H>::Raised(error)@ == ErrorView::<H>::Raised(error),
{
}

/// A result succeeds with its value and fails with its exception: it is the
/// failure `error` if and only if it is an exception that reads so.
pub proof fn results_read_as_they_are<T, H: Host>(
    value: T,
    raised: PyError<H>,
    result: Result<T, PyError<H>>,
    error: ErrorView<H>,
)
    ensures
        outcome(Ok::<T, PyError<H>>(value)) == Ok::<T, ErrorView<H>>(value),
        outcome(Err::<T, PyError<H>>(raised)) == Err::<T, ErrorView<H>>(raised@),
        fails(result, error) <==> result is Err && result->Err_0@ == error,
{
}

} // verus!
