//! The logic of the Python bindings of Monty, a sandboxed Python interpreter.
//!
//! The bindings stand between an interpreter and the Python that embeds it.
//! Neither of the two is known here: [`host::Host`] names the values that pass
//! between them, and every outcome of their work is an argument. What is left is
//! what the bindings decide themselves: what is asked of either side and in
//! which order, which exception goes before which, who owns the state of an
//! interrupted execution, and what its saved form looks like.
//!
//! * [`monty`] holds a program, [`inputs`] the values that it is given, and
//!   [`run`] the decisions on the way to its end.
//! * [`progress`], [`snapshot`] and [`future`] hold an execution that is resumed
//!   by the embedder, [`slot`] the state inside of it, and [`external`] the
//!   answers that it is resumed with.
//! * [`repl`], [`repl_create`], [`repl_progress`] and [`repl_snapshot`] hold a
//!   REPL session and its snippets.
//! * [`save`] and [`codec`] hold the saved form of all of these, [`round_trip`]
//!   what comes back of it.
//! * [`agreement`] relates the ways to run the same code.
//! * [`object`], [`print`], [`text`] and [`version`] hold what they share.
pub mod agreement;
pub mod codec;
pub mod external;
pub mod future;
pub mod host;
pub mod inputs;
pub mod monty;
pub mod object;
pub mod print;
pub mod progress;
pub mod repl;
pub mod repl_create;
pub mod repl_progress;
pub mod repl_snapshot;
pub mod round_trip;
pub mod run;
pub mod save;
pub mod slot;
pub mod snapshot;
pub mod text;
pub mod version;
