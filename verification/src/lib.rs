//! A command dispatcher that treats every command as an untrusted module:
//! the module is fetched on demand through a loader, compiled, cached for
//! the life of the process and run in a sandbox that is granted less than
//! the loader's.
//!
//! * [`input`] reads a line: the command, its arguments, or the wish to
//!   leave.
//! * [`cache`] maps command names to compiled modules. It only grows.
//! * [`host`] makes the two capability contexts and says what each grants.
//! * [`sandbox`] runs a guest in a context: the loader to get bytecode, a
//!   command to get its text. Its contracts speak of the history of the
//!   sandbox's store, which the bindings in [`runtime`] extend call by call.
//! * [`protocol`] says which steps a dispatch may take and what they do to
//!   the cache; [`laws`] proves what follows over any number of dispatches.
//! * [`evaluator`] is the dispatcher, which keeps to the protocol.
//! * [`outcome`] holds what a dispatch can end in, and how it is shown.
//! * [`session`] is one turn of the interactive session.
//! * [`echo`] is the command that hands its arguments back, and [`ipfs`]
//!   the stand-in for a content-addressed store.
//! * [`runtime`] binds the sandbox runtime. What is stated there of the
//!   runtime, and in [`host`] of its contexts, is taken on trust: that
//!   each call is made as its contract says, and what the contract says of
//!   the result. All the rest is proved from it. What a guest does with
//!   what it is handed, and that the runtime keeps a guest within what its
//!   context grants, is the runtime's and the guest's own affair.

pub mod cache;
pub mod echo;
pub mod evaluator;
pub mod host;
pub mod input;
pub mod ipfs;
pub mod laws;
pub mod outcome;
pub mod protocol;
pub mod runtime;
pub mod sandbox;
pub mod session;
