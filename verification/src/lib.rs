//! Core of a console multiplexer: it gathers the text that capsules and the
//! hypervisor emit, keeps it in per-source buffers, and renders those buffers
//! to one terminal, each source in its own colour.
//!
//! Polling the host, printing and exiting are left to the caller, which
//! feeds poll results in and prints the text that comes out.
//!
//! - `source`: polled characters and the sentinel.
//! - `store`: the buffers, and how they take in characters and give them up.
//! - `gather`: a round of polling, step by step, and what it leaves in the
//!   buffers.
//! - `frame`: what a render pass writes for given buffers.
//! - `render`: the render pass.
//! - `palette`, `ansi`: colour codes and escape sequences.
//! - `startup`, `relay`: which thread does what, and where typed input goes.
//! - `shared`: the buffers behind the locks through which the worker threads
//!   reach them.
//! - `error`: the errors that end the service.
//!
//! Two things are taken on trust and stated where they are used: what
//! `String::push` and `String::clear` do, in `string_specs`, and the spin
//! lock, in `shared`. Of the lock nothing is assumed but that it is made
//! around the value it is given and hands out the value it guards.

pub mod ansi;
pub mod error;
pub mod frame;
pub mod gather;
pub mod palette;
pub mod relay;
pub mod render;
pub mod shared;
pub mod source;
pub mod startup;
pub mod store;
pub mod string_specs;

