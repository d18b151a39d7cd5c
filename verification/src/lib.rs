//! Generation store and synchronisation engine for declarative software
//! environments.
//!
//! An environment is an append-only chain of immutable, numbered generations
//! together with a cursor naming the generation in use. Every change of the
//! manifest is recorded as a new generation; rollback and switching only move
//! the cursor; push and pull move whole histories between a local copy and a
//! remote registry.
//!
//! The library computes on values and never reaches outside. Resolving a
//! manifest, editing it, reading and writing files, and talking to the remote
//! registry are the caller's work: the library says what is to be done and
//! takes the result.
//!
//! * [`environment`]: the generation store.
//! * [`transaction`]: from a change of the manifest to a new generation.
//! * [`history`]: rollback, switching, listing and collapsing.
//! * [`sync`] and [`main_branch`]: push and pull, of one environment and of
//!   the log of tracked environments.
//! * [`commands`] and [`handling`]: the environment commands and what each
//!   does.
//! * [`laws`]: what holds of every environment.
//! * [`manifest`], [`text`], [`names`], [`generation`], [`record`],
//!   [`lock`], [`error`]: the values all of this works on.

pub mod commands;
pub mod environment;
pub mod error;
pub mod generation;
pub mod handling;
pub mod history;
pub mod laws;
pub mod lock;
pub mod main_branch;
pub mod manifest;
pub mod names;
pub mod record;
pub mod sync;
pub mod text;
pub mod transaction;
