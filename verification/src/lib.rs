//! Orchestration core of a desktop companion for handheld radios.
//!
//! The crate models every long-running hardware operation (flashing a
//! firmware image, backing up the radio) as explicit state, decides when an
//! operation may start, folds the progress samples that a worker streams back
//! into that state, and routes front-end events to the tab they belong to.
//! It performs no I/O itself: every public function maps state and event to
//! the next state and to the action the caller has to carry out.
//!
//! - [`progress`] and [`channel`]: samples, exact progress, and the buffer
//!   between a worker and the state it reports to.
//! - [`model`]: the rules of an operation over mathematical values, with
//!   the proofs of what they guarantee.
//! - [`operation`]: the state of one operation and the functions that
//!   start it, feed it and bring it up to date.
//! - [`flash`] and [`backup`]: the two tabs and their events.
//! - [`companion`]: the application, which routes events to the tabs and
//!   keeps them from running on the same port at once.
//! - [`action`]: what an event leaves to the caller.
//! - [`text`]: decimal rendering and file URIs.

pub mod action;
pub mod backup;
pub mod channel;
pub mod companion;
pub mod flash;
pub mod model;
pub mod operation;
pub mod progress;
pub mod text;
