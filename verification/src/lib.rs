//! Readiness checks for a chat community: somebody asks a group of people whether they are
//! ready, everybody answers with one of two buttons, and the check ends when all are ready
//! or when the time is up.
//!
//! [`flow`] is the whole of one check as a state machine. It puts together the wizard that
//! collects whom to ask and for how long ([`setup`]), the resolution of that selection
//! against the members of the guild ([`roster`]), and the poll ([`session`]), whose status
//! message [`render`] draws. All of them share one stream of interactions ([`bus`],
//! [`event`]) and tell their own apart by the ids in [`ids`]. [`laws`] states what holds of
//! them whatever happens.
//!
//! Nothing in here waits or talks to the platform. The caller does both: it hands the state
//! machines what happened, and does what they ask for.
//!
//! Beside the checks, [`oauth`] holds what a login hands back to the community's dashboard.

pub mod bus;
pub mod controls;
pub mod event;
pub mod flow;
pub mod ids;
pub mod laws;
pub mod mention;
pub mod oauth;
pub mod render;
pub mod roster;
pub mod session;
pub mod setup;
pub mod status;
pub mod text;
