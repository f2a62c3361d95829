//! Lifecycle management for remote compute nodes whose provider performs
//! every mutation asynchronously.
//!
//! The crate holds the decisions of the node-management workflows: how an
//! identifier is resolved, how an action is polled to completion, how long a
//! node is given to power down, which shapes a node may be rescaled to, and in
//! which order these steps follow each other. Remote calls and pauses are
//! handed to the caller as [`workflow::Command`] values and come back as
//! [`workflow::Event`] values, so everything here is a total function on
//! plain data.
//!
//! - [`resolver`] reads an identifier as a node id or as a name.
//! - [`poller`] and [`waiter`] decide what follows one report about an
//!   action, or one look at a node that is to power down.
//! - [`shapes`] selects and prices the shapes a node can be rescaled to.
//! - [`workflow`] is the state machine that composes them, and [`runs`]
//!   states what holds of every run of it.
//! - [`listing`] orders the list of nodes and makes it ready to be shown.
//! - [`nginx`] writes the proxy configuration of the servers of a node.
//! - [`cmd`] holds the requests, [`model`] the provider's data and [`text`]
//!   the rendering of numbers and the order of strings.

pub mod cmd;
pub mod listing;
pub mod model;
pub mod nginx;
pub mod poller;
pub mod resolver;
pub mod runs;
pub mod shapes;
pub mod text;
pub mod waiter;
pub mod workflow;
