//! The requests that the workflows of this crate are started from.

use vstd::prelude::*;

verus! {

/// A request to list the nodes.
#[derive(Clone, Debug, PartialEq, Eq)]
pub struct CmdList {
    /// List the full details of each node.
    pub full: bool,
    /// Render the list as JSON.
    pub json: bool,
    /// The quality to sort the nodes by.
    pub sort: NodeSortOpt,
    /// Reverse the order of the nodes.
    pub reverse: bool,
}

/// The quality that a list of nodes is sorted by.
#[derive(Clone, Copy, Debug, PartialEq, Eq, Structural)]
pub enum NodeSortOpt {
    /// By name.
    Alphabetical,
    /// By date of creation.
    Created,
    /// By number of processor cores.
    Cores,
    /// By size of memory.
    Memory,
    /// By status.
    Status,
}

/// A request to shut a node down.
#[derive(Clone, Debug, PartialEq, Eq)]
pub struct CmdShutdown {
    /// The id or the name of the node.
    pub node: String,
    /// Start the node again once it is down.
    pub restart: bool,
    /// Cut the power instead of asking the node to shut down.
    pub force: bool,
}

/// A request to start a node.
#[derive(Clone, Debug, PartialEq, Eq)]
pub struct CmdStartup {
    /// The id or the name of the node.
    pub node: String,
}

/// A request to rescale a node, or to list the shapes it can be rescaled to.
#[derive(Clone, Debug, PartialEq, Eq)]
pub struct CmdRescale {
    /// The id or the name of the node.
    pub node: String,
    /// The id of the shape to rescale to; without it the compatible shapes
    /// are listed and nothing is changed.
    pub shape: Option<u16>,
}

} // verus!
