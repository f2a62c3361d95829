//! Plain-data descriptions of what the provider reports, each with the
//! mathematical view that the contracts of this crate speak of.

use vstd::prelude::*;

verus! {

/// The power and lifecycle status of a node, as the provider reports it.
#[derive(Clone, Copy, Debug, PartialEq, Eq, Structural)]
pub enum NodeStatus {
    Deleting,
    Initializing,
    Migrating,
    Off,
    Rebuilding,
    Running,
    Starting,
    Stopping,
    Unknown,
}

impl NodeStatus {
    /// Whether the node is powered down.
    pub open spec fn spec_is_off(self) -> bool {
        self == NodeStatus::Off
    }

    /// Whether the node is powered down.
    #[verifier::when_used_as_spec(spec_is_off)]
    pub fn is_off(self) -> (off: bool)
        ensures
            off == self.spec_is_off(),
    {
        match self {
            NodeStatus::Off => true,
            _ => false,
        }
    }
}

/// The processor architecture of a node or of a shape.
#[derive(Clone, Copy, Debug, PartialEq, Eq, Structural)]
pub enum Architecture {
    Arm,
    X86,
}

/// What the provider reports about an action at one moment.
///
/// `Running` carries the progress in percent; zero or less means that the
/// provider gives no estimate. `Success` and `Error` are final.
#[derive(Clone, Debug, PartialEq, Eq)]
pub enum ActionStatus {
    Running { progress: i32 },
    Success,
    Error { code: String, message: String },
}

/// The view of an [`ActionStatus`].
pub enum ActionStatusView {
    Running { progress: i32 },
    Success,
    Error { code: Seq<char>, message: Seq<char> },
}

impl View for ActionStatus {
    type V = ActionStatusView;

    open spec fn view(&self) -> ActionStatusView {
        match *self {
            ActionStatus::Running { progress } => ActionStatusView::Running { progress },
            ActionStatus::Success => ActionStatusView::Success,
            ActionStatus::Error { code, message } => ActionStatusView::Error {
                code: code@,
                message: message@,
            },
        }
    }
}

impl ActionStatusView {
    /// Whether the action has reached an end, good or bad.
    pub open spec fn is_terminal(self) -> bool {
        !(self is Running)
    }
}

/// The provider's account of why an action ended in error.
#[derive(Clone, Debug, PartialEq, Eq)]
pub struct ActionFailure {
    pub code: String,
    pub message: String,
}

/// The view of an [`ActionFailure`].
pub struct ActionFailureView {
    pub code: Seq<char>,
    pub message: Seq<char>,
}

impl View for ActionFailure {
    type V = ActionFailureView;

    open spec fn view(&self) -> ActionFailureView {
        ActionFailureView { code: self.code@, message: self.message@ }
    }
}

/// What a workflow reads of a node: its id, its power status, the size of
/// its primary disk in GiB, its architecture and the name of its location.
#[derive(Clone, Debug, PartialEq, Eq)]
pub struct NodeDetail {
    pub id: i64,
    pub status: NodeStatus,
    pub primary_disk_size: i32,
    pub architecture: Architecture,
    pub location: String,
}

/// The view of a [`NodeDetail`].
pub struct NodeDetailView {
    pub id: i64,
    pub status: NodeStatus,
    pub primary_disk_size: i32,
    pub architecture: Architecture,
    pub location: Seq<char>,
}

impl View for NodeDetail {
    type V = NodeDetailView;

    open spec fn view(&self) -> NodeDetailView {
        NodeDetailView {
            id: self.id,
            status: self.status,
            primary_disk_size: self.primary_disk_size,
            architecture: self.architecture,
            location: self.location@,
        }
    }
}

/// The monthly gross price of a shape at one location, as the provider
/// words it.
#[derive(Clone, Debug, PartialEq, Eq)]
pub struct PriceEntry {
    pub location: String,
    pub monthly_gross: String,
}

/// The view of a [`PriceEntry`].
pub struct PriceEntryView {
    pub location: Seq<char>,
    pub monthly_gross: Seq<char>,
}

impl View for PriceEntry {
    type V = PriceEntryView;

    open spec fn view(&self) -> PriceEntryView {
        PriceEntryView { location: self.location@, monthly_gross: self.monthly_gross@ }
    }
}

/// An entry of the provider's catalog of server classes.
///
/// `disk` is the disk size in whole GiB. Memory size plays no part in any
/// decision taken here and is left to the caller, who finds a catalog entry
/// again by its position.
#[derive(Clone, Debug, PartialEq, Eq)]
pub struct Shape {
    pub id: i64,
    pub name: String,
    pub cores: i32,
    pub disk: i64,
    pub architecture: Architecture,
    pub prices: Vec<PriceEntry>,
}

/// The view of a [`Shape`].
pub struct ShapeView {
    pub id: i64,
    pub name: Seq<char>,
    pub cores: i32,
    pub disk: i64,
    pub architecture: Architecture,
    pub prices: Seq<PriceEntryView>,
}

impl View for Shape {
    type V = ShapeView;

    open spec fn view(&self) -> ShapeView {
        ShapeView {
            id: self.id,
            name: self.name@,
            cores: self.cores,
            disk: self.disk,
            architecture: self.architecture,
            prices: self.prices@.map_values(|p: PriceEntry| p@),
        }
    }
}

/// The views of the entries of a catalog, in catalog order.
pub open spec fn catalog_view(catalog: Seq<Shape>) -> Seq<ShapeView> {
    catalog.map_values(|s: Shape| s@)
}

} // verus!
