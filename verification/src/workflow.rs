//! The node workflows as a state machine.
//!
//! A workflow never calls the provider itself. It hands out one [`Command`]
//! at a time, and is told by an [`Event`] how the command went. Each
//! transition is a total function of the state and the event, so a workflow
//! can be driven by a real client, with real pauses, or by a script.

use crate::cmd::{CmdRescale, CmdShutdown, CmdStartup};
use crate::model::{
    ActionFailure, ActionFailureView, ActionStatus, ActionStatusView, Architecture, NodeDetail,
    NodeDetailView, Shape, ShapeView, catalog_view,
};
use crate::poller::{ACTION_POLL_INTERVAL_MS, PollDecision, PollDecisionView, Progress, poll, spec_poll};
use crate::resolver::{first_match, parse_node_id, spec_node_id};
use crate::shapes::{
    CompatibleShape, CompatibleShapeView, compatible_shapes, offers_view, spec_compatible_shapes,
};
use crate::waiter::{OFF_WAIT_INTERVAL_MS, WaitDecision, spec_wait, wait};
use vstd::prelude::*;

verus! {

/// The calls that change the power state of a node. Each of them starts an
/// action.
#[derive(Clone, Copy, Debug, PartialEq, Eq, Structural)]
pub enum PowerAction {
    /// Start the node.
    PowerOn,
    /// Power the node off.
    PowerOff,
    /// Shut the node down.
    Shutdown,
    /// Reboot the node through its operating system.
    SoftReboot,
    /// Reset the node.
    Reset,
}

/// What a workflow is to achieve.
#[derive(Clone, Copy, Debug, PartialEq, Eq)]
pub enum Goal {
    /// Start the node.
    Startup,
    /// Stop the node in the way that the two flags select.
    Shutdown { force: bool, restart: bool },
    /// Rescale the node to the shape `target`, or list the shapes it can be
    /// rescaled to when there is no target.
    Rescale { target: Option<u16> },
}

/// What is shown to the user during a pause.
#[derive(Clone, Copy, Debug, PartialEq, Eq, Structural)]
pub enum Indicator {
    /// The progress of the action that is polled.
    Action(Progress),
    /// A mark of progress in the wait for a node to power down.
    Tick,
    /// Nothing.
    Silent,
}

/// What the driver of a workflow is asked to do next.
#[derive(Clone, Debug, PartialEq, Eq)]
pub enum Command {
    /// List the nodes whose name is exactly `name`.
    ListNodes { name: String },
    /// Fetch the detail of the node `id`.
    GetNode { id: i64 },
    /// Change the power state of the node `id`.
    Power { id: i64, action: PowerAction },
    /// Change the shape of the node `id` to `shape`.
    ChangeShape { id: i64, shape: u16, upgrade_disk: bool },
    /// Fetch the status of the action `id`.
    GetAction { id: i64 },
    /// Fetch the catalog of shapes.
    ListShapes,
    /// Show `indicator` and pause for `millis` milliseconds.
    Sleep { millis: u64, indicator: Indicator },
}

/// The view of a [`Command`].
pub enum CommandView {
    ListNodes { name: Seq<char> },
    GetNode { id: i64 },
    Power { id: i64, action: PowerAction },
    ChangeShape { id: i64, shape: u16, upgrade_disk: bool },
    GetAction { id: i64 },
    ListShapes,
    Sleep { millis: u64, indicator: Indicator },
}

impl View for Command {
    type V = CommandView;

    open spec fn view(&self) -> CommandView {
        match *self {
            Command::ListNodes { name } => CommandView::ListNodes { name: name@ },
            Command::GetNode { id } => CommandView::GetNode { id },
            Command::Power { id, action } => CommandView::Power { id, action },
            Command::ChangeShape { id, shape, upgrade_disk } => CommandView::ChangeShape {
                id,
                shape,
                upgrade_disk,
            },
            Command::GetAction { id } => CommandView::GetAction { id },
            Command::ListShapes => CommandView::ListShapes,
            Command::Sleep { millis, indicator } => CommandView::Sleep { millis, indicator },
        }
    }
}

/// How the last command went.
#[derive(Clone, Debug, PartialEq, Eq)]
pub enum Event {
    /// The ids of the nodes listed, in the provider's order.
    Nodes { ids: Vec<i64> },
    /// The detail of the node fetched.
    Node(NodeDetail),
    /// The provider accepted a change and started the action `action`.
    ActionStarted { action: i64 },
    /// The status of the action fetched.
    Action(ActionStatus),
    /// The catalog of shapes.
    Shapes(Vec<Shape>),
    /// The pause is over.
    Slept,
    /// The call to the provider failed.
    RemoteFailed,
}

/// The view of an [`Event`].
pub enum EventView {
    Nodes { ids: Seq<i64> },
    Node(NodeDetailView),
    ActionStarted { action: i64 },
    Action(ActionStatusView),
    Shapes(Seq<ShapeView>),
    Slept,
    RemoteFailed,
}

impl View for Event {
    type V = EventView;

    open spec fn view(&self) -> EventView {
        match *self {
            Event::Nodes { ids } => EventView::Nodes { ids: ids@ },
            Event::Node(detail) => EventView::Node(detail@),
            Event::ActionStarted { action } => EventView::ActionStarted { action },
            Event::Action(status) => EventView::Action(status@),
            Event::Shapes(catalog) => EventView::Shapes(catalog_view(catalog@)),
            Event::Slept => EventView::Slept,
            Event::RemoteFailed => EventView::RemoteFailed,
        }
    }
}

/// What a workflow has achieved when it ends well.
#[derive(Clone, Debug, PartialEq, Eq)]
pub enum RescaleOutcome {
    /// The last action succeeded.
    Completed,
    /// The shapes that the node can be rescaled to. Nothing was changed.
    Compatible(Vec<CompatibleShape>),
}

/// The view of a [`RescaleOutcome`].
pub enum RescaleOutcomeView {
    Completed,
    Compatible(Seq<CompatibleShapeView>),
}

impl View for RescaleOutcome {
    type V = RescaleOutcomeView;

    open spec fn view(&self) -> RescaleOutcomeView {
        match *self {
            RescaleOutcome::Completed => RescaleOutcomeView::Completed,
            RescaleOutcome::Compatible(offers) => RescaleOutcomeView::Compatible(
                offers_view(offers@),
            ),
        }
    }
}

/// Why a workflow ended without achieving its goal.
#[derive(Clone, Debug, PartialEq, Eq)]
pub enum OrchestrationError {
    /// No node has the name given.
    Resolution,
    /// A call to the provider failed.
    Remote,
    /// An action ended in error.
    Action(ActionFailure),
    /// The node was not seen powered down in time.
    TimeoutExceeded,
}

/// The view of an [`OrchestrationError`].
pub enum OrchestrationErrorView {
    Resolution,
    Remote,
    Action(ActionFailureView),
    TimeoutExceeded,
}

impl View for OrchestrationError {
    type V = OrchestrationErrorView;

    open spec fn view(&self) -> OrchestrationErrorView {
        match *self {
            OrchestrationError::Resolution => OrchestrationErrorView::Resolution,
            OrchestrationError::Remote => OrchestrationErrorView::Remote,
            OrchestrationError::Action(failure) => OrchestrationErrorView::Action(failure@),
            OrchestrationError::TimeoutExceeded => OrchestrationErrorView::TimeoutExceeded,
        }
    }
}

/// The answer of a workflow to an event.
#[derive(Clone, Debug, PartialEq, Eq)]
pub enum Step {
    /// Carry out the command and report how it went.
    Run(Command),
    /// The workflow ended well.
    Done(RescaleOutcome),
    /// The workflow ended in failure.
    Failed(OrchestrationError),
    /// The event answers no command that is outstanding; the workflow has
    /// not moved.
    Unexpected,
}

/// The view of a [`Step`].
pub enum StepView {
    Run(CommandView),
    Done(RescaleOutcomeView),
    Failed(OrchestrationErrorView),
    Unexpected,
}

impl View for Step {
    type V = StepView;

    open spec fn view(&self) -> StepView {
        match *self {
            Step::Run(command) => StepView::Run(command@),
            Step::Done(outcome) => StepView::Done(outcome@),
            Step::Failed(error) => StepView::Failed(error@),
            Step::Unexpected => StepView::Unexpected,
        }
    }
}

/// The state of a workflow: the command that is outstanding, and what is
/// to follow it.
#[derive(Clone, Debug, PartialEq, Eq)]
pub enum Workflow {
    /// The nodes of a given name are being listed.
    Resolving { goal: Goal },
    /// The detail of the node is being fetched, to rescale it to `target`.
    Describing { id: i64, target: Option<u16> },
    /// A change was sent and the provider has not named its action yet.
    /// With `resize`, the change is the shutdown that precedes the change of
    /// shape.
    Submitting { id: i64, resize: Option<u16> },
    /// The status of `action` is being fetched.
    Polling { id: i64, action: i64, resize: Option<u16> },
    /// A pause before `action` is polled again.
    Pausing { id: i64, action: i64, resize: Option<u16> },
    /// The node is being looked at, after `earlier` looks that did not find
    /// it powered down.
    Probing { id: i64, earlier: u32, shape: u16 },
    /// A pause before the node is looked at again.
    Resting { id: i64, earlier: u32, shape: u16 },
    /// The catalog of shapes is being fetched for a node with the given
    /// disk size, architecture and location.
    Cataloguing { min_disk: i32, architecture: Architecture, location: String },
    /// The workflow has ended.
    Closed,
}

/// The view of a [`Workflow`].
pub enum WorkflowView {
    Resolving { goal: Goal },
    Describing { id: i64, target: Option<u16> },
    Submitting { id: i64, resize: Option<u16> },
    Polling { id: i64, action: i64, resize: Option<u16> },
    Pausing { id: i64, action: i64, resize: Option<u16> },
    Probing { id: i64, earlier: u32, shape: u16 },
    Resting { id: i64, earlier: u32, shape: u16 },
    Cataloguing { min_disk: i32, architecture: Architecture, location: Seq<char> },
    Closed,
}

impl View for Workflow {
    type V = WorkflowView;

    open spec fn view(&self) -> WorkflowView {
        match *self {
            Workflow::Resolving { goal } => WorkflowView::Resolving { goal },
            Workflow::Describing { id, target } => WorkflowView::Describing { id, target },
            Workflow::Submitting { id, resize } => WorkflowView::Submitting { id, resize },
            Workflow::Polling { id, action, resize } => WorkflowView::Polling { id, action, resize },
            Workflow::Pausing { id, action, resize } => WorkflowView::Pausing { id, action, resize },
            Workflow::Probing { id, earlier, shape } => WorkflowView::Probing { id, earlier, shape },
            Workflow::Resting { id, earlier, shape } => WorkflowView::Resting { id, earlier, shape },
            Workflow::Cataloguing { min_disk, architecture, location } => WorkflowView::Cataloguing {
                min_disk,
                architecture,
                location: location@,
            },
            Workflow::Closed => WorkflowView::Closed,
        }
    }
}

/// The call that stops a node for the two flags of a shutdown request.
pub open spec fn spec_shutdown_action(force: bool, restart: bool) -> PowerAction {
    if restart {
        if force {
            PowerAction::Reset
        } else {
            PowerAction::SoftReboot
        }
    } else {
        if force {
            PowerAction::Shutdown
        } else {
            PowerAction::PowerOff
        }
    }
}

/// The call that stops a node for the two flags of a shutdown request:
/// power-off without a flag, shutdown with `force`, soft reboot with
/// `restart`, reset with both.
pub fn shutdown_action(force: bool, restart: bool) -> (action: PowerAction)
    ensures
        action == spec_shutdown_action(force, restart),
{
    if restart {
        if force {
            PowerAction::Reset
        } else {
            PowerAction::SoftReboot
        }
    } else {
        if force {
            PowerAction::Shutdown
        } else {
            PowerAction::PowerOff
        }
    }
}

/// The change of shape that a rescale ends with: to `shape`, leaving the
/// disk as it is.
pub open spec fn spec_resize(id: i64, shape: u16) -> (WorkflowView, StepView) {
    (
        WorkflowView::Submitting { id, resize: None },
        StepView::Run(CommandView::ChangeShape { id, shape, upgrade_disk: false }),
    )
}

/// The first move of a workflow once the node id is known.
pub open spec fn spec_begin(goal: Goal, id: i64) -> (WorkflowView, StepView) {
    match goal {
        Goal::Startup => (
            WorkflowView::Submitting { id, resize: None },
            StepView::Run(CommandView::Power { id, action: PowerAction::PowerOn }),
        ),
        Goal::Shutdown { force, restart } => (
            WorkflowView::Submitting { id, resize: None },
            StepView::Run(CommandView::Power { id, action: spec_shutdown_action(force, restart) }),
        ),
        Goal::Rescale { target } => (
            WorkflowView::Describing { id, target },
            StepView::Run(CommandView::GetNode { id }),
        ),
    }
}

/// The first move of a workflow for the identifier `node`: an identifier
/// that spells a node id is taken at its word, any other is a name to look
/// up.
pub open spec fn spec_start(goal: Goal, node: Seq<char>) -> (WorkflowView, StepView) {
    match spec_node_id(node) {
        Some(id) => spec_begin(goal, id),
        None => (
            WorkflowView::Resolving { goal },
            StepView::Run(CommandView::ListNodes { name: node }),
        ),
    }
}

/// The move of a rescale once the detail of the node is known.
pub open spec fn spec_described(
    id: i64,
    target: Option<u16>,
    detail: NodeDetailView,
) -> (WorkflowView, StepView) {
    match target {
        Some(shape) => if detail.status.spec_is_off() {
            spec_resize(id, shape)
        } else {
            (
                WorkflowView::Submitting { id, resize: Some(shape) },
                StepView::Run(CommandView::Power { id, action: PowerAction::PowerOff }),
            )
        },
        None => (
            WorkflowView::Cataloguing {
                min_disk: detail.primary_disk_size,
                architecture: detail.architecture,
                location: detail.location,
            },
            StepView::Run(CommandView::ListShapes),
        ),
    }
}

/// The move after a report about the action that is polled.
pub open spec fn spec_polled(
    id: i64,
    action: i64,
    resize: Option<u16>,
    status: ActionStatusView,
) -> (WorkflowView, StepView) {
    match spec_poll(status) {
        PollDecisionView::Pause { progress } => (
            WorkflowView::Pausing { id, action, resize },
            StepView::Run(
                CommandView::Sleep {
                    millis: ACTION_POLL_INTERVAL_MS,
                    indicator: Indicator::Action(progress),
                },
            ),
        ),
        PollDecisionView::Finished => match resize {
            Some(shape) => (
                WorkflowView::Probing { id, earlier: 0, shape },
                StepView::Run(CommandView::GetNode { id }),
            ),
            None => (WorkflowView::Closed, StepView::Done(RescaleOutcomeView::Completed)),
        },
        PollDecisionView::Failed(failure) => (
            WorkflowView::Closed,
            StepView::Failed(OrchestrationErrorView::Action(failure)),
        ),
    }
}

/// The move after a look at the node that is to power down.
pub open spec fn spec_probed(
    id: i64,
    earlier: u32,
    shape: u16,
    status: crate::model::NodeStatus,
) -> (WorkflowView, StepView) {
    match spec_wait(earlier as int, status) {
        WaitDecision::Confirmed => spec_resize(id, shape),
        WaitDecision::TimedOut => (
            WorkflowView::Closed,
            StepView::Failed(OrchestrationErrorView::TimeoutExceeded),
        ),
        WaitDecision::Pause { tick } => (
            WorkflowView::Resting { id, earlier: (earlier + 1) as u32, shape },
            StepView::Run(
                CommandView::Sleep {
                    millis: OFF_WAIT_INTERVAL_MS,
                    indicator: if tick {
                        Indicator::Tick
                    } else {
                        Indicator::Silent
                    },
                },
            ),
        ),
    }
}

/// The transition of a workflow: the state after `event`, and the answer to
/// it.
///
/// A closed workflow expects nothing. Any other workflow ends with
/// [`OrchestrationError::Remote`] when the call failed, moves on when the
/// event answers the command that is outstanding, and stays as it is on any
/// other event.
pub open spec fn spec_step(workflow: WorkflowView, event: EventView) -> (WorkflowView, StepView) {
    match (workflow, event) {
        (WorkflowView::Closed, _) => (workflow, StepView::Unexpected),
        (_, EventView::RemoteFailed) => (
            WorkflowView::Closed,
            StepView::Failed(OrchestrationErrorView::Remote),
        ),
        (WorkflowView::Resolving { goal }, EventView::Nodes { ids }) => if ids.len() == 0 {
            (WorkflowView::Closed, StepView::Failed(OrchestrationErrorView::Resolution))
        } else {
            spec_begin(goal, ids[0])
        },
        (WorkflowView::Describing { id, target }, EventView::Node(detail)) => spec_described(
            id,
            target,
            detail,
        ),
        (WorkflowView::Submitting { id, resize }, EventView::ActionStarted { action }) => (
            WorkflowView::Polling { id, action, resize },
            StepView::Run(CommandView::GetAction { id: action }),
        ),
        (WorkflowView::Polling { id, action, resize }, EventView::Action(status)) => spec_polled(
            id,
            action,
            resize,
            status,
        ),
        (WorkflowView::Pausing { id, action, resize }, EventView::Slept) => (
            WorkflowView::Polling { id, action, resize },
            StepView::Run(CommandView::GetAction { id: action }),
        ),
        (WorkflowView::Probing { id, earlier, shape }, EventView::Node(detail)) => spec_probed(
            id,
            earlier,
            shape,
            detail.status,
        ),
        (WorkflowView::Resting { id, earlier, shape }, EventView::Slept) => (
            WorkflowView::Probing { id, earlier, shape },
            StepView::Run(CommandView::GetNode { id }),
        ),
        (
            WorkflowView::Cataloguing { min_disk, architecture, location },
            EventView::Shapes(catalog),
        ) => (
            WorkflowView::Closed,
            StepView::Done(
                RescaleOutcomeView::Compatible(
                    spec_compatible_shapes(catalog, min_disk as int, architecture, location),
                ),
            ),
        ),
        _ => (workflow, StepView::Unexpected),
    }
}

fn resize(id: i64, shape: u16) -> (next: (Workflow, Step))
    ensures
        (next.0@, next.1@) == spec_resize(id, shape),
{
    (
        Workflow::Submitting { id, resize: None },
        Step::Run(Command::ChangeShape { id, shape, upgrade_disk: false }),
    )
}

fn begin(goal: Goal, id: i64) -> (next: (Workflow, Step))
    ensures
        (next.0@, next.1@) == spec_begin(goal, id),
{
    match goal {
        Goal::Startup => (
            Workflow::Submitting { id, resize: None },
            Step::Run(Command::Power { id, action: PowerAction::PowerOn }),
        ),
        Goal::Shutdown { force, restart } => (
            Workflow::Submitting { id, resize: None },
            Step::Run(Command::Power { id, action: shutdown_action(force, restart) }),
        ),
        Goal::Rescale { target } => (
            Workflow::Describing { id, target },
            Step::Run(Command::GetNode { id }),
        ),
    }
}

/// Starts a workflow towards `goal` on the node that `node` identifies.
///
/// An identifier that spells a node id is used as it stands, and the first
/// command is already the first of the goal. Any other identifier is a name:
/// the first command lists the nodes of that name.
pub fn start(goal: Goal, node: String) -> (next: (Workflow, Step))
    ensures
        (next.0@, next.1@) == spec_start(goal, node@),
{
    match parse_node_id(node.as_str()) {
        Some(id) => begin(goal, id),
        None => (Workflow::Resolving { goal }, Step::Run(Command::ListNodes { name: node })),
    }
}

/// Starts the workflow that stops the node of `args` in the way that its
/// flags select, and polls the action to its end.
pub fn shutdown(args: CmdShutdown) -> (next: (Workflow, Step))
    ensures
        (next.0@, next.1@) == spec_start(
            Goal::Shutdown { force: args.force, restart: args.restart },
            args.node@,
        ),
{
    start(Goal::Shutdown { force: args.force, restart: args.restart }, args.node)
}

/// Starts the workflow that powers the node of `args` on, and polls the
/// action to its end.
pub fn startup(args: CmdStartup) -> (next: (Workflow, Step))
    ensures
        (next.0@, next.1@) == spec_start(Goal::Startup, args.node@),
{
    start(Goal::Startup, args.node)
}

/// Starts the workflow that rescales the node of `args` to the shape asked
/// for, or lists the shapes it can be rescaled to when none is asked for.
pub fn rescale(args: CmdRescale) -> (next: (Workflow, Step))
    ensures
        (next.0@, next.1@) == spec_start(Goal::Rescale { target: args.shape }, args.node@),
{
    start(Goal::Rescale { target: args.shape }, args.node)
}

impl Workflow {
    /// Whether the workflow has ended.
    pub fn is_closed(&self) -> (closed: bool)
        ensures
            closed == (self@ is Closed),
    {
        match self {
            Workflow::Closed => true,
            _ => false,
        }
    }

    /// Takes the workflow one transition further: returns the state after
    /// `event` and the answer to it.
    pub fn step(self, event: Event) -> (next: (Workflow, Step))
        ensures
            (next.0@, next.1@) == spec_step(self@, event@),
    {
        match (self, event) {
            (Workflow::Closed, _) => (Workflow::Closed, Step::Unexpected),
            (_, Event::RemoteFailed) => (
                Workflow::Closed,
                Step::Failed(OrchestrationError::Remote),
            ),
            (Workflow::Resolving { goal }, Event::Nodes { ids }) => match first_match(&ids) {
                None => (Workflow::Closed, Step::Failed(OrchestrationError::Resolution)),
                Some(id) => begin(goal, id),
            },
            (Workflow::Describing { id, target }, Event::Node(detail)) => match target {
                Some(shape) => if detail.status.is_off() {
                    resize(id, shape)
                } else {
                    (
                        Workflow::Submitting { id, resize: Some(shape) },
                        Step::Run(Command::Power { id, action: PowerAction::PowerOff }),
                    )
                },
                None => (
                    Workflow::Cataloguing {
                        min_disk: detail.primary_disk_size,
                        architecture: detail.architecture,
                        location: detail.location,
                    },
                    Step::Run(Command::ListShapes),
                ),
            },
            (Workflow::Submitting { id, resize }, Event::ActionStarted { action }) => (
                Workflow::Polling { id, action, resize },
                Step::Run(Command::GetAction { id: action }),
            ),
            (Workflow::Polling { id, action, resize }, Event::Action(status)) => match poll(
                status,
            ) {
                PollDecision::Pause { progress } => (
                    Workflow::Pausing { id, action, resize },
                    Step::Run(
                        Command::Sleep {
                            millis: ACTION_POLL_INTERVAL_MS,
                            indicator: Indicator::Action(progress),
                        },
                    ),
                ),
                PollDecision::Finished => match resize {
                    Some(shape) => (
                        Workflow::Probing { id, earlier: 0, shape },
                        Step::Run(Command::GetNode { id }),
                    ),
                    None => (Workflow::Closed, Step::Done(RescaleOutcome::Completed)),
                },
                PollDecision::Failed(failure) => (
                    Workflow::Closed,
                    Step::Failed(OrchestrationError::Action(failure)),
                ),
            },
            (Workflow::Pausing { id, action, resize }, Event::Slept) => (
                Workflow::Polling { id, action, resize },
                Step::Run(Command::GetAction { id: action }),
            ),
            (Workflow::Probing { id, earlier, shape }, Event::Node(detail)) => match wait(
                earlier,
                detail.status,
            ) {
                WaitDecision::Confirmed => resize(id, shape),
                WaitDecision::TimedOut => (
                    Workflow::Closed,
                    Step::Failed(OrchestrationError::TimeoutExceeded),
                ),
                WaitDecision::Pause { tick } => (
                    Workflow::Resting { id, earlier: earlier + 1, shape },
                    Step::Run(
                        Command::Sleep {
                            millis: OFF_WAIT_INTERVAL_MS,
                            indicator: if tick {
                                Indicator::Tick
                            } else {
                                Indicator::Silent
                            },
                        },
                    ),
                ),
            },
            (Workflow::Resting { id, earlier, shape }, Event::Slept) => (
                Workflow::Probing { id, earlier, shape },
                Step::Run(Command::GetNode { id }),
            ),
            (Workflow::Cataloguing { min_disk, architecture, location }, Event::Shapes(catalog)) => {
                let offers = compatible_shapes(&catalog, min_disk as i64, architecture, &location);
                (Workflow::Closed, Step::Done(RescaleOutcome::Compatible(offers)))
            },
            (workflow, _) => (workflow, Step::Unexpected),
        }
    }
}

} // verus!
