//! Whole runs of a workflow, and what holds of every run.
//!
//! A run is the sequence of answers that a workflow gives to a sequence of
//! events. The statements below hold for every sequence of events, whatever
//! the provider reports and in whatever order.

use crate::model::{ActionStatusView, NodeDetailView};
use crate::poller::{ACTION_POLL_INTERVAL_MS, spec_progress};
use crate::resolver::spec_node_id;
use crate::waiter::{OFF_WAIT_ATTEMPTS, OFF_WAIT_INTERVAL_MS, spec_tick};
use crate::workflow::{
    CommandView, EventView, Goal, Indicator, OrchestrationErrorView, PowerAction,
    RescaleOutcomeView, StepView, WorkflowView, spec_begin, spec_start, spec_step,
};
use vstd::prelude::*;

verus! {

/// The state that `workflow` is in after `events`, and the answers it gave
/// to them, in order.
pub open spec fn spec_run(workflow: WorkflowView, events: Seq<EventView>) -> (
    WorkflowView,
    Seq<StepView>,
)
    decreases events.len(),
{
    if events.len() == 0 {
        (workflow, Seq::empty())
    } else {
        let (before, answers) = spec_run(workflow, events.drop_last());
        let (after, answer) = spec_step(before, events.last());
        (after, answers.push(answer))
    }
}

/// A run gives one answer to each event.
pub proof fn lemma_run_len(workflow: WorkflowView, events: Seq<EventView>)
    ensures
        spec_run(workflow, events).1.len() == events.len(),
    decreases events.len(),
{
    if events.len() > 0 {
        lemma_run_len(workflow, events.drop_last());
    }
}

/// Whether the answer asks for nodes to be listed by name.
pub open spec fn is_lookup(answer: StepView) -> bool {
    answer matches StepView::Run(CommandView::ListNodes { .. })
}

/// Whether the answer asks for a change of the power state of a node.
pub open spec fn is_power(answer: StepView) -> bool {
    answer matches StepView::Run(CommandView::Power { .. })
}

/// Whether the answer asks for a change of shape.
pub open spec fn is_resize(answer: StepView) -> bool {
    answer matches StepView::Run(CommandView::ChangeShape { .. })
}

/// Whether the answer belongs to the wait for a node to power down: a look
/// at the node, a pause that is not one between two polls of an action, or
/// the end of the wait by timeout.
pub open spec fn is_wait(answer: StepView) -> bool {
    match answer {
        StepView::Run(CommandView::GetNode { .. }) => true,
        StepView::Run(CommandView::Sleep { millis, indicator }) => millis
            != ACTION_POLL_INTERVAL_MS || !(indicator is Action),
        StepView::Failed(OrchestrationErrorView::TimeoutExceeded) => true,
        _ => false,
    }
}

/// Whether the state is one of a workflow that has nothing left to do but
/// to see one action to its end.
pub open spec fn is_last_action(workflow: WorkflowView) -> bool {
    match workflow {
        WorkflowView::Submitting { resize, .. } => resize is None,
        WorkflowView::Polling { resize, .. } => resize is None,
        WorkflowView::Pausing { resize, .. } => resize is None,
        WorkflowView::Closed => true,
        _ => false,
    }
}

/// Whether the number of looks taken in a wait for power-down is within the
/// number allowed.
pub open spec fn within_attempts(workflow: WorkflowView) -> bool {
    match workflow {
        WorkflowView::Probing { earlier, .. } => earlier < OFF_WAIT_ATTEMPTS,
        WorkflowView::Resting { earlier, .. } => 0 < earlier < OFF_WAIT_ATTEMPTS,
        _ => true,
    }
}

/// No transition asks for nodes to be listed by name: a lookup is only ever
/// the first command of a workflow.
pub proof fn law_step_never_looks_up(workflow: WorkflowView, event: EventView)
    ensures
        !is_lookup(spec_step(workflow, event).1),
{
}

/// No run asks for nodes to be listed by name.
pub proof fn law_run_never_looks_up(workflow: WorkflowView, events: Seq<EventView>)
    ensures
        forall|i: int|
            0 <= i < events.len() ==> !is_lookup(#[trigger] spec_run(workflow, events).1[i]),
    decreases events.len(),
{
    lemma_run_len(workflow, events);
    if events.len() > 0 {
        law_run_never_looks_up(workflow, events.drop_last());
        lemma_run_len(workflow, events.drop_last());
        let before = spec_run(workflow, events.drop_last());
        law_step_never_looks_up(before.0, events.last());
    }
}

/// An identifier that spells a node id is resolved without a call to the
/// provider: the workflow starts with the first command of its goal on that
/// id, and neither that command nor any later one lists nodes by name.
pub proof fn law_numeric_identifier_needs_no_lookup(
    goal: Goal,
    node: Seq<char>,
    id: i64,
    events: Seq<EventView>,
)
    requires
        spec_node_id(node) == Some(id),
    ensures
        spec_start(goal, node) == spec_begin(goal, id),
        !is_lookup(spec_start(goal, node).1),
        forall|i: int|
            0 <= i < events.len() ==> !is_lookup(
                #[trigger] spec_run(spec_start(goal, node).0, events).1[i],
            ),
{
    law_run_never_looks_up(spec_start(goal, node).0, events);
}

/// An identifier that spells no node id is looked up by name exactly once:
/// the workflow starts by listing the nodes of that name and never lists
/// again. The first node listed is the one the workflow goes on with, and an
/// empty listing ends it with [`crate::workflow::OrchestrationError::Resolution`].
pub proof fn law_name_is_looked_up_once(
    goal: Goal,
    node: Seq<char>,
    ids: Seq<i64>,
    events: Seq<EventView>,
)
    requires
        spec_node_id(node) is None,
    ensures
        spec_start(goal, node).1 == StepView::Run(CommandView::ListNodes { name: node }),
        forall|i: int|
            0 <= i < events.len() ==> !is_lookup(
                #[trigger] spec_run(spec_start(goal, node).0, events).1[i],
            ),
        ids.len() > 0 ==> spec_step(spec_start(goal, node).0, EventView::Nodes { ids })
            == spec_begin(goal, ids[0]),
        ids.len() == 0 ==> spec_step(spec_start(goal, node).0, EventView::Nodes { ids }) == (
            WorkflowView::Closed,
            StepView::Failed(OrchestrationErrorView::Resolution),
        ),
{
    law_run_never_looks_up(spec_start(goal, node).0, events);
}

/// A workflow that has ended stays ended: it answers every further event
/// with [`crate::workflow::Step::Unexpected`] and asks for nothing more.
pub proof fn law_closed_is_final(events: Seq<EventView>)
    ensures
        spec_run(WorkflowView::Closed, events).0 == WorkflowView::Closed,
        forall|i: int|
            0 <= i < events.len() ==> #[trigger] spec_run(WorkflowView::Closed, events).1[i]
                == StepView::Unexpected,
    decreases events.len(),
{
    lemma_run_len(WorkflowView::Closed, events);
    if events.len() > 0 {
        law_closed_is_final(events.drop_last());
        lemma_run_len(WorkflowView::Closed, events.drop_last());
    }
}

/// A workflow ends exactly when it answers with an outcome or a failure, and
/// a failed call to the provider ends any workflow that has not ended, with
/// [`crate::workflow::OrchestrationError::Remote`].
pub proof fn law_ends_with_outcome_or_failure(workflow: WorkflowView, event: EventView)
    requires
        !(workflow is Closed),
    ensures
        spec_step(workflow, event).0 is Closed <==> (spec_step(workflow, event).1 is Done
            || spec_step(workflow, event).1 is Failed),
        event is RemoteFailed ==> spec_step(workflow, event) == (
            WorkflowView::Closed,
            StepView::Failed(OrchestrationErrorView::Remote),
        ),
        spec_step(workflow, event).1 is Unexpected ==> spec_step(workflow, event).0 == workflow,
{
}

/// The events of polls that each found the action running, one poll for
/// each of `statuses`: the report, and the end of the pause that follows it.
pub open spec fn running_events(statuses: Seq<ActionStatusView>) -> Seq<EventView>
    decreases statuses.len(),
{
    if statuses.len() == 0 {
        Seq::empty()
    } else {
        running_events(statuses.drop_last()).push(EventView::Action(statuses.last())).push(
            EventView::Slept,
        )
    }
}

/// While the provider reports the action as running, the workflow does
/// nothing but pause and poll that action again: after `n` such reports it
/// has asked for exactly `n` pauses of the polling interval, each showing
/// the progress reported, and for exactly `n` further polls, and it is
/// polling still. The poll that ends the action is therefore poll number
/// `n + 1`, after `n` pauses.
pub proof fn law_running_action_is_polled_again(
    id: i64,
    action: i64,
    resize: Option<u16>,
    statuses: Seq<ActionStatusView>,
)
    requires
        forall|k: int| 0 <= k < statuses.len() ==> (#[trigger] statuses[k]) is Running,
    ensures
        ({
            let polling = WorkflowView::Polling { id, action, resize };
            let run = spec_run(polling, running_events(statuses));
            &&& running_events(statuses).len() == 2 * statuses.len()
            &&& run.0 == polling
            &&& run.1.len() == 2 * statuses.len()
            &&& forall|k: int|
                0 <= k < statuses.len() ==> {
                    &&& #[trigger] run.1[2 * k] == StepView::Run(
                        CommandView::Sleep {
                            millis: ACTION_POLL_INTERVAL_MS,
                            indicator: Indicator::Action(spec_progress(statuses[k]->progress)),
                        },
                    )
                    &&& run.1[2 * k + 1] == StepView::Run(CommandView::GetAction { id: action })
                }
        }),
    decreases statuses.len(),
{
    let polling = WorkflowView::Polling { id, action, resize };
    if statuses.len() > 0 {
        let shorter = statuses.drop_last();
        law_running_action_is_polled_again(id, action, resize, shorter);
        let events = running_events(statuses);
        let report = EventView::Action(statuses.last());
        let upto = running_events(shorter).push(report);
        assert(events.drop_last() =~= upto);
        assert(upto.drop_last() =~= running_events(shorter));
        assert(statuses.last() is Running);
        let earlier = spec_run(polling, running_events(shorter));
        let run = spec_run(polling, events);
        assert(spec_run(polling, upto).1 == earlier.1.push(spec_step(polling, report).1));
        assert forall|k: int| 0 <= k < statuses.len() implies {
            &&& #[trigger] run.1[2 * k] == StepView::Run(
                CommandView::Sleep {
                    millis: ACTION_POLL_INTERVAL_MS,
                    indicator: Indicator::Action(spec_progress(statuses[k]->progress)),
                },
            )
            &&& run.1[2 * k + 1] == StepView::Run(CommandView::GetAction { id: action })
        } by {
            if k < shorter.len() {
                assert(run.1[2 * k] == earlier.1[2 * k]);
                assert(run.1[2 * k + 1] == earlier.1[2 * k + 1]);
                assert(shorter[k] == statuses[k]);
            }
        }
    }
}

/// The end of a polled action decides the workflow: success of the last
/// action ends it well, success of the shutdown before a change of shape
/// starts the wait for power-down with a first look at the node, and an
/// error ends it with the provider's code and message.
pub proof fn law_action_end_decides(
    id: i64,
    action: i64,
    resize: Option<u16>,
    code: Seq<char>,
    message: Seq<char>,
)
    ensures
        spec_step(
            WorkflowView::Polling { id, action, resize: None },
            EventView::Action(ActionStatusView::Success),
        ) == (WorkflowView::Closed, StepView::Done(RescaleOutcomeView::Completed)),
        resize matches Some(shape) ==> spec_step(
            WorkflowView::Polling { id, action, resize },
            EventView::Action(ActionStatusView::Success),
        ) == (
            WorkflowView::Probing { id, earlier: 0, shape },
            StepView::Run(CommandView::GetNode { id }),
        ),
        spec_step(
            WorkflowView::Polling { id, action, resize },
            EventView::Action(ActionStatusView::Error { code, message }),
        ) == (
            WorkflowView::Closed,
            StepView::Failed(
                OrchestrationErrorView::Action(
                    crate::model::ActionFailureView { code, message },
                ),
            ),
        ),
{
}

/// The events of looks that each found the node not powered down, one look
/// for each of `details`: the detail reported, and the end of the pause that
/// follows it.
pub open spec fn waiting_events(details: Seq<NodeDetailView>) -> Seq<EventView>
    decreases details.len(),
{
    if details.len() == 0 {
        Seq::empty()
    } else {
        waiting_events(details.drop_last()).push(EventView::Node(details.last())).push(
            EventView::Slept,
        )
    }
}

/// While the node is not powered down and looks are left, the workflow does
/// nothing but pause and look again: after `n` looks that found the node up,
/// with `n` below the number of looks allowed, it has asked for exactly `n`
/// pauses of the waiting interval and `n` further looks, and its count of
/// looks stands at `n`.
pub proof fn law_node_is_looked_at_again(id: i64, shape: u16, details: Seq<NodeDetailView>)
    requires
        details.len() < OFF_WAIT_ATTEMPTS,
        forall|k: int| 0 <= k < details.len() ==> !(#[trigger] details[k]).status.spec_is_off(),
    ensures
        ({
            let run = spec_run(
                WorkflowView::Probing { id, earlier: 0, shape },
                waiting_events(details),
            );
            &&& waiting_events(details).len() == 2 * details.len()
            &&& run.0 == WorkflowView::Probing { id, earlier: details.len() as u32, shape }
            &&& run.1.len() == 2 * details.len()
            &&& forall|k: int|
                0 <= k < details.len() ==> {
                    &&& #[trigger] run.1[2 * k] == StepView::Run(
                        CommandView::Sleep {
                            millis: OFF_WAIT_INTERVAL_MS,
                            indicator: if spec_tick(k + 1) {
                                Indicator::Tick
                            } else {
                                Indicator::Silent
                            },
                        },
                    )
                    &&& run.1[2 * k + 1] == StepView::Run(CommandView::GetNode { id })
                }
        }),
    decreases details.len(),
{
    let probing = WorkflowView::Probing { id, earlier: 0, shape };
    if details.len() > 0 {
        let shorter = details.drop_last();
        assert forall|k: int| 0 <= k < shorter.len() implies !(#[trigger] shorter[k]).status.spec_is_off() by {
            assert(shorter[k] == details[k]);
        }
        law_node_is_looked_at_again(id, shape, shorter);
        let events = waiting_events(details);
        let report = EventView::Node(details.last());
        let upto = waiting_events(shorter).push(report);
        assert(events.drop_last() =~= upto);
        assert(upto.drop_last() =~= waiting_events(shorter));
        assert(!details[details.len() - 1].status.spec_is_off());
        let earlier = spec_run(probing, waiting_events(shorter));
        let run = spec_run(probing, events);
        assert(spec_run(probing, upto).1 == earlier.1.push(spec_step(earlier.0, report).1));
        assert forall|k: int| 0 <= k < details.len() implies {
            &&& #[trigger] run.1[2 * k] == StepView::Run(
                CommandView::Sleep {
                    millis: OFF_WAIT_INTERVAL_MS,
                    indicator: if spec_tick(k + 1) {
                        Indicator::Tick
                    } else {
                        Indicator::Silent
                    },
                },
            )
            &&& run.1[2 * k + 1] == StepView::Run(CommandView::GetNode { id })
        } by {
            if k < shorter.len() {
                assert(run.1[2 * k] == earlier.1[2 * k]);
                assert(run.1[2 * k + 1] == earlier.1[2 * k + 1]);
            }
        }
    }
}

/// A node that is not seen powered down in any of the looks allowed times
/// the wait out: the last look allowed ends the workflow with
/// [`crate::workflow::OrchestrationError::TimeoutExceeded`], and the
/// workflow, being ended, asks for no further look whatever comes after.
pub proof fn law_wait_times_out(
    id: i64,
    shape: u16,
    details: Seq<NodeDetailView>,
    last: NodeDetailView,
    later: Seq<EventView>,
)
    requires
        details.len() == OFF_WAIT_ATTEMPTS - 1,
        forall|k: int| 0 <= k < details.len() ==> !(#[trigger] details[k]).status.spec_is_off(),
        !last.status.spec_is_off(),
    ensures
        ({
            let events = waiting_events(details).push(EventView::Node(last));
            let run = spec_run(WorkflowView::Probing { id, earlier: 0, shape }, events);
            &&& run.0 == WorkflowView::Closed
            &&& run.1.len() == 2 * OFF_WAIT_ATTEMPTS - 1
            &&& run.1.last() == StepView::Failed(OrchestrationErrorView::TimeoutExceeded)
            &&& spec_run(run.0, later).0 == WorkflowView::Closed
            &&& forall|i: int|
                0 <= i < later.len() ==> #[trigger] spec_run(run.0, later).1[i]
                    == StepView::Unexpected
        }),
{
    law_node_is_looked_at_again(id, shape, details);
    let events = waiting_events(details).push(EventView::Node(last));
    assert(events.drop_last() =~= waiting_events(details));
    law_closed_is_final(later);
}

/// The wait for power-down never takes more looks than are allowed: every
/// transition keeps the count of looks within bounds.
pub proof fn law_attempts_stay_bounded(workflow: WorkflowView, event: EventView)
    requires
        within_attempts(workflow),
    ensures
        within_attempts(spec_step(workflow, event).0),
{
}

/// Every state that a workflow reaches from its start keeps the count of
/// looks within the number allowed.
pub proof fn law_runs_stay_bounded(goal: Goal, node: Seq<char>, events: Seq<EventView>)
    ensures
        within_attempts(spec_run(spec_start(goal, node).0, events).0),
    decreases events.len(),
{
    if events.len() > 0 {
        law_runs_stay_bounded(goal, node, events.drop_last());
        law_attempts_stay_bounded(
            spec_run(spec_start(goal, node).0, events.drop_last()).0,
            events.last(),
        );
    }
}

/// A node that is already powered down is rescaled without a shutdown and
/// without a wait: the detail of the node is answered by the change of
/// shape, with the disk left as it is, and whatever the provider reports
/// afterwards the workflow asks for no change of power state, no further
/// look at the node and no pause of the waiting kind. All that is left is to
/// see the change of shape to its end.
pub proof fn law_off_node_is_only_resized(
    id: i64,
    shape: u16,
    detail: NodeDetailView,
    events: Seq<EventView>,
)
    requires
        detail.status.spec_is_off(),
    ensures
        ({
            let described = spec_step(
                WorkflowView::Describing { id, target: Some(shape) },
                EventView::Node(detail),
            );
            &&& described.1 == StepView::Run(
                CommandView::ChangeShape { id, shape, upgrade_disk: false },
            )
            &&& is_last_action(spec_run(described.0, events).0)
            &&& forall|i: int|
                0 <= i < events.len() ==> {
                    let answer = #[trigger] spec_run(described.0, events).1[i];
                    &&& !is_power(answer)
                    &&& !is_wait(answer)
                    &&& !is_resize(answer)
                }
        }),
{
    let described = spec_step(
        WorkflowView::Describing { id, target: Some(shape) },
        EventView::Node(detail),
    );
    lemma_last_action_runs(described.0, events);
}

/// From a state in which one action is left to see to its end, every run
/// stays in such states and asks only for polls of the action and pauses of
/// the polling kind.
pub proof fn lemma_last_action_runs(workflow: WorkflowView, events: Seq<EventView>)
    requires
        is_last_action(workflow),
    ensures
        is_last_action(spec_run(workflow, events).0),
        forall|i: int|
            0 <= i < events.len() ==> {
                let answer = #[trigger] spec_run(workflow, events).1[i];
                &&& !is_power(answer)
                &&& !is_wait(answer)
                &&& !is_resize(answer)
            },
    decreases events.len(),
{
    lemma_run_len(workflow, events);
    if events.len() > 0 {
        lemma_last_action_runs(workflow, events.drop_last());
        lemma_run_len(workflow, events.drop_last());
    }
}

/// A node is resized only when it was just seen powered down: whenever a
/// workflow answers with a change of shape, the event it answers is the
/// detail of a node whose status is off, and the disk is left as it is.
pub proof fn law_resize_only_when_off(workflow: WorkflowView, event: EventView)
    requires
        is_resize(spec_step(workflow, event).1),
    ensures
        event matches EventView::Node(detail) && detail.status.spec_is_off(),
        spec_step(workflow, event).1 matches StepView::Run(
            CommandView::ChangeShape { upgrade_disk, .. },
        ) && !upgrade_disk,
        workflow is Describing || workflow is Probing,
{
}

/// A rescale shuts a node down only when it found it running: the one
/// change of power state that follows the detail of a node is a power-off,
/// and it answers a detail whose status is not off.
pub proof fn law_shutdown_only_when_up(workflow: WorkflowView, detail: NodeDetailView)
    requires
        is_power(spec_step(workflow, EventView::Node(detail)).1),
    ensures
        !detail.status.spec_is_off(),
        workflow matches WorkflowView::Describing { id, target: Some(shape) } && spec_step(
            workflow,
            EventView::Node(detail),
        ) == (
            WorkflowView::Submitting { id, resize: Some(shape) },
            StepView::Run(CommandView::Power { id, action: PowerAction::PowerOff }),
        ),
{
}

/// Whether the state is one of a workflow that starts or stops a node and
/// has not ended its lookup, or has one action left to see to its end.
pub open spec fn is_power_workflow(workflow: WorkflowView) -> bool {
    match workflow {
        WorkflowView::Resolving { goal } => !(goal is Rescale),
        _ => is_last_action(workflow),
    }
}

/// Starting and stopping a node never wait for it to power down and never
/// touch its shape: whatever the provider reports, a workflow with one of
/// these goals asks for no look at the node, no pause of the waiting kind
/// and no change of shape.
pub proof fn law_power_workflows_never_wait(goal: Goal, node: Seq<char>, events: Seq<EventView>)
    requires
        !(goal is Rescale),
    ensures
        is_power_workflow(spec_start(goal, node).0),
        !is_wait(spec_start(goal, node).1),
        !is_resize(spec_start(goal, node).1),
        forall|i: int|
            0 <= i < events.len() ==> {
                let answer = #[trigger] spec_run(spec_start(goal, node).0, events).1[i];
                &&& !is_wait(answer)
                &&& !is_resize(answer)
            },
{
    lemma_power_workflow_runs(spec_start(goal, node).0, events);
}

/// From a state of a workflow that starts or stops a node, every run stays
/// in such states and asks for no look, no pause of the waiting kind and no
/// change of shape.
pub proof fn lemma_power_workflow_runs(workflow: WorkflowView, events: Seq<EventView>)
    requires
        is_power_workflow(workflow),
    ensures
        is_power_workflow(spec_run(workflow, events).0),
        forall|i: int|
            0 <= i < events.len() ==> {
                let answer = #[trigger] spec_run(workflow, events).1[i];
                &&& !is_wait(answer)
                &&& !is_resize(answer)
            },
    decreases events.len(),
{
    lemma_run_len(workflow, events);
    if events.len() > 0 {
        lemma_power_workflow_runs(workflow, events.drop_last());
        lemma_run_len(workflow, events.drop_last());
    }
}

} // verus!
