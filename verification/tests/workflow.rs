use simple_server_utility::cmd::{CmdRescale, CmdShutdown, CmdStartup};
use simple_server_utility::model::{
    ActionFailure, ActionStatus, Architecture, NodeDetail, NodeStatus, PriceEntry, Shape,
};
use simple_server_utility::poller::{poll, PollDecision, Progress, ACTION_POLL_INTERVAL_MS};
use simple_server_utility::shapes::{CompatibleShape, Price};
use simple_server_utility::waiter::{wait, WaitDecision, OFF_WAIT_ATTEMPTS, OFF_WAIT_INTERVAL_MS};
use simple_server_utility::workflow::{
    rescale, shutdown, shutdown_action, startup, Command, Event, Indicator, OrchestrationError,
    PowerAction, RescaleOutcome, Step, Workflow,
};

fn detail(id: i64, status: NodeStatus) -> NodeDetail {
    NodeDetail {
        id,
        status,
        primary_disk_size: 40,
        architecture: Architecture::X86,
        location: "fsn1".to_string(),
    }
}

fn running(progress: i32) -> ActionStatus {
    ActionStatus::Running { progress }
}

/// Feeds the statuses to a workflow that polls an action, answering each
/// pause, and returns the last answer with the numbers of polls and pauses.
fn poll_through(mut state: Workflow, statuses: Vec<ActionStatus>) -> (Workflow, Step, usize, usize) {
    let mut polls = 1;
    let mut pauses = 0;
    let mut last = Step::Unexpected;
    for status in statuses {
        let (next, step) = state.step(Event::Action(status));
        state = next;
        last = step.clone();
        match step {
            Step::Run(Command::Sleep { millis, .. }) => {
                assert_eq!(millis, ACTION_POLL_INTERVAL_MS);
                pauses += 1;
                let (next, step) = state.step(Event::Slept);
                state = next;
                assert!(matches!(step, Step::Run(Command::GetAction { .. })));
                polls += 1;
            }
            _ => break,
        }
    }
    (state, last, polls, pauses)
}

#[test]
fn action_succeeds_after_three_polls_and_two_pauses() {
    let (state, step) = startup(CmdStartup { node: "7".to_string() });
    assert_eq!(step, Step::Run(Command::Power { id: 7, action: PowerAction::PowerOn }));
    let (state, step) = state.step(Event::ActionStarted { action: 900 });
    assert_eq!(step, Step::Run(Command::GetAction { id: 900 }));
    let statuses = vec![running(0), running(50), ActionStatus::Success];
    let (state, last, polls, pauses) = poll_through(state, statuses);
    assert_eq!(state, Workflow::Closed);
    assert_eq!(last, Step::Done(RescaleOutcome::Completed));
    assert_eq!(polls, 3);
    assert_eq!(pauses, 2);
}

#[test]
fn action_error_carries_code_and_message() {
    let (state, _) = startup(CmdStartup { node: "7".to_string() });
    let (state, _) = state.step(Event::ActionStarted { action: 900 });
    let statuses = vec![
        running(0),
        ActionStatus::Error { code: "E1".to_string(), message: "bad state".to_string() },
    ];
    let (state, last, polls, pauses) = poll_through(state, statuses);
    assert_eq!(state, Workflow::Closed);
    assert_eq!(
        last,
        Step::Failed(OrchestrationError::Action(ActionFailure {
            code: "E1".to_string(),
            message: "bad state".to_string()
        }))
    );
    assert_eq!(polls, 2);
    assert_eq!(pauses, 1);
}

#[test]
fn poll_decisions() {
    assert_eq!(poll(running(0)), PollDecision::Pause { progress: Progress::Waiting });
    assert_eq!(poll(running(-3)), PollDecision::Pause { progress: Progress::Waiting });
    assert_eq!(poll(running(1)), PollDecision::Pause { progress: Progress::Percent(1) });
    assert_eq!(poll(running(50)), PollDecision::Pause { progress: Progress::Percent(50) });
    assert_eq!(poll(ActionStatus::Success), PollDecision::Finished);
    assert_eq!(
        poll(ActionStatus::Error { code: "c".to_string(), message: "m".to_string() }),
        PollDecision::Failed(ActionFailure { code: "c".to_string(), message: "m".to_string() })
    );
    assert_eq!(ACTION_POLL_INTERVAL_MS, 300);
}

#[test]
fn pause_shows_the_progress_reported() {
    let state = Workflow::Polling { id: 1, action: 2, resize: None };
    let (state, step) = state.step(Event::Action(running(0)));
    assert_eq!(state, Workflow::Pausing { id: 1, action: 2, resize: None });
    assert_eq!(
        step,
        Step::Run(Command::Sleep { millis: 300, indicator: Indicator::Action(Progress::Waiting) })
    );
    let (state, _) = state.step(Event::Slept);
    let (_, step) = state.step(Event::Action(running(50)));
    assert_eq!(
        step,
        Step::Run(Command::Sleep {
            millis: 300,
            indicator: Indicator::Action(Progress::Percent(50))
        })
    );
}

#[test]
fn wait_decisions() {
    assert_eq!(OFF_WAIT_ATTEMPTS, 50);
    assert_eq!(OFF_WAIT_INTERVAL_MS, 100);
    assert_eq!(wait(0, NodeStatus::Off), WaitDecision::Confirmed);
    assert_eq!(wait(49, NodeStatus::Off), WaitDecision::Confirmed);
    assert_eq!(wait(0, NodeStatus::Running), WaitDecision::Pause { tick: false });
    assert_eq!(wait(1, NodeStatus::Stopping), WaitDecision::Pause { tick: true });
    assert_eq!(wait(2, NodeStatus::Stopping), WaitDecision::Pause { tick: false });
    assert_eq!(wait(4, NodeStatus::Stopping), WaitDecision::Pause { tick: true });
    assert_eq!(wait(48, NodeStatus::Running), WaitDecision::Pause { tick: false });
    assert_eq!(wait(49, NodeStatus::Running), WaitDecision::TimedOut);
    assert_eq!(wait(50, NodeStatus::Running), WaitDecision::TimedOut);
    assert_eq!(wait(u32::MAX, NodeStatus::Running), WaitDecision::TimedOut);
}

#[test]
fn node_that_stays_up_times_out_after_fifty_looks() {
    let mut state = Workflow::Probing { id: 5, earlier: 0, shape: 22 };
    let mut looks = 0;
    let mut pauses = 0;
    let mut ticks = 0;
    let mut last = Step::Unexpected;
    for _ in 0..51 {
        if state == Workflow::Closed {
            break;
        }
        looks += 1;
        let (next, step) = state.step(Event::Node(detail(5, NodeStatus::Running)));
        state = next;
        last = step.clone();
        if let Step::Run(Command::Sleep { millis, indicator }) = step {
            assert_eq!(millis, 100);
            pauses += 1;
            if indicator == Indicator::Tick {
                ticks += 1;
            } else {
                assert_eq!(indicator, Indicator::Silent);
            }
            let (next, step) = state.step(Event::Slept);
            state = next;
            assert_eq!(step, Step::Run(Command::GetNode { id: 5 }));
        }
    }
    assert_eq!(looks, 50);
    assert_eq!(pauses, 49);
    assert_eq!(ticks, 16);
    assert_eq!(last, Step::Failed(OrchestrationError::TimeoutExceeded));
    assert_eq!(state, Workflow::Closed);
    let (state, step) = state.step(Event::Node(detail(5, NodeStatus::Running)));
    assert_eq!(step, Step::Unexpected);
    assert_eq!(state, Workflow::Closed);
}

#[test]
fn rescale_of_an_off_node_only_changes_the_shape() {
    let (state, step) = rescale(CmdRescale { node: "5".to_string(), shape: Some(22) });
    assert_eq!(step, Step::Run(Command::GetNode { id: 5 }));
    let (state, step) = state.step(Event::Node(detail(5, NodeStatus::Off)));
    assert_eq!(step, Step::Run(Command::ChangeShape { id: 5, shape: 22, upgrade_disk: false }));
    let (state, step) = state.step(Event::ActionStarted { action: 31 });
    assert_eq!(step, Step::Run(Command::GetAction { id: 31 }));
    let (state, last, polls, pauses) =
        poll_through(state, vec![running(10), ActionStatus::Success]);
    assert_eq!(last, Step::Done(RescaleOutcome::Completed));
    assert_eq!(state, Workflow::Closed);
    assert_eq!((polls, pauses), (2, 1));
}

#[test]
fn rescale_of_a_running_node_shuts_it_down_first() {
    let (state, _) = rescale(CmdRescale { node: "web".to_string(), shape: Some(22) });
    let (state, step) = state.step(Event::Nodes { ids: vec![5] });
    assert_eq!(step, Step::Run(Command::GetNode { id: 5 }));
    let (state, step) = state.step(Event::Node(detail(5, NodeStatus::Running)));
    assert_eq!(step, Step::Run(Command::Power { id: 5, action: PowerAction::PowerOff }));
    let (state, step) = state.step(Event::ActionStarted { action: 30 });
    assert_eq!(step, Step::Run(Command::GetAction { id: 30 }));
    let (state, step) = state.step(Event::Action(ActionStatus::Success));
    assert_eq!(step, Step::Run(Command::GetNode { id: 5 }));
    let (state, step) = state.step(Event::Node(detail(5, NodeStatus::Stopping)));
    assert_eq!(step, Step::Run(Command::Sleep { millis: 100, indicator: Indicator::Silent }));
    let (state, step) = state.step(Event::Slept);
    assert_eq!(step, Step::Run(Command::GetNode { id: 5 }));
    let (state, step) = state.step(Event::Node(detail(5, NodeStatus::Off)));
    assert_eq!(step, Step::Run(Command::ChangeShape { id: 5, shape: 22, upgrade_disk: false }));
    let (state, step) = state.step(Event::ActionStarted { action: 31 });
    assert_eq!(step, Step::Run(Command::GetAction { id: 31 }));
    let (state, step) = state.step(Event::Action(ActionStatus::Success));
    assert_eq!(step, Step::Done(RescaleOutcome::Completed));
    assert!(state.is_closed());
}

#[test]
fn failed_shutdown_aborts_the_rescale() {
    let (state, _) = rescale(CmdRescale { node: "5".to_string(), shape: Some(22) });
    let (state, _) = state.step(Event::Node(detail(5, NodeStatus::Running)));
    let (state, _) = state.step(Event::ActionStarted { action: 30 });
    let (state, step) = state.step(Event::Action(ActionStatus::Error {
        code: "locked".to_string(),
        message: "node is locked".to_string(),
    }));
    assert_eq!(
        step,
        Step::Failed(OrchestrationError::Action(ActionFailure {
            code: "locked".to_string(),
            message: "node is locked".to_string()
        }))
    );
    assert!(state.is_closed());
}

#[test]
fn rescale_without_a_target_lists_compatible_shapes() {
    let (state, _) = rescale(CmdRescale { node: "5".to_string(), shape: None });
    let (state, step) = state.step(Event::Node(detail(5, NodeStatus::Running)));
    assert_eq!(step, Step::Run(Command::ListShapes));
    assert_eq!(
        state,
        Workflow::Cataloguing {
            min_disk: 40,
            architecture: Architecture::X86,
            location: "fsn1".to_string()
        }
    );
    let catalog = vec![
        Shape {
            id: 1,
            name: "small".to_string(),
            cores: 1,
            disk: 20,
            architecture: Architecture::X86,
            prices: vec![],
        },
        Shape {
            id: 2,
            name: "medium".to_string(),
            cores: 2,
            disk: 40,
            architecture: Architecture::X86,
            prices: vec![PriceEntry {
                location: "fsn1".to_string(),
                monthly_gross: "5.3500".to_string(),
            }],
        },
    ];
    let (state, step) = state.step(Event::Shapes(catalog));
    assert!(state.is_closed());
    assert_eq!(
        step,
        Step::Done(RescaleOutcome::Compatible(vec![CompatibleShape {
            index: 1,
            id: 2,
            name: "medium".to_string(),
            cores: 2,
            disk: 40,
            price: Price::Monthly { gross: "5.3500".to_string() },
        }]))
    );
}

#[test]
fn shutdown_variants() {
    assert_eq!(shutdown_action(false, false), PowerAction::PowerOff);
    assert_eq!(shutdown_action(true, false), PowerAction::Shutdown);
    assert_eq!(shutdown_action(false, true), PowerAction::SoftReboot);
    assert_eq!(shutdown_action(true, true), PowerAction::Reset);
    let (state, step) =
        shutdown(CmdShutdown { node: "12".to_string(), restart: true, force: false });
    assert_eq!(step, Step::Run(Command::Power { id: 12, action: PowerAction::SoftReboot }));
    assert_eq!(state, Workflow::Submitting { id: 12, resize: None });
    let (state, _) = state.step(Event::ActionStarted { action: 1 });
    let (state, step) = state.step(Event::Action(ActionStatus::Success));
    assert_eq!(step, Step::Done(RescaleOutcome::Completed));
    assert!(state.is_closed());
}

#[test]
fn events_out_of_turn_leave_the_workflow_where_it_is() {
    let state = Workflow::Polling { id: 1, action: 2, resize: None };
    let (state, step) = state.step(Event::Slept);
    assert_eq!(step, Step::Unexpected);
    assert_eq!(state, Workflow::Polling { id: 1, action: 2, resize: None });
    let (state, step) = state.step(Event::Nodes { ids: vec![1] });
    assert_eq!(step, Step::Unexpected);
    assert_eq!(state, Workflow::Polling { id: 1, action: 2, resize: None });
    let (state, step) = state.step(Event::RemoteFailed);
    assert_eq!(step, Step::Failed(OrchestrationError::Remote));
    assert_eq!(state, Workflow::Closed);
    let (_, step) = state.step(Event::RemoteFailed);
    assert_eq!(step, Step::Unexpected);
}
