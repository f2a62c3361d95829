use simple_server_utility::resolver::parse_node_id;
use simple_server_utility::resolver::first_match;
use simple_server_utility::workflow::{start, Command, Event, Goal, OrchestrationError, Step, Workflow};

#[test]
fn numeric_identifier_is_the_id() {
    assert_eq!(parse_node_id("42"), Some(42));
    assert_eq!(parse_node_id("0"), Some(0));
    assert_eq!(parse_node_id("000042"), Some(42));
    assert_eq!(parse_node_id("+7"), Some(7));
    assert_eq!(parse_node_id("-0"), Some(0));
    assert_eq!(parse_node_id("9223372036854775807"), Some(i64::MAX));
}

#[test]
fn names_are_not_ids() {
    assert_eq!(parse_node_id(""), None);
    assert_eq!(parse_node_id("myserver"), None);
    assert_eq!(parse_node_id("42a"), None);
    assert_eq!(parse_node_id("a42"), None);
    assert_eq!(parse_node_id(" 42"), None);
    assert_eq!(parse_node_id("42 "), None);
    assert_eq!(parse_node_id("4_2"), None);
    assert_eq!(parse_node_id("+"), None);
    assert_eq!(parse_node_id("-"), None);
    assert_eq!(parse_node_id("+-1"), None);
    assert_eq!(parse_node_id("1+1"), None);
    assert_eq!(parse_node_id("٤٢"), None);
}

#[test]
fn negative_and_oversized_numbers_are_names() {
    assert_eq!(parse_node_id("-1"), None);
    assert_eq!(parse_node_id("-42"), None);
    assert_eq!(parse_node_id("9223372036854775808"), None);
    assert_eq!(parse_node_id("99999999999999999999999999"), None);
    assert_eq!(parse_node_id("-99999999999999999999999999"), None);
}

#[test]
fn numeric_identifier_starts_without_a_lookup() {
    let (state, step) = start(Goal::Startup, "42".to_string());
    assert_eq!(state, Workflow::Submitting { id: 42, resize: None });
    assert_eq!(
        step,
        Step::Run(Command::Power {
            id: 42,
            action: simple_server_utility::workflow::PowerAction::PowerOn
        })
    );
    let (state, step) = start(Goal::Rescale { target: None }, "42".to_string());
    assert_eq!(state, Workflow::Describing { id: 42, target: None });
    assert_eq!(step, Step::Run(Command::GetNode { id: 42 }));
}

#[test]
fn name_is_looked_up_once_and_first_match_wins() {
    let (state, step) = start(Goal::Rescale { target: Some(3) }, "myserver".to_string());
    assert_eq!(state, Workflow::Resolving { goal: Goal::Rescale { target: Some(3) } });
    assert_eq!(step, Step::Run(Command::ListNodes { name: "myserver".to_string() }));
    let (state, step) = state.step(Event::Nodes { ids: vec![17, 5, 99] });
    assert_eq!(state, Workflow::Describing { id: 17, target: Some(3) });
    assert_eq!(step, Step::Run(Command::GetNode { id: 17 }));
}

#[test]
fn unknown_name_is_a_resolution_error() {
    let (state, _) = start(Goal::Startup, "nobody".to_string());
    let (state, step) = state.step(Event::Nodes { ids: vec![] });
    assert_eq!(state, Workflow::Closed);
    assert_eq!(step, Step::Failed(OrchestrationError::Resolution));
}

#[test]
fn failed_lookup_is_a_remote_error() {
    let (state, _) = start(Goal::Startup, "nobody".to_string());
    let (state, step) = state.step(Event::RemoteFailed);
    assert_eq!(state, Workflow::Closed);
    assert_eq!(step, Step::Failed(OrchestrationError::Remote));
}

#[test]
fn first_listed_node_is_the_match() {
    assert_eq!(first_match(&vec![17, 5, 99]), Some(17));
    assert_eq!(first_match(&vec![5]), Some(5));
    assert_eq!(first_match(&vec![]), None);
}
