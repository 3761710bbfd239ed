use social_client::friendship_flow::{self, FlowStep, Role};
use social_client::friendship_procedures::Flow as ProcFlow;
use social_client::payload::FriendshipEvent;

fn step(event: FriendshipEvent, initiator: Role) -> FlowStep {
    FlowStep { event, initiator }
}

#[test]
fn flow_names_parse() {
    assert!(matches!(
        friendship_flow::Flow::from_str("flow1"),
        Some(friendship_flow::Flow::Flow1)
    ));
    assert!(matches!(
        friendship_flow::Flow::from_str("flow2"),
        Some(friendship_flow::Flow::Flow2)
    ));
    assert!(matches!(
        friendship_flow::Flow::from_str("flow3"),
        Some(friendship_flow::Flow::Flow3)
    ));
    assert!(matches!(
        friendship_flow::Flow::from_str("flow4"),
        Some(friendship_flow::Flow::Flow4)
    ));
    assert!(friendship_flow::Flow::from_str("flow5").is_none());
    assert!(friendship_flow::Flow::from_str("").is_none());
    assert!(friendship_flow::Flow::from_str("Flow1").is_none());
}

#[test]
fn procedure_names_parse() {
    assert!(matches!(ProcFlow::from_str("flow1"), Some(ProcFlow::Flow1)));
    assert!(matches!(ProcFlow::from_str("flow2"), Some(ProcFlow::Flow2)));
    assert!(matches!(ProcFlow::from_str("flow3"), Some(ProcFlow::Flow3)));
    assert!(matches!(ProcFlow::from_str("flow4"), Some(ProcFlow::Flow4)));
    assert!(matches!(ProcFlow::from_str("request"), Some(ProcFlow::Request)));
    assert!(matches!(ProcFlow::from_str("accept"), Some(ProcFlow::Accept)));
    assert!(matches!(ProcFlow::from_str("reject"), Some(ProcFlow::Reject)));
    assert!(matches!(ProcFlow::from_str("delete"), Some(ProcFlow::Delete)));
    assert!(matches!(ProcFlow::from_str("cancel"), Some(ProcFlow::Cancel)));
    assert!(ProcFlow::from_str("unknown").is_none());
}

#[test]
fn flow_steps_follow_the_script() {
    assert_eq!(
        friendship_flow::Flow::Flow1.steps(),
        vec![
            step(FriendshipEvent::REQUEST, Role::UserA),
            step(FriendshipEvent::CANCEL, Role::UserA),
        ]
    );
    assert_eq!(
        friendship_flow::Flow::Flow2.steps(),
        vec![
            step(FriendshipEvent::REQUEST, Role::UserA),
            step(FriendshipEvent::ACCEPT, Role::UserB),
            step(FriendshipEvent::DELETE, Role::UserA),
        ]
    );
    assert_eq!(
        friendship_flow::Flow::Flow3.steps(),
        vec![
            step(FriendshipEvent::REQUEST, Role::UserA),
            step(FriendshipEvent::REJECT, Role::UserB),
        ]
    );
    assert_eq!(
        friendship_flow::Flow::Flow4.steps(),
        vec![
            step(FriendshipEvent::REQUEST, Role::UserA),
            step(FriendshipEvent::ACCEPT, Role::UserB),
            step(FriendshipEvent::DELETE, Role::UserB),
        ]
    );
}

#[test]
fn procedure_flow_steps_follow_the_script() {
    assert_eq!(
        ProcFlow::Flow2.steps(),
        vec![
            step(FriendshipEvent::REQUEST, Role::UserA),
            step(FriendshipEvent::ACCEPT, Role::UserB),
            step(FriendshipEvent::DELETE, Role::UserA),
        ]
    );
    assert_eq!(ProcFlow::Request.steps(), vec![]);
    assert_eq!(ProcFlow::Cancel.steps(), vec![]);
}

#[test]
fn single_events_name_their_initiator() {
    assert_eq!(ProcFlow::Request.event(), Some(step(FriendshipEvent::REQUEST, Role::UserA)));
    assert_eq!(ProcFlow::Accept.event(), Some(step(FriendshipEvent::ACCEPT, Role::UserB)));
    assert_eq!(ProcFlow::Reject.event(), Some(step(FriendshipEvent::REJECT, Role::UserB)));
    assert_eq!(ProcFlow::Delete.event(), Some(step(FriendshipEvent::DELETE, Role::UserA)));
    assert_eq!(ProcFlow::Cancel.event(), Some(step(FriendshipEvent::CANCEL, Role::UserA)));
    assert_eq!(ProcFlow::Flow1.event(), None);
    assert_eq!(ProcFlow::Flow4.event(), None);
}
