//! The scripted friendship flows a client scenario can run.
//!
//! A flow is a fixed sequence of friendship events between two users, A
//! and B. Each step names its event and which of the two initiates it: the
//! initiator's token authenticates the update, aimed at the other user's
//! address. Executing a step against the service is transport work outside
//! the library; the plan below is the flow's whole meaning.

use vstd::prelude::*;

use crate::payload::FriendshipEvent;
use crate::str_eq;

verus! {

/// Which of the two participating users initiates a step.
#[derive(PartialEq, Eq, Debug, Clone, Copy, Structural)]
pub enum Role {
    UserA,
    UserB,
}

/// One step of a flow: the event, sent by the initiator to the other user.
#[derive(PartialEq, Eq, Debug, Clone, Copy, Structural)]
pub struct FlowStep {
    pub event: FriendshipEvent,
    pub initiator: Role,
}

/// The scripted flows.
#[derive(Clone)]
pub enum Flow {
    /// Request A-B, Cancel A-B.
    Flow1,
    /// Request A-B, Accept B-A, Delete A-B.
    Flow2,
    /// Request A-B, Reject B-A.
    Flow3,
    /// Request A-B, Accept B-A, Delete B-A.
    Flow4,
}

/// The steps of each flow.
pub open spec fn flow_steps(flow: Flow) -> Seq<FlowStep> {
    match flow {
        Flow::Flow1 => seq![
            FlowStep { event: FriendshipEvent::REQUEST, initiator: Role::UserA },
            FlowStep { event: FriendshipEvent::CANCEL, initiator: Role::UserA },
        ],
        Flow::Flow2 => seq![
            FlowStep { event: FriendshipEvent::REQUEST, initiator: Role::UserA },
            FlowStep { event: FriendshipEvent::ACCEPT, initiator: Role::UserB },
            FlowStep { event: FriendshipEvent::DELETE, initiator: Role::UserA },
        ],
        Flow::Flow3 => seq![
            FlowStep { event: FriendshipEvent::REQUEST, initiator: Role::UserA },
            FlowStep { event: FriendshipEvent::REJECT, initiator: Role::UserB },
        ],
        Flow::Flow4 => seq![
            FlowStep { event: FriendshipEvent::REQUEST, initiator: Role::UserA },
            FlowStep { event: FriendshipEvent::ACCEPT, initiator: Role::UserB },
            FlowStep { event: FriendshipEvent::DELETE, initiator: Role::UserB },
        ],
    }
}

/// Which flow a name denotes, if any.
pub open spec fn flow_from_str(s: Seq<char>) -> Option<Flow> {
    if s == "flow1"@ {
        Some(Flow::Flow1)
    } else if s == "flow2"@ {
        Some(Flow::Flow2)
    } else if s == "flow3"@ {
        Some(Flow::Flow3)
    } else if s == "flow4"@ {
        Some(Flow::Flow4)
    } else {
        None
    }
}

impl Flow {
    /// Get the flow from a string.
    pub fn from_str(s: &str) -> (r: Option<Flow>)
        ensures
            r == flow_from_str(s@),
    {
        if str_eq(s, "flow1") {
            Some(Flow::Flow1)
        } else if str_eq(s, "flow2") {
            Some(Flow::Flow2)
        } else if str_eq(s, "flow3") {
            Some(Flow::Flow3)
        } else if str_eq(s, "flow4") {
            Some(Flow::Flow4)
        } else {
            None
        }
    }

    /// The steps this flow performs, in order. Executing the flow means
    /// sending exactly these friendship event updates.
    pub fn steps(&self) -> (r: Vec<FlowStep>)
        ensures
            r@ == flow_steps(*self),
    {
        let mut r: Vec<FlowStep> = Vec::new();
        match self {
            Flow::Flow1 => {
                r.push(FlowStep { event: FriendshipEvent::REQUEST, initiator: Role::UserA });
                r.push(FlowStep { event: FriendshipEvent::CANCEL, initiator: Role::UserA });
            },
            Flow::Flow2 => {
                r.push(FlowStep { event: FriendshipEvent::REQUEST, initiator: Role::UserA });
                r.push(FlowStep { event: FriendshipEvent::ACCEPT, initiator: Role::UserB });
                r.push(FlowStep { event: FriendshipEvent::DELETE, initiator: Role::UserA });
            },
            Flow::Flow3 => {
                r.push(FlowStep { event: FriendshipEvent::REQUEST, initiator: Role::UserA });
                r.push(FlowStep { event: FriendshipEvent::REJECT, initiator: Role::UserB });
            },
            Flow::Flow4 => {
                r.push(FlowStep { event: FriendshipEvent::REQUEST, initiator: Role::UserA });
                r.push(FlowStep { event: FriendshipEvent::ACCEPT, initiator: Role::UserB });
                r.push(FlowStep { event: FriendshipEvent::DELETE, initiator: Role::UserB });
            },
        }
        proof {
            assert(r@ =~= flow_steps(*self));
        }
        r
    }
}

} // verus!
