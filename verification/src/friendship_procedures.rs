//! The friendship procedures a client scenario can run: the scripted
//! flows, and the single events they are made of.
//!
//! Beside the four scripted flows, a scenario can run one friendship event
//! on its own; the plan of a single event names which of the two users
//! initiates it, just as a flow step does.

use vstd::prelude::*;

use crate::friendship_flow::{FlowStep, Role};
use crate::payload::FriendshipEvent;
use crate::str_eq;

verus! {

/// The procedures: four scripted flows and five single events.
#[derive(Clone, Copy, Debug)]
pub enum Flow {
    /// Request A-B, Cancel A-B.
    Flow1,
    /// Request A-B, Accept B-A, Delete A-B.
    Flow2,
    /// Request A-B, Reject B-A.
    Flow3,
    /// Request A-B, Accept B-A, Delete B-A.
    Flow4,
    Request,
    Accept,
    Reject,
    Delete,
    Cancel,
}

/// The steps a scripted flow performs; a single event performs none as a
/// flow.
pub open spec fn flow_steps(flow: Flow) -> Seq<FlowStep> {
    match flow {
        Flow::Flow1 => seq![
            FlowStep { event: FriendshipEvent::REQUEST, initiator: Role::UserA },
            FlowStep { event: FriendshipEvent::CANCEL, initiator: Role::UserA },
        ],
        Flow::Flow2 => seq![
            FlowStep { event: FriendshipEvent::REQUEST, initiator: Role::UserA },
            FlowStep { event: FriendshipEvent::ACCEPT, initiator: Role::UserB },
            FlowStep { event: FriendshipEvent::DELETE, initiator: Role::UserA },
        ],
        Flow::Flow3 => seq![
            FlowStep { event: FriendshipEvent::REQUEST, initiator: Role::UserA },
            FlowStep { event: FriendshipEvent::REJECT, initiator: Role::UserB },
        ],
        Flow::Flow4 => seq![
            FlowStep { event: FriendshipEvent::REQUEST, initiator: Role::UserA },
            FlowStep { event: FriendshipEvent::ACCEPT, initiator: Role::UserB },
            FlowStep { event: FriendshipEvent::DELETE, initiator: Role::UserB },
        ],
        _ => Seq::empty(),
    }
}

/// The step a single event performs; a scripted flow performs none as a
/// single event.
pub open spec fn event_step(flow: Flow) -> Option<FlowStep> {
    match flow {
        Flow::Request => Some(FlowStep { event: FriendshipEvent::REQUEST, initiator: Role::UserA }),
        Flow::Accept => Some(FlowStep { event: FriendshipEvent::ACCEPT, initiator: Role::UserB }),
        Flow::Reject => Some(FlowStep { event: FriendshipEvent::REJECT, initiator: Role::UserB }),
        Flow::Delete => Some(FlowStep { event: FriendshipEvent::DELETE, initiator: Role::UserA }),
        Flow::Cancel => Some(FlowStep { event: FriendshipEvent::CANCEL, initiator: Role::UserA }),
        _ => None,
    }
}

/// Which procedure a name denotes, if any.
pub open spec fn flow_from_str(s: Seq<char>) -> Option<Flow> {
    if s == "flow1"@ {
        Some(Flow::Flow1)
    } else if s == "flow2"@ {
        Some(Flow::Flow2)
    } else if s == "flow3"@ {
        Some(Flow::Flow3)
    } else if s == "flow4"@ {
        Some(Flow::Flow4)
    } else if s == "request"@ {
        Some(Flow::Request)
    } else if s == "accept"@ {
        Some(Flow::Accept)
    } else if s == "reject"@ {
        Some(Flow::Reject)
    } else if s == "delete"@ {
        Some(Flow::Delete)
    } else if s == "cancel"@ {
        Some(Flow::Cancel)
    } else {
        None
    }
}

impl Flow {
    /// Get the flow from a string.
    pub fn from_str(s: &str) -> (r: Option<Flow>)
        ensures
            r == flow_from_str(s@),
    {
        if str_eq(s, "flow1") {
            Some(Flow::Flow1)
        } else if str_eq(s, "flow2") {
            Some(Flow::Flow2)
        } else if str_eq(s, "flow3") {
            Some(Flow::Flow3)
        } else if str_eq(s, "flow4") {
            Some(Flow::Flow4)
        } else if str_eq(s, "request") {
            Some(Flow::Request)
        } else if str_eq(s, "accept") {
            Some(Flow::Accept)
        } else if str_eq(s, "reject") {
            Some(Flow::Reject)
        } else if str_eq(s, "delete") {
            Some(Flow::Delete)
        } else if str_eq(s, "cancel") {
            Some(Flow::Cancel)
        } else {
            None
        }
    }

    /// The steps this procedure performs when run as a flow, in order.
    /// Executing the flow means sending exactly these friendship event
    /// updates; single-event procedures do nothing here.
    pub fn steps(&self) -> (r: Vec<FlowStep>)
        ensures
            r@ == flow_steps(*self),
    {
        let mut r: Vec<FlowStep> = Vec::new();
        match self {
            Flow::Flow1 => {
                r.push(FlowStep { event: FriendshipEvent::REQUEST, initiator: Role::UserA });
                r.push(FlowStep { event: FriendshipEvent::CANCEL, initiator: Role::UserA });
            },
            Flow::Flow2 => {
                r.push(FlowStep { event: FriendshipEvent::REQUEST, initiator: Role::UserA });
                r.push(FlowStep { event: FriendshipEvent::ACCEPT, initiator: Role::UserB });
                r.push(FlowStep { event: FriendshipEvent::DELETE, initiator: Role::UserA });
            },
            Flow::Flow3 => {
                r.push(FlowStep { event: FriendshipEvent::REQUEST, initiator: Role::UserA });
                r.push(FlowStep { event: FriendshipEvent::REJECT, initiator: Role::UserB });
            },
            Flow::Flow4 => {
                r.push(FlowStep { event: FriendshipEvent::REQUEST, initiator: Role::UserA });
                r.push(FlowStep { event: FriendshipEvent::ACCEPT, initiator: Role::UserB });
                r.push(FlowStep { event: FriendshipEvent::DELETE, initiator: Role::UserB });
            },
            _ => {
                // A single event is not a scripted flow.
            },
        }
        proof {
            assert(r@ =~= flow_steps(*self));
        }
        r
    }

    /// The step this procedure performs when run as a single event, or
    /// nothing for a scripted flow.
    pub fn event(&self) -> (r: Option<FlowStep>)
        ensures
            r == event_step(*self),
    {
        match self {
            Flow::Request => Some(
                FlowStep { event: FriendshipEvent::REQUEST, initiator: Role::UserA },
            ),
            Flow::Accept => Some(FlowStep { event: FriendshipEvent::ACCEPT, initiator: Role::UserB }),
            Flow::Reject => Some(FlowStep { event: FriendshipEvent::REJECT, initiator: Role::UserB }),
            Flow::Delete => Some(FlowStep { event: FriendshipEvent::DELETE, initiator: Role::UserA }),
            Flow::Cancel => Some(FlowStep { event: FriendshipEvent::CANCEL, initiator: Role::UserA }),
            _ => None,
        }
    }
}

} // verus!
