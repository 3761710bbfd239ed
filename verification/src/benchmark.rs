//! The friendship-service benchmark scenario.
//!
//! Each benchmark client cycles two users — the acting user and the second
//! user — through friendship events. One invocation of its behavior first
//! lists one user's friends and pending requests, then sends the next
//! event of the cycle, chosen from the last event it sent. Both choices
//! are random in a live run; the decisions are fixed here as functions of
//! the drawn values, so every outcome is covered.

use vstd::prelude::*;

use crate::credentials::AuthUser;
use crate::friendship_procedures::Flow;
use crate::payload::FriendshipEvent;
use crate::simulation::Args;

verus! {

/// One of the two users of the benchmark scenario.
#[derive(PartialEq, Eq, Debug, Clone, Copy, Structural)]
pub enum Participant {
    Acting,
    Second,
}

/// The run-scoped state of the benchmark scenario: the two users and the
/// request timeout in seconds.
pub struct TestContext {
    pub acting_user: AuthUser,
    pub second_user: AuthUser,
    pub timeout: u64,
}

impl TestContext {
    /// Build the scenario context from the two loaded users, with the
    /// role assignment injected: heads makes the first user the acting
    /// one, tails the second.
    pub fn init(args: &Args, user_a: AuthUser, user_b: AuthUser, coin: bool) -> (r: TestContext)
        ensures
            r.acting_user == (if coin {
                user_a
            } else {
                user_b
            }),
            r.second_user == (if coin {
                user_b
            } else {
                user_a
            }),
            r.timeout == args.timeout as u64,
    {
        let (acting_user, second_user) = if coin {
            (user_a, user_b)
        } else {
            (user_b, user_a)
        };
        TestContext { acting_user, second_user, timeout: args.timeout as u64 }
    }

    /// Build the scenario context with the role assignment drawn at
    /// random, as a live run does: either user may end up acting.
    pub fn init_random(args: &Args, user_a: AuthUser, user_b: AuthUser) -> (r: TestContext)
        ensures
            exists|coin: bool| r == TestContext::init_spec(args, user_a, user_b, coin),
    {
        let coin: bool = rand::random();
        let r = TestContext::init(args, user_a, user_b, coin);
        proof {
            assert(r == TestContext::init_spec(args, user_a, user_b, coin));
        }
        r
    }

    /// What `init` returns.
    pub open spec fn init_spec(args: &Args, user_a: AuthUser, user_b: AuthUser, coin: bool) -> TestContext {
        TestContext {
            acting_user: if coin {
                user_a
            } else {
                user_b
            },
            second_user: if coin {
                user_b
            } else {
                user_a
            },
            timeout: args.timeout as u64,
        }
    }
}

/// One invocation's plan: whose friends to list, which event to send —
/// passed the two users in the given order — and what the client's last
/// sent event becomes.
#[derive(Debug, Clone, Copy)]
pub struct ActPlan {
    /// Whose friends and pending requests to list first.
    pub query: Participant,
    /// The single-event procedure to run.
    pub event: Flow,
    /// Which user is handed to the procedure as user A; the other is
    /// handed as user B.
    pub first: Participant,
    /// The event to remember as the last one sent.
    pub next_last_event: FriendshipEvent,
}

/// The decision of one behavior invocation, as a function of the last
/// event sent and the two drawn values: `query_coin` picks whose friends
/// are listed, and after a request, `pick` chooses among accepting,
/// cancelling and rejecting. Every other state has one successor: a
/// finished or torn-down friendship is followed by a fresh request, and an
/// accepted one by a deletion.
pub open spec fn act_plan_spec(last_event: Option<FriendshipEvent>, query_coin: bool, pick: u8) -> ActPlan {
    let query = if query_coin {
        Participant::Acting
    } else {
        Participant::Second
    };
    match last_event {
        Some(FriendshipEvent::REQUEST) => {
            if pick % 3 == 0 {
                ActPlan {
                    query,
                    event: Flow::Accept,
                    first: Participant::Second,
                    next_last_event: FriendshipEvent::ACCEPT,
                }
            } else if pick % 3 == 1 {
                ActPlan {
                    query,
                    event: Flow::Cancel,
                    first: Participant::Acting,
                    next_last_event: FriendshipEvent::CANCEL,
                }
            } else {
                ActPlan {
                    query,
                    event: Flow::Reject,
                    first: Participant::Second,
                    next_last_event: FriendshipEvent::REJECT,
                }
            }
        },
        Some(FriendshipEvent::ACCEPT) => ActPlan {
            query,
            event: Flow::Delete,
            first: Participant::Acting,
            next_last_event: FriendshipEvent::DELETE,
        },
        _ => ActPlan {
            query,
            event: Flow::Request,
            first: Participant::Acting,
            next_last_event: FriendshipEvent::REQUEST,
        },
    }
}

/// See [`act_plan_spec`]: the deterministic decision with both drawn
/// values injected.
pub fn act_plan(last_event: Option<FriendshipEvent>, query_coin: bool, pick: u8) -> (r: ActPlan)
    ensures
        r == act_plan_spec(last_event, query_coin, pick),
{
    let query = if query_coin {
        Participant::Acting
    } else {
        Participant::Second
    };
    match last_event {
        Some(FriendshipEvent::REQUEST) => {
            if pick % 3 == 0 {
                ActPlan {
                    query,
                    event: Flow::Accept,
                    first: Participant::Second,
                    next_last_event: FriendshipEvent::ACCEPT,
                }
            } else if pick % 3 == 1 {
                ActPlan {
                    query,
                    event: Flow::Cancel,
                    first: Participant::Acting,
                    next_last_event: FriendshipEvent::CANCEL,
                }
            } else {
                ActPlan {
                    query,
                    event: Flow::Reject,
                    first: Participant::Second,
                    next_last_event: FriendshipEvent::REJECT,
                }
            }
        },
        Some(FriendshipEvent::ACCEPT) => ActPlan {
            query,
            event: Flow::Delete,
            first: Participant::Acting,
            next_last_event: FriendshipEvent::DELETE,
        },
        _ => ActPlan {
            query,
            event: Flow::Request,
            first: Participant::Acting,
            next_last_event: FriendshipEvent::REQUEST,
        },
    }
}

/// The decision of one behavior invocation with both values drawn at
/// random, as a live run does it: whatever was drawn, the plan is the
/// decision for some pair of drawn values.
pub fn draw_act_plan(last_event: Option<FriendshipEvent>) -> (r: ActPlan)
    ensures
        exists|query_coin: bool, pick: u8| r == act_plan_spec(last_event, query_coin, pick),
{
    let query_coin: bool = rand::random();
    let pick: u8 = rand::random();
    let r = act_plan(last_event, query_coin, pick);
    proof {
        assert(r == act_plan_spec(last_event, query_coin, pick));
    }
    r
}

} // verus!
