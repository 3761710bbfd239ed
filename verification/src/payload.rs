//! The friendship events and the wire payloads that carry them.
//!
//! These mirror the service's message shapes: every request wraps its
//! fields in options, an event body names the kind of friendship event, and
//! an update request carries one event body together with the sender's
//! authentication token.

use vstd::prelude::*;

use crate::User;

verus! {

/// The kinds of friendship event a client can send.
#[derive(PartialEq, Eq, Debug, Clone, Copy, Hash, Structural)]
pub enum FriendshipEvent {
    /// Send a friendship request.
    REQUEST,
    /// Cancel a friendship request.
    CANCEL,
    /// Accept a friendship request.
    ACCEPT,
    /// Reject a friendship request.
    REJECT,
    /// Delete an existing friendship.
    DELETE,
}

/// The sender's authentication token.
pub struct Payload {
    pub synapse_token: Option<String>,
}

pub struct RequestPayload {
    pub user: Option<User>,
    pub message: Option<String>,
}

pub struct CancelPayload {
    pub user: Option<User>,
}

pub struct AcceptPayload {
    pub user: Option<User>,
}

pub struct RejectPayload {
    pub user: Option<User>,
}

pub struct DeletePayload {
    pub user: Option<User>,
}

/// The body of one friendship event update: which event, aimed at which
/// user.
pub enum FriendshipEventBody {
    Request(RequestPayload),
    Cancel(CancelPayload),
    Accept(AcceptPayload),
    Reject(RejectPayload),
    Delete(DeletePayload),
}

pub struct FriendshipEventPayload {
    pub body: Option<FriendshipEventBody>,
}

/// One friendship event update as sent to the service: the event and the
/// sender's token.
pub struct UpdateFriendshipPayload {
    pub event: Option<FriendshipEventPayload>,
    pub auth_token: Option<Payload>,
}

/// Which kind of event a body carries.
pub open spec fn body_kind(b: FriendshipEventBody) -> FriendshipEvent {
    match b {
        FriendshipEventBody::Request(_) => FriendshipEvent::REQUEST,
        FriendshipEventBody::Cancel(_) => FriendshipEvent::CANCEL,
        FriendshipEventBody::Accept(_) => FriendshipEvent::ACCEPT,
        FriendshipEventBody::Reject(_) => FriendshipEvent::REJECT,
        FriendshipEventBody::Delete(_) => FriendshipEvent::DELETE,
    }
}

/// The user a body is aimed at.
pub open spec fn body_user(b: FriendshipEventBody) -> Option<User> {
    match b {
        FriendshipEventBody::Request(p) => p.user,
        FriendshipEventBody::Cancel(p) => p.user,
        FriendshipEventBody::Accept(p) => p.user,
        FriendshipEventBody::Reject(p) => p.user,
        FriendshipEventBody::Delete(p) => p.user,
    }
}

/// The address of the user a body is aimed at, if one is named.
pub fn body_user_address(b: &FriendshipEventBody) -> (r: Option<&str>)
    ensures
        r is Some <==> body_user(*b) is Some,
        r matches Some(a) ==> a@ == body_user(*b)->0.address@,
{
    let user = match b {
        FriendshipEventBody::Request(p) => &p.user,
        FriendshipEventBody::Cancel(p) => &p.user,
        FriendshipEventBody::Accept(p) => &p.user,
        FriendshipEventBody::Reject(p) => &p.user,
        FriendshipEventBody::Delete(p) => &p.user,
    };
    match user {
        Some(u) => Some(u.address.as_str()),
        None => None,
    }
}

/// Assemble the update request for one friendship event: the body carries
/// the event kind aimed at `user_address`, a request carries the standard
/// greeting message, and the whole update is authenticated with `token`.
pub fn build_update_payload(event: FriendshipEvent, token: &str, user_address: &str) -> (r:
    UpdateFriendshipPayload)
    ensures
        r.event is Some,
        r.event->0.body is Some,
        body_kind(r.event->0.body->0) == event,
        body_user(r.event->0.body->0) is Some,
        body_user(r.event->0.body->0)->0.address@ == user_address@,
        (r.event->0.body->0 matches FriendshipEventBody::Request(p) ==> p.message is Some
            && p.message->0@ == "A message"@),
        r.auth_token is Some,
        r.auth_token->0.synapse_token is Some,
        r.auth_token->0.synapse_token->0@ == token@,
{
    let user = User { address: user_address.to_owned() };
    let body = match event {
        FriendshipEvent::REQUEST => FriendshipEventBody::Request(
            RequestPayload { user: Some(user), message: Some("A message".to_owned()) },
        ),
        FriendshipEvent::CANCEL => FriendshipEventBody::Cancel(CancelPayload { user: Some(user) }),
        FriendshipEvent::ACCEPT => FriendshipEventBody::Accept(AcceptPayload { user: Some(user) }),
        FriendshipEvent::REJECT => FriendshipEventBody::Reject(RejectPayload { user: Some(user) }),
        FriendshipEvent::DELETE => FriendshipEventBody::Delete(DeletePayload { user: Some(user) }),
    };
    UpdateFriendshipPayload {
        event: Some(FriendshipEventPayload { body: Some(body) }),
        auth_token: Some(Payload { synapse_token: Some(token.to_owned()) }),
    }
}

} // verus!
