//! The turn of the dispatch loop.
//!
//! One thread of control waits on the inbound channel and hands each message
//! that arrives to the worker pool. The loop itself belongs to the program;
//! what it decides at each turn stands here. It is idle while it waits,
//! dispatching while it hands a message over, and stopped for good once the
//! inbound channel is closed.

use vstd::prelude::*;
use crate::error::ServiceError;
use crate::wire::Message;

verus! {

/// Where the dispatch loop stands.
#[derive(Clone, Copy, Debug, PartialEq, Eq, Structural)]
pub enum DispatchState {
    /// Waiting for the next inbound message.
    Idle,
    /// Handing a received message to the worker pool.
    Dispatching,
    /// Ended: the inbound channel is closed, and nothing restarts the loop.
    Stopped,
}

/// What waiting on the inbound channel gave.
#[derive(Clone, Debug, PartialEq, Eq)]
pub enum Inbound {
    /// A message arrived.
    Received(Message),
    /// The channel is closed or disconnected.
    Closed,
}

/// What the loop is to do after a turn.
#[derive(Clone, Debug, PartialEq, Eq)]
pub enum DispatchAction {
    /// Hand this message to the worker pool as a task of its own, then wait
    /// for the next.
    Submit(Message),
    /// End the loop with this error.
    Stop(ServiceError),
}

/// The state after `inbound` was taken in `state`: a message puts a loop
/// that runs into dispatching; a closed channel stops it; a stopped loop
/// stays stopped.
pub open spec fn after_inbound(state: DispatchState, inbound: Inbound) -> DispatchState {
    match (state, inbound) {
        (DispatchState::Stopped, _) => DispatchState::Stopped,
        (_, Inbound::Closed) => DispatchState::Stopped,
        (_, Inbound::Received(_)) => DispatchState::Dispatching,
    }
}

/// What the loop is to do when `inbound` was taken in `state`: every
/// message that a running loop receives is submitted, as it came; a closed
/// channel, and anything that reaches a stopped loop, ends in `ChannelClosed`.
pub open spec fn action_on(state: DispatchState, inbound: Inbound) -> DispatchAction {
    match (state, inbound) {
        (DispatchState::Stopped, _) => DispatchAction::Stop(ServiceError::ChannelClosed),
        (_, Inbound::Closed) => DispatchAction::Stop(ServiceError::ChannelClosed),
        (_, Inbound::Received(message)) => DispatchAction::Submit(message),
    }
}

/// The state after the worker pool took the message: a dispatching loop is
/// idle again, and any other state stays as it is.
pub open spec fn after_submitted(state: DispatchState) -> DispatchState {
    match state {
        DispatchState::Dispatching => DispatchState::Idle,
        other => other,
    }
}

impl DispatchState {
    /// Takes what the inbound channel gave, and says where the loop stands
    /// now and what it is to do.
    pub fn on_inbound(self, inbound: Inbound) -> (turn: (DispatchState, DispatchAction))
        ensures
            turn.0 == after_inbound(self, inbound),
            turn.1 == action_on(self, inbound),
    {
        match self {
            DispatchState::Stopped => (
                DispatchState::Stopped,
                DispatchAction::Stop(ServiceError::ChannelClosed),
            ),
            _ => match inbound {
                Inbound::Closed => (
                    DispatchState::Stopped,
                    DispatchAction::Stop(ServiceError::ChannelClosed),
                ),
                Inbound::Received(message) => (
                    DispatchState::Dispatching,
                    DispatchAction::Submit(message),
                ),
            },
        }
    }

    /// Notes that the worker pool took the message that was submitted.
    pub fn on_submitted(self) -> (next: DispatchState)
        ensures
            next == after_submitted(self),
    {
        match self {
            DispatchState::Dispatching => DispatchState::Idle,
            other => other,
        }
    }
}

} // verus!
