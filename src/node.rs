//! A receiving node: its life cycle as a function from state and event to
//! the next state and an action for whoever runs the node.

use crate::message::SealedMessage;
use crate::session::{is_authentic, is_sealing, CipherSession};
use vstd::prelude::*;

verus! {

/// Where a node stands in its life cycle.
#[derive(Clone, Copy, Debug, PartialEq, Eq)]
pub enum NodeState {
    /// Created, not yet listening.
    Idle,
    /// Waiting on its inbound queue.
    Listening,
    /// Stopped for good.
    Terminated,
}

/// What happened to a node.
pub enum NodeEvent {
    /// The node is started.
    Start,
    /// A sealed message came off the inbound queue.
    Received(SealedMessage),
    /// The inbound queue was closed.
    QueueClosed,
    /// The owning process asked the node to stop.
    Shutdown,
}

/// What the node asks its runner to do.
#[derive(Debug)]
pub enum NodeAction {
    /// Wait on the inbound queue.
    Listen,
    /// Hand the recovered plaintext to the delivery sink.
    Deliver { node_id: u8, plaintext: Vec<u8> },
    /// Report that a message failed to authenticate and was dropped.
    Reject { node_id: u8 },
    /// Stop running the node.
    Stop,
    /// Nothing to do.
    Ignore,
}

/// The state that `event` moves a node in `state` to.
pub open spec fn next_state(state: NodeState, event: NodeEvent) -> NodeState {
    match (state, event) {
        (NodeState::Idle, NodeEvent::Start) => NodeState::Listening,
        (NodeState::Terminated, _) => NodeState::Terminated,
        (_, NodeEvent::QueueClosed) => NodeState::Terminated,
        (_, NodeEvent::Shutdown) => NodeState::Terminated,
        (s, _) => s,
    }
}

/// `action` is what a listening node with identifier `id` and key `key`
/// does with the message `m`: it delivers the plaintext that `m` seals, or
/// rejects `m` when it is not authentic.
pub open spec fn handles_message(id: u8, key: Seq<u8>, m: SealedMessage, action: NodeAction) -> bool {
    &&& (action is Deliver <==> is_authentic(key, m.nonce@, m.ciphertext@))
    &&& (action is Reject <==> !is_authentic(key, m.nonce@, m.ciphertext@))
    &&& (action matches NodeAction::Deliver { node_id, plaintext } ==> node_id == id
        && is_sealing(key, m.nonce@, m.ciphertext@, plaintext@))
    &&& (action matches NodeAction::Reject { node_id } ==> node_id == id)
    &&& forall|p: Seq<u8>|
        #[trigger] is_sealing(key, m.nonce@, m.ciphertext@, p) ==> (action matches NodeAction::Deliver {
            plaintext,
            ..
        } && plaintext@ == p)
}

/// `action` is what a node with identifier `id`, key `key` and state
/// `state` does on `event`.
pub open spec fn step_action(id: u8, key: Seq<u8>, state: NodeState, event: NodeEvent, action: NodeAction) -> bool {
    match (state, event) {
        (NodeState::Idle, NodeEvent::Start) => action is Listen,
        (NodeState::Listening, NodeEvent::Received(m)) => handles_message(id, key, m, action),
        (NodeState::Terminated, _) => action is Ignore,
        (_, NodeEvent::QueueClosed) => action is Stop,
        (_, NodeEvent::Shutdown) => action is Stop,
        (_, _) => action is Ignore,
    }
}

/// A receiving node: an identifier, a session over the shared key, and its
/// place in the life cycle.
pub struct Node {
    id: u8,
    session: CipherSession,
    state: NodeState,
}

impl Node {
    /// The node's identifier.
    pub closed spec fn spec_id(&self) -> u8 {
        self.id
    }

    /// The key of the node's session.
    pub closed spec fn spec_key(&self) -> Seq<u8> {
        self.session@
    }

    /// The node's state.
    pub closed spec fn spec_state(&self) -> NodeState {
        self.state
    }

    /// An idle node with identifier `id` that opens messages with `session`.
    pub fn new(id: u8, session: CipherSession) -> (r: Node)
        ensures
            r.spec_id() == id,
            r.spec_key() == session@,
            r.spec_state() == NodeState::Idle,
    {
        Node { id, session, state: NodeState::Idle }
    }

    /// The node's identifier.
    pub fn id(&self) -> (r: u8)
        ensures
            r == self.spec_id(),
    {
        self.id
    }

    /// The node's state.
    pub fn state(&self) -> (r: NodeState)
        ensures
            r == self.spec_state(),
    {
        self.state
    }

    /// Opens a message as a listening node does: delivers the plaintext, or
    /// rejects the message when it does not authenticate. A rejected message
    /// never stops the node.
    pub fn handle(&self, m: &SealedMessage) -> (r: NodeAction)
        ensures
            handles_message(self.spec_id(), self.spec_key(), *m, r),
    {
        match self.session.open(&m.nonce, m.ciphertext.as_slice()) {
            Ok(plaintext) => NodeAction::Deliver { node_id: self.id, plaintext },
            Err(_) => NodeAction::Reject { node_id: self.id },
        }
    }

    /// Moves the node on by one event and says what its runner is to do.
    pub fn step(&mut self, event: NodeEvent) -> (r: NodeAction)
        ensures
            final(self).spec_id() == old(self).spec_id(),
            final(self).spec_key() == old(self).spec_key(),
            final(self).spec_state() == next_state(old(self).spec_state(), event),
            step_action(old(self).spec_id(), old(self).spec_key(), old(self).spec_state(), event, r),
    {
        match (self.state, event) {
            (NodeState::Idle, NodeEvent::Start) => {
                self.state = NodeState::Listening;
                NodeAction::Listen
            },
            (NodeState::Listening, NodeEvent::Received(m)) => self.handle(&m),
            (NodeState::Terminated, _) => NodeAction::Ignore,
            (_, NodeEvent::QueueClosed) => {
                self.state = NodeState::Terminated;
                NodeAction::Stop
            },
            (_, NodeEvent::Shutdown) => {
                self.state = NodeState::Terminated;
                NodeAction::Stop
            },
            (_, _) => NodeAction::Ignore,
        }
    }
}

} // verus!
