//! Script messages: plain data describing a message for scene nodes, and a
//! sender that hands messages to the dispatch thread over a channel.

use vstd::prelude::*;

use crate::pool::Handle;

verus! {

/// Declares std's channel sender so it can stand in a field.
#[verifier::external_type_specification]
#[verifier::external_body]
#[verifier::reject_recursive_types(T)]
pub struct ExSender<T>(std::sync::mpsc::Sender<T>);

/// Defines how a script message is delivered along a node hierarchy.
#[derive(Clone, Copy, Debug, PartialEq, Eq, Structural)]
pub enum RoutingStrategy {
    /// The message passes to the root node and then to every node up the
    /// hierarchy.
    Up,
    /// The message passes to every node down the tree.
    Down,
}

/// Whom a script message is for.
#[derive(Clone, Copy, Debug, PartialEq, Eq, Structural)]
pub enum ScriptMessageKind {
    /// A message for one scene node; delivered only if that node subscribed
    /// to the payload type.
    Targeted(Handle),
    /// A message for a whole hierarchy of nodes.
    Hierarchical {
        /// The node the routing starts from.
        root: Handle,
        /// The routing strategy along the hierarchy.
        routing: RoutingStrategy,
    },
    /// A message for every subscribed node.
    Global,
}

/// A script message: its payload and whom it is for.
pub struct ScriptMessage<P> {
    /// The payload.
    pub payload: P,
    /// Whom the message is for.
    pub kind: ScriptMessageKind,
}

/// A handle for sending script messages into the dispatcher. Cloning it
/// yields another sender into the same queue.
#[verifier::reject_recursive_types(P)]
pub struct ScriptMessageSender<P> {
    sender: std::sync::mpsc::Sender<ScriptMessage<P>>,
}

impl<P> ScriptMessageSender<P> {
    /// A sender that feeds the given channel.
    pub fn new(sender: std::sync::mpsc::Sender<ScriptMessage<P>>) -> (s: ScriptMessageSender<P>) {
        ScriptMessageSender { sender }
    }

    /// Relies on `std::sync::mpsc::Sender::send`: hands the message to the
    /// dispatcher; if the receiving side is gone the message is dropped.
    #[verifier::external_body]
    pub fn send(&self, message: ScriptMessage<P>) {
        let _ = self.sender.send(message);
    }

    /// Sends a targeted script message with the given payload.
    pub fn send_to_target(&self, target: Handle, payload: P) {
        self.send(ScriptMessage { payload, kind: ScriptMessageKind::Targeted(target) })
    }

    /// Sends a global script message with the given payload.
    pub fn send_global(&self, payload: P) {
        self.send(ScriptMessage { payload, kind: ScriptMessageKind::Global })
    }

    /// Sends a hierarchical script message with the given payload.
    pub fn send_hierarchical(&self, root: Handle, routing: RoutingStrategy, payload: P) {
        self.send(ScriptMessage { payload, kind: ScriptMessageKind::Hierarchical { root, routing } })
    }
}

impl<P> Clone for ScriptMessageSender<P> {
    /// Relies on `std::sync::mpsc::Sender::clone`: another sender into the
    /// same queue.
    #[verifier::external_body]
    fn clone(&self) -> ScriptMessageSender<P> {
        ScriptMessageSender { sender: self.sender.clone() }
    }
}

} // verus!
