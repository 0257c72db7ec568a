//! The pipeline watcher: relays the faults of a node's pipeline to the node,
//! so that a slow pipeline never blocks the node's own mailbox.
use vstd::prelude::*;

verus! {

/// A fault of a pipeline, sent by its watcher to the owning node.
pub struct ErrorMessage(pub String);

/// The pipeline of a node, as the core sees it: an opaque handle that the
/// runtime holds.
pub struct Pipeline {}

/// Watches the fault stream of one node's pipeline.
pub struct PipelineWatcher {
    node_id: u128,
    running: bool,
}

impl PipelineWatcher {
    /// The node that owns this watcher.
    pub closed spec fn owner(&self) -> u128 {
        self.node_id
    }

    /// Whether the watcher is still subscribed to the fault stream.
    pub closed spec fn is_running(&self) -> bool {
        self.running
    }

    /// A watcher for the pipeline of `node_id`, subscribed from the start.
    pub fn new(node_id: u128) -> (r: Self)
        ensures
            r.owner() == node_id,
            r.is_running(),
    {
        PipelineWatcher { node_id, running: true }
    }

    /// The node that owns this watcher.
    pub fn node_id(&self) -> (r: u128)
        ensures
            r == self.owner(),
    {
        self.node_id
    }

    /// Whether the watcher is still subscribed to the fault stream.
    pub fn running(&self) -> (r: bool)
        ensures
            r == self.is_running(),
    {
        self.running
    }

    /// A fault was observed: while subscribed, it goes to the owning node
    /// unchanged and the watcher keeps watching; once stopped, it is dropped.
    pub fn on_fault(&mut self, detail: String) -> (r: Option<ErrorMessage>)
        ensures
            *final(self) == *old(self),
            old(self).is_running() ==> (r matches Some(m) && m.0@ == detail@),
            !old(self).is_running() ==> r is None,
    {
        if self.running {
            Some(ErrorMessage(detail))
        } else {
            None
        }
    }

    /// Unsubscribes; stopping a stopped watcher does nothing. Tells whether
    /// the watcher was running.
    pub fn stop(&mut self) -> (r: bool)
        ensures
            r == old(self).is_running(),
            !final(self).is_running(),
            final(self).owner() == old(self).owner(),
    {
        let was = self.running;
        self.running = false;
        was
    }
}

} // verus!
