//! The lifecycle of one output node: start and stop requests, pipeline
//! faults, and the teardown that reports the node's end to the manager
//! exactly once.
use vstd::prelude::*;
use crate::command::{CommandResult, ResultView};

verus! {

/// The lifecycle state of a node.
#[derive(Clone, Copy, PartialEq, Eq, Structural, Debug)]
pub enum State {
    /// Not playing yet, or a start failed.
    Initial,
    /// A start was asked of the pipeline and has not completed.
    Starting,
    /// The pipeline is playing.
    Started,
    /// Teardown has begun.
    Stopping,
    /// Torn down.
    Stopped,
}

/// Mathematical form of a node.
pub struct NodeView {
    pub id: u128,
    pub device_num: u16,
    pub state: State,
    pub watcher: bool,
    pub reported: bool,
}

/// Whether teardown has begun.
pub open spec fn is_ending(state: State) -> bool {
    state == State::Stopping || state == State::Stopped
}

/// Text of the refusal of a start on a node that is being torn down.
pub open spec fn ending_text() -> Seq<char> {
    "node is stopping"@
}

/// What a node does with a start request.
pub enum StartStep {
    /// Ask the pipeline to play; finish with `finish_start`.
    RequestPlaying,
    /// Answer at once.
    Refuse(CommandResult),
}

/// What teardown does.
#[derive(Clone, Copy, PartialEq, Eq, Structural, Debug)]
pub struct Teardown {
    /// Stop the pipeline watcher.
    pub stop_watcher: bool,
    /// Tell the manager that the node has terminated.
    pub notify_terminated: bool,
}

/// The node after a start request.
pub open spec fn after_start_request(v: NodeView) -> NodeView {
    if is_ending(v.state) {
        v
    } else {
        NodeView { state: State::Starting, ..v }
    }
}

/// The node after the pipeline answered a start; `ok` tells whether it plays.
pub open spec fn after_start_done(v: NodeView, ok: bool) -> NodeView {
    if v.state == State::Starting {
        NodeView { state: if ok { State::Started } else { State::Initial }, ..v }
    } else {
        v
    }
}

/// The node after a stop request or a fault: teardown has begun.
pub open spec fn after_stop_request(v: NodeView) -> NodeView {
    if v.state == State::Stopped {
        v
    } else {
        NodeView { state: State::Stopping, ..v }
    }
}

/// The node after teardown.
pub open spec fn after_teardown(v: NodeView) -> NodeView {
    NodeView { state: State::Stopped, watcher: false, reported: true, ..v }
}

/// What teardown does: stop the watcher if one is attached, and report the
/// termination if it has not been reported.
pub open spec fn teardown_of(v: NodeView) -> Teardown {
    Teardown { stop_watcher: v.watcher, notify_terminated: !v.reported }
}

/// One output node: its identifier, physical output number and lifecycle.
pub struct DecklinkStream {
    id: u128,
    device_num: u16,
    state: State,
    watcher: bool,
    reported: bool,
}

impl View for DecklinkStream {
    type V = NodeView;

    closed spec fn view(&self) -> NodeView {
        NodeView {
            id: self.id,
            device_num: self.device_num,
            state: self.state,
            watcher: self.watcher,
            reported: self.reported,
        }
    }
}

impl DecklinkStream {
    /// A node for a built pipeline: not playing, no watcher yet, nothing
    /// reported.
    pub fn new(device_id: u128, device_num: u16) -> (r: Self)
        ensures
            r@ == (NodeView {
                id: device_id,
                device_num,
                state: State::Initial,
                watcher: false,
                reported: false,
            }),
    {
        DecklinkStream { id: device_id, device_num, state: State::Initial, watcher: false, reported: false }
    }

    /// The node's device identifier.
    pub fn id(&self) -> (r: u128)
        ensures
            r == self@.id,
    {
        self.id
    }

    /// The node's physical output number.
    pub fn device_num(&self) -> (r: u16)
        ensures
            r == self@.device_num,
    {
        self.device_num
    }

    /// The node's lifecycle state.
    pub fn state(&self) -> (r: State)
        ensures
            r == self@.state,
    {
        self.state
    }

    /// The node's actor has started: its pipeline watcher is attached.
    pub fn started(&mut self)
        ensures
            final(self)@ == (NodeView { watcher: true, ..old(self)@ }),
    {
        self.watcher = true;
    }

    /// A start request: asks the pipeline to play, unless teardown has begun.
    pub fn handle_start(&mut self) -> (r: StartStep)
        ensures
            final(self)@ == after_start_request(old(self)@),
            !is_ending(old(self)@.state) ==> r is RequestPlaying,
            is_ending(old(self)@.state) ==> (r matches StartStep::Refuse(e) && e@ == ResultView::Error(
                ending_text(),
            )),
    {
        if self.state == State::Stopping || self.state == State::Stopped {
            StartStep::Refuse(CommandResult::Error(String::from_str("node is stopping")))
        } else {
            self.state = State::Starting;
            StartStep::RequestPlaying
        }
    }

    /// The pipeline answered a start: success, or the engine's error. A
    /// failed start is reported and is not fatal.
    pub fn finish_start(&mut self, outcome: Result<(), String>) -> (r: CommandResult)
        ensures
            final(self)@ == after_start_done(old(self)@, outcome is Ok),
            outcome is Ok ==> r@ == ResultView::Success,
            outcome matches Err(d) ==> r@ == ResultView::Error(d@),
    {
        let ok = outcome.is_ok();
        if self.state == State::Starting {
            self.state = if ok { State::Started } else { State::Initial };
        }
        match outcome {
            Ok(()) => CommandResult::Success,
            Err(d) => CommandResult::Error(d),
        }
    }

    /// A stop request: teardown begins and the request succeeds. Tells
    /// whether the actor must be stopped.
    pub fn handle_stop(&mut self) -> (r: (CommandResult, bool))
        ensures
            final(self)@ == after_stop_request(old(self)@),
            r.0@ == ResultView::Success,
            r.1 == (old(self)@.state != State::Stopped),
    {
        let go = self.state != State::Stopped;
        if go {
            self.state = State::Stopping;
        }
        (CommandResult::Success, go)
    }

    /// A fault relayed by the watcher: fatal, teardown begins as for a stop.
    /// Tells whether the actor must be stopped.
    pub fn handle_fault(&mut self) -> (r: bool)
        ensures
            final(self)@ == after_stop_request(old(self)@),
            r == (old(self)@.state != State::Stopped),
    {
        let go = self.state != State::Stopped;
        if go {
            self.state = State::Stopping;
        }
        go
    }

    /// The node's actor has stopped, by whatever path: the watcher is stopped
    /// and the termination is reported, each at most once over the node's life.
    pub fn stopped(&mut self) -> (r: Teardown)
        ensures
            final(self)@ == after_teardown(old(self)@),
            r == teardown_of(old(self)@),
    {
        let r = Teardown { stop_watcher: self.watcher, notify_terminated: !self.reported };
        self.state = State::Stopped;
        self.watcher = false;
        self.reported = true;
        r
    }
}

/// A fault stops a node that has not reported its end; its teardown then
/// reports the termination once, and no later event or teardown reports it
/// again.
pub proof fn law_fault_reported_once(v: NodeView)
    requires
        !v.reported,
    ensures
        teardown_of(after_stop_request(v)).notify_terminated,
        after_teardown(after_stop_request(v)).reported,
        forall|w: NodeView|
            w.reported ==> !(#[trigger] teardown_of(w)).notify_terminated
                && after_stop_request(w).reported && after_start_request(w).reported
                && after_teardown(w).reported,
        forall|w: NodeView, ok: bool| w.reported ==> (#[trigger] after_start_done(w, ok)).reported,
{
}

} // verus!
