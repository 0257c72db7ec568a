//! The fleet manager: the device table, the live nodes and the connected
//! sessions, and the routing of commands to nodes.
use vstd::prelude::*;
use crate::command::{
    internal_error, internal_error_text, no_node_error, no_node_text, Command, CommandResult,
    Device, DeviceState, ResultView,
};
use crate::ident::random_id;
use crate::registry::Registry;

verus! {

/// Number of fleet slots created at startup.
pub const FLEET_SIZE: u16 = 4;

/// How often, in milliseconds, the fleet snapshot goes to every session.
pub const SYNC_INTERVAL_MS: u64 = 2000;

/// A command handed to the manager by a session.
pub struct CommandMessage {
    pub command: Command,
}

/// Asks a node, or the whole fleet, to stop.
pub struct StopMessage;

/// A node has stopped; sent by the node to the manager.
pub struct StoppedMessage {
    pub id: u128,
}

/// Asks a node to start playing.
pub struct StartMessage {}

/// A session connects or disconnects; `A` is the session's handle.
pub enum WebsocketMessage<A> {
    Connection { id: u128, addr: A },
    Disconect { id: u128 },
}

/// A state reported by a node.
pub struct NodeStateMessage {
    pub state: DeviceState,
}

/// What the manager does with a command.
pub enum Dispatch {
    /// Reply at once.
    Reply(CommandResult),
    /// Ask the node of this device to start, then finish with `finish_start`.
    AskStart(u128),
    /// Tell the node of this device to stop, then reply.
    StopThenReply(u128, CommandResult),
}

/// Mathematical form of a `Dispatch`.
pub enum DispatchView {
    Reply(ResultView),
    AskStart(u128),
    StopThenReply(u128, ResultView),
}

impl View for Dispatch {
    type V = DispatchView;

    open spec fn view(&self) -> DispatchView {
        match self {
            Dispatch::Reply(r) => DispatchView::Reply(r@),
            Dispatch::AskStart(id) => DispatchView::AskStart(*id),
            Dispatch::StopThenReply(id, r) => DispatchView::StopThenReply(*id, r@),
        }
    }
}

/// How a start request to a node ended.
pub enum StartOutcome {
    /// The pipeline reached playing.
    Started,
    /// The node or the pipeline reported a failure.
    Failed(String),
    /// The node could not be reached.
    Unreachable(String),
}

/// Mathematical form of a `StartOutcome`.
pub enum StartOutcomeView {
    Started,
    Failed(Seq<char>),
    Unreachable(Seq<char>),
}

impl View for StartOutcome {
    type V = StartOutcomeView;

    open spec fn view(&self) -> StartOutcomeView {
        match self {
            StartOutcome::Started => StartOutcomeView::Started,
            StartOutcome::Failed(d) => StartOutcomeView::Failed(d@),
            StartOutcome::Unreachable(d) => StartOutcomeView::Unreachable(d@),
        }
    }
}

/// The device table with the record of `id` set to `state`.
pub open spec fn with_state(devices: Map<u128, Device>, id: u128, state: DeviceState) -> Map<
    u128,
    Device,
> {
    devices.insert(id, Device { id: devices[id].id, device_num: devices[id].device_num, state })
}

/// What the manager does with `command`, given the device table.
pub open spec fn dispatch_of(devices: Map<u128, Device>, command: Command) -> DispatchView {
    match command {
        Command::Ping {  } => DispatchView::Reply(ResultView::Pong),
        Command::Start { device_id } => if devices.contains_key(device_id) {
            DispatchView::AskStart(device_id)
        } else {
            DispatchView::Reply(ResultView::Error(no_node_text(device_id)))
        },
        Command::Stop { device_id } => if devices.contains_key(device_id) {
            DispatchView::StopThenReply(device_id, ResultView::Success)
        } else {
            DispatchView::Reply(ResultView::Error(no_node_text(device_id)))
        },
    }
}

/// The device table after `command`: a stop of a known device marks it idle
/// at once; nothing else changes it.
pub open spec fn devices_after_command(devices: Map<u128, Device>, command: Command) -> Map<
    u128,
    Device,
> {
    match command {
        Command::Stop { device_id } => if devices.contains_key(device_id) {
            with_state(devices, device_id, DeviceState::Null)
        } else {
            devices
        },
        _ => devices,
    }
}

/// The reply to a start request that ended with `outcome`.
pub open spec fn start_result(outcome: StartOutcomeView) -> ResultView {
    match outcome {
        StartOutcomeView::Started => ResultView::Success,
        StartOutcomeView::Failed(d) => ResultView::Error(d),
        StartOutcomeView::Unreachable(d) => ResultView::Error(internal_error_text(d)),
    }
}

/// The device table after a start request on `id` ended with `outcome`: only
/// a confirmed start of a known device marks it playing.
pub open spec fn devices_after_start(
    devices: Map<u128, Device>,
    id: u128,
    outcome: StartOutcomeView,
) -> Map<u128, Device> {
    if outcome == StartOutcomeView::Started && devices.contains_key(id) {
        with_state(devices, id, DeviceState::Playing)
    } else {
        devices
    }
}

/// The identifiers among `recipients` whose delivery failed.
pub open spec fn undelivered(recipients: Seq<u128>, delivered: Seq<bool>) -> Set<u128> {
    Set::new(
        |k: u128| exists|i: int| 0 <= i < recipients.len() && recipients[i] == k && !delivered[i],
    )
}

/// A ping is answered with a pong whatever the fleet holds, and changes
/// nothing.
pub proof fn law_ping_answered(devices: Map<u128, Device>)
    ensures
        dispatch_of(devices, Command::Ping {  }) == DispatchView::Reply(ResultView::Pong),
        devices_after_command(devices, Command::Ping {  }) == devices,
{
}

/// A start or a stop of a device that is not in the table is answered with an
/// error that names the device, and leaves the table as it was.
pub proof fn law_unknown_device_rejected(devices: Map<u128, Device>, device_id: u128)
    requires
        !devices.contains_key(device_id),
    ensures
        dispatch_of(devices, Command::Start { device_id }) == DispatchView::Reply(
            ResultView::Error(no_node_text(device_id)),
        ),
        dispatch_of(devices, Command::Stop { device_id }) == DispatchView::Reply(
            ResultView::Error(no_node_text(device_id)),
        ),
        devices_after_command(devices, Command::Start { device_id }) == devices,
        devices_after_command(devices, Command::Stop { device_id }) == devices,
{
}

/// After a stop the device is idle; once its node has terminated and left the
/// table, a start of the same device is answered with an error.
pub proof fn law_stop_then_terminated(devices: Map<u128, Device>, device_id: u128)
    requires
        devices.contains_key(device_id),
    ensures
        devices_after_command(devices, Command::Stop { device_id })[device_id].state
            == DeviceState::Null,
        dispatch_of(
            devices_after_command(devices, Command::Stop { device_id }).remove(device_id),
            Command::Start { device_id },
        ) == DispatchView::Reply(ResultView::Error(no_node_text(device_id))),
{
}

/// Registering a session twice under one id leaves one entry, as registering
/// it once does; unregistering an id that is not registered changes nothing.
pub proof fn law_session_registration_idempotent<S>(sessions: Map<u128, S>, id: u128, handle: S)
    ensures
        sessions.insert(id, handle).insert(id, handle) == sessions.insert(id, handle),
        !sessions.contains_key(id) ==> sessions.remove(id) == sessions,
{
    assert(sessions.insert(id, handle).insert(id, handle) =~= sessions.insert(id, handle));
    if !sessions.contains_key(id) {
        assert(sessions.remove(id) =~= sessions);
    }
}

/// A recipient whose delivery failed is pruned, so the next broadcast, which
/// goes to the registered sessions, does not count on it.
pub proof fn law_dead_session_pruned<S>(
    sessions: Map<u128, S>,
    recipients: Seq<u128>,
    delivered: Seq<bool>,
    i: int,
)
    requires
        recipients.len() == delivered.len(),
        0 <= i < recipients.len(),
        !delivered[i],
    ensures
        !sessions.remove_keys(undelivered(recipients, delivered)).contains_key(recipients[i]),
{
    assert(undelivered(recipients, delivered).contains(recipients[i]));
}

/// The fleet manager; `N` is a node's handle, `S` a session's.
pub struct NodeManager<N, S> {
    nodes: Registry<N>,
    devices: Registry<Device>,
    sessions: Registry<S>,
}

impl<N, S> NodeManager<N, S> {
    /// The device table.
    pub closed spec fn devices(&self) -> Map<u128, Device> {
        self.devices@
    }

    /// The live nodes.
    pub closed spec fn nodes(&self) -> Map<u128, N> {
        self.nodes@
    }

    /// The connected sessions.
    pub closed spec fn sessions(&self) -> Map<u128, S> {
        self.sessions@
    }

    /// The device records, in the order in which they were added.
    pub closed spec fn snapshot(&self) -> Seq<Device> {
        self.devices.entries().map_values(|e: (u128, Device)| e.1)
    }

    /// Every device has a live node and the reverse; a record sits under its
    /// own identifier.
    pub closed spec fn wf(&self) -> bool {
        &&& self.nodes.wf()
        &&& self.devices.wf()
        &&& self.sessions.wf()
        &&& self.nodes@.dom() == self.devices@.dom()
        &&& forall|k: u128| #[trigger] self.devices@.contains_key(k) ==> self.devices@[k].id == k
    }

    /// Each listed record is the table's record under its identifier, each
    /// record of the table is listed, and none is listed twice.
    pub proof fn lemma_snapshot(&self)
        requires
            self.wf(),
        ensures
            self.snapshot().len() == self.devices().len(),
            self.snapshot().no_duplicates(),
            forall|i: int|
                0 <= i < self.snapshot().len() ==> self.devices().contains_key(
                    #[trigger] self.snapshot()[i].id,
                ) && self.devices()[self.snapshot()[i].id] == self.snapshot()[i],
            forall|k: u128|
                self.devices().contains_key(k) ==> exists|i: int|
                    0 <= i < self.snapshot().len() && self.snapshot()[i] == self.devices()[k],
    {
        self.devices.lemma_entries();
        let e = self.devices.entries();
        assert forall|i: int| 0 <= i < self.snapshot().len() implies self.devices().contains_key(
            #[trigger] self.snapshot()[i].id,
        ) && self.devices()[self.snapshot()[i].id] == self.snapshot()[i] by {
            assert(self.devices@.contains_key(e[i].0));
        }
        assert forall|k: u128| self.devices().contains_key(k) implies exists|i: int|
            0 <= i < self.snapshot().len() && self.snapshot()[i] == self.devices()[k] by {
            let i = choose|i: int| 0 <= i < e.len() && e[i].0 == k;
            assert(self.snapshot()[i] == e[i].1);
        }
        assert forall|i: int, j: int|
            0 <= i < self.snapshot().len() && 0 <= j < self.snapshot().len() && i != j implies
            self.snapshot()[i] != self.snapshot()[j] by {
            assert(self.devices@.contains_key(e[i].0));
            assert(self.devices@.contains_key(e[j].0));
            assert(e[i].0 != e[j].0);
        }
    }

    /// Every device has a live node and every live node a device.
    pub proof fn lemma_nodes_match_devices(&self)
        requires
            self.wf(),
        ensures
            self.nodes().dom() == self.devices().dom(),
    {
    }

    /// A record sits under its own identifier.
    pub proof fn lemma_wf_ids(&self, device_id: u128)
        requires
            self.wf(),
            self.devices().contains_key(device_id),
        ensures
            self.devices()[device_id].id == device_id,
    {
    }

    /// An empty manager: no devices, nodes or sessions.
    pub fn new() -> (r: Self)
        ensures
            r.wf(),
            r.devices() == Map::<u128, Device>::empty(),
            r.nodes() == Map::<u128, N>::empty(),
            r.sessions() == Map::<u128, S>::empty(),
    {
        let r = NodeManager { nodes: Registry::new(), devices: Registry::new(), sessions: Registry::new() };
        proof {
            assert(r.nodes@.dom() =~= r.devices@.dom());
        }
        r
    }

    /// `id` as the identifier of a new fleet slot: `None` if a device already
    /// has it.
    pub fn claim_device_id(&self, id: u128) -> (r: Option<u128>)
        requires
            self.wf(),
        ensures
            r == (if self.devices().contains_key(id) {
                None::<u128>
            } else {
                Some(id)
            }),
    {
        if self.devices.contains(id) {
            None
        } else {
            Some(id)
        }
    }

    /// Draws an identifier for a new fleet slot and claims it as
    /// `claim_device_id` does.
    pub fn fresh_device_id(&self) -> (r: Option<u128>)
        requires
            self.wf(),
        ensures
            r matches Some(id) ==> !self.devices().contains_key(id),
    {
        self.claim_device_id(random_id())
    }

    /// `id` as the identifier of a new session: `None` if a registered
    /// session already has it.
    pub fn claim_session_id(&self, id: u128) -> (r: Option<u128>)
        requires
            self.wf(),
        ensures
            r == (if self.sessions().contains_key(id) {
                None::<u128>
            } else {
                Some(id)
            }),
    {
        if self.sessions.contains(id) {
            None
        } else {
            Some(id)
        }
    }

    /// Draws an identifier for a new session and claims it as
    /// `claim_session_id` does.
    pub fn fresh_session_id(&self) -> (r: Option<u128>)
        requires
            self.wf(),
        ensures
            r matches Some(id) ==> !self.sessions().contains_key(id),
    {
        self.claim_session_id(random_id())
    }

    /// Enters a built node and its device, in state `Ready`, under a new
    /// identifier; refuses an identifier already in use.
    pub fn add_node(&mut self, device_id: u128, device_num: u16, node: N) -> (r: bool)
        requires
            old(self).wf(),
        ensures
            final(self).wf(),
            r == !old(self).devices().contains_key(device_id),
            final(self).sessions() == old(self).sessions(),
            r ==> final(self).devices() == old(self).devices().insert(
                device_id,
                Device { id: device_id, device_num, state: DeviceState::Ready },
            ),
            r ==> final(self).nodes() == old(self).nodes().insert(device_id, node),
            !r ==> final(self).devices() == old(self).devices(),
            !r ==> final(self).nodes() == old(self).nodes(),
    {
        if self.devices.contains(device_id) {
            return false;
        }
        self.nodes.insert(device_id, node);
        self.devices.insert(device_id, Device { id: device_id, device_num, state: DeviceState::Ready });
        proof {
            assert(self.nodes@.dom() =~= self.devices@.dom());
        }
        true
    }

    fn set_state(&mut self, device_id: u128, state: DeviceState)
        requires
            old(self).wf(),
            old(self).devices().contains_key(device_id),
        ensures
            final(self).wf(),
            final(self).devices() == with_state(old(self).devices(), device_id, state),
            final(self).nodes() == old(self).nodes(),
            final(self).sessions() == old(self).sessions(),
    {
        let current: Device = *self.devices.get(device_id).unwrap();
        self.devices.insert(device_id, Device { id: current.id, device_num: current.device_num, state });
        proof {
            assert(self.nodes@.dom() =~= self.devices@.dom());
        }
    }

    /// Routes a command: a ping is answered at once; a start of a known
    /// device goes to its node; a stop of a known device marks it idle and is
    /// answered at once while the node is told to stop; a command on an
    /// unknown device is answered with an error naming it.
    pub fn handle_command(&mut self, command: Command) -> (r: Dispatch)
        requires
            old(self).wf(),
        ensures
            final(self).wf(),
            r@ == dispatch_of(old(self).devices(), command),
            final(self).devices() == devices_after_command(old(self).devices(), command),
            final(self).nodes() == old(self).nodes(),
            final(self).sessions() == old(self).sessions(),
    {
        match command {
            Command::Ping {  } => Dispatch::Reply(CommandResult::Pong),
            Command::Start { device_id } => {
                if self.devices.contains(device_id) {
                    Dispatch::AskStart(device_id)
                } else {
                    Dispatch::Reply(no_node_error(device_id))
                }
            },
            Command::Stop { device_id } => {
                if self.devices.contains(device_id) {
                    self.set_state(device_id, DeviceState::Null);
                    Dispatch::StopThenReply(device_id, CommandResult::Success)
                } else {
                    Dispatch::Reply(no_node_error(device_id))
                }
            },
        }
    }

    /// Finishes a start request that `handle_command` handed to a node: a
    /// confirmed start marks the device playing and succeeds; a failure is
    /// returned as an error and changes nothing.
    pub fn finish_start(&mut self, device_id: u128, outcome: StartOutcome) -> (r: CommandResult)
        requires
            old(self).wf(),
        ensures
            final(self).wf(),
            r@ == start_result(outcome@),
            final(self).devices() == devices_after_start(old(self).devices(), device_id, outcome@),
            final(self).nodes() == old(self).nodes(),
            final(self).sessions() == old(self).sessions(),
    {
        match outcome {
            StartOutcome::Started => {
                if self.devices.contains(device_id) {
                    self.set_state(device_id, DeviceState::Playing);
                }
                CommandResult::Success
            },
            StartOutcome::Failed(detail) => CommandResult::Error(detail),
            StartOutcome::Unreachable(detail) => internal_error(detail.as_str()),
        }
    }

    /// A node has terminated: its node and device entries go. Tells whether
    /// there were any.
    pub fn node_terminated(&mut self, device_id: u128) -> (r: bool)
        requires
            old(self).wf(),
        ensures
            final(self).wf(),
            r == old(self).devices().contains_key(device_id),
            final(self).devices() == old(self).devices().remove(device_id),
            final(self).nodes() == old(self).nodes().remove(device_id),
            final(self).sessions() == old(self).sessions(),
    {
        self.nodes.remove(device_id);
        let r = self.devices.remove(device_id);
        proof {
            assert(self.nodes@.dom() =~= self.devices@.dom());
        }
        r
    }

    /// Enters a session under `id`, replacing any handle already there.
    pub fn register_session(&mut self, id: u128, handle: S)
        requires
            old(self).wf(),
        ensures
            final(self).wf(),
            final(self).sessions() == old(self).sessions().insert(id, handle),
            final(self).devices() == old(self).devices(),
            final(self).nodes() == old(self).nodes(),
    {
        self.sessions.insert(id, handle);
    }

    /// Removes the session under `id`, if any; tells whether there was one.
    pub fn unregister_session(&mut self, id: u128) -> (r: bool)
        requires
            old(self).wf(),
        ensures
            final(self).wf(),
            r == old(self).sessions().contains_key(id),
            final(self).sessions() == old(self).sessions().remove(id),
            final(self).devices() == old(self).devices(),
            final(self).nodes() == old(self).nodes(),
    {
        self.sessions.remove(id)
    }

    /// Handles a session's connection or disconnection.
    pub fn handle_websocket(&mut self, msg: WebsocketMessage<S>)
        requires
            old(self).wf(),
        ensures
            final(self).wf(),
            final(self).sessions() == match msg {
                WebsocketMessage::Connection { id, addr } => old(self).sessions().insert(id, addr),
                WebsocketMessage::Disconect { id } => old(self).sessions().remove(id),
            },
            final(self).devices() == old(self).devices(),
            final(self).nodes() == old(self).nodes(),
    {
        match msg {
            WebsocketMessage::Connection { id, addr } => self.register_session(id, addr),
            WebsocketMessage::Disconect { id } => {
                self.unregister_session(id);
            },
        }
    }

    /// The handle of the node of `device_id`, if it is live.
    pub fn node(&self, device_id: u128) -> (r: Option<&N>)
        requires
            self.wf(),
        ensures
            r.is_some() == self.nodes().contains_key(device_id),
            r matches Some(h) ==> *h == self.nodes()[device_id],
    {
        self.nodes.get(device_id)
    }

    /// The handle of the session `id`, if it is registered.
    pub fn session(&self, id: u128) -> (r: Option<&S>)
        requires
            self.wf(),
        ensures
            r.is_some() == self.sessions().contains_key(id),
            r matches Some(h) ==> *h == self.sessions()[id],
    {
        self.sessions.get(id)
    }

    /// The identifiers of the live nodes, each once.
    pub fn node_ids(&self) -> (r: Vec<u128>)
        requires
            self.wf(),
        ensures
            r@.no_duplicates(),
            forall|k: u128| r@.contains(k) <==> self.nodes().contains_key(k),
    {
        self.nodes.keys()
    }

    /// The identifiers of the registered sessions, each once: the recipients
    /// of a broadcast.
    pub fn session_ids(&self) -> (r: Vec<u128>)
        requires
            self.wf(),
        ensures
            r@.no_duplicates(),
            forall|k: u128| r@.contains(k) <==> self.sessions().contains_key(k),
    {
        self.sessions.keys()
    }

    /// Number of registered sessions.
    pub fn session_count(&self) -> (r: usize)
        requires
            self.wf(),
        ensures
            r == self.sessions().len(),
    {
        self.sessions.len()
    }

    /// The fleet snapshot that a broadcast carries.
    pub fn sync_result(&self) -> (r: CommandResult)
        requires
            self.wf(),
        ensures
            r@ == ResultView::Sync(self.snapshot()),
    {
        CommandResult::Sync(self.devices.values())
    }

    /// Ends a broadcast: each recipient whose delivery failed is removed.
    pub fn prune_sessions(&mut self, recipients: &Vec<u128>, delivered: &Vec<bool>)
        requires
            old(self).wf(),
            recipients@.len() == delivered@.len(),
        ensures
            final(self).wf(),
            final(self).sessions() == old(self).sessions().remove_keys(
                undelivered(recipients@, delivered@),
            ),
            final(self).devices() == old(self).devices(),
            final(self).nodes() == old(self).nodes(),
    {
        let ghost start = self.sessions@;
        let mut i: usize = 0;
        while i < recipients.len()
            invariant
                self.wf(),
                recipients@.len() == delivered@.len(),
                i <= recipients@.len(),
                self.sessions@ == start.remove_keys(
                    undelivered(recipients@.take(i as int), delivered@.take(i as int)),
                ),
                self.devices@ == old(self).devices@,
                self.nodes@ == old(self).nodes@,
            decreases recipients@.len() - i,
        {
            let ghost before = self.sessions@;
            if !delivered[i] {
                self.sessions.remove(recipients[i]);
            }
            proof {
                let r0 = recipients@.take(i as int);
                let d0 = delivered@.take(i as int);
                let r1 = recipients@.take(i + 1);
                let d1 = delivered@.take(i + 1);
                assert forall|k: u128|
                    undelivered(r1, d1).contains(k) <==> (undelivered(r0, d0).contains(k) || (
                    k == recipients@[i as int] && !delivered@[i as int])) by {
                    if undelivered(r1, d1).contains(k) {
                        let j = choose|j: int| 0 <= j < r1.len() && r1[j] == k && !d1[j];
                        if j < i {
                            assert(r0[j] == k && !d0[j]);
                        }
                    }
                    if undelivered(r0, d0).contains(k) {
                        let j = choose|j: int| 0 <= j < r0.len() && r0[j] == k && !d0[j];
                        assert(r1[j] == k && !d1[j]);
                    }
                    if k == recipients@[i as int] && !delivered@[i as int] {
                        assert(r1[i as int] == k && !d1[i as int]);
                    }
                }
                assert(self.sessions@ =~= start.remove_keys(undelivered(r1, d1)));
            }
            i = i + 1;
        }
        proof {
            assert(recipients@.take(i as int) =~= recipients@);
            assert(delivered@.take(i as int) =~= delivered@);
        }
    }
}

/// After a confirmed start of a device, the next fleet snapshot lists the
/// device as playing.
pub proof fn law_started_device_synced<N, S>(
    before: NodeManager<N, S>,
    after: NodeManager<N, S>,
    device_id: u128,
)
    requires
        before.wf(),
        after.wf(),
        before.devices().contains_key(device_id),
        after.devices() == devices_after_start(
            before.devices(),
            device_id,
            StartOutcomeView::Started,
        ),
    ensures
        exists|i: int|
            0 <= i < after.snapshot().len() && after.snapshot()[i] == (Device {
                id: device_id,
                device_num: before.devices()[device_id].device_num,
                state: DeviceState::Playing,
            }),
{
    before.lemma_wf_ids(device_id);
    after.lemma_snapshot();
    assert(after.devices().contains_key(device_id));
}

} // verus!
