//! Network play: the state that the emulator keeps about the network, and how it answers the
//! messages of the network thread. The thread itself, which owns the sockets, runs outside
//! this library: it hands each message it receives to [`Network::process_message`] and sends
//! whatever message comes back.
use vstd::prelude::*;

verus! {

/// The two roles of an emulator in a network game: the host runs the emulator and streams
/// its video to the players; a player shows that stream and sends its controller input.
#[derive(PartialEq, Eq, Structural, Clone, Copy, Debug)]
pub enum Role {
    /// The host contains the actual emulator implementation.
    Host,
    /// A player receives the video of a host and sends controller data.
    Player,
}

/// The role that a node plays on the network.
#[derive(PartialEq, Eq, Structural, Clone, Copy, Debug)]
pub enum NodeRole {
    /// A host that runs the emulator without a local player.
    DedicatedHost,
    /// A host that runs the emulator and plays on it.
    PlayerHost,
    /// A remote node that holds a controller.
    Player,
    /// A remote node that only watches.
    Observer,
    /// No role yet.
    Unknown,
}

/// A message from the emulator to the network thread. Peers are named by a number that the
/// network thread assigns to each of them.
#[derive(Debug)]
pub enum MessageToNetworkThread<B> {
    /// The buttons of a controller.
    ControllerData(u8, B),
    /// Start listening for players.
    StartServer,
    /// Stop listening for players.
    StopServer,
    /// Connect to a host, given its address as text.
    Connect(String),
    /// Ask the host to be an observer.
    RequestObserverStatus,
    /// Give a peer a role.
    SetUserRole(u64, NodeRole),
    /// Ask for a controller, or give up the one held.
    RequestController(Option<u8>),
    /// Tell a peer which controller it holds.
    SetController(u64, Option<u8>),
}

/// A message from the network thread to the emulator. Addresses come as the bytes of their
/// binary form.
#[derive(Debug)]
pub enum MessageFromNetworkThread<B> {
    /// A piece of the video stream of the host.
    EmulatorVideoStream(Vec<u8>),
    /// The buttons of a controller.
    ControllerData(u8, B),
    /// A new address to listen on.
    NewAddress(Vec<u8>),
    /// An address that is no longer valid.
    ExpiredAddress(Vec<u8>),
    /// Whether the server is running.
    ServerStatus(bool),
    /// The connection to a host was made.
    ConnectedToHost,
    /// The role of this node changed.
    NewRole(NodeRole),
    /// A peer asks for a role.
    RequestRole(u64, NodeRole),
    /// A peer asks for a controller, or gives up the one it holds.
    RequestController(u64, Option<u8>),
    /// The host assigned this node a controller, or took it back.
    SetController(Option<u8>),
}

/// The network state of the emulator.
pub struct Network<B> {
    /// The addresses the server listens on, each once.
    addresses: Vec<Vec<u8>>,
    /// Whether the server is running.
    server_running: bool,
    /// The role of this node.
    role: NodeRole,
    /// The last buttons received for each of the four controllers.
    buttons: [Option<B>; 4],
    /// The controller this node holds.
    my_controller: Option<u8>,
    /// The peer that holds each of the four controllers.
    controller_holder: [Option<u64>; 4],
    /// Whether this node is connected to a host.
    connected: bool,
}

/// The abstract network state.
pub struct NetworkView<B> {
    pub addresses: Set<Seq<u8>>,
    pub server_running: bool,
    pub role: NodeRole,
    pub buttons: Seq<Option<B>>,
    pub my_controller: Option<u8>,
    pub controller_holder: Seq<Option<u64>>,
    pub connected: bool,
}

impl<B> View for Network<B> {
    type V = NetworkView<B>;

    closed spec fn view(&self) -> NetworkView<B> {
        NetworkView {
            addresses: Set::new(
                |a: Seq<u8>| exists|k: int| 0 <= k < self.addresses.len() && self.addresses@[k]@ == a,
            ),
            server_running: self.server_running,
            role: self.role,
            buttons: self.buttons@,
            my_controller: self.my_controller,
            controller_holder: self.controller_holder@,
            connected: self.connected,
        }
    }
}

/// The first of the four controllers that peer `p` holds, if any.
pub open spec fn first_held_by(h: Seq<Option<u64>>, p: u64) -> Option<int> {
    if h[0] == Some(p) {
        Some(0)
    } else if h[1] == Some(p) {
        Some(1)
    } else if h[2] == Some(p) {
        Some(2)
    } else if h[3] == Some(p) {
        Some(3)
    } else {
        None
    }
}

/// The messages that name a controller name one of the four.
pub open spec fn message_in_range<B>(m: MessageFromNetworkThread<B>) -> bool {
    match m {
        MessageFromNetworkThread::ControllerData(i, _) => i < 4,
        MessageFromNetworkThread::RequestController(_, Some(c)) => c < 4,
        _ => true,
    }
}

/// The network state after the emulator took in message `m`: a connection is recorded; a
/// free controller goes to the peer that asks for it, and a peer that gives up its
/// controller frees the first one it holds; an assigned controller makes an observer a player
/// and a taken controller makes a player an observer; new roles, controller data and
/// addresses are recorded; a server that stops forgets its addresses and its role, and one
/// that starts is a player host.
pub open spec fn next_view<B>(s: NetworkView<B>, m: MessageFromNetworkThread<B>) -> NetworkView<B> {
    match m {
        MessageFromNetworkThread::ConnectedToHost => NetworkView { connected: true, ..s },
        MessageFromNetworkThread::RequestController(p, Some(c)) => {
            if s.controller_holder[c as int] is None {
                NetworkView { controller_holder: s.controller_holder.update(c as int, Some(p)), ..s }
            } else {
                s
            }
        },
        MessageFromNetworkThread::RequestController(p, None) => {
            match first_held_by(s.controller_holder, p) {
                Some(i) => NetworkView { controller_holder: s.controller_holder.update(i, None), ..s },
                None => s,
            }
        },
        MessageFromNetworkThread::SetController(c) => {
            let role = if c is Some && s.role == NodeRole::Observer {
                NodeRole::Player
            } else if c is None && s.role == NodeRole::Player {
                NodeRole::Observer
            } else {
                s.role
            };
            NetworkView { role, my_controller: c, ..s }
        },
        MessageFromNetworkThread::RequestRole(_, _) => s,
        MessageFromNetworkThread::NewRole(r) => NetworkView { role: r, ..s },
        MessageFromNetworkThread::ControllerData(i, d) => NetworkView {
            buttons: s.buttons.update(i as int, Some(d)),
            ..s
        },
        MessageFromNetworkThread::EmulatorVideoStream(_) => s,
        MessageFromNetworkThread::NewAddress(a) => NetworkView {
            addresses: s.addresses.insert(a@),
            ..s
        },
        MessageFromNetworkThread::ExpiredAddress(a) => NetworkView {
            addresses: s.addresses.remove(a@),
            ..s
        },
        MessageFromNetworkThread::ServerStatus(b) => NetworkView {
            server_running: b,
            role: if b {
                NodeRole::PlayerHost
            } else {
                NodeRole::Unknown
            },
            addresses: if b {
                s.addresses
            } else {
                Set::empty()
            },
            ..s
        },
    }
}

/// The message the emulator sends back for message `m`: after a connection, a request to
/// observe; to a peer that gets or frees a controller, its new controller; to a peer that asks
/// a host for the role of player or observer, that role.
pub open spec fn reply<B>(s: NetworkView<B>, m: MessageFromNetworkThread<B>) -> Option<
    MessageToNetworkThread<B>,
> {
    match m {
        MessageFromNetworkThread::ConnectedToHost => Some(
            MessageToNetworkThread::RequestObserverStatus,
        ),
        MessageFromNetworkThread::RequestController(p, Some(c)) => {
            if s.controller_holder[c as int] is None {
                Some(MessageToNetworkThread::SetController(p, Some(c)))
            } else {
                None
            }
        },
        MessageFromNetworkThread::RequestController(p, None) => {
            if first_held_by(s.controller_holder, p) is Some {
                Some(MessageToNetworkThread::SetController(p, None))
            } else {
                None
            }
        },
        MessageFromNetworkThread::RequestRole(p, r) => {
            if (s.role == NodeRole::DedicatedHost || s.role == NodeRole::PlayerHost) && (r
                == NodeRole::Player || r == NodeRole::Observer) {
                Some(MessageToNetworkThread::SetUserRole(p, r))
            } else {
                None
            }
        },
        _ => None,
    }
}

/// Whether two byte strings are equal.
fn same_bytes(a: &Vec<u8>, b: &Vec<u8>) -> (r: bool)
    ensures
        r == (a@ == b@),
{
    if a.len() != b.len() {
        return false;
    }
    let mut k: usize = 0;
    while k < a.len()
        invariant
            a.len() == b.len(),
            k <= a.len(),
            forall|j: int| 0 <= j < k ==> a@[j] == b@[j],
        decreases a.len() - k,
    {
        if a[k] != b[k] {
            return false;
        }
        k += 1;
    }
    assert(a@ =~= b@);
    true
}

impl<B> Network<B> {
    /// The addresses are held once each.
    pub closed spec fn wf(&self) -> bool {
        forall|i: int, j: int|
            0 <= i < j < self.addresses.len() ==> self.addresses@[i]@ != self.addresses@[j]@
    }

    /// The network keeps the buttons and the holder of each of the four controllers.
    pub proof fn lemma_four_controllers(&self)
        ensures
            self@.buttons.len() == 4,
            self@.controller_holder.len() == 4,
    {
    }

    /// Create the network state of an emulator that is neither serving nor connected.
    pub fn new() -> (r: Self)
        ensures
            r.wf(),
            r@.addresses == Set::<Seq<u8>>::empty(),
            !r@.server_running,
            r@.role == NodeRole::Unknown,
            r@.buttons == seq![None::<B>, None, None, None],
            r@.my_controller is None,
            r@.controller_holder == seq![None::<u64>, None, None, None],
            !r@.connected,
    {
        let r = Network {
            addresses: Vec::new(),
            server_running: false,
            role: NodeRole::Unknown,
            buttons: [None, None, None, None],
            my_controller: None,
            controller_holder: [None, None, None, None],
            connected: false,
        };
        assert(r@.addresses =~= Set::<Seq<u8>>::empty());
        assert(r@.buttons =~= seq![None::<B>, None, None, None]);
        assert(r@.controller_holder =~= seq![None::<u64>, None, None, None]);
        r
    }

    /// The addresses the server listens on, each once.
    pub fn get_addresses(&self) -> (r: &Vec<Vec<u8>>)
        requires
            self.wf(),
        ensures
            forall|a: Seq<u8>| self@.addresses.contains(a) <==> exists|k: int| 0 <= k < r.len() && r@[k]@ == a,
            forall|i: int, j: int| 0 <= i < j < r.len() ==> r@[i]@ != r@[j]@,
    {
        &self.addresses
    }

    /// The last buttons received for controller `i`.
    pub fn get_button_data_ref(&mut self, i: u8) -> (r: Option<B>)
        where
            B: Clone,
        requires
            i < 4,
        ensures
            *final(self) == *old(self),
            r is Some <==> old(self)@.buttons[i as int] is Some,
            r is Some ==> cloned::<B>(old(self)@.buttons[i as int].unwrap(), r.unwrap()),
    {
        self.buttons[i as usize].clone()
    }

    /// The position of an address in the list, if it is there.
    fn find_address(&self, a: &Vec<u8>) -> (r: Option<usize>)
        ensures
            r matches Some(k) ==> k < self.addresses.len() && self.addresses@[k as int]@ == a@,
            r is None ==> forall|k: int| 0 <= k < self.addresses.len() ==> self.addresses@[k]@ != a@,
    {
        let mut k: usize = 0;
        while k < self.addresses.len()
            invariant
                k <= self.addresses.len(),
                forall|j: int| 0 <= j < k ==> self.addresses@[j]@ != a@,
            decreases self.addresses.len() - k,
        {
            if same_bytes(&self.addresses[k], a) {
                return Some(k);
            }
            k += 1;
        }
        None
    }

    /// Handle one message from the network thread, and return the message to send back, if
    /// any.
    #[verifier::loop_isolation(false)]
    pub fn process_message(&mut self, m: MessageFromNetworkThread<B>) -> (r: Option<
        MessageToNetworkThread<B>,
    >)
        requires
            old(self).wf(),
            message_in_range(m),
        ensures
            final(self).wf(),
            final(self)@ == next_view(old(self)@, m),
            r == reply(old(self)@, m),
    {
        let ghost s = self@;
        match m {
            MessageFromNetworkThread::ConnectedToHost => {
                self.connected = true;
                proof {
                    assert(self@.addresses =~= s.addresses);
                }
                Some(MessageToNetworkThread::RequestObserverStatus)
            },
            MessageFromNetworkThread::RequestController(p, c) => {
                if let Some(c) = c {
                    if self.controller_holder[c as usize].is_none() {
                        self.controller_holder[c as usize] = Some(p);
                        proof {
                            assert(self@.addresses =~= s.addresses);
                        }
                        Some(MessageToNetworkThread::SetController(p, Some(c)))
                    } else {
                        None
                    }
                } else {
                    let mut i: usize = 0;
                    while i < 4
                        invariant
                            i <= 4,
                            *self == *old(self),
                            s == self@,
                            forall|j: int| 0 <= j < i ==> self.controller_holder@[j] != Some(p),
                        decreases 4 - i,
                    {
                        if self.controller_holder[i] == Some(p) {
                            self.controller_holder[i] = None;
                            proof {
                                assert(self@.addresses =~= s.addresses);
                                assert(first_held_by(s.controller_holder, p) == Some(i as int));
                            }
                            return Some(MessageToNetworkThread::SetController(p, None));
                        }
                        i += 1;
                    }
                    None
                }
            },
            MessageFromNetworkThread::SetController(c) => {
                if c.is_some() && self.role == NodeRole::Observer {
                    self.role = NodeRole::Player;
                } else if c.is_none() && self.role == NodeRole::Player {
                    self.role = NodeRole::Observer;
                }
                self.my_controller = c;
                proof {
                    assert(self@.addresses =~= s.addresses);
                }
                None
            },
            MessageFromNetworkThread::RequestRole(p, r) => {
                if (self.role == NodeRole::DedicatedHost || self.role == NodeRole::PlayerHost) && (r
                    == NodeRole::Player || r == NodeRole::Observer) {
                    Some(MessageToNetworkThread::SetUserRole(p, r))
                } else {
                    None
                }
            },
            MessageFromNetworkThread::NewRole(r) => {
                self.role = r;
                proof {
                    assert(self@.addresses =~= s.addresses);
                }
                None
            },
            MessageFromNetworkThread::ControllerData(i, d) => {
                self.buttons[i as usize] = Some(d);
                proof {
                    assert(self@.addresses =~= s.addresses);
                }
                None
            },
            MessageFromNetworkThread::EmulatorVideoStream(_) => None,
            MessageFromNetworkThread::NewAddress(a) => {
                if self.find_address(&a).is_none() {
                    let ghost av = a@;
                    let ghost old_addrs = self.addresses@;
                    self.addresses.push(a);
                    proof {
                        let n = old_addrs.len() as int;
                        assert(self.addresses@[n]@ == av);
                        assert forall|x: Seq<u8>| self@.addresses.contains(x) <==> s.addresses.insert(
                            av,
                        ).contains(x) by {
                            if self@.addresses.contains(x) && x != av {
                                let j = choose|j: int|
                                    0 <= j < self.addresses.len() && self.addresses@[j]@ == x;
                                assert(j != n);
                                assert(old_addrs[j]@ == x);
                            }
                            if s.addresses.contains(x) {
                                let j = choose|j: int| 0 <= j < old_addrs.len() && old_addrs[j]@ == x;
                                assert(self.addresses@[j]@ == x);
                            }
                        }
                        assert(self@.addresses =~= s.addresses.insert(av));
                    }
                } else {
                    proof {
                        assert(self@.addresses =~= s.addresses.insert(a@));
                    }
                }
                None
            },
            MessageFromNetworkThread::ExpiredAddress(a) => {
                if let Some(k) = self.find_address(&a) {
                    let ghost old_addrs = self.addresses@;
                    self.addresses.remove(k);
                    proof {
                        assert forall|x: Seq<u8>| self@.addresses.contains(x) <==> s.addresses.remove(
                            a@,
                        ).contains(x) by {
                            if self@.addresses.contains(x) {
                                let j = choose|j: int|
                                    0 <= j < self.addresses.len() && self.addresses@[j]@ == x;
                                if j < k {
                                    assert(old_addrs[j]@ == x);
                                } else {
                                    assert(old_addrs[j + 1]@ == x);
                                }
                            }
                            if s.addresses.remove(a@).contains(x) {
                                let j = choose|j: int| 0 <= j < old_addrs.len() && old_addrs[j]@ == x;
                                assert(j != k);
                                if j < k {
                                    assert(self.addresses@[j]@ == x);
                                } else {
                                    assert(self.addresses@[j - 1]@ == x);
                                }
                            }
                        }
                        assert(self@.addresses =~= s.addresses.remove(a@));
                    }
                } else {
                    proof {
                        assert(self@.addresses =~= s.addresses.remove(a@));
                    }
                }
                None
            },
            MessageFromNetworkThread::ServerStatus(b) => {
                self.server_running = b;
                if b {
                    self.role = NodeRole::PlayerHost;
                } else {
                    self.role = NodeRole::Unknown;
                }
                if !b {
                    self.addresses.clear();
                }
                proof {
                    if b {
                        assert(self@.addresses =~= s.addresses);
                    } else {
                        assert(self@.addresses =~= Set::<Seq<u8>>::empty());
                    }
                }
                None
            },
        }
    }

    /// The role of this node.
    pub fn role(&self) -> (r: NodeRole)
        ensures
            r == self@.role,
    {
        self.role
    }

    /// The controller this node holds.
    pub fn get_controller_id(&self) -> (r: Option<u8>)
        ensures
            r == self@.my_controller,
    {
        self.my_controller
    }

    /// Whether the server is running.
    pub fn is_server_running(&self) -> (r: bool)
        ensures
            r == self@.server_running,
    {
        self.server_running
    }

    /// The message that asks for controller `i`.
    pub fn request_controller(&self, i: u8) -> (r: MessageToNetworkThread<B>)
        ensures
            r == MessageToNetworkThread::<B>::RequestController(Some(i)),
    {
        MessageToNetworkThread::RequestController(Some(i))
    }

    /// The message that gives up the controller this node holds.
    pub fn release_controller(&self) -> (r: MessageToNetworkThread<B>)
        ensures
            r == MessageToNetworkThread::<B>::RequestController(None),
    {
        MessageToNetworkThread::RequestController(None)
    }

    /// The message that starts the server.
    pub fn start_server(&self) -> (r: MessageToNetworkThread<B>)
        ensures
            r == MessageToNetworkThread::<B>::StartServer,
    {
        MessageToNetworkThread::StartServer
    }

    /// The message that stops the server.
    pub fn stop_server(&self) -> (r: MessageToNetworkThread<B>)
        ensures
            r == MessageToNetworkThread::<B>::StopServer,
    {
        MessageToNetworkThread::StopServer
    }

    /// The message that connects to the host at address `cs`.
    pub fn try_connect(&self, cs: &String) -> (r: MessageToNetworkThread<B>)
        ensures
            r matches MessageToNetworkThread::Connect(s) && s@ == cs@,
    {
        MessageToNetworkThread::Connect(cs.clone())
    }

    /// The message that sends the buttons of controller `i`, when this node holds it.
    pub fn send_controller_data(&self, i: u8, data: B) -> (r: Option<MessageToNetworkThread<B>>)
        ensures
            self@.my_controller == Some(i) ==> r == Some(MessageToNetworkThread::ControllerData(i, data)),
            self@.my_controller != Some(i) ==> r is None,
    {
        if let Some(id) = self.my_controller {
            if id == i {
                return Some(MessageToNetworkThread::ControllerData(i, data));
            }
        }
        None
    }
}

/// A controller is held by one peer at a time: a request for a controller that another peer
/// holds changes nothing and is not answered, and a peer that gives up its controller frees
/// only the first one it holds.
pub proof fn law_controller_exclusive<B>(s: NetworkView<B>, p: u64, c: u8)
    requires
        c < 4,
        s.controller_holder.len() == 4,
        s.controller_holder[c as int] is Some,
    ensures
        next_view(s, MessageFromNetworkThread::RequestController(p, Some(c))) == s,
        reply(s, MessageFromNetworkThread::<B>::RequestController(p, Some(c))) is None,
        ({
            let t = next_view(s, MessageFromNetworkThread::<B>::RequestController(p, None));
            forall|k: int|
                0 <= k < 4 && Some(k) != first_held_by(s.controller_holder, p)
                    ==> #[trigger] t.controller_holder[k] == s.controller_holder[k]
        }),
{
}

/// Taking a free controller and giving it up again leaves the controllers as they were, and
/// each step is answered with the peer's new controller.
pub proof fn law_controller_round_trip<B>(s: NetworkView<B>, p: u64, c: u8)
    requires
        c < 4,
        s.controller_holder.len() == 4,
        s.controller_holder[c as int] is None,
        first_held_by(s.controller_holder, p) is None,
    ensures
        ({
            let t = next_view(s, MessageFromNetworkThread::<B>::RequestController(p, Some(c)));
            &&& reply(s, MessageFromNetworkThread::<B>::RequestController(p, Some(c))) == Some(
                MessageToNetworkThread::<B>::SetController(p, Some(c)),
            )
            &&& reply(t, MessageFromNetworkThread::<B>::RequestController(p, None)) == Some(
                MessageToNetworkThread::<B>::SetController(p, None),
            )
            &&& next_view(t, MessageFromNetworkThread::<B>::RequestController(p, None)) == s
        }),
{
    let t = next_view(s, MessageFromNetworkThread::<B>::RequestController(p, Some(c)));
    assert(first_held_by(t.controller_holder, p) == Some(c as int));
    assert(t.controller_holder.update(c as int, None) =~= s.controller_holder);
}


/// An event of the network behaviour of the emulator protocol.
#[derive(Debug)]
pub enum MessageToSwarm<B> {
    /// Controller data from a user.
    ControllerData(u8, B),
    /// A role request from a user.
    RequestRole(u64, NodeRole),
    /// A command from a host that sets the role of a user.
    SetRole(NodeRole),
    /// A request from a user for a controller, or to be an observer.
    RequestController(u64, Option<u8>),
    /// A command from a host that sets the controller of a user.
    SetController(Option<u8>),
    /// The node is connected to a host.
    ConnectedToHost,
    /// A stream of audio and video data from a host.
    AvStream(Vec<u8>),
}

/// What the network thread learns: a message of the emulator, an event of the swarm, or the
/// outcome of an attempt to listen.
#[derive(Debug)]
pub enum ThreadInput<B> {
    /// A message from the emulator.
    FromEmulator(MessageToNetworkThread<B>),
    /// The swarm listens on a new address.
    NewListenAddr(Vec<u8>),
    /// The gateway gave a new external address.
    NewExternalAddr(Vec<u8>),
    /// An external address expired.
    ExpiredExternalAddr(Vec<u8>),
    /// The gateway does not support port mapping.
    GatewayNotFound,
    /// The gateway is not exposed to the internet.
    NonRoutableGateway,
    /// An event of the emulator protocol.
    Emulator(MessageToSwarm<B>),
    /// Whether the attempt to listen asked for by [`ThreadAction::Listen`] succeeded.
    ListenResult(bool),
    /// Any other event of the swarm.
    Other,
}

/// What the network thread does in answer.
#[derive(Debug)]
pub enum ThreadAction<B> {
    /// Send a message to the emulator, and wake its window up to read it.
    ToEmulator(MessageFromNetworkThread<B>),
    /// Tell the emulator protocol that a peer holds a controller.
    SetController(u64, Option<u8>),
    /// Ask the host, on behalf of this node, for a controller.
    RequestController(u64, Option<u8>),
    /// Tell the emulator protocol the role of a peer.
    SetUserRole(u64, NodeRole),
    /// Ask the host, on behalf of this node, to be an observer.
    RequestObserverStatus(u64),
    /// Send controller data over the emulator protocol.
    SendControllerData(u8, B),
    /// Dial the address given as text.
    Dial(String),
    /// Start listening on all interfaces; the outcome comes back as a
    /// [`ThreadInput::ListenResult`].
    Listen,
    /// Stop listening.
    RemoveListener,
}

/// The state of the network thread.
pub struct NetworkThread {
    /// The peer number of this node.
    my_id: u64,
    /// Whether the swarm listens for players.
    listening: bool,
    /// The addresses the swarm listens on, each once.
    addresses: Vec<Vec<u8>>,
}

/// The abstract state of the network thread.
pub struct NetworkThreadView {
    pub my_id: u64,
    pub listening: bool,
    pub addresses: Set<Seq<u8>>,
}

impl View for NetworkThread {
    type V = NetworkThreadView;

    closed spec fn view(&self) -> NetworkThreadView {
        NetworkThreadView {
            my_id: self.my_id,
            listening: self.listening,
            addresses: Set::new(
                |a: Seq<u8>| exists|k: int| 0 <= k < self.addresses.len() && self.addresses@[k]@ == a,
            ),
        }
    }
}

/// The state of the network thread after input `i`: listening starts when an attempt
/// succeeds and ends when the emulator stops the server, which forgets all addresses; new
/// addresses are added and expired ones removed.
pub open spec fn thread_next<B>(s: NetworkThreadView, i: ThreadInput<B>) -> NetworkThreadView {
    match i {
        ThreadInput::FromEmulator(MessageToNetworkThread::StopServer) => NetworkThreadView {
            listening: false,
            addresses: Set::empty(),
            ..s
        },
        ThreadInput::ListenResult(ok) => NetworkThreadView { listening: s.listening || ok, ..s },
        ThreadInput::NewListenAddr(a) => NetworkThreadView { addresses: s.addresses.insert(a@), ..s },
        ThreadInput::NewExternalAddr(a) => NetworkThreadView {
            addresses: s.addresses.insert(a@),
            ..s
        },
        ThreadInput::ExpiredExternalAddr(a) => NetworkThreadView {
            addresses: s.addresses.remove(a@),
            ..s
        },
        _ => s,
    }
}

/// The actions of the network thread for input `i`. Requests of the emulator go to the
/// emulator protocol on behalf of this node or of the peer they name, a connection request
/// dials its address, a request to start a server listens unless the thread listens already,
/// and a request to stop one stops listening if it did and reports the server stopped. The
/// outcome of an attempt to listen, new and expired addresses, and the events of the
/// emulator protocol are reported to the emulator.
pub open spec fn thread_actions<B>(s: NetworkThreadView, i: ThreadInput<B>, r: Seq<ThreadAction<B>>) -> bool {
    match i {
        ThreadInput::FromEmulator(m) => match m {
            MessageToNetworkThread::SetController(p, c) => r =~= seq![ThreadAction::<B>::SetController(p, c)],
            MessageToNetworkThread::RequestController(c) => r =~= seq![
                ThreadAction::<B>::RequestController(s.my_id, c),
            ],
            MessageToNetworkThread::SetUserRole(p, role) => r =~= seq![
                ThreadAction::<B>::SetUserRole(p, role),
            ],
            MessageToNetworkThread::RequestObserverStatus => r =~= seq![
                ThreadAction::<B>::RequestObserverStatus(s.my_id),
            ],
            MessageToNetworkThread::Connect(cs) => r.len() == 1 && (r[0] matches ThreadAction::Dial(d)
                && d@ == cs@),
            MessageToNetworkThread::ControllerData(k, b) => r =~= seq![
                ThreadAction::SendControllerData(k, b),
            ],
            MessageToNetworkThread::StopServer => if s.listening {
                r =~= seq![
                    ThreadAction::<B>::RemoveListener,
                    ThreadAction::ToEmulator(MessageFromNetworkThread::ServerStatus(false)),
                ]
            } else {
                r =~= seq![ThreadAction::<B>::ToEmulator(MessageFromNetworkThread::ServerStatus(false))]
            },
            MessageToNetworkThread::StartServer => if s.listening {
                r =~= Seq::<ThreadAction<B>>::empty()
            } else {
                r =~= seq![ThreadAction::<B>::Listen]
            },
        },
        ThreadInput::ListenResult(ok) => r =~= seq![
            ThreadAction::<B>::ToEmulator(MessageFromNetworkThread::ServerStatus(s.listening || ok)),
        ],
        ThreadInput::NewListenAddr(a) => r.len() == 1 && (r[0] matches ThreadAction::ToEmulator(
            MessageFromNetworkThread::NewAddress(b),
        ) && b@ == a@),
        ThreadInput::NewExternalAddr(a) => r.len() == 1 && (r[0] matches ThreadAction::ToEmulator(
            MessageFromNetworkThread::NewAddress(b),
        ) && b@ == a@),
        ThreadInput::ExpiredExternalAddr(a) => r.len() == 1 && (r[0] matches ThreadAction::ToEmulator(
            MessageFromNetworkThread::ExpiredAddress(b),
        ) && b@ == a@),
        ThreadInput::Emulator(e) => match e {
            MessageToSwarm::ConnectedToHost => r =~= seq![
                ThreadAction::<B>::ToEmulator(MessageFromNetworkThread::ConnectedToHost),
            ],
            MessageToSwarm::RequestController(p, c) => r =~= seq![
                ThreadAction::<B>::ToEmulator(MessageFromNetworkThread::RequestController(p, c)),
            ],
            MessageToSwarm::SetController(c) => r =~= seq![
                ThreadAction::<B>::ToEmulator(MessageFromNetworkThread::SetController(c)),
            ],
            MessageToSwarm::SetRole(role) => r =~= seq![
                ThreadAction::<B>::ToEmulator(MessageFromNetworkThread::NewRole(role)),
            ],
            MessageToSwarm::RequestRole(p, role) => r =~= seq![
                ThreadAction::<B>::ToEmulator(MessageFromNetworkThread::RequestRole(p, role)),
            ],
            MessageToSwarm::ControllerData(k, b) => r =~= seq![
                ThreadAction::ToEmulator(MessageFromNetworkThread::ControllerData(k, b)),
            ],
            MessageToSwarm::AvStream(_) => r =~= Seq::<ThreadAction<B>>::empty(),
        },
        _ => r =~= Seq::<ThreadAction<B>>::empty(),
    }
}

impl NetworkThread {
    /// The addresses are held once each.
    pub closed spec fn wf(&self) -> bool {
        forall|i: int, j: int|
            0 <= i < j < self.addresses.len() ==> self.addresses@[i]@ != self.addresses@[j]@
    }

    /// The state of a network thread that does not listen yet, for the node numbered `my_id`.
    pub fn new(my_id: u64) -> (r: Self)
        ensures
            r.wf(),
            r@.my_id == my_id,
            !r@.listening,
            r@.addresses == Set::<Seq<u8>>::empty(),
    {
        let r = NetworkThread { my_id, listening: false, addresses: Vec::new() };
        assert(r@.addresses =~= Set::<Seq<u8>>::empty());
        r
    }

    /// The position of an address in the list, if it is there.
    fn find_address(&self, a: &Vec<u8>) -> (r: Option<usize>)
        ensures
            r matches Some(k) ==> k < self.addresses.len() && self.addresses@[k as int]@ == a@,
            r is None ==> forall|k: int| 0 <= k < self.addresses.len() ==> self.addresses@[k]@ != a@,
    {
        let mut k: usize = 0;
        while k < self.addresses.len()
            invariant
                k <= self.addresses.len(),
                forall|j: int| 0 <= j < k ==> self.addresses@[j]@ != a@,
            decreases self.addresses.len() - k,
        {
            if same_bytes(&self.addresses[k], a) {
                return Some(k);
            }
            k += 1;
        }
        None
    }

    /// Add an address, unless it is there already.
    fn add_address(&mut self, a: Vec<u8>)
        requires
            old(self).wf(),
        ensures
            final(self).wf(),
            final(self)@ == (NetworkThreadView { addresses: old(self)@.addresses.insert(a@), ..old(self)@ }),
    {
        let ghost s = self@;
        let ghost av = a@;
        if self.find_address(&a).is_none() {
            let ghost old_addrs = self.addresses@;
            self.addresses.push(a);
            proof {
                let n = old_addrs.len() as int;
                assert(self.addresses@[n]@ == av);
                assert forall|x: Seq<u8>| self@.addresses.contains(x) <==> s.addresses.insert(
                    av,
                ).contains(x) by {
                    if self@.addresses.contains(x) && x != av {
                        let j = choose|j: int|
                            0 <= j < self.addresses.len() && self.addresses@[j]@ == x;
                        assert(j != n);
                        assert(old_addrs[j]@ == x);
                    }
                    if s.addresses.contains(x) {
                        let j = choose|j: int| 0 <= j < old_addrs.len() && old_addrs[j]@ == x;
                        assert(self.addresses@[j]@ == x);
                    }
                }
            }
        }
        assert(self@.addresses =~= s.addresses.insert(av));
    }

    /// Remove an address, if it is there.
    fn drop_address(&mut self, a: &Vec<u8>)
        requires
            old(self).wf(),
        ensures
            final(self).wf(),
            final(self)@ == (NetworkThreadView { addresses: old(self)@.addresses.remove(a@), ..old(self)@ }),
    {
        let ghost s = self@;
        if let Some(k) = self.find_address(a) {
            let ghost old_addrs = self.addresses@;
            self.addresses.remove(k);
            proof {
                assert forall|x: Seq<u8>| self@.addresses.contains(x) <==> s.addresses.remove(
                    a@,
                ).contains(x) by {
                    if self@.addresses.contains(x) {
                        let j = choose|j: int|
                            0 <= j < self.addresses.len() && self.addresses@[j]@ == x;
                        if j < k {
                            assert(old_addrs[j]@ == x);
                        } else {
                            assert(old_addrs[j + 1]@ == x);
                        }
                    }
                    if s.addresses.remove(a@).contains(x) {
                        let j = choose|j: int| 0 <= j < old_addrs.len() && old_addrs[j]@ == x;
                        assert(j != k);
                        if j < k {
                            assert(self.addresses@[j]@ == x);
                        } else {
                            assert(self.addresses@[j - 1]@ == x);
                        }
                    }
                }
            }
        }
        assert(self@.addresses =~= s.addresses.remove(a@));
    }

    /// Handle one input of the network thread, and return what the thread has to do.
    pub fn handle<B>(&mut self, i: ThreadInput<B>) -> (r: Vec<ThreadAction<B>>)
        requires
            old(self).wf(),
        ensures
            final(self).wf(),
            final(self)@ == thread_next(old(self)@, i),
            thread_actions(old(self)@, i, r@),
    {
        let ghost s = self@;
        let mut r: Vec<ThreadAction<B>> = Vec::new();
        match i {
            ThreadInput::FromEmulator(m) => match m {
                MessageToNetworkThread::SetController(p, c) => {
                    r = vec![ThreadAction::SetController(p, c)];
                },
                MessageToNetworkThread::RequestController(c) => {
                    r = vec![ThreadAction::RequestController(self.my_id, c)];
                },
                MessageToNetworkThread::SetUserRole(p, role) => {
                    r = vec![ThreadAction::SetUserRole(p, role)];
                },
                MessageToNetworkThread::RequestObserverStatus => {
                    r = vec![ThreadAction::RequestObserverStatus(self.my_id)];
                },
                MessageToNetworkThread::Connect(cs) => {
                    r = vec![ThreadAction::Dial(cs)];
                },
                MessageToNetworkThread::ControllerData(k, b) => {
                    r = vec![ThreadAction::SendControllerData(k, b)];
                },
                MessageToNetworkThread::StopServer => {
                    if self.listening {
                        r = vec![
                            ThreadAction::RemoveListener,
                            ThreadAction::ToEmulator(MessageFromNetworkThread::ServerStatus(false)),
                        ];
                    } else {
                        r = vec![ThreadAction::ToEmulator(MessageFromNetworkThread::ServerStatus(false))];
                    }
                    self.listening = false;
                    self.addresses.clear();
                    assert(self@.addresses =~= Set::<Seq<u8>>::empty());
                },
                MessageToNetworkThread::StartServer => {
                    if !self.listening {
                        r = vec![ThreadAction::Listen];
                    }
                },
            },
            ThreadInput::ListenResult(ok) => {
                if ok {
                    self.listening = true;
                }
                r = vec![ThreadAction::ToEmulator(MessageFromNetworkThread::ServerStatus(self.listening))];
                assert(self@.addresses =~= s.addresses);
            },
            ThreadInput::NewListenAddr(a) => {
                r = vec![ThreadAction::ToEmulator(MessageFromNetworkThread::NewAddress(a.clone()))];
                self.add_address(a);
            },
            ThreadInput::NewExternalAddr(a) => {
                r = vec![ThreadAction::ToEmulator(MessageFromNetworkThread::NewAddress(a.clone()))];
                self.add_address(a);
            },
            ThreadInput::ExpiredExternalAddr(a) => {
                self.drop_address(&a);
                r = vec![ThreadAction::ToEmulator(MessageFromNetworkThread::ExpiredAddress(a))];
            },
            ThreadInput::Emulator(e) => match e {
                MessageToSwarm::ConnectedToHost => {
                    r = vec![ThreadAction::ToEmulator(MessageFromNetworkThread::ConnectedToHost)];
                },
                MessageToSwarm::RequestController(p, c) => {
                    r = vec![ThreadAction::ToEmulator(MessageFromNetworkThread::RequestController(p, c))];
                },
                MessageToSwarm::SetController(c) => {
                    r = vec![ThreadAction::ToEmulator(MessageFromNetworkThread::SetController(c))];
                },
                MessageToSwarm::SetRole(role) => {
                    r = vec![ThreadAction::ToEmulator(MessageFromNetworkThread::NewRole(role))];
                },
                MessageToSwarm::RequestRole(p, role) => {
                    r = vec![ThreadAction::ToEmulator(MessageFromNetworkThread::RequestRole(p, role))];
                },
                MessageToSwarm::ControllerData(k, b) => {
                    r = vec![ThreadAction::ToEmulator(MessageFromNetworkThread::ControllerData(k, b))];
                },
                MessageToSwarm::AvStream(_) => {},
            },
            _ => {},
        }
        r
    }
}

/// A host (dedicated or playing) grants every request for the player or the observer role,
/// answering it with that role for the peer that asked; a node that is not a host answers no
/// role request.
pub proof fn law_host_grants_roles<B>(s: NetworkView<B>, p: u64, r: NodeRole)
    ensures
        (s.role == NodeRole::DedicatedHost || s.role == NodeRole::PlayerHost) && (r == NodeRole::Player
            || r == NodeRole::Observer) ==> reply(s, MessageFromNetworkThread::RequestRole(p, r))
            == Some(MessageToNetworkThread::<B>::SetUserRole(p, r)),
        !(s.role == NodeRole::DedicatedHost || s.role == NodeRole::PlayerHost) ==> reply(
            s,
            MessageFromNetworkThread::RequestRole(p, r),
        ) is None,
{
}

} // verus!
