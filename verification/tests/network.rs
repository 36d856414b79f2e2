use nes_core::network::{
    MessageFromNetworkThread, MessageToNetworkThread, MessageToSwarm, Network, NetworkThread,
    NodeRole, ThreadAction, ThreadInput,
};

type Buttons = u8;

#[test]
fn a_new_network_has_no_role() {
    let n: Network<Buttons> = Network::new();
    assert_eq!(n.role(), NodeRole::Unknown);
    assert_eq!(n.get_controller_id(), None);
    assert!(!n.is_server_running());
    assert!(n.get_addresses().is_empty());
}

#[test]
fn controllers_go_to_the_first_peer_that_asks() {
    let mut n: Network<Buttons> = Network::new();
    let r = n.process_message(MessageFromNetworkThread::RequestController(7, Some(2)));
    assert!(matches!(r, Some(MessageToNetworkThread::SetController(7, Some(2)))));
    // another peer asking for the same controller gets no answer
    let r = n.process_message(MessageFromNetworkThread::RequestController(8, Some(2)));
    assert!(r.is_none());
    // peer 7 takes a second controller
    let r = n.process_message(MessageFromNetworkThread::RequestController(7, Some(0)));
    assert!(matches!(r, Some(MessageToNetworkThread::SetController(7, Some(0)))));
    // giving up frees the first one it holds, controller 0
    let r = n.process_message(MessageFromNetworkThread::RequestController(7, None));
    assert!(matches!(r, Some(MessageToNetworkThread::SetController(7, None))));
    let r = n.process_message(MessageFromNetworkThread::RequestController(8, Some(0)));
    assert!(matches!(r, Some(MessageToNetworkThread::SetController(8, Some(0)))));
    let r = n.process_message(MessageFromNetworkThread::RequestController(8, Some(2)));
    assert!(r.is_none());
    // a peer without a controller that gives up gets no answer
    let r = n.process_message(MessageFromNetworkThread::RequestController(9, None));
    assert!(r.is_none());
}

#[test]
fn roles_follow_the_controller() {
    let mut n: Network<Buttons> = Network::new();
    assert!(n.process_message(MessageFromNetworkThread::NewRole(NodeRole::Observer)).is_none());
    n.process_message(MessageFromNetworkThread::SetController(Some(1)));
    assert_eq!(n.role(), NodeRole::Player);
    assert_eq!(n.get_controller_id(), Some(1));
    assert!(matches!(n.send_controller_data(1, 0x81), Some(MessageToNetworkThread::ControllerData(1, 0x81))));
    assert!(n.send_controller_data(0, 0x81).is_none());
    n.process_message(MessageFromNetworkThread::SetController(None));
    assert_eq!(n.role(), NodeRole::Observer);
    assert!(n.send_controller_data(1, 0x81).is_none());
}

#[test]
fn hosts_answer_role_requests() {
    let mut n: Network<Buttons> = Network::new();
    assert!(n.process_message(MessageFromNetworkThread::RequestRole(3, NodeRole::Player)).is_none());
    n.process_message(MessageFromNetworkThread::ServerStatus(true));
    assert_eq!(n.role(), NodeRole::PlayerHost);
    assert!(n.is_server_running());
    let r = n.process_message(MessageFromNetworkThread::RequestRole(3, NodeRole::Observer));
    assert!(matches!(r, Some(MessageToNetworkThread::SetUserRole(3, NodeRole::Observer))));
    let r = n.process_message(MessageFromNetworkThread::RequestRole(3, NodeRole::DedicatedHost));
    assert!(r.is_none());
}

#[test]
fn connecting_asks_to_observe() {
    let mut n: Network<Buttons> = Network::new();
    let r = n.process_message(MessageFromNetworkThread::ConnectedToHost);
    assert!(matches!(r, Some(MessageToNetworkThread::RequestObserverStatus)));
}

#[test]
fn addresses_are_kept_once_and_forgotten_when_the_server_stops() {
    let mut n: Network<Buttons> = Network::new();
    n.process_message(MessageFromNetworkThread::ServerStatus(true));
    n.process_message(MessageFromNetworkThread::NewAddress(vec![1, 2, 3]));
    n.process_message(MessageFromNetworkThread::NewAddress(vec![4]));
    n.process_message(MessageFromNetworkThread::NewAddress(vec![1, 2, 3]));
    assert_eq!(n.get_addresses(), &vec![vec![1, 2, 3], vec![4]]);
    n.process_message(MessageFromNetworkThread::ExpiredAddress(vec![1, 2, 3]));
    assert_eq!(n.get_addresses(), &vec![vec![4]]);
    n.process_message(MessageFromNetworkThread::ExpiredAddress(vec![9]));
    assert_eq!(n.get_addresses(), &vec![vec![4]]);
    n.process_message(MessageFromNetworkThread::ServerStatus(false));
    assert!(n.get_addresses().is_empty());
    assert_eq!(n.role(), NodeRole::Unknown);
}

#[test]
fn controller_data_is_recorded() {
    let mut n: Network<Buttons> = Network::new();
    assert_eq!(n.get_button_data_ref(3), None);
    n.process_message(MessageFromNetworkThread::ControllerData(3, 0x42));
    assert_eq!(n.get_button_data_ref(3), Some(0x42));
    assert_eq!(n.get_button_data_ref(2), None);
}

#[test]
fn messages_for_the_network_thread() {
    let n: Network<Buttons> = Network::new();
    assert!(matches!(n.request_controller(2), MessageToNetworkThread::RequestController(Some(2))));
    assert!(matches!(n.release_controller(), MessageToNetworkThread::RequestController(None)));
    assert!(matches!(n.start_server(), MessageToNetworkThread::StartServer));
    assert!(matches!(n.stop_server(), MessageToNetworkThread::StopServer));
    match n.try_connect(&"/ip4/127.0.0.1/tcp/5".to_string()) {
        MessageToNetworkThread::Connect(s) => assert_eq!(s, "/ip4/127.0.0.1/tcp/5"),
        _ => panic!("wrong message"),
    }
}

#[test]
fn the_network_thread_starts_and_stops_the_server() {
    let mut t = NetworkThread::new(11);
    let r = t.handle::<Buttons>(ThreadInput::FromEmulator(MessageToNetworkThread::StartServer));
    assert!(matches!(r.as_slice(), [ThreadAction::Listen]));
    let r = t.handle::<Buttons>(ThreadInput::ListenResult(true));
    assert!(matches!(
        r.as_slice(),
        [ThreadAction::ToEmulator(MessageFromNetworkThread::ServerStatus(true))]
    ));
    // a second start does nothing while listening
    let r = t.handle::<Buttons>(ThreadInput::FromEmulator(MessageToNetworkThread::StartServer));
    assert!(r.is_empty());
    let r = t.handle::<Buttons>(ThreadInput::NewListenAddr(vec![5, 6]));
    match r.as_slice() {
        [ThreadAction::ToEmulator(MessageFromNetworkThread::NewAddress(a))] => assert_eq!(a, &vec![5, 6]),
        _ => panic!("wrong actions"),
    }
    let r = t.handle::<Buttons>(ThreadInput::FromEmulator(MessageToNetworkThread::StopServer));
    assert!(matches!(
        r.as_slice(),
        [
            ThreadAction::RemoveListener,
            ThreadAction::ToEmulator(MessageFromNetworkThread::ServerStatus(false))
        ]
    ));
    let r = t.handle::<Buttons>(ThreadInput::FromEmulator(MessageToNetworkThread::StopServer));
    assert!(matches!(
        r.as_slice(),
        [ThreadAction::ToEmulator(MessageFromNetworkThread::ServerStatus(false))]
    ));
    // a failed attempt to listen reports the server as stopped
    let r = t.handle::<Buttons>(ThreadInput::FromEmulator(MessageToNetworkThread::StartServer));
    assert!(matches!(r.as_slice(), [ThreadAction::Listen]));
    let r = t.handle::<Buttons>(ThreadInput::ListenResult(false));
    assert!(matches!(
        r.as_slice(),
        [ThreadAction::ToEmulator(MessageFromNetworkThread::ServerStatus(false))]
    ));
}

#[test]
fn the_network_thread_forwards_requests_and_events() {
    let mut t = NetworkThread::new(11);
    let r = t.handle::<Buttons>(ThreadInput::FromEmulator(MessageToNetworkThread::RequestController(Some(1))));
    assert!(matches!(r.as_slice(), [ThreadAction::RequestController(11, Some(1))]));
    let r = t.handle::<Buttons>(ThreadInput::FromEmulator(MessageToNetworkThread::RequestObserverStatus));
    assert!(matches!(r.as_slice(), [ThreadAction::RequestObserverStatus(11)]));
    let r = t.handle::<Buttons>(ThreadInput::FromEmulator(MessageToNetworkThread::SetController(4, None)));
    assert!(matches!(r.as_slice(), [ThreadAction::SetController(4, None)]));
    let r = t.handle::<Buttons>(ThreadInput::FromEmulator(MessageToNetworkThread::Connect("x".to_string())));
    match r.as_slice() {
        [ThreadAction::Dial(s)] => assert_eq!(s, "x"),
        _ => panic!("wrong actions"),
    }
    let r = t.handle::<Buttons>(ThreadInput::Emulator(MessageToSwarm::SetRole(NodeRole::Observer)));
    assert!(matches!(
        r.as_slice(),
        [ThreadAction::ToEmulator(MessageFromNetworkThread::NewRole(NodeRole::Observer))]
    ));
    let r = t.handle::<Buttons>(ThreadInput::Emulator(MessageToSwarm::ControllerData(2, 9)));
    assert!(matches!(
        r.as_slice(),
        [ThreadAction::ToEmulator(MessageFromNetworkThread::ControllerData(2, 9))]
    ));
    let r = t.handle::<Buttons>(ThreadInput::GatewayNotFound);
    assert!(r.is_empty());
    let r = t.handle::<Buttons>(ThreadInput::ExpiredExternalAddr(vec![1]));
    assert_eq!(r.len(), 1);
}
