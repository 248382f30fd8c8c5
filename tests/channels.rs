use turtle_relay::relay::Relay;

#[derive(Debug, Clone, PartialEq)]
enum Cmd {
    Draw(u32, u32),
    Clear,
    Print(String),
}

#[test]
fn events_empty_when_nothing_sent() {
    let (relay, _cmds, _evts) = Relay::<Cmd, u32>::construct();
    assert!(relay.events().is_empty());
}

#[test]
fn commands_arrive_in_order() {
    let (relay, cmds, _evts) = Relay::<Cmd, u32>::construct();
    let sent = vec![
        Cmd::Draw(0, 1),
        Cmd::Clear,
        Cmd::Print(String::from("hi")),
        Cmd::Draw(5, 6),
    ];
    for c in sent.clone() {
        assert!(relay.send(c).is_ok());
    }
    let got: Vec<Cmd> = cmds.try_iter().collect();
    assert_eq!(got, sent);
}

#[test]
fn events_arrive_in_order_and_are_drained() {
    let (relay, _cmds, evts) = Relay::<Cmd, u32>::construct();
    evts.send(3).unwrap();
    evts.send(1).unwrap();
    evts.send(2).unwrap();
    assert_eq!(relay.events(), vec![3, 1, 2]);
    assert!(relay.events().is_empty());
    evts.send(9).unwrap();
    assert_eq!(relay.events(), vec![9]);
}

#[test]
fn send_fails_after_backend_drops_receiver() {
    let (relay, cmds, _evts) = Relay::<Cmd, u32>::construct();
    drop(cmds);
    assert_eq!(relay.send(Cmd::Draw(0, 0)), Err(Cmd::Draw(0, 0)));
}

#[test]
fn events_empty_after_backend_drops_sender() {
    let (relay, _cmds, evts) = Relay::<Cmd, u32>::construct();
    evts.send(4).unwrap();
    drop(evts);
    assert_eq!(relay.events(), vec![4]);
    assert!(relay.events().is_empty());
}

#[test]
fn relay_from_own_channels() {
    let (cmd_tx, cmd_rx) = std::sync::mpsc::channel::<Cmd>();
    let (evt_tx, evt_rx) = std::sync::mpsc::channel::<u32>();
    let relay = Relay::new(cmd_tx, evt_rx);
    relay.send(Cmd::Clear).unwrap();
    evt_tx.send(8).unwrap();
    assert_eq!(cmd_rx.recv().unwrap(), Cmd::Clear);
    assert_eq!(relay.events(), vec![8]);
}
