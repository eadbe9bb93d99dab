use tcp_console::{
    encode_envelope, AcceptAction, AcceptEvent, Action, Builder, ConsoleState, Error, Event, Outcome, Phase,
};

const LOGGER: u64 = 0;
const STATUS: u64 = 1;

/// Stand-in handlers, by name: what each answers to free text.
fn weak_answer(name: &str, text: &str) -> Outcome<String> {
    match name {
        "status" if text == "status" => Outcome::Reply("Operational".to_string()),
        "broken" => Outcome::Failed,
        _ => Outcome::NoReply,
    }
}

fn console(names: &[(u64, &'static str)]) -> ConsoleState<&'static str, u16> {
    let mut b = Builder::new().bind_address(3838u16).welcome("Welcome to TCP console!");
    for (id, name) in names {
        b = b.subscribe(*id, *name).unwrap();
    }
    b.build().unwrap()
}

/// Runs a session from `phase` on `event`, answering handler calls, until it
/// waits for a frame again or closes. Returns what was sent and what typed
/// payloads the handlers received.
fn run(
    c: &ConsoleState<&'static str, u16>,
    phase: Phase,
    event: Event,
) -> (Phase, Vec<Vec<u8>>, Vec<Vec<u8>>) {
    let mut sent = Vec::new();
    let mut received = Vec::new();
    let (mut phase, mut action) = c.step(phase, event);
    loop {
        match action {
            Action::SendText(t) => {
                sent.push(t.into_bytes());
                return (phase, sent, received);
            }
            Action::SendBytes(b) => {
                sent.push(b);
                return (phase, sent, received);
            }
            Action::Read | Action::Close => return (phase, sent, received),
            Action::Handle { payload, .. } => {
                received.push(payload);
                let r = c.step(phase, Event::Handled(Outcome::NoReply));
                phase = r.0;
                action = r.1;
            }
            Action::WeakHandle { index, text } => {
                let out = weak_answer(c.subscription(index), &text);
                let r = c.step(phase, Event::WeakHandled(out));
                phase = r.0;
                action = r.1;
            }
        }
    }
}

#[test]
fn duplicate_service_id_is_refused() {
    let b: Builder<&str, u16> = Builder::new().subscribe(7, "a").unwrap();
    match b.subscribe(7, "b") {
        Err(Error::ServiceIdUsed(id)) => assert_eq!(id, "7"),
        _ => panic!("expected ServiceIdUsed"),
    }
}

#[test]
fn duplicate_service_id_is_refused_in_any_order() {
    let b: Builder<&str, u16> = Builder::new().subscribe(2, "a").unwrap().subscribe(1, "b").unwrap();
    assert!(matches!(b.subscribe(2, "c"), Err(Error::ServiceIdUsed(_))));
    let b: Builder<&str, u16> = Builder::new().subscribe(1, "b").unwrap().subscribe(2, "a").unwrap();
    assert!(matches!(b.subscribe(1, "c"), Err(Error::ServiceIdUsed(_))));
}

#[test]
fn duplicate_error_message_names_the_id() {
    let b: Builder<&str, u16> = Builder::new().subscribe(42, "a").unwrap();
    let e = b.subscribe(42, "a").err().unwrap();
    assert_eq!(e.message(), "Subscription cannot be registered: service id `42` is already in use");
}

#[test]
fn missing_bind_address_fails_build() {
    let b: Builder<&str, u16> = Builder::new().subscribe(1, "a").unwrap();
    assert!(matches!(b.build(), Err(Error::NoBindAddress)));
}

#[test]
fn welcome_gets_a_line_feed() {
    let c = console(&[]);
    assert_eq!(c.welcome(), "Welcome to TCP console!\n");
    let c: ConsoleState<&str, u16> = Builder::new().bind_address(1).build().unwrap();
    assert_eq!(c.welcome(), "\n");
    assert_eq!(*c.bind_address(), 1);
}

#[test]
fn registry_keeps_registration_order() {
    let c = console(&[(5, "a"), (3, "b")]);
    assert_eq!(c.len(), 2);
    assert_eq!(c.service_id(0), 5);
    assert_eq!(*c.subscription(1), "b");
    assert_eq!(c.find(3), Some(1));
    assert_eq!(c.find(4), None);
}

#[test]
fn origin_restriction_refuses_foreign_peers() {
    let open = console(&[]);
    assert!(open.admits(Some(false)));
    assert!(open.admits(Some(true)));
    assert!(!open.admits(None));
    let local: ConsoleState<&str, u16> =
        Builder::new().bind_address(1).accept_only_localhost().build().unwrap();
    assert!(local.accept_only_localhost());
    assert!(!local.admits(Some(false)));
    assert!(local.admits(Some(true)));
    assert!(!local.admits(None));
}

#[test]
fn welcome_is_sent_first() {
    let c = console(&[(LOGGER, "logger")]);
    let (phase, sent, _) = run(&c, Phase::Greeting, Event::Started);
    assert!(matches!(phase, Phase::Reading));
    assert_eq!(sent, vec![b"Welcome to TCP console!\n".to_vec()]);
}

#[test]
fn scenario_status_text_and_typed_logger() {
    let c = console(&[(LOGGER, "logger"), (STATUS, "status")]);

    let (phase, sent, _) = run(&c, Phase::Reading, Event::Frame(b"status".to_vec()));
    assert!(matches!(phase, Phase::Reading));
    assert_eq!(sent, vec![b"Operational\n".to_vec()]);

    let (phase, sent, _) = run(&c, Phase::Reading, Event::Frame(b"ping".to_vec()));
    assert!(matches!(phase, Phase::Reading));
    assert!(sent.is_empty());

    let payload = bcs::to_bytes("hi").unwrap();
    let frame = encode_envelope(LOGGER, payload.clone()).unwrap();
    let (phase, sent, received) = run(&c, Phase::Reading, Event::Frame(frame));
    assert!(matches!(phase, Phase::Reading));
    assert!(sent.is_empty());
    assert_eq!(received, vec![payload.clone()]);
    let text: String = bcs::from_bytes(&received[0]).unwrap();
    assert_eq!(text, "hi");
}

#[test]
fn single_reply_is_delivered_in_any_order() {
    for names in [
        [(0, "status"), (1, "logger"), (2, "other")],
        [(0, "logger"), (1, "other"), (2, "status")],
        [(0, "other"), (1, "status"), (2, "logger")],
    ] {
        let c = console(&names);
        let (_, sent, _) = run(&c, Phase::Reading, Event::Frame(b" status\n".to_vec()));
        assert_eq!(sent, vec![b"Operational\n".to_vec()]);
    }
}

#[test]
fn failing_handler_does_not_stop_the_scan() {
    let c = console(&[(0, "broken"), (1, "status")]);
    let (phase, sent, _) = run(&c, Phase::Reading, Event::Frame(b"status".to_vec()));
    assert!(matches!(phase, Phase::Reading));
    assert_eq!(sent, vec![b"Operational\n".to_vec()]);
}

#[test]
fn text_with_no_handlers_is_dropped() {
    let c = console(&[]);
    let (phase, action) = c.step(Phase::Reading, Event::Frame(b"status".to_vec()));
    assert!(matches!(phase, Phase::Reading));
    assert!(matches!(action, Action::Read));
}

#[test]
fn unknown_service_id_is_dropped() {
    let c = console(&[(LOGGER, "logger")]);
    let frame = encode_envelope(99, vec![1]).unwrap();
    let (phase, action) = c.step(Phase::Reading, Event::Frame(frame));
    assert!(matches!(phase, Phase::Reading));
    assert!(matches!(action, Action::Read));
}

#[test]
fn typed_reply_is_sent_back() {
    let c = console(&[(LOGGER, "logger")]);
    let frame = encode_envelope(LOGGER, vec![4, 2]).unwrap();
    let (phase, action) = c.step(Phase::Reading, Event::Frame(frame));
    assert!(matches!(phase, Phase::Typed));
    match action {
        Action::Handle { index, payload } => {
            assert_eq!(index, 0);
            assert_eq!(payload, vec![4, 2]);
        }
        _ => panic!("expected Handle"),
    }
    let (phase, action) = c.step(phase, Event::Handled(Outcome::Reply(vec![1, 2, 3])));
    assert!(matches!(phase, Phase::Reading));
    assert!(matches!(action, Action::SendBytes(ref b) if b == &vec![1, 2, 3]));
    let (_, action) = c.step(Phase::Typed, Event::Handled(Outcome::Failed));
    assert!(matches!(action, Action::Read));
}

#[test]
fn stop_signal_closes_every_phase() {
    let c = console(&[(LOGGER, "logger")]);
    let phases = vec![
        Phase::Greeting,
        Phase::Reading,
        Phase::Typed,
        Phase::Weak { text: "x".to_string(), index: 0 },
        Phase::Closed,
    ];
    for p in phases {
        let (phase, action) = c.step(p, Event::StopSignal);
        assert!(matches!(phase, Phase::Closed));
        assert!(matches!(action, Action::Close));
    }
}

#[test]
fn peer_close_ends_the_session() {
    let c = console(&[]);
    let (phase, action) = c.step(Phase::Reading, Event::PeerClosed);
    assert!(matches!(phase, Phase::Closed));
    assert!(matches!(action, Action::Close));
}

#[test]
fn read_failure_keeps_the_session() {
    let c = console(&[]);
    let (phase, action) = c.step(Phase::Reading, Event::ReadFailed);
    assert!(matches!(phase, Phase::Reading));
    assert!(matches!(action, Action::Read));
}

#[test]
fn unexpected_event_closes_the_session() {
    let c = console(&[]);
    let (phase, action) = c.step(Phase::Greeting, Event::ReadFailed);
    assert!(matches!(phase, Phase::Closed));
    assert!(matches!(action, Action::Close));
}

#[test]
fn default_builder_is_empty() {
    let b: Builder<&str, u16> = Builder::default();
    assert!(matches!(b.build(), Err(Error::NoBindAddress)));
}

#[test]
fn error_messages() {
    assert_eq!(Error::NoBindAddress.message(), "Console bind address is not specified");
    assert_eq!(Error::PayloadTooLong(3).message(), "Payload is too long to be encoded");
}

#[test]
fn accept_loop_decisions() {
    let local: ConsoleState<&str, u16> =
        Builder::new().bind_address(1).accept_only_localhost().build().unwrap();
    assert!(matches!(local.on_accept(AcceptEvent::Connection(Some(true))), AcceptAction::Serve));
    assert!(matches!(local.on_accept(AcceptEvent::Connection(Some(false))), AcceptAction::Refuse));
    assert!(matches!(local.on_accept(AcceptEvent::Connection(None)), AcceptAction::Refuse));
    assert!(matches!(local.on_accept(AcceptEvent::AcceptFailed), AcceptAction::Continue));
    assert!(matches!(local.on_accept(AcceptEvent::StopSignal), AcceptAction::Stop));
    let open = console(&[]);
    assert!(matches!(open.on_accept(AcceptEvent::Connection(Some(false))), AcceptAction::Serve));
}
