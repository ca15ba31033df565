use dserver::command::Command;
use dserver::events::{Candidate, InformativeEvent, Search, TransmitterEvent};
use dserver::item::Item;
use dserver::message::{Message, MessageSendError};
use dserver::pack::Pack;
use dserver::server::{apply_event, await_outcome, pack_worker_burst, Code, Response, Server};
use dserver::value::Value;

fn fresh_pack(id: u32) -> Pack {
    Pack {
        id,
        items: Vec::new(),
        head: 0,
    }
}

#[test]
fn add_then_get_through_the_channel_always_finds_the_value() {
    let (event_tx, event_rx) = crossbeam::channel::unbounded();
    let (info_tx, info_rx) = crossbeam::channel::unbounded();

    let item = Item::new("server".to_string(), Value::Text("localhost".to_string())).unwrap();
    let id = item.uuid;
    event_tx
        .send(TransmitterEvent::AddNewItem(Candidate { object: item }))
        .unwrap();
    event_tx
        .send(TransmitterEvent::GetItem(Search {
            key: "server".to_string(),
        }))
        .unwrap();
    drop(event_tx);

    let mut pack = fresh_pack(1);
    let keep_going = pack_worker_burst(&event_rx, &info_tx, &mut pack, 16);
    assert!(!keep_going); // the inbound channel was closed and drained

    match await_outcome(&info_rx).unwrap() {
        InformativeEvent::Added(got) => assert_eq!(got, id),
        other => panic!("first outcome should be Added, got {:?}", other),
    }
    match await_outcome(&info_rx).unwrap() {
        InformativeEvent::Found(snapshot) => {
            assert_eq!(snapshot.uuid, id);
            assert_eq!(snapshot.value, Value::Text("localhost".to_string()));
        }
        other => panic!("second outcome should be Found, got {:?}", other),
    }
    // the dispatcher is gone and the outcome channel drained
    drop(info_tx);
    assert!(await_outcome(&info_rx).is_none());
}

#[test]
fn outcomes_are_emitted_in_command_order() {
    let (event_tx, event_rx) = crossbeam::channel::unbounded();
    let (info_tx, info_rx) = crossbeam::channel::unbounded();

    event_tx
        .send(TransmitterEvent::GetItem(Search {
            key: "missing".to_string(),
        }))
        .unwrap();
    let item = Item::new("k".to_string(), Value::Logical(true)).unwrap();
    event_tx
        .send(TransmitterEvent::AddNewItem(Candidate { object: item }))
        .unwrap();
    drop(event_tx);

    let mut pack = fresh_pack(2);
    pack_worker_burst(&event_rx, &info_tx, &mut pack, 16);

    assert!(matches!(
        info_rx.recv().unwrap(),
        InformativeEvent::NotFound
    ));
    assert!(matches!(
        info_rx.recv().unwrap(),
        InformativeEvent::Added(_)
    ));
}

#[test]
fn a_full_pack_reports_capacity_full_through_the_dispatcher() {
    let mut pack = fresh_pack(3);
    pack.head = 1000; // the counter, not the stored length, is what is checked
    let item = Item::new("k".to_string(), Value::Logical(true)).unwrap();
    let outcome = apply_event(&mut pack, TransmitterEvent::AddNewItem(Candidate { object: item }));
    assert!(matches!(outcome, InformativeEvent::CapacityFull));
    assert_eq!(pack.get_head(), 1001);
    assert!(pack.items.is_empty());
}

#[test]
fn message_send_enqueues_the_matching_event() {
    let (event_tx, event_rx) = crossbeam::channel::unbounded();

    let msg = Message::new(
        Command::Add,
        "server".to_string(),
        Some(Value::Text("localhost".to_string())),
    );
    assert_eq!(msg.send(&event_tx), Ok(1));
    match event_rx.recv().unwrap() {
        TransmitterEvent::AddNewItem(c) => {
            assert_eq!(c.object.key, "server");
            assert_eq!(c.object.value, Value::Text("localhost".to_string()));
            assert!(c.object.uuid != 0);
        }
        other => panic!("expected an insert command, got {:?}", other),
    }

    let msg = Message::new(Command::Get, "server".to_string(), None);
    assert_eq!(msg.send(&event_tx), Ok(1));
    match event_rx.recv().unwrap() {
        TransmitterEvent::GetItem(s) => assert_eq!(s.key, "server"),
        other => panic!("expected a lookup command, got {:?}", other),
    }

    // deletion is acknowledged without enqueuing anything
    let msg = Message::new(Command::Del, "server".to_string(), None);
    assert_eq!(msg.send(&event_tx), Ok(1));
    assert!(event_rx.try_recv().is_err());
}

#[test]
fn to_event_builds_the_matching_command() {
    let msg = Message::new(
        Command::Add,
        "server".to_string(),
        Some(Value::Text("localhost".to_string())),
    );
    match msg.to_event() {
        Some(TransmitterEvent::AddNewItem(c)) => {
            assert_eq!(c.object.key, "server");
            assert_eq!(c.object.value, Value::Text("localhost".to_string()));
            assert!(c.object.uuid != 0);
        }
        other => panic!("expected an insert command, got {:?}", other),
    }

    let msg = Message::new(Command::Get, "server".to_string(), None);
    match msg.to_event() {
        Some(TransmitterEvent::GetItem(s)) => assert_eq!(s.key, "server"),
        other => panic!("expected a lookup command, got {:?}", other),
    }

    let msg = Message::new(Command::Del, "server".to_string(), None);
    assert!(msg.to_event().is_none());
}

#[test]
fn message_send_reports_a_closed_channel() {
    let (event_tx, event_rx) = crossbeam::channel::unbounded::<TransmitterEvent>();
    drop(event_rx);

    let msg = Message::new(Command::Get, "k".to_string(), None);
    assert_eq!(msg.send(&event_tx), Err(MessageSendError::Get));

    let msg = Message::new(Command::Add, "k".to_string(), Some(Value::Logical(true)));
    assert_eq!(msg.send(&event_tx), Err(MessageSendError::Add));
}

#[test]
fn server_address_joins_root_and_port() {
    let alpha = Server::new("0.0.0.0", 5555);
    assert_eq!(alpha.address(), "0.0.0.0:5555");
    let beta = Server::new("localhost", 0);
    assert_eq!(beta.address(), "localhost:0");
    let gamma = Server::new("h", 65535);
    assert_eq!(gamma.address(), "h:65535");
}

#[test]
fn response_lines_carry_code_and_ending() {
    assert_eq!(Response::new(Code::Success).render_line(), "200 Success|\r\n");
    assert_eq!(Response::new(Code::Error).render_line(), "400 Error|\r\n");
    assert_eq!(Code::Success.number(), 200);
    assert_eq!(Code::Error.number(), 400);
}
