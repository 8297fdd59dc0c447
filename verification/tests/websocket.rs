use building_game::actor::model::{ResponseSignal, TaskKind, WebsocketMessage};
use building_game::api::model::{ApiRequest, BuildParams};
use building_game::api::websocket::{
    extract_id_from_request, forwards_on, incoming_step, submission_step, written, Action,
    Connection, Event, Header, Incoming, Phase, SessionStep, Submission,
};
use tokio::sync::mpsc;
use uuid::Uuid;

fn header(name: &str, value: &[u8]) -> Header {
    Header {
        name: name.to_string(),
        value: value.to_vec(),
    }
}

fn extract(headers: Vec<Header>) -> u128 {
    let mut id = 99;
    extract_id_from_request(&headers, &mut id);
    id
}

#[test]
fn the_authorization_header_names_the_owner() {
    let owner = Uuid::new_v4();
    assert_eq!(
        extract(vec![
            header("host", b"example.org"),
            header("authorization", owner.to_string().as_bytes()),
        ]),
        owner.as_u128()
    );
}

#[test]
fn how_a_header_spells_its_name_does_not_matter() {
    for name in ["Authorization", "AUTHORIZATION", "authorization"] {
        assert_eq!(
            extract(vec![header(name, b"00000000-0000-0000-0000-000000000007")]),
            7
        );
    }
    for name in ["authorizatio", "authorizations", "proxy-authorization", ""] {
        assert_eq!(
            extract(vec![header(name, b"00000000-0000-0000-0000-000000000007")]),
            99
        );
    }
}

#[test]
fn identifiers_are_read_in_every_written_form() {
    let owner = 0x67e5_5044_10b1_426f_9247_bb68_0e5f_e0c8;
    for text in [
        "67e5504410b1426f9247bb680e5fe0c8",
        "67e55044-10b1-426f-9247-bb680e5fe0c8",
        "67E55044-10B1-426F-9247-BB680E5FE0C8",
        "{67e55044-10b1-426f-9247-bb680e5fe0c8}",
        "urn:uuid:67e55044-10b1-426f-9247-bb680e5fe0c8",
        "URN:UUID:67E55044-10B1-426F-9247-BB680E5FE0C8",
    ] {
        assert_eq!(extract(vec![header("authorization", text.as_bytes())]), owner);
    }
}

#[test]
fn a_header_that_names_nobody_changes_nothing() {
    for value in [
        &b"Bearer token"[..],
        &b""[..],
        &b"67e55044-10b1-426f-9247-bb680e5fe0c"[..],
        &b"67e55044-10b1-426f-9247-bb680e5fe0cg"[..],
        &b"67e5504410b1426f9247bb680e5fe0c8 "[..],
        &b"\xff67e5504410b1426f9247bb680e5fe0c8"[..],
        &b"67e5504410b1426f9247bb680e5fe0c\x00"[..],
    ] {
        assert_eq!(extract(vec![header("authorization", value)]), 99);
    }
    assert_eq!(extract(vec![]), 99);
    assert_eq!(
        extract(vec![header("x-id", b"67e5504410b1426f9247bb680e5fe0c8")]),
        99
    );
}

#[test]
fn only_the_first_authorization_header_counts() {
    assert_eq!(
        extract(vec![
            header("authorization", b"00000000-0000-0000-0000-000000000007"),
            header("authorization", b"00000000-0000-0000-0000-000000000008"),
        ]),
        7
    );
    assert_eq!(
        extract(vec![
            header("authorization", b"nobody"),
            header("authorization", b"00000000-0000-0000-0000-000000000008"),
        ]),
        99
    );
}

#[test]
fn a_new_connection_has_a_random_owner() {
    let connection = Connection::new();
    assert_eq!(Uuid::from_u128(connection.id).get_version_num(), 4);
    assert_eq!(connection.phase, Phase::Handshake);
    assert_ne!(connection.id, Connection::new().id);
}

#[test]
fn a_connection_adds_its_inventory_and_removes_it() {
    let owner = Uuid::new_v4();
    let mut connection = Connection::new();
    let headers = vec![header("authorization", owner.to_string().as_bytes())];
    assert!(matches!(
        connection.on_event(Event::HandshakeDone(headers)),
        Action::Ask(WebsocketMessage::AddInventory(id)) if id == owner.as_u128()
    ));
    assert!(matches!(
        connection.on_event(Event::Answered(Some(Ok("added".to_string())))),
        Action::RunSession
    ));
    assert!(matches!(
        connection.on_event(Event::SessionEnded),
        Action::Ask(WebsocketMessage::RemoveInventory(id)) if id == owner.as_u128()
    ));
    assert!(matches!(
        connection.on_event(Event::Answered(None)),
        Action::Close
    ));
    assert_eq!(connection.phase, Phase::Closed);
}

#[test]
fn without_an_authorization_the_random_owner_stays() {
    let mut connection = Connection::new();
    let before = connection.id;
    assert!(matches!(
        connection.on_event(Event::HandshakeDone(vec![])),
        Action::Ask(WebsocketMessage::AddInventory(id)) if id == before
    ));
}

#[test]
fn without_an_inventory_nothing_is_removed() {
    for event in [
        Event::NotSent,
        Event::Answered(None),
        Event::Answered(Some(Err("no".to_string()))),
    ] {
        let mut connection = Connection::new();
        connection.on_event(Event::HandshakeDone(vec![]));
        assert!(matches!(connection.on_event(event), Action::Close));
        assert_eq!(connection.phase, Phase::Closed);
        assert!(matches!(
            connection.on_event(Event::SessionEnded),
            Action::Ignore
        ));
    }
    let mut connection = Connection::new();
    assert!(matches!(
        connection.on_event(Event::HandshakeFailed),
        Action::Close
    ));
}

#[test]
fn a_connection_closes_even_if_the_removal_is_not_heard() {
    let mut connection = Connection::new();
    connection.on_event(Event::HandshakeDone(vec![]));
    connection.on_event(Event::Answered(Some(Ok(String::new()))));
    connection.on_event(Event::SessionEnded);
    assert_eq!(connection.phase, Phase::Removing);
    assert!(matches!(connection.on_event(Event::NotSent), Action::Close));
}

#[test]
fn a_request_becomes_a_task_to_build() {
    let (tx, mut rx) = mpsc::channel(1);
    let request = ApiRequest {
        id: "request 1".to_string(),
        method: "build".to_string(),
        params: BuildParams {
            blueprint: "castle".to_string(),
        },
    };
    match incoming_step(Incoming::Text(Ok(request)), 12, tx) {
        SessionStep::Submit(task) => {
            assert_eq!(task.owner, 12);
            assert_eq!(task.request_id, "request 1");
            assert!(matches!(task.kind, TaskKind::Build(item) if item == "castle"));
            task.respond_to.try_send(ResponseSignal::Stop).unwrap();
            assert!(matches!(rx.try_recv(), Ok(ResponseSignal::Stop)));
        }
        _ => panic!("not submitted"),
    }
}

#[test]
fn what_is_no_request_is_answered_or_skipped() {
    let (tx, _rx) = mpsc::channel(1);
    assert!(matches!(
        incoming_step(Incoming::Text(Err("bad json".to_string())), 1, tx.clone()),
        SessionStep::Respond(ResponseSignal::Error(reason)) if reason == "bad json"
    ));
    assert!(matches!(
        incoming_step(Incoming::Other, 1, tx.clone()),
        SessionStep::Skip
    ));
    assert!(matches!(
        incoming_step(Incoming::Failed("reset".to_string()), 1, tx),
        SessionStep::RespondAndEnd(ResponseSignal::Error(reason)) if reason == "reset"
    ));
}

#[test]
fn a_submission_is_answered() {
    assert!(matches!(
        submission_step(Submission::NotSent("channel closed".to_string())),
        (ResponseSignal::Error(reason), false) if reason == "channel closed"
    ));
    assert!(matches!(
        submission_step(Submission::Answered(Some(Ok("taken".to_string())))),
        (ResponseSignal::Success(text), true) if text == "taken"
    ));
    assert!(matches!(
        submission_step(Submission::Answered(Some(Err("full".to_string())))),
        (ResponseSignal::Error(text), true) if text == "full"
    ));
    assert!(matches!(
        submission_step(Submission::Answered(None)),
        (ResponseSignal::Error(text), true) if text == "Failed to receive response"
    ));
}

#[test]
fn nothing_is_written_from_stop_on() {
    let responses = [
        ResponseSignal::Success("built".to_string()),
        ResponseSignal::Error("broken".to_string()),
        ResponseSignal::Stop,
        ResponseSignal::Success("late".to_string()),
    ];
    let mut shown = Vec::new();
    for response in &responses {
        match written(response) {
            Some(text) => shown.push(text),
            None => break,
        }
    }
    assert_eq!(shown, vec!["Success: built", "Error: broken"]);
    assert!(forwards_on(&responses[0]));
    assert!(forwards_on(&responses[1]));
    assert!(!forwards_on(&responses[2]));
    assert_eq!(ResponseSignal::Stop.text(), "Stop");
}
