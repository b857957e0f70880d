use collab_broker::code_server::code_server::CodeServer;
use collab_broker::code_session::{
    CodeSession, Heartbeat, Reaction, Submission, CLIENT_TIMEOUT, HEARTBEAT_INTERVAL,
};
use collab_broker::models::delta::{Delta, Point};
use collab_broker::models::event::{
    CodeUpdateOutput, CompilationEvent, CompilationState, Language, WsMessage,
};
use collab_broker::models::program_dto::ProgramResponse;
use collab_broker::models::user::User;
use collab_broker::stream_handler::{Frame, FrameOutcome};

fn join(server: &mut CodeServer<&'static str>, user: &str, addr: &'static str) -> CodeSession {
    let mut session = CodeSession::new(0, "demo".to_string(), user.to_string(), 0);
    let id = server.handle_connect(session.started(addr));
    assert_eq!(session.connected(Some(id)), Some("demo_delta".to_string()));
    session
}

#[test]
fn two_sessions_edit_and_compile() {
    let mut server: CodeServer<&'static str> = CodeServer::new();
    let mut a = join(&mut server, "ann", "to-a");
    let mut b = join(&mut server, "bob", "to-b");
    assert_ne!(a.id, b.id);

    // A submits one delta.
    let line = "/code_updates [{\"start\":{\"row\":0,\"column\":0},\"end\":{\"row\":0,\"column\":5},\"action\":\"insert\",\"lines\":[\"hello\"],\"timestamp\":1.0}]";
    let batch = match a.handle_frame(Frame::Text(line.to_string()), 10) {
        FrameOutcome::Text(Reaction::CodeUpdates(batch)) => batch,
        other => panic!("unexpected outcome {:?}", other),
    };
    assert_eq!(
        batch,
        "[{\"start\":{\"row\":0,\"column\":0},\"end\":{\"row\":0,\"column\":5},\"action\":\"insert\",\"lines\":[\"hello\"],\"timestamp\":1.0}]"
    );
    // What reading the batch yields.
    let delta = Delta::new(
        Point::new(0, 0),
        Point::new(0, 5),
        "insert".to_string(),
        vec!["hello".to_string()],
        1.0f64.to_bits(),
    );
    let update = match a.submit_changes(Ok(vec![delta.clone()])) {
        Submission::Forward(update) => update,
        other => panic!("unexpected submission {:?}", other),
    };
    let edit = server.handle_code_update(update);
    assert_eq!(edit.log_key, "demo_delta");
    // B receives the update with that single delta; A does not get it back.
    assert_eq!(edit.update.recipients, vec![b.id]);
    assert_eq!(server.rooms.client("demo", b.id), Some(&"to-b"));
    assert_eq!(
        edit.update.message,
        WsMessage::CodeUpdate(CodeUpdateOutput { user: User::new("ann".to_string()), content: vec![delta] })
    );

    // A disconnects.
    assert_eq!(a.handle_frame(Frame::Close, 20), FrameOutcome::Stop);
    let leaving = a.stopping().unwrap();
    server.handle_disconnect(leaving);
    assert_eq!(a.stopping(), None);
    assert_eq!(server.rooms.client("demo", a.id), None);

    // B asks for an execution.
    let request = match b.handle_frame(Frame::Text("/compile PYTHON print(1)".to_string()), 30) {
        FrameOutcome::Text(Reaction::Compile(request)) => request,
        other => panic!("unexpected outcome {:?}", other),
    };
    assert_eq!(request.language, Language::PYTHON);
    assert_eq!(request.code, "print(1)");
    let dispatch = server.handle_compile(request);
    assert_eq!(dispatch.request.stdin, "print(1)");
    assert_eq!(dispatch.request.language, Language::PYTHON);
    // The service answers; B, the only member left, gets the result.
    let sent = dispatch.finish(Some(ProgramResponse { stdout: "1\n".to_string() })).unwrap();
    assert_eq!(sent.room_id, "demo");
    assert_eq!(sent.recipients, vec![b.id]);
    assert_eq!(server.rooms.client("demo", b.id), Some(&"to-b"));
    assert_eq!(
        sent.message,
        WsMessage::CompilationEvent(CompilationEvent {
            state: CompilationState::END,
            stdout: Some("1\n".to_string()),
        })
    );
}

#[test]
fn late_joiner_is_caught_up_with_every_delta() {
    let mut server: CodeServer<&'static str> = CodeServer::new();
    let a = join(&mut server, "ann", "to-a");
    // The log as the store keeps it: one list under the room's key.
    let mut log: Vec<Delta> = Vec::new();
    let mut expected: Vec<Delta> = Vec::new();
    for n in 0..5usize {
        let delta = Delta::new(
            Point::new(n, 0),
            Point::new(n, 1),
            "insert".to_string(),
            vec![format!("line {}", n)],
            (n as f64).to_bits(),
        );
        expected.push(delta.clone());
        let update = match a.submit_changes(Ok(vec![delta])) {
            Submission::Forward(update) => update,
            other => panic!("unexpected submission {:?}", other),
        };
        let edit = server.handle_code_update(update);
        assert_eq!(edit.log_key, "demo_delta");
        match edit.update.message {
            WsMessage::CodeUpdate(out) => log.extend(out.content),
            other => panic!("unexpected message {:?}", other),
        }
    }
    let late = join(&mut server, "bob", "to-b");
    assert_eq!(
        late.send_current_state(Some(log)),
        WsMessage::CodeUpdate(CodeUpdateOutput { user: User::new("bob".to_string()), content: expected })
    );
}

#[test]
fn silent_client_leaves_its_room() {
    let mut server: CodeServer<&'static str> = CodeServer::new();
    let mut a = join(&mut server, "ann", "to-a");
    let mut b = join(&mut server, "bob", "to-b");
    // B answers pings until 20 s; A was last heard of when it joined.
    let mut now = 0;
    let mut told = None;
    while told.is_none() {
        now += HEARTBEAT_INTERVAL;
        assert_eq!(b.handle_frame(Frame::Pong(vec![]), now), FrameOutcome::Nothing);
        assert_eq!(b.hb(now), Heartbeat::Ping);
        if let Heartbeat::Expired(leave) = a.hb(now) {
            told = leave;
        }
        assert!(now <= CLIENT_TIMEOUT + HEARTBEAT_INTERVAL);
    }
    // The first check after the timeout finds A out.
    assert_eq!(now, 15000);
    server.handle_disconnect(told.unwrap());
    assert_eq!(server.rooms.client("demo", a.id), None);
    assert_eq!(server.rooms.client("demo", b.id), Some(&"to-b"));
    // Nothing is sent to A any more.
    let sent = server.send_update_code("x", b.id, "demo");
    assert!(sent.recipients.is_empty());
    let dispatch = server.execute_code("x".to_string(), "demo", Language::C);
    assert_eq!(dispatch.recipients, vec![b.id]);
    assert_eq!(a.stopping(), None);
}
