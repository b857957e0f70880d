use collab_broker::code_server::code_server::CodeServer;
use collab_broker::code_server::handlers::ID_DRAWS;
use collab_broker::code_server::registry::RoomRegistry;
use collab_broker::code_server::room::{lowest_vacant_id, member_ids};
use collab_broker::models::delta::{Delta, Point};
use collab_broker::models::event::{
    CodeUpdate, CodeUpdateOutput, CompilationEvent, CompilationState, CompileCode, Connect,
    Disconnect, Language, WsMessage,
};
use collab_broker::models::program_dto::ProgramResponse;
use collab_broker::models::user::User;
use std::collections::HashMap;

fn connect(room: &str, user: &str, addr: &'static str) -> Connect<&'static str> {
    Connect { addr, room_id: room.to_string(), user_id: User::new(user.to_string()) }
}

fn sorted(mut ids: Vec<usize>) -> Vec<usize> {
    ids.sort();
    ids
}

fn hello_delta() -> Delta {
    Delta::new(
        Point::new(0, 0),
        Point::new(0, 5),
        "insert".to_string(),
        vec!["hello".to_string()],
        1.0f64.to_bits(),
    )
}

#[test]
fn new_broker_has_no_rooms() {
    let mut server: CodeServer<&'static str> = CodeServer::new();
    assert!(server.rooms.client("demo", 0).is_none());
    let room = server.take_room("demo").unwrap();
    assert!(room.is_empty());
}

#[test]
fn take_room_checks_the_room_out() {
    let mut server: CodeServer<&'static str> = CodeServer::new();
    server.rooms.insert_member("demo", 7, "seven");
    let room = server.take_room("demo").unwrap();
    assert_eq!(room.len(), 1);
    assert_eq!(room.get(&7), Some(&"seven"));
    // While the room is out, the registry does not hold it.
    assert!(server.rooms.client("demo", 7).is_none());
    server.rooms.restore("demo", room);
    assert_eq!(server.rooms.client("demo", 7), Some(&"seven"));
}

#[test]
fn restore_replaces_what_was_held() {
    let mut registry: RoomRegistry<u8> = RoomRegistry::new();
    registry.insert_member("a", 1, 10);
    registry.insert_member("b", 1, 20);
    let mut fresh: HashMap<usize, u8> = HashMap::new();
    fresh.insert(2, 30);
    registry.restore("a", fresh);
    assert_eq!(registry.client("a", 1), None);
    assert_eq!(registry.client("a", 2), Some(&30));
    assert_eq!(registry.client("b", 1), Some(&20));
}

#[test]
fn remove_member_is_best_effort() {
    let mut registry: RoomRegistry<u8> = RoomRegistry::new();
    registry.remove_member("nowhere", 3);
    assert_eq!(registry.client("nowhere", 3), None);
    registry.insert_member("a", 1, 10);
    registry.insert_member("a", 2, 20);
    registry.remove_member("a", 1);
    assert_eq!(registry.client("a", 1), None);
    assert_eq!(registry.client("a", 2), Some(&20));
    registry.remove_member("a", 1);
    assert_eq!(registry.client("a", 2), Some(&20));
}

#[test]
fn rooms_with_many_names_stay_apart() {
    let mut registry: RoomRegistry<usize> = RoomRegistry::new();
    for n in 0..20usize {
        registry.insert_member(&format!("room{}", n), n, n * 100);
    }
    for n in 0..20usize {
        let room = registry.take_room(&format!("room{}", n));
        assert_eq!(room.len(), 1);
        assert_eq!(room.get(&n), Some(&(n * 100)));
        registry.restore(&format!("room{}", n), room);
    }
    let gone = registry.take_room("room3");
    assert_eq!(gone.len(), 1);
    assert_eq!(registry.client("room3", 3), None);
    assert_eq!(registry.client("room19", 19), Some(&1900));
    assert_eq!(registry.client("room0", 0), Some(&0));
}

#[test]
fn member_ids_name_each_member_once() {
    let mut room: HashMap<usize, char> = HashMap::new();
    room.insert(4, 'a');
    room.insert(9, 'b');
    room.insert(2, 'c');
    assert_eq!(sorted(member_ids(&room, None)), vec![2, 4, 9]);
    assert_eq!(sorted(member_ids(&room, Some(4))), vec![2, 9]);
    assert_eq!(sorted(member_ids(&room, Some(5))), vec![2, 4, 9]);
    let empty: HashMap<usize, char> = HashMap::new();
    assert_eq!(member_ids(&empty, Some(1)), Vec::<usize>::new());
}

#[test]
fn lowest_vacant_id_is_the_first_gap() {
    let mut room: HashMap<usize, ()> = HashMap::new();
    assert_eq!(lowest_vacant_id(&room), 0);
    room.insert(0, ());
    room.insert(1, ());
    room.insert(3, ());
    assert_eq!(lowest_vacant_id(&room), 2);
    room.insert(2, ());
    assert_eq!(lowest_vacant_id(&room), 4);
}

#[test]
fn join_refuses_an_id_that_is_taken() {
    let mut server: CodeServer<&'static str> = CodeServer::new();
    assert_eq!(server.join(connect("demo", "ann", "a"), 5).ok(), Some(5));
    let refused = server.join(connect("demo", "bob", "b"), 5);
    let back = refused.err().unwrap();
    assert_eq!(back.addr, "b");
    assert_eq!(back.room_id, "demo");
    assert_eq!(back.user_id, User::new("bob".to_string()));
    assert_eq!(server.rooms.client("demo", 5), Some(&"a"));
    // The same id is free in another room.
    assert_eq!(server.join(connect("other", "bob", "b"), 5).ok(), Some(5));
    assert_eq!(server.rooms.client("other", 5), Some(&"b"));
    assert_eq!(server.rooms.client("demo", 5), Some(&"a"));
}

#[test]
fn connect_gives_each_member_its_own_id() {
    let mut server: CodeServer<usize> = CodeServer::new();
    let mut ids = Vec::new();
    for n in 0..200usize {
        let id = server.handle_connect(Connect {
            addr: n,
            room_id: "demo".to_string(),
            user_id: User::new(format!("user{}", n)),
        });
        assert_eq!(server.rooms.client("demo", id), Some(&n));
        ids.push(id);
    }
    let mut distinct = ids.clone();
    distinct.sort();
    distinct.dedup();
    assert_eq!(distinct.len(), 200);
    // Everybody is still reachable on the handle it joined with.
    for (n, id) in ids.iter().enumerate() {
        assert_eq!(server.rooms.client("demo", *id), Some(&n));
    }
    let room = server.take_room("demo").unwrap();
    assert_eq!(room.len(), 200);
}

#[test]
fn connect_draws_its_ids_at_random() {
    // Ids that came from a counter, or from the argument, would be small or
    // equal; two hundred draws of a machine word are neither.
    let mut server: CodeServer<()> = CodeServer::new();
    let mut ids = Vec::new();
    for _ in 0..200 {
        ids.push(server.handle_connect(Connect {
            addr: (),
            room_id: "demo".to_string(),
            user_id: User::new("u".to_string()),
        }));
    }
    assert!(ids.iter().any(|id| *id > 1 << 20));
    assert!(ids.iter().any(|id| *id != ids[0]));
    assert!(ID_DRAWS >= 1);
}

#[test]
fn edit_goes_to_everybody_but_the_sender() {
    let mut server: CodeServer<&'static str> = CodeServer::new();
    let a = server.handle_connect(connect("demo", "ann", "a"));
    let b = server.handle_connect(connect("demo", "bob", "b"));
    let c = server.handle_connect(connect("demo", "cat", "c"));
    let sent = server.send_update_code("{}", b, "demo");
    assert_eq!(sent.room_id, "demo");
    assert_eq!(sent.message, "{}");
    assert_eq!(sorted(sent.recipients), sorted(vec![a, c]));
    // A sender that is no member is left out without harm.
    let stranger = a.wrapping_add(b).wrapping_add(c).wrapping_add(1);
    if stranger != a && stranger != b && stranger != c {
        let sent = server.send_update_code("{}", stranger, "demo");
        assert_eq!(sorted(sent.recipients), sorted(vec![a, b, c]));
    }
}

#[test]
fn edit_in_an_empty_room_goes_to_nobody() {
    let mut server: CodeServer<&'static str> = CodeServer::new();
    let sent = server.send_update_code("x", 1, "nobody-here");
    assert!(sent.recipients.is_empty());
    let only = server.handle_connect(connect("solo", "ann", "a"));
    let sent = server.send_update_code("x", only, "solo");
    assert!(sent.recipients.is_empty());
}

#[test]
fn edit_stays_in_its_room() {
    let mut server: CodeServer<&'static str> = CodeServer::new();
    let a1 = server.handle_connect(connect("a", "ann", "a1"));
    let a2 = server.handle_connect(connect("a", "abe", "a2"));
    let b1 = server.handle_connect(connect("b", "bob", "b1"));
    let sent = server.send_update_code("x", a1, "a");
    assert_eq!(sent.room_id, "a");
    assert_eq!(sent.recipients, vec![a2]);
    assert_eq!(server.rooms.client("a", a2), Some(&"a2"));
    // Room b is as it was.
    assert_eq!(server.rooms.client("b", b1), Some(&"b1"));
    let room_b = server.take_room("b").unwrap();
    assert_eq!(room_b.len(), 1);
}

#[test]
fn code_update_carries_the_deltas_and_the_log_key() {
    let mut server: CodeServer<&'static str> = CodeServer::new();
    let a = server.handle_connect(connect("demo", "ann", "a"));
    let b = server.handle_connect(connect("demo", "bob", "b"));
    let update = CodeUpdate::new(a, vec![hello_delta()], "demo".to_string(), User::new("ann".to_string()));
    let edit = server.handle_code_update(update);
    assert_eq!(edit.log_key, "demo_delta");
    assert_eq!(edit.update.room_id, "demo");
    assert_eq!(edit.update.recipients, vec![b]);
    assert_eq!(
        edit.update.message,
        WsMessage::CodeUpdate(CodeUpdateOutput {
            user: User::new("ann".to_string()),
            content: vec![hello_delta()],
        })
    );
}

#[test]
fn compile_result_goes_to_everybody_who_was_there() {
    let mut server: CodeServer<&'static str> = CodeServer::new();
    let a = server.handle_connect(connect("demo", "ann", "a"));
    let b = server.handle_connect(connect("demo", "bob", "b"));
    let dispatch = server.handle_compile(CompileCode::new(
        a,
        Language::C,
        "int main(){}".to_string(),
        "demo".to_string(),
    ));
    assert_eq!(dispatch.room_id, "demo");
    assert_eq!(dispatch.request.stdin, "int main(){}");
    assert_eq!(dispatch.request.language, Language::C);
    assert_eq!(sorted(dispatch.recipients.clone()), sorted(vec![a, b]));
    // Who joins or leaves after the request left changes nothing.
    let late = server.handle_connect(connect("demo", "cat", "c"));
    server.handle_disconnect(Disconnect { id: b, room_id: "demo".to_string() });
    let sent = dispatch.finish(Some(ProgramResponse { stdout: "ok".to_string() })).unwrap();
    assert_eq!(sorted(sent.recipients.clone()), sorted(vec![a, b]));
    assert!(!sent.recipients.contains(&late));
    assert_eq!(
        sent.message,
        WsMessage::CompilationEvent(CompilationEvent {
            state: CompilationState::END,
            stdout: Some("ok".to_string()),
        })
    );
}

#[test]
fn failed_execution_sends_nothing() {
    let mut server: CodeServer<&'static str> = CodeServer::new();
    let a = server.handle_connect(connect("demo", "ann", "a"));
    let dispatch = server.execute_code("x".to_string(), "demo", Language::DART);
    assert_eq!(dispatch.recipients, vec![a]);
    assert!(dispatch.finish(None).is_none());
}

#[test]
fn disconnect_removes_the_member_from_its_room_only() {
    let mut server: CodeServer<&'static str> = CodeServer::new();
    assert_eq!(server.join(connect("a", "ann", "in-a"), 1).ok(), Some(1));
    assert_eq!(server.join(connect("b", "bob", "in-b"), 1).ok(), Some(1));
    assert_eq!(server.join(connect("a", "abe", "also-a"), 2).ok(), Some(2));
    server.handle_disconnect(Disconnect { id: 1, room_id: "a".to_string() });
    assert_eq!(server.rooms.client("a", 1), None);
    assert_eq!(server.rooms.client("a", 2), Some(&"also-a"));
    assert_eq!(server.rooms.client("b", 1), Some(&"in-b"));
    let sent = server.send_update_code("x", 2, "a");
    assert!(sent.recipients.is_empty());
    let dispatch = server.execute_code("x".to_string(), "a", Language::PYTHON);
    assert_eq!(dispatch.recipients, vec![2]);
    // Leaving twice, or leaving a room that does not exist, is harmless.
    server.handle_disconnect(Disconnect { id: 1, room_id: "a".to_string() });
    server.handle_disconnect(Disconnect { id: 1, room_id: "nowhere".to_string() });
    assert_eq!(server.rooms.client("a", 2), Some(&"also-a"));
}
