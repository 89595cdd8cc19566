use lib8080_msg::tty_msg::{Packet as TtyPacket, UserPrivelige};
use lib8080_msg::message::{FileTransfer, Message, Packet, User, UserFile, UserPrivilege};
use lib8080_msg::server::{
    cant_change_own_privilege_message, decimal_text, handle_queued, history_packet, kick_message,
    missing_user_message, no_change_privilege_permission_message, no_kick_permission_message,
    no_send_permission_message, port_message, route_incoming, ReaderAction, RegisterError, Roster, WriterAction,
};

fn server_text(p: &Packet) -> String {
    let m = p.get_inner_msg().expect("the server answers with a message");
    assert_eq!(m.get_username(), "server");
    m.get_message().to_string()
}

fn answer_text(a: &WriterAction<u32>) -> String {
    match a {
        WriterAction::Answer(p) => server_text(p),
        other => panic!("expected an answer, got {:?}", other),
    }
}

#[test]
fn first_user_is_admin_later_ones_normal() {
    let mut roster: Roster<u32> = Roster::new();
    assert!(roster.is_empty());
    let a = roster.register(&Packet::Join("alice".to_string()), 1).unwrap();
    assert_eq!(a.get_privilege(), UserPrivilege::Admin);
    assert_eq!(a.get_username(), "alice");
    let b = roster.register(&Packet::Join("bob".to_string()), 2).unwrap();
    assert_eq!(b.get_privilege(), UserPrivilege::Normal);
    assert!(roster.contains("alice") && roster.contains("bob"));
    assert!(!roster.is_empty());
}

#[test]
fn same_name_cannot_join_twice() {
    let mut roster: Roster<u32> = Roster::new();
    roster.register(&Packet::Join("alice".to_string()), 3).unwrap();
    assert_eq!(roster.register(&Packet::Join("alice".to_string()), 4).unwrap_err(), RegisterError::NameTaken);
    assert!(roster.contains("alice"));
}

#[test]
fn first_packet_must_be_join() {
    let mut roster: Roster<u32> = Roster::new();
    assert_eq!(roster.register(&Packet::GetPort, 5).unwrap_err(), RegisterError::NotJoin);
    assert_eq!(roster.register(&Packet::Msg(Message::new("a", "b")), 6).unwrap_err(), RegisterError::NotJoin);
    assert!(roster.is_empty());
}

#[test]
fn removed_name_can_join_again() {
    let mut roster: Roster<u32> = Roster::new();
    roster.register(&Packet::Join("alice".to_string()), 7).unwrap();
    roster.register(&Packet::Join("bob".to_string()), 8).unwrap();
    assert!(roster.remove("alice").is_some());
    assert!(roster.remove("alice").is_none());
    assert!(!roster.contains("alice"));
    assert!(roster.contains("bob"));
    let again = roster.register(&Packet::Join("alice".to_string()), 9).unwrap();
    assert_eq!(again.get_privilege(), UserPrivilege::Normal);
}

#[test]
fn reader_routes_packets() {
    let n = UserPrivilege::Normal;
    assert!(matches!(route_incoming(&Packet::Msg(Message::new("a", "hi")), n), ReaderAction::Broadcast));
    match route_incoming(&Packet::SetPrivilege(None, UserPrivilege::Admin), n) {
        ReaderAction::Answer(p) => assert_eq!(server_text(&p), "you can't change your own premision"),
        other => panic!("unexpected {:?}", other),
    }
    assert!(matches!(route_incoming(&Packet::Exit, n), ReaderAction::Queue));
    assert!(matches!(route_incoming(&Packet::Kick("b".to_string()), n), ReaderAction::Queue));
    assert!(matches!(
        route_incoming(&Packet::SetPrivilege(Some("b".to_string()), UserPrivilege::Admin), n),
        ReaderAction::Queue
    ));
}

fn a_file_transfer(sender: &str) -> Packet {
    let file = UserFile::from_parts(vec![1], None, "f".to_string(), None, None);
    Packet::File(FileTransfer::new(Message::new(sender, "see"), file))
}

#[test]
fn files_go_to_everybody() {
    assert!(matches!(route_incoming(&a_file_transfer("a"), UserPrivilege::Normal), ReaderAction::Broadcast));
    assert!(matches!(route_incoming(&a_file_transfer("a"), UserPrivilege::Admin), ReaderAction::Broadcast));
}

#[test]
fn read_only_users_may_not_send() {
    for p in [Packet::Msg(Message::new("a", "hi")), a_file_transfer("a")] {
        match route_incoming(&p, UserPrivilege::ReadOnly) {
            ReaderAction::Answer(answer) => {
                assert_eq!(server_text(&answer), "you don't have premission to send messages")
            }
            other => panic!("unexpected {:?}", other),
        }
    }
    assert!(matches!(route_incoming(&Packet::GetPort, UserPrivilege::ReadOnly), ReaderAction::Queue));
    assert_eq!(server_text(&no_send_permission_message()), "you don't have premission to send messages");
}

#[test]
fn writer_delivers_files_of_others_only() {
    let (mut roster, mut admin, _) = two_users();
    assert!(matches!(handle_queued(&mut admin, &mut roster, &a_file_transfer("admin"), 1), WriterAction::Nothing));
    assert!(matches!(handle_queued(&mut admin, &mut roster, &a_file_transfer("bob"), 1), WriterAction::Deliver));
}

#[test]
fn roster_pairs_names_with_queues() {
    let (mut roster, _, _) = two_users();
    assert_eq!(roster.queue_of("admin"), Some(&10));
    assert_eq!(roster.queue_of("bob"), Some(&11));
    assert_eq!(roster.queue_of("carol"), None);
    assert_eq!(roster.queues(), vec![&10, &11]);
    assert_eq!(roster.remove("admin"), Some(10));
    assert_eq!(roster.queues(), vec![&11]);
}

#[test]
fn tty_registration_follows_the_same_rules() {
    let mut roster: Roster<u32> = Roster::new();
    let a = roster.register_tty(&TtyPacket::Join("ann".to_string()), 1).unwrap();
    assert_eq!(a.get_privelige(), UserPrivelige::Admin);
    let b = roster.register_tty(&TtyPacket::Join("bo".to_string()), 2).unwrap();
    assert_eq!(b.get_privelige(), UserPrivelige::Normal);
    assert_eq!(roster.register_tty(&TtyPacket::Join("ann".to_string()), 3).unwrap_err(), RegisterError::NameTaken);
    assert_eq!(roster.register_tty(&TtyPacket::GetPort("x".to_string()), 4).unwrap_err(), RegisterError::NotJoin);
    assert_eq!(roster.queue_of("ann"), Some(&1));
}

fn two_users() -> (Roster<u32>, User, User) {
    let mut roster: Roster<u32> = Roster::new();
    let admin = roster.register(&Packet::Join("admin".to_string()), 10).unwrap();
    let bob = roster.register(&Packet::Join("bob".to_string()), 11).unwrap();
    (roster, admin, bob)
}

#[test]
fn writer_exit_join_getport() {
    let (mut roster, mut admin, _) = two_users();
    assert!(matches!(handle_queued(&mut admin, &mut roster, &Packet::Exit, 8080), WriterAction::Stop));
    assert!(matches!(
        handle_queued(&mut admin, &mut roster, &Packet::Join("x".to_string()), 8080),
        WriterAction::Nothing
    ));
    let a = handle_queued(&mut admin, &mut roster, &Packet::GetPort, 41234);
    assert_eq!(answer_text(&a), "port = 41234");
}

#[test]
fn writer_kick_needs_admin() {
    let (mut roster, _, mut bob) = two_users();
    let a = handle_queued(&mut bob, &mut roster, &Packet::Kick("admin".to_string()), 1);
    assert_eq!(answer_text(&a), "you don't have premision to kick people");
    assert!(roster.contains("admin"));
}

#[test]
fn writer_admin_kicks() {
    let (mut roster, mut admin, _) = two_users();
    match handle_queued(&mut admin, &mut roster, &Packet::Kick("bob".to_string()), 1) {
        WriterAction::Kick(queue, sends) => {
            assert_eq!(queue, 11);
            assert_eq!(sends.len(), 2);
            assert_eq!(server_text(&sends[0]), "you have been kicked!");
            assert!(matches!(sends[1], Packet::Exit));
        }
        other => panic!("unexpected {:?}", other),
    }
    assert!(!roster.contains("bob"));
    let a = handle_queued(&mut admin, &mut roster, &Packet::Kick("bob".to_string()), 1);
    assert_eq!(answer_text(&a), "bob doesn't exist");
}

#[test]
fn writer_set_privilege_rules() {
    let (mut roster, mut admin, mut bob) = two_users();
    let a = handle_queued(&mut bob, &mut roster, &Packet::SetPrivilege(Some("admin".to_string()), UserPrivilege::ReadOnly), 1);
    assert_eq!(answer_text(&a), "you don't have the premision to change the privilege of other users");
    let a = handle_queued(&mut admin, &mut roster, &Packet::SetPrivilege(Some("admin".to_string()), UserPrivilege::ReadOnly), 1);
    assert_eq!(answer_text(&a), "you can't change your own premision");
    let a = handle_queued(&mut admin, &mut roster, &Packet::SetPrivilege(Some("zed".to_string()), UserPrivilege::ReadOnly), 1);
    assert_eq!(answer_text(&a), "zed doesn't exist");
    match handle_queued(&mut admin, &mut roster, &Packet::SetPrivilege(Some("bob".to_string()), UserPrivilege::ReadOnly), 1) {
        WriterAction::Forward(queue, Packet::SetPrivilege(None, p)) => {
            assert_eq!(queue, 11);
            assert_eq!(p, UserPrivilege::ReadOnly);
        }
        other => panic!("unexpected {:?}", other),
    }
    assert_eq!(admin.get_privilege(), UserPrivilege::Admin);
    let r = handle_queued(&mut bob, &mut roster, &Packet::SetPrivilege(None, UserPrivilege::ReadOnly), 1);
    assert!(matches!(r, WriterAction::Nothing));
    assert_eq!(bob.get_privilege(), UserPrivilege::ReadOnly);
}

#[test]
fn writer_skips_own_messages() {
    let (mut roster, mut admin, _) = two_users();
    let own = Packet::Msg(Message::new("admin", "mine"));
    assert!(matches!(handle_queued(&mut admin, &mut roster, &own, 1), WriterAction::Nothing));
    let other = Packet::Msg(Message::new("bob", "yours"));
    assert!(matches!(handle_queued(&mut admin, &mut roster, &other, 1), WriterAction::Deliver));
}

#[test]
fn server_message_texts() {
    assert_eq!(server_text(&kick_message()), "you have been kicked!");
    assert_eq!(server_text(&no_kick_permission_message()), "you don't have premision to kick people");
    assert_eq!(
        server_text(&no_change_privilege_permission_message()),
        "you don't have the premision to change the privilege of other users"
    );
    assert_eq!(server_text(&cant_change_own_privilege_message()), "you can't change your own premision");
    assert_eq!(server_text(&missing_user_message("dave")), "dave doesn't exist");
    assert_eq!(server_text(&port_message(8080)), "port = 8080");
}

#[test]
fn decimal_text_values() {
    assert_eq!(decimal_text(0), "0");
    assert_eq!(decimal_text(7), "7");
    assert_eq!(decimal_text(10), "10");
    assert_eq!(decimal_text(65535), "65535");
    for n in [1u16, 9, 99, 100, 1234, 40000] {
        assert_eq!(decimal_text(n), n.to_string());
    }
}

#[test]
fn history_marks_own_messages_as_me() {
    let p = history_packet("alice", "hello", "alice");
    let m = p.get_inner_msg().unwrap();
    assert_eq!(m.get_username(), "me");
    assert_eq!(m.get_message(), "hello");
    let q = history_packet("bob", "hey", "alice");
    let n = q.get_inner_msg().unwrap();
    assert_eq!(n.get_username(), "bob");
    assert_eq!(n.get_message(), "hey");
}
