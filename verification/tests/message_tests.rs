use lib8080_msg::message::{FileTransfer, Message, Packet, User, UserFile, UserPrivilege};

#[test]
fn inner_msg_fail_test() {
    let packet = Packet::Exit;
    assert!(matches!(packet.get_inner_msg(), None));
}

#[test]
fn inner_msg_of_msg_packet() {
    let packet = Packet::Msg(Message::new("alice", "hello"));
    let inner = packet.get_inner_msg().expect("a Msg packet has a message");
    assert_eq!(inner.get_username(), "alice");
    assert_eq!(inner.get_message(), "hello");
}

#[test]
fn inner_msg_of_other_packets_is_none() {
    assert!(packet_has_no_msg(Packet::Join("bob".to_string())));
    assert!(packet_has_no_msg(Packet::GetPort));
    assert!(packet_has_no_msg(Packet::Kick("bob".to_string())));
    assert!(packet_has_no_msg(Packet::SetPrivilege(None, UserPrivilege::Admin)));
    let file = UserFile::from_parts(vec![1, 2], Some("txt".to_string()), "a.txt".to_string(), None, None);
    assert!(packet_has_no_msg(Packet::File(FileTransfer::new(Message::new("a", "b"), file))));
}

fn packet_has_no_msg(p: Packet) -> bool {
    p.get_inner_msg().is_none()
}

#[test]
fn message_is_displayed_as_user_colon_text() {
    let m = Message::new("cheese_space", "hi there");
    assert_eq!(m.display_text(), "cheese_space: hi there");
}

#[test]
fn file_transfer_displays_its_message() {
    let file = UserFile::from_parts(vec![7], None, "notes".to_string(), None, None);
    let t = FileTransfer::new(Message::new("a", "look"), file);
    assert_eq!(t.display_text(), "a: look");
    assert_eq!(t.get_file().name(), "notes");
    assert_eq!(t.get_file().data(), &vec![7u8]);
    assert_eq!(t.get_file().file_extension(), None);
    assert_eq!(t.get_message().get_message(), "look");
}

#[test]
fn user_file_keeps_its_parts() {
    let now = std::time::SystemTime::UNIX_EPOCH;
    let file = UserFile::from_parts(vec![1, 2, 3], Some("rs".to_string()), "main.rs".to_string(), Some(now), None);
    assert_eq!(file.data(), &vec![1u8, 2, 3]);
    assert_eq!(file.file_extension(), Some("rs"));
    assert_eq!(file.name(), "main.rs");
    assert_eq!(file.accessed(), Some(now));
    assert_eq!(file.last_modified(), None);
}

#[test]
fn new_user_has_default_privilege() {
    let u = User::new("bob", None);
    assert_eq!(u.get_username(), "bob");
    assert_eq!(u.get_privilege(), UserPrivilege::Normal);
    assert_eq!(UserPrivilege::default(), UserPrivilege::Normal);
}

#[test]
fn new_user_with_privilege_and_set_privilege() {
    let mut u = User::new("carol", Some(UserPrivilege::ReadOnly));
    assert_eq!(u.get_privilege(), UserPrivilege::ReadOnly);
    u.set_privilege(UserPrivilege::Admin);
    assert_eq!(u.get_privilege(), UserPrivilege::Admin);
    assert_eq!(u.get_username(), "carol");
}

#[test]
fn privilege_names_parse() {
    assert_eq!(UserPrivilege::try_from("read_only").ok(), Some(UserPrivilege::ReadOnly));
    assert_eq!(UserPrivilege::try_from("normal").ok(), Some(UserPrivilege::Normal));
    assert_eq!(UserPrivilege::try_from("admin").ok(), Some(UserPrivilege::Admin));
}

#[test]
fn invalid_privilege_is_refused_with_its_text() {
    let e = UserPrivilege::try_from("root").unwrap_err();
    assert_eq!(e.value(), "root");
    assert_eq!(e.display_text(), "root is not a valid user privilege");
    assert!(UserPrivilege::try_from("Admin").is_err());
    assert!(UserPrivilege::try_from("").is_err());
}

#[test]
fn privilege_display_names() {
    assert_eq!(UserPrivilege::ReadOnly.display_text(), "read_only");
    assert_eq!(UserPrivilege::Normal.display_text(), "normal");
    assert_eq!(UserPrivilege::Admin.display_text(), "admin");
}

#[test]
fn privilege_name_roundtrip_on_values() {
    for p in [UserPrivilege::ReadOnly, UserPrivilege::Normal, UserPrivilege::Admin] {
        let name = p.display_text();
        assert_eq!(UserPrivilege::try_from(name.as_str()).ok(), Some(p));
    }
}
