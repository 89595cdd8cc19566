//! The types of the older `tty_msg` protocol: its messages, users and packets, and
//! the framing of its packets, whose length header is written in the byte order of
//! the machine.
use vstd::prelude::*;
use crate::message::{message_text, MessageView};

verus! {

/// The type representing a username.
pub type Username = String;

/// A message.
#[derive(Debug)]
pub struct Message {
    user: Username,
    msg: String,
}

impl View for Message {
    type V = MessageView;

    closed spec fn view(&self) -> MessageView {
        MessageView { user: self.user@, msg: self.msg@ }
    }
}

impl Message {
    /// Creates a new message.
    pub fn new(user: &str, msg: &str) -> (res: Self)
        ensures
            res@ == (MessageView { user: user@, msg: msg@ }),
    {
        Message { user: user.to_owned(), msg: msg.to_owned() }
    }

    /// A reference to the username.
    pub fn get_username(&self) -> (res: &str)
        ensures
            res@ == self@.user,
    {
        self.user.as_str()
    }

    /// A reference to the message.
    pub fn get_message(&self) -> (res: &str)
        ensures
            res@ == self@.msg,
    {
        self.msg.as_str()
    }

    /// The message as it is shown: `"{user}: {msg}"`.
    pub fn display_text(&self) -> (res: String)
        ensures
            res@ == message_text(self@),
    {
        let mut text = self.user.clone();
        text.append(": ");
        text.append(self.msg.as_str());
        text
    }
}

/// What a user can and can't do.
#[derive(Clone, Copy, Debug, PartialEq, Eq, Structural)]
pub enum UserPrivelige {
    /// only read
    ReadOnly,
    /// read + write, the default privilege
    Normal,
    /// read + write + kick
    Admin,
}

impl Default for UserPrivelige {
    fn default() -> (res: Self)
        ensures
            res == UserPrivelige::Normal,
    {
        UserPrivelige::Normal
    }
}

/// What a user is: a name and a privilege.
pub struct UserView {
    pub name: Seq<char>,
    pub privelige: UserPrivelige,
}

/// A user.
#[derive(Debug)]
pub struct User {
    name: Username,
    privelige: UserPrivelige,
}

impl View for User {
    type V = UserView;

    closed spec fn view(&self) -> UserView {
        UserView { name: self.name@, privelige: self.privelige }
    }
}

impl User {
    /// The privilege of the user.
    pub fn get_privelige(&self) -> (res: UserPrivelige)
        ensures
            res == self@.privelige,
    {
        self.privelige
    }

    /// Sets the privilege of the user.
    pub fn set_privelige(&mut self, privelige: UserPrivelige)
        ensures
            final(self)@ == (UserView { name: old(self)@.name, privelige }),
    {
        self.privelige = privelige;
    }

    /// A reference to the username of the user.
    pub fn get_username(&self) -> (res: &String)
        ensures
            res@ == self@.name,
    {
        &self.name
    }

    /// Creates a new user; without a privilege it gets the default one, `Normal`.
    pub fn new(name: String, privelige: Option<UserPrivelige>) -> (res: Self)
        ensures
            res@.name == name@,
            res@.privelige == match privelige {
                Some(p) => p,
                None => UserPrivelige::Normal,
            },
    {
        let privelige = privelige.unwrap_or_default();
        User { name, privelige }
    }
}

/// Data which clients and the server send each other.
#[derive(Debug)]
pub enum Packet {
    /// the named user leaves
    Exit(Username),
    /// the named user joins
    Join(Username),
    /// `asker` asks the server to kick `kicked`
    Kick { asker: Username, kicked: Username },
    /// the named user asks for the port
    GetPort(Username),
    /// a message
    Msg(Message),
}

} // verus!
