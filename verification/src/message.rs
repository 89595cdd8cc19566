//! Messages, users, privileges and the packets that the clients and the server send
//! each other.
use vstd::prelude::*;

verus! {

/// The time stamps of a sent file are carried through unchanged.
#[verifier::external_type_specification]
#[verifier::external_body]
pub struct ExSystemTime(std::time::SystemTime);

/// The type representing a username.
pub type Username = String;

/// What a message holds: who sent it and what it says.
pub struct MessageView {
    pub user: Seq<char>,
    pub msg: Seq<char>,
}

/// A message.
#[derive(Debug, Clone)]
pub struct Message {
    /// the user who sent the message
    user: Username,
    /// the actual message
    msg: String,
}

impl View for Message {
    type V = MessageView;

    closed spec fn view(&self) -> MessageView {
        MessageView { user: self.user@, msg: self.msg@ }
    }
}

/// The text `"{user}: {msg}"` by which a message is shown.
pub open spec fn message_text(m: MessageView) -> Seq<char> {
    m.user + ": "@ + m.msg
}

impl Message {
    /// A reference to the username.
    pub fn get_username(&self) -> (res: &str)
        ensures
            res@ == self@.user,
    {
        self.user.as_str()
    }

    /// A reference to the message.
    pub fn get_message(&self) -> (res: &str)
        ensures
            res@ == self@.msg,
    {
        self.msg.as_str()
    }

    /// Creates a new message.
    pub fn new(user: &str, msg: &str) -> (res: Self)
        ensures
            res@ == (MessageView { user: user@, msg: msg@ }),
    {
        Message { user: user.to_owned(), msg: msg.to_owned() }
    }

    /// The message as it is shown: `"{user}: {msg}"`.
    pub fn display_text(&self) -> (res: String)
        ensures
            res@ == message_text(self@),
    {
        let mut text = self.user.clone();
        text.append(": ");
        text.append(self.msg.as_str());
        proof {
            reveal_strlit(": ");
        }
        text
    }
}

/// What a sent file holds that the library reads: its bytes, its extension and its name.
pub struct UserFileView {
    pub data: Seq<u8>,
    pub file_extension: Option<Seq<char>>,
    pub name: Seq<char>,
}

/// The view of an optional string.
pub open spec fn opt_view(s: Option<String>) -> Option<Seq<char>> {
    match s {
        Some(t) => Some(t@),
        None => None,
    }
}

/// A file sent by a user.
#[derive(Debug, Clone)]
pub struct UserFile {
    data: Vec<u8>,
    file_extension: Option<String>,
    name: String,
    accessed: Option<std::time::SystemTime>,
    last_modified: Option<std::time::SystemTime>,
}

impl View for UserFile {
    type V = UserFileView;

    closed spec fn view(&self) -> UserFileView {
        UserFileView { data: self.data@, file_extension: opt_view(self.file_extension), name: self.name@ }
    }
}

impl UserFile {
    /// The access time, as the file system reported it.
    pub closed spec fn spec_accessed(&self) -> Option<std::time::SystemTime> {
        self.accessed
    }

    /// The modification time, as the file system reported it.
    pub closed spec fn spec_last_modified(&self) -> Option<std::time::SystemTime> {
        self.last_modified
    }

    /// Assembles a file from what was read of it.
    pub fn from_parts(
        data: Vec<u8>,
        file_extension: Option<String>,
        name: String,
        accessed: Option<std::time::SystemTime>,
        last_modified: Option<std::time::SystemTime>,
    ) -> (res: Self)
        ensures
            res@ == (UserFileView { data: data@, file_extension: opt_view(file_extension), name: name@ }),
            res.spec_accessed() == accessed,
            res.spec_last_modified() == last_modified,
    {
        UserFile { data, file_extension, name, accessed, last_modified }
    }

    /// The contents of the file.
    pub fn data(&self) -> (res: &Vec<u8>)
        ensures
            res@ == self@.data,
    {
        &self.data
    }

    /// The extension of the file, if its name has one.
    pub fn file_extension(&self) -> (res: Option<&str>)
        ensures
            match res {
                Some(e) => self@.file_extension == Some(e@),
                None => self@.file_extension is None,
            },
    {
        match &self.file_extension {
            Some(e) => Some(e.as_str()),
            None => None,
        }
    }

    /// The name of the file.
    pub fn name(&self) -> (res: &str)
        ensures
            res@ == self@.name,
    {
        self.name.as_str()
    }

    /// The time the file was last accessed, where it was known.
    pub fn accessed(&self) -> (res: Option<std::time::SystemTime>)
        ensures
            res == self.spec_accessed(),
    {
        self.accessed
    }

    /// The time the file was last modified, where it was known.
    pub fn last_modified(&self) -> (res: Option<std::time::SystemTime>)
        ensures
            res == self.spec_last_modified(),
    {
        self.last_modified
    }
}

/// A message with a file.
#[derive(Debug, Clone)]
pub struct FileTransfer {
    msg: Message,
    file: UserFile,
}

impl FileTransfer {
    /// The message that comes with the file.
    pub closed spec fn spec_msg(&self) -> Message {
        self.msg
    }

    /// The file.
    pub closed spec fn spec_file(&self) -> UserFile {
        self.file
    }

    /// Creates a new file transfer.
    pub fn new(msg: Message, file: UserFile) -> (res: Self)
        ensures
            res.spec_msg() == msg,
            res.spec_file() == file,
    {
        FileTransfer { msg, file }
    }

    /// A reference to the inner file.
    pub fn get_file(&self) -> (res: &UserFile)
        ensures
            *res == self.spec_file(),
    {
        &self.file
    }

    /// A reference to the inner message.
    pub fn get_message(&self) -> (res: &Message)
        ensures
            *res == self.spec_msg(),
    {
        &self.msg
    }

    /// The transfer as it is shown: the text of its message.
    pub fn display_text(&self) -> (res: String)
        ensures
            res@ == message_text(self.spec_msg()@),
    {
        self.msg.display_text()
    }
}

/// The error when a text names no user privilege; it keeps the text.
#[derive(Debug)]
pub struct InvalidUserPrivilege<'a>(&'a str);

impl<'a> InvalidUserPrivilege<'a> {
    /// The text that named no privilege.
    pub closed spec fn spec_value(&self) -> Seq<char> {
        self.0@
    }

    /// The text that named no privilege.
    pub fn value(&self) -> (res: &'a str)
        ensures
            res@ == self.spec_value(),
    {
        self.0
    }

    /// The error as it is shown: `"{value} is not a valid user privilege"`.
    pub fn display_text(&self) -> (res: String)
        ensures
            res@ == self.spec_value() + " is not a valid user privilege"@,
    {
        let mut text = self.0.to_owned();
        text.append(" is not a valid user privilege");
        text
    }
}

/// What a user can and can't do.
#[derive(Clone, Copy, Debug, PartialEq, Eq, Structural)]
pub enum UserPrivilege {
    /// only read
    ReadOnly,
    /// read + write, the default privilege
    Normal,
    /// read + write + kick + change user privilege
    Admin,
}

impl Default for UserPrivilege {
    fn default() -> (res: Self)
        ensures
            res == UserPrivilege::Normal,
    {
        UserPrivilege::Normal
    }
}

/// The name by which a privilege is written.
pub open spec fn privilege_name(p: UserPrivilege) -> Seq<char> {
    match p {
        UserPrivilege::ReadOnly => "read_only"@,
        UserPrivilege::Normal => "normal"@,
        UserPrivilege::Admin => "admin"@,
    }
}

/// The privilege that a text names, if it names one.
pub open spec fn privilege_named(s: Seq<char>) -> Option<UserPrivilege> {
    if s == "read_only"@ {
        Some(UserPrivilege::ReadOnly)
    } else if s == "normal"@ {
        Some(UserPrivilege::Normal)
    } else if s == "admin"@ {
        Some(UserPrivilege::Admin)
    } else {
        None
    }
}

/// Reading back the name of a privilege gives the privilege.
pub proof fn lemma_privilege_name_roundtrip(p: UserPrivilege)
    ensures
        privilege_named(privilege_name(p)) == Some(p),
{
    reveal_strlit("read_only");
    reveal_strlit("normal");
    reveal_strlit("admin");
    assert("read_only"@.len() == 9);
    assert("normal"@.len() == 6);
    assert("admin"@.len() == 5);
}

/// A message is shown as its sender's whole name, a colon and a space, then its
/// whole text.
pub proof fn lemma_message_text(m: MessageView)
    ensures
        message_text(m).len() == m.user.len() + 2 + m.msg.len(),
        message_text(m).take(m.user.len() as int) == m.user,
        message_text(m)[m.user.len() as int] == ':',
        message_text(m)[m.user.len() + 1int] == ' ',
        message_text(m).skip(m.user.len() + 2int) == m.msg,
{
    reveal_strlit(": ");
    let t = message_text(m);
    assert(t.take(m.user.len() as int) =~= m.user);
    assert(t.skip(m.user.len() + 2int) =~= m.msg);
}

/// Whether two texts are equal.
fn same_text(a: &str, b: &str) -> (res: bool)
    ensures
        res == (a@ == b@),
{
    let a = a.to_owned();
    let b = b.to_owned();
    a == b
}

impl UserPrivilege {
    /// The name of the privilege: `read_only`, `normal` or `admin`.
    pub fn display_text(&self) -> (res: String)
        ensures
            res@ == privilege_name(*self),
    {
        match self {
            UserPrivilege::ReadOnly => "read_only".to_owned(),
            UserPrivilege::Normal => "normal".to_owned(),
            UserPrivilege::Admin => "admin".to_owned(),
        }
    }
}

impl<'a> TryFrom<&'a str> for UserPrivilege {
    type Error = InvalidUserPrivilege<'a>;

    fn try_from(value: &'a str) -> (res: Result<Self, Self::Error>)
        ensures
            match res {
                Ok(p) => privilege_named(value@) == Some(p),
                Err(e) => privilege_named(value@) is None && e.spec_value() == value@,
            },
    {
        if same_text(value, "read_only") {
            Ok(UserPrivilege::ReadOnly)
        } else if same_text(value, "normal") {
            Ok(UserPrivilege::Normal)
        } else if same_text(value, "admin") {
            Ok(UserPrivilege::Admin)
        } else {
            Err(InvalidUserPrivilege(value))
        }
    }
}

impl<'a> vstd::std_specs::convert::TryFromSpecImpl<&'a str> for UserPrivilege {
    open spec fn obeys_try_from_spec() -> bool {
        true
    }

    closed spec fn try_from_spec(value: &'a str) -> Result<Self, InvalidUserPrivilege<'a>> {
        match privilege_named(value@) {
            Some(p) => Ok(p),
            None => Err(InvalidUserPrivilege(value)),
        }
    }
}

/// What a user is: a name and a privilege.
pub struct UserView {
    pub name: Seq<char>,
    pub privilege: UserPrivilege,
}

/// A user.
#[derive(Debug, Clone)]
pub struct User {
    /// the name of the user
    name: Username,
    /// the privilege of the user
    privilege: UserPrivilege,
}

impl View for User {
    type V = UserView;

    closed spec fn view(&self) -> UserView {
        UserView { name: self.name@, privilege: self.privilege }
    }
}

impl User {
    /// The privilege of the user.
    pub fn get_privilege(&self) -> (res: UserPrivilege)
        ensures
            res == self@.privilege,
    {
        self.privilege
    }

    /// Sets the privilege of the user.
    pub fn set_privilege(&mut self, privilege: UserPrivilege)
        ensures
            final(self)@ == (UserView { name: old(self)@.name, privilege }),
    {
        self.privilege = privilege;
    }

    /// A reference to the username of the user.
    pub fn get_username(&self) -> (res: &str)
        ensures
            res@ == self@.name,
    {
        self.name.as_str()
    }

    /// Creates a new user; without a privilege it gets the default one, `Normal`.
    pub fn new(name: &str, privilege: Option<UserPrivilege>) -> (res: Self)
        ensures
            res@.name == name@,
            res@.privilege == match privilege {
                Some(p) => p,
                None => UserPrivilege::Normal,
            },
    {
        let privilege = privilege.unwrap_or_default();
        User { name: name.to_owned(), privilege }
    }
}

/// Data which clients and the server can send to each other.
#[derive(Debug, Clone)]
pub enum Packet {
    /// client: signals that a client wants to exit
    Exit,
    /// client: signals that a client wants to join
    Join(Username),
    /// client: requests the port to connect to
    GetPort,
    /// client: asks the server to kick a certain person
    Kick(Username),
    /// client: asks the server to change the privilege of a certain user;
    /// server: with no user, change the privilege of the current user
    SetPrivilege(Option<Username>, UserPrivilege),
    /// client + server: sends a message to a client or the server
    Msg(Message),
    /// client: sends a file to other clients
    File(FileTransfer),
}

impl Packet {
    /// The inner message of a `Msg` packet; `None` for every other packet.
    pub fn get_inner_msg(&self) -> (res: Option<&Message>)
        ensures
            match self {
                Packet::Msg(m) => res == Some(m),
                _ => res is None,
            },
    {
        if let Packet::Msg(msg) = self {
            Some(msg)
        } else {
            None
        }
    }
}

} // verus!
