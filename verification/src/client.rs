//! What the terminal client decides about the lines that its user types and the
//! messages that it receives.
//!
//! A typed line is split into words. A line whose first word is a command
//! (`/exit`, `/getport`, `/kick <user>`, `/set_privilege <user> <privilege>`,
//! `/file`) becomes that command; any other line is sent as a chat message, and
//! only such lines are echoed in the user's own window.
use vstd::prelude::*;
use crate::message::{
    lemma_privilege_name_roundtrip, message_text, privilege_name, privilege_named, Message, MessageView,
    Packet, UserPrivilege,
};

verus! {

/// The words of a text, as `str::split_whitespace` cuts them: the maximal runs of
/// characters that are not Unicode white space, in order.
pub uninterp spec fn whitespace_words(s: Seq<char>) -> Seq<Seq<char>>;

/// The views of a list of words.
pub open spec fn views(words: Seq<&str>) -> Seq<Seq<char>> {
    words.map_values(|w: &str| w@)
}

/// Whether a character has the Unicode `White_Space` property, by which
/// `char::is_whitespace` and `str::split_whitespace` go.
pub open spec fn white_space(c: char) -> bool {
    let n = c as u32;
    (0x9 <= n && n <= 0xD) || n == 0x20 || n == 0x85 || n == 0xA0 || n == 0x1680 || (0x2000 <= n
        && n <= 0x200A) || n == 0x2028 || n == 0x2029 || n == 0x202F || n == 0x205F || n == 0x3000
}

/// Whether a text is made of white space only (an empty text is).
pub open spec fn blank(s: Seq<char>) -> bool {
    forall|i: int| 0 <= i < s.len() ==> white_space(#[trigger] s[i])
}

/// Calls `str::split_whitespace` and collects its words in order. Its contract
/// claims what std documents: the words are `whitespace_words` of the text; each
/// is a non-empty run of characters without white space; and a text yields no
/// words exactly when it is empty or all white space. Which runs they are is left
/// to the name.
#[verifier::external_body]
fn split_whitespace(s: &str) -> (res: Vec<&str>)
    ensures
        views(res@) == whitespace_words(s@),
        forall|i: int| 0 <= i < res@.len() ==> (#[trigger] res@[i])@.len() > 0,
        forall|i: int, j: int|
            0 <= i < res@.len() && 0 <= j < res@[i]@.len() ==> !white_space(#[trigger] res@[i]@[j]),
        res@.len() == 0 <==> blank(s@),
{
    s.split_whitespace().collect()
}

/// Whether a typed line, cut into words, is shown in the user's own window:
/// every line but a command.
pub open spec fn displayed(words: Seq<Seq<char>>) -> bool {
    let first = words[0];
    !(first == "/exit"@ || first == "/getport"@ || first == "/file"@ || (first == "/kick"@
        && words.len() == 2) || (first == "/set_privilege"@ && words.len() == 3))
}

/// What a typed line asks for.
pub enum LineKind {
    /// leave the server
    Exit,
    /// ask for the port
    GetPort,
    /// kick the named user
    Kick(Seq<char>),
    /// set the privilege of the named user
    SetPrivilege(Seq<char>, UserPrivilege),
    /// a privilege that does not exist was named; the text is the error shown
    Refuse(Seq<char>),
    /// choose a file to send
    ChooseFile,
    /// send the line as a chat message
    Chat,
}

/// What a typed line, cut into words, asks for.
pub open spec fn line_kind(words: Seq<Seq<char>>) -> LineKind {
    let first = words[0];
    if first == "/exit"@ {
        LineKind::Exit
    } else if first == "/getport"@ {
        LineKind::GetPort
    } else if first == "/kick"@ && words.len() == 2 {
        LineKind::Kick(words[1])
    } else if first == "/set_privilege"@ && words.len() == 3 {
        match privilege_named(words[2]) {
            Some(p) => LineKind::SetPrivilege(words[1], p),
            None => LineKind::Refuse("error: "@ + words[2] + " is not a valid user privilege"@),
        }
    } else if first == "/file"@ {
        LineKind::ChooseFile
    } else {
        LineKind::Chat
    }
}

/// What the client does with a typed line.
#[derive(Debug)]
pub enum ClientCommand {
    /// send this packet to the server
    Send(Packet),
    /// show this error and send nothing
    Refuse(String),
    /// ask the user for a file and a message to send with it
    ChooseFile,
}

/// Whether the command carries out the kind of line for a user.
pub open spec fn carries_out(cmd: ClientCommand, kind: LineKind, line: Seq<char>, username: Seq<char>) -> bool {
    match kind {
        LineKind::Exit => cmd matches ClientCommand::Send(Packet::Exit),
        LineKind::GetPort => cmd matches ClientCommand::Send(Packet::GetPort),
        LineKind::Kick(u) => cmd matches ClientCommand::Send(Packet::Kick(k)) && k@ == u,
        LineKind::SetPrivilege(u, p) => cmd matches ClientCommand::Send(
            Packet::SetPrivilege(Some(k), q),
        ) && k@ == u && q == p,
        LineKind::Refuse(text) => cmd matches ClientCommand::Refuse(t) && t@ == text,
        LineKind::ChooseFile => cmd is ChooseFile,
        LineKind::Chat => cmd matches ClientCommand::Send(Packet::Msg(m)) && m@ == (MessageView {
            user: username,
            msg: line,
        }),
    }
}

/// Whether a word is the given text.
fn word_is(word: &str, text: &str) -> (res: bool)
    ensures
        res == (word@ == text@),
{
    word.to_owned() == text.to_owned()
}

/// Decides whether a typed line, cut into words, is shown in the user's own
/// window: commands are not shown.
pub fn should_display_text(split_text: &[&str]) -> (res: bool)
    requires
        split_text@.len() > 0,
    ensures
        res == displayed(views(split_text@)),
        split_text@[0]@ == "/exit"@ || split_text@[0]@ == "/getport"@ || split_text@[0]@ == "/file"@
            ==> !res,
        split_text@[0]@ == "/kick"@ && split_text@.len() == 2 ==> !res,
        split_text@[0]@ == "/set_privilege"@ && split_text@.len() == 3 ==> !res,
        split_text@[0]@ != "/exit"@ && split_text@[0]@ != "/getport"@ && split_text@[0]@ != "/file"@
            && split_text@[0]@ != "/kick"@ && split_text@[0]@ != "/set_privilege"@ ==> res,
{
    proof {
        lemma_command_words_differ();
    }
    let len = split_text.len();
    let first = split_text[0];
    assert(views(split_text@)[0] == first@);
    if word_is(first, "/exit") || word_is(first, "/getport") || word_is(first, "/file") {
        false
    } else if word_is(first, "/kick") && len == 2 {
        false
    } else if word_is(first, "/set_privilege") && len == 3 {
        false
    } else {
        true
    }
}

/// What the client does with a typed line of user `username`, cut into words.
pub fn command_for(words: &[&str], line: &str, username: &str) -> (res: ClientCommand)
    requires
        words@.len() > 0,
    ensures
        carries_out(res, line_kind(views(words@)), line@, username@),
        words@[0]@ == "/exit"@ ==> res matches ClientCommand::Send(Packet::Exit),
        words@[0]@ == "/getport"@ ==> res matches ClientCommand::Send(Packet::GetPort),
        words@[0]@ == "/file"@ ==> res is ChooseFile,
        words@[0]@ == "/kick"@ && words@.len() == 2 ==> (res matches ClientCommand::Send(
            Packet::Kick(k),
        ) && k@ == words@[1]@),
        words@[0]@ == "/set_privilege"@ && words@.len() == 3 ==> match privilege_named(words@[2]@) {
            Some(p) => res matches ClientCommand::Send(Packet::SetPrivilege(Some(k), q)) && k@
                == words@[1]@ && q == p,
            None => res matches ClientCommand::Refuse(t) && t@ == "error: "@ + words@[2]@
                + " is not a valid user privilege"@,
        },
        words@[0]@ != "/exit"@ && words@[0]@ != "/getport"@ && words@[0]@ != "/file"@ && words@[0]@
            != "/kick"@ && words@[0]@ != "/set_privilege"@ ==> (res matches ClientCommand::Send(
            Packet::Msg(m),
        ) && m@ == (MessageView { user: username@, msg: line@ })),
{
    proof {
        lemma_command_words_differ();
    }
    let len = words.len();
    let ghost w = views(words@);
    assert(w[0] == words@[0]@);
    let first = words[0];
    if word_is(first, "/exit") {
        ClientCommand::Send(Packet::Exit)
    } else if word_is(first, "/getport") {
        ClientCommand::Send(Packet::GetPort)
    } else if word_is(first, "/kick") && len == 2 {
        assert(w[1] == words@[1]@);
        ClientCommand::Send(Packet::Kick(words[1].to_owned()))
    } else if word_is(first, "/set_privilege") && len == 3 {
        assert(w[1] == words@[1]@);
        assert(w[2] == words@[2]@);
        match UserPrivilege::try_from(words[2]) {
            Ok(p) => ClientCommand::Send(Packet::SetPrivilege(Some(words[1].to_owned()), p)),
            Err(e) => {
                let mut text = "error: ".to_owned();
                let shown = e.display_text();
                text.append(shown.as_str());
                assert(text@ =~= "error: "@ + w[2] + " is not a valid user privilege"@);
                ClientCommand::Refuse(text)
            },
        }
    } else if word_is(first, "/file") {
        ClientCommand::ChooseFile
    } else {
        ClientCommand::Send(Packet::Msg(Message::new(username, line)))
    }
}

/// What the client does with a typed line of user `username`; `None` for a line
/// of white space only, which is ignored.
pub fn plan_line(line: &str, username: &str) -> (res: Option<ClientCommand>)
    ensures
        res is None <==> blank(line@),
        match res {
            Some(cmd) => whitespace_words(line@).len() > 0 && carries_out(
                cmd,
                line_kind(whitespace_words(line@)),
                line@,
                username@,
            ),
            None => whitespace_words(line@).len() == 0,
        },
{
    let words = split_whitespace(line);
    if words.len() == 0 {
        None
    } else {
        Some(command_for(words.as_slice(), line, username))
    }
}

/// Whether a typed line is shown in the user's own window; `None` for a line of
/// white space only, which is ignored.
pub fn display_line(line: &str) -> (res: Option<bool>)
    ensures
        res is None <==> blank(line@),
        match res {
            Some(shown) => whitespace_words(line@).len() > 0 && shown == displayed(
                whitespace_words(line@),
            ),
            None => whitespace_words(line@).len() == 0,
        },
{
    let words = split_whitespace(line);
    if words.len() == 0 {
        None
    } else {
        Some(should_display_text(words.as_slice()))
    }
}

/// The line that the client shows for a line that its user sent: `"me: {line}\n"`.
pub fn own_line(line: &str) -> (res: String)
    ensures
        res@ == "me: "@ + line@ + "\n"@,
{
    let mut text = "me: ".to_owned();
    text.append(line);
    text.append("\n");
    text
}

/// The line that the client shows for a message it received: the sender's name,
/// then the message as it is shown (which names the sender again).
pub fn received_line(m: &Message) -> (res: String)
    ensures
        res@ == m@.user + ": "@ + message_text(m@) + "\n"@,
{
    let mut text = m.get_username().to_owned();
    text.append(": ");
    let shown = m.display_text();
    text.append(shown.as_str());
    text.append("\n");
    text
}

/// A line is shown in the user's own window exactly when it is sent as a chat
/// message: the client shows what it sends and what other users send, never a
/// command.
pub proof fn lemma_displayed_iff_chat(words: Seq<Seq<char>>)
    requires
        words.len() > 0,
    ensures
        displayed(words) <==> line_kind(words) is Chat,
{
    reveal_strlit("/exit");
    reveal_strlit("/getport");
    reveal_strlit("/file");
    reveal_strlit("/kick");
    reveal_strlit("/set_privilege");
    assert("/exit"@.len() == 5);
    assert("/getport"@.len() == 8);
    assert("/file"@.len() == 5);
    assert("/kick"@.len() == 5);
    assert("/set_privilege"@.len() == 14);
    if words[0] == "/file"@ {
        assert(words[0] != "/exit"@) by {
            assert(words[0][1] != "/exit"@[1]);
        }
        assert(words[0] != "/kick"@) by {
            assert(words[0][1] != "/kick"@[1]);
        }
    }
}

/// The command words are five different words.
proof fn lemma_command_words_differ()
    ensures
        "/exit"@ != "/getport"@,
        "/exit"@ != "/file"@,
        "/exit"@ != "/kick"@,
        "/exit"@ != "/set_privilege"@,
        "/getport"@ != "/file"@,
        "/getport"@ != "/kick"@,
        "/getport"@ != "/set_privilege"@,
        "/file"@ != "/kick"@,
        "/file"@ != "/set_privilege"@,
        "/kick"@ != "/set_privilege"@,
{
    reveal_strlit("/exit");
    reveal_strlit("/getport");
    reveal_strlit("/file");
    reveal_strlit("/kick");
    reveal_strlit("/set_privilege");
    assert("/exit"@.len() == 5);
    assert("/getport"@.len() == 8);
    assert("/file"@.len() == 5);
    assert("/kick"@.len() == 5);
    assert("/set_privilege"@.len() == 14);
    assert("/exit"@[1] != "/file"@[1]);
    assert("/exit"@[1] != "/kick"@[1]);
    assert("/file"@[1] != "/kick"@[1]);
}

/// A line that starts with `/exit`, `/getport` or `/file` is that command, whatever
/// words follow, and is not shown in the user's own window.
pub proof fn lemma_leading_command(words: Seq<Seq<char>>)
    requires
        words.len() > 0,
    ensures
        words[0] == "/exit"@ ==> line_kind(words) is Exit && !displayed(words),
        words[0] == "/getport"@ ==> line_kind(words) is GetPort && !displayed(words),
        words[0] == "/file"@ ==> line_kind(words) is ChooseFile && !displayed(words),
{
    lemma_command_words_differ();
}

/// `/kick <user>` asks to kick exactly that user, and is not shown.
pub proof fn lemma_kick_line(u: Seq<char>)
    ensures
        line_kind(seq!["/kick"@, u]) == LineKind::Kick(u),
        !displayed(seq!["/kick"@, u]),
{
    lemma_command_words_differ();
    let w = seq!["/kick"@, u];
    assert(w[0] == "/kick"@ && w[1] == u && w.len() == 2);
}

/// `/set_privilege <user> <privilege>` with the name of a privilege asks to give
/// exactly that privilege to exactly that user, and is not shown.
pub proof fn lemma_set_privilege_line(u: Seq<char>, p: UserPrivilege)
    ensures
        line_kind(seq!["/set_privilege"@, u, privilege_name(p)]) == LineKind::SetPrivilege(u, p),
        !displayed(seq!["/set_privilege"@, u, privilege_name(p)]),
{
    lemma_command_words_differ();
    lemma_privilege_name_roundtrip(p);
    let w = seq!["/set_privilege"@, u, privilege_name(p)];
    assert(w[0] == "/set_privilege"@ && w[1] == u && w[2] == privilege_name(p) && w.len() == 3);
}

/// A three-word `/set_privilege` line whose last word names privilege `p` asks to
/// set `p` for the user named by its second word; one whose last word names no
/// privilege is refused with `error: <word> is not a valid user privilege`.
pub proof fn lemma_set_privilege_words(words: Seq<Seq<char>>)
    requires
        words.len() == 3,
        words[0] == "/set_privilege"@,
    ensures
        match privilege_named(words[2]) {
            Some(p) => line_kind(words) == LineKind::SetPrivilege(words[1], p),
            None => line_kind(words) == LineKind::Refuse(
                "error: "@ + words[2] + " is not a valid user privilege"@,
            ),
        },
        !displayed(words),
{
    lemma_command_words_differ();
}

/// Any line whose first word is no command word is a chat message, shown in the
/// user's own window, and sent with the whole line as its text.
pub proof fn lemma_chat_line(words: Seq<Seq<char>>)
    requires
        words.len() > 0,
        words[0] != "/exit"@,
        words[0] != "/getport"@,
        words[0] != "/file"@,
        words[0] != "/kick"@,
        words[0] != "/set_privilege"@,
    ensures
        line_kind(words) is Chat,
        displayed(words),
{
}

/// The views of a list of words are the words' texts, one for one and in order.
pub proof fn lemma_views(words: Seq<&str>)
    ensures
        views(words).len() == words.len(),
        forall|i: int| 0 <= i < words.len() ==> #[trigger] views(words)[i] == words[i]@,
{
}

/// Carrying out a line sends the packet it asks for with exactly the user, the
/// privilege or the text that it names: a chat line is sent whole, under the
/// user's own name.
pub proof fn lemma_carries_out(cmd: ClientCommand, kind: LineKind, line: Seq<char>, username: Seq<char>)
    requires
        carries_out(cmd, kind, line, username),
    ensures
        kind is Exit ==> cmd matches ClientCommand::Send(Packet::Exit),
        kind is GetPort ==> cmd matches ClientCommand::Send(Packet::GetPort),
        kind is ChooseFile ==> cmd is ChooseFile,
        kind matches LineKind::Kick(u) ==> (cmd matches ClientCommand::Send(Packet::Kick(k)) && k@ == u),
        kind matches LineKind::SetPrivilege(u, p) ==> (cmd matches ClientCommand::Send(
            Packet::SetPrivilege(Some(k), q),
        ) && k@ == u && q == p),
        kind matches LineKind::Refuse(text) ==> (cmd matches ClientCommand::Refuse(t) && t@ == text),
        kind is Chat ==> (cmd matches ClientCommand::Send(Packet::Msg(m)) && m@.user == username
            && m@.msg == line),
{
}

} // verus!
