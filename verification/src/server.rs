//! What the chat server decides: who is connected, who may join, and what each
//! user's connection answers to the packets that reach it.
//!
//! The server keeps one [`Roster`] of connected users. For each connection it runs
//! a reader, which takes the packets that the client sends ([`route_incoming`]),
//! and a writer, which takes the packets queued for that user ([`handle_queued`]).
//! The functions here decide; the caller performs what they return (queueing,
//! writing to the socket, storing messages).
use vstd::prelude::*;
use crate::message::{FileTransfer, Message, MessageView, Packet, User, UserPrivilege, UserView};
use crate::tty_msg;

verus! {

/// Whether no name occurs twice among the entries.
pub open spec fn distinct_names<S>(entries: Seq<(String, S)>) -> bool {
    forall|i: int, j: int|
        0 <= i < j < entries.len() ==> #[trigger] entries[i].0@ != #[trigger] entries[j].0@
}

/// Whether `n` is the name of an entry.
pub open spec fn has_name<S>(entries: Seq<(String, S)>, n: Seq<char>) -> bool {
    exists|i: int| 0 <= i < entries.len() && #[trigger] entries[i].0@ == n
}

/// Where the entry of name `n` stands.
pub open spec fn slot_of<S>(entries: Seq<(String, S)>, n: Seq<char>) -> int {
    choose|i: int| 0 <= i < entries.len() && #[trigger] entries[i].0@ == n
}

/// The map from each name to the queue that was registered with it.
pub open spec fn map_of<S>(entries: Seq<(String, S)>) -> Map<Seq<char>, S> {
    Map::new(|n: Seq<char>| has_name(entries, n), |n: Seq<char>| entries[slot_of(entries, n)].1)
}

/// The entry of a name stands where the name does.
proof fn lemma_slot<S>(entries: Seq<(String, S)>, i: int)
    requires
        distinct_names(entries),
        0 <= i < entries.len(),
    ensures
        has_name(entries, entries[i].0@),
        slot_of(entries, entries[i].0@) == i,
        map_of(entries)[entries[i].0@] == entries[i].1,
{
    let n = entries[i].0@;
    assert(has_name(entries, n));
    let k = slot_of(entries, n);
    if k < i {
        assert(entries[k].0@ != entries[i].0@);
    } else if i < k {
        assert(entries[i].0@ != entries[k].0@);
    }
}

/// The users connected to the server, each name at most once and each with the
/// queue by which its connection is sent packets.
pub struct Roster<S> {
    entries: Vec<(String, S)>,
}

impl<S> Roster<S> {
    /// No name is connected twice.
    #[verifier::type_invariant]
    spec fn distinct(self) -> bool {
        distinct_names(self.entries@)
    }

    /// The connected names, in the order in which they joined.
    pub closed spec fn order(&self) -> Seq<Seq<char>> {
        self.entries@.map_values(|e: (String, S)| e.0@)
    }
}

impl<S> View for Roster<S> {
    type V = Map<Seq<char>, S>;

    /// Each connected name, with its queue.
    closed spec fn view(&self) -> Map<Seq<char>, S> {
        map_of(self.entries@)
    }
}

/// Why a connection was not registered.
#[derive(Debug, Clone, Copy, PartialEq, Eq, Structural)]
pub enum RegisterError {
    /// the first packet of the connection was no `Join`
    NotJoin,
    /// a user of that name is already connected
    NameTaken,
}

impl<S> Roster<S> {
    /// An empty roster.
    pub fn new() -> (res: Self)
        ensures
            res@ == Map::<Seq<char>, S>::empty(),
    {
        let res = Roster { entries: Vec::new() };
        assert(res@ =~= Map::<Seq<char>, S>::empty());
        res
    }

    /// Where `name` stands in the list, if it is there.
    fn position(&self, name: &str) -> (res: Option<usize>)
        ensures
            match res {
                Some(k) => k < self.entries.len() && self.entries@[k as int].0@ == name@,
                None => !has_name(self.entries@, name@),
            },
    {
        let target = name.to_owned();
        let mut i: usize = 0;
        while i < self.entries.len()
            invariant
                0 <= i <= self.entries.len(),
                target@ == name@,
                forall|j: int| 0 <= j < i ==> self.entries@[j].0@ != name@,
            decreases self.entries.len() - i,
        {
            if self.entries[i].0 == target {
                return Some(i);
            }
            i = i + 1;
        }
        None
    }

    /// Whether no user is connected.
    pub fn is_empty(&self) -> (res: bool)
        ensures
            res == (self@ == Map::<Seq<char>, S>::empty()),
    {
        let res = self.entries.len() == 0;
        if res {
            assert(self@ =~= Map::<Seq<char>, S>::empty());
        } else {
            assert(has_name(self.entries@, self.entries@[0].0@));
            assert(self@.contains_key(self.entries@[0].0@));
        }
        res
    }

    /// Whether a user of that name is connected.
    pub fn contains(&self, name: &str) -> (res: bool)
        ensures
            res == self@.contains_key(name@),
    {
        match self.position(name) {
            Some(k) => {
                assert(has_name(self.entries@, self.entries@[k as int].0@));
                true
            },
            None => false,
        }
    }

    /// The queue of the user of that name, if it is connected.
    pub fn queue_of(&self, name: &str) -> (res: Option<&S>)
        ensures
            match res {
                Some(q) => self@.contains_key(name@) && *q == self@[name@],
                None => !self@.contains_key(name@),
            },
    {
        proof {
            use_type_invariant(self);
        }
        match self.position(name) {
            Some(k) => {
                proof {
                    lemma_slot(self.entries@, k as int);
                }
                Some(&self.entries[k].1)
            },
            None => None,
        }
    }

    /// The queues of all connected users, one for each user, in the order in which
    /// they joined.
    pub fn queues(&self) -> (res: Vec<&S>)
        ensures
            res@.len() == self.order().len(),
            forall|i: int| 0 <= i < res@.len() ==> *res@[i] == self@[#[trigger] self.order()[i]],
            self.order().no_duplicates(),
            self.order().to_set() == self@.dom(),
    {
        proof {
            use_type_invariant(self);
        }
        let mut res: Vec<&S> = Vec::new();
        let mut i: usize = 0;
        while i < self.entries.len()
            invariant
                0 <= i <= self.entries.len(),
                distinct_names(self.entries@),
                res@.len() == i,
                forall|j: int| 0 <= j < i ==> *res@[j] == self.entries@[j].1,
            decreases self.entries.len() - i,
        {
            res.push(&self.entries[i].1);
            i = i + 1;
        }
        assert forall|i: int| 0 <= i < res@.len() implies *res@[i] == self@[
            #[trigger] self.order()[i]] by {
            lemma_slot(self.entries@, i);
        }
        assert(self.order().to_set() =~= self@.dom()) by {
            assert forall|n: Seq<char>| self.order().to_set().contains(n) == self@.dom().contains(n) by {
                if self@.dom().contains(n) {
                    let k = slot_of(self.entries@, n);
                    assert(self.order()[k] == n);
                }
                if self.order().to_set().contains(n) {
                    let k = choose|k: int| 0 <= k < self.order().len() && self.order()[k] == n;
                    assert(self.entries@[k].0@ == n);
                }
            }
        }
        res
    }

    /// Adds a name that is not yet there, with its queue.
    fn push_new(&mut self, name: &str, queue: S)
        requires
            !old(self)@.contains_key(name@),
        ensures
            final(self)@ == old(self)@.insert(name@, queue),
    {
        proof {
            use_type_invariant(&*self);
        }
        let ghost before = self.entries@;
        let mut entries: Vec<(String, S)> = Vec::new();
        std::mem::swap(&mut entries, &mut self.entries);
        assert(entries@ == before);
        entries.push((name.to_owned(), queue));
        let ghost after = entries@;
        assert(distinct_names(after)) by {
            assert forall|i: int, j: int| 0 <= i < j < after.len() implies #[trigger] after[i].0@
                != #[trigger] after[j].0@ by {
                if j == before.len() {
                    if after[i].0@ == name@ {
                        assert(has_name(before, before[i].0@));
                    }
                } else {
                    assert(after[i] == before[i] && after[j] == before[j]);
                }
            }
        }
        self.entries = entries;
        assert(map_of(after) =~= map_of(before).insert(name@, queue)) by {
            assert forall|n: Seq<char>| #[trigger] has_name(after, n) == (has_name(before, n) || n
                == name@) by {
                if has_name(before, n) {
                    let i = slot_of(before, n);
                    assert(after[i] == before[i]);
                }
                if n == name@ {
                    assert(after[before.len() as int].0@ == n);
                }
                if has_name(after, n) && n != name@ {
                    let i = slot_of(after, n);
                    assert(i < before.len());
                    assert(before[i] == after[i]);
                }
            }
            assert forall|n: Seq<char>| #[trigger] has_name(after, n) implies map_of(after)[n]
                == map_of(before).insert(name@, queue)[n] by {
                if n == name@ {
                    lemma_slot(after, before.len() as int);
                } else {
                    let i = slot_of(before, n);
                    lemma_slot(before, i);
                    assert(after[i] == before[i]);
                    lemma_slot(after, i);
                }
            }
        }
    }

    /// Takes a user off the roster; gives back its queue, if it was connected.
    pub fn remove(&mut self, name: &str) -> (res: Option<S>)
        ensures
            match res {
                Some(q) => old(self)@.contains_key(name@) && q == old(self)@[name@],
                None => !old(self)@.contains_key(name@),
            },
            final(self)@ == old(self)@.remove(name@),
    {
        proof {
            use_type_invariant(&*self);
        }
        match self.position(name) {
            None => {
                assert(self@ =~= old(self)@.remove(name@));
                None
            },
            Some(k) => {
                let ghost before = self.entries@;
                proof {
                    lemma_slot(before, k as int);
                }
                let mut entries: Vec<(String, S)> = Vec::new();
                std::mem::swap(&mut entries, &mut self.entries);
                assert(entries@ == before);
                let (_, queue) = entries.remove(k);
                let ghost after = entries@;
                assert(after =~= before.remove(k as int));
                assert(distinct_names(after)) by {
                    assert forall|i: int, j: int| 0 <= i < j < after.len() implies #[trigger] after[i].0@
                        != #[trigger] after[j].0@ by {
                        let oi = if i < k { i } else { i + 1 };
                        let oj = if j < k { j } else { j + 1 };
                        assert(after[i] == before[oi]);
                        assert(after[j] == before[oj]);
                    }
                }
                self.entries = entries;
                assert(map_of(after) =~= map_of(before).remove(name@)) by {
                    assert forall|n: Seq<char>| #[trigger] has_name(after, n) == (has_name(before, n)
                        && n != name@) by {
                        if has_name(after, n) {
                            let i = slot_of(after, n);
                            let oi = if i < k { i } else { i + 1 };
                            assert(after[i] == before[oi]);
                            assert(has_name(before, before[oi].0@));
                            assert(oi != k);
                            if oi < k {
                                assert(before[oi].0@ != before[k as int].0@);
                            } else {
                                assert(before[k as int].0@ != before[oi].0@);
                            }
                        }
                        if has_name(before, n) && n != name@ {
                            let oi = slot_of(before, n);
                            assert(oi != k);
                            let i = if oi < k { oi } else { oi - 1 };
                            assert(after[i] == before[oi]);
                        }
                    }
                    assert forall|n: Seq<char>| #[trigger] has_name(after, n) implies map_of(after)[n]
                        == map_of(before)[n] by {
                        let i = slot_of(after, n);
                        let oi = if i < k { i } else { i + 1 };
                        assert(after[i] == before[oi]);
                        lemma_slot(after, i);
                        lemma_slot(before, oi);
                    }
                }
                Some(queue)
            },
        }
    }

    /// Registers a new connection from its first packet, with the queue by which
    /// its user is to be sent packets. Only a `Join` registers, and only under a
    /// name that is not connected yet; the first user to join an empty server is
    /// its admin, every later one gets the default privilege.
    pub fn register(&mut self, first: &Packet, queue: S) -> (res: Result<User, RegisterError>)
        ensures
            match register_result(old(self)@.dom(), *first) {
                Ok(u) => res matches Ok(user) && user@ == u,
                Err(e) => res == Err::<User, RegisterError>(e),
            },
            final(self)@ == roster_after_register(old(self)@, *first, queue),
    {
        match first {
            Packet::Join(name) => {
                let mut user = User::new(name.as_str(), None);
                if self.is_empty() {
                    assert(old(self)@.dom() =~= Set::<Seq<char>>::empty());
                    user.set_privilege(UserPrivilege::Admin);
                } else {
                    assert(old(self)@.dom() != Set::<Seq<char>>::empty()) by {
                        if old(self)@.dom() == Set::<Seq<char>>::empty() {
                            assert(old(self)@ =~= Map::<Seq<char>, S>::empty());
                        }
                    }
                }
                if self.contains(name.as_str()) {
                    return Err(RegisterError::NameTaken);
                }
                self.push_new(name.as_str(), queue);
                Ok(user)
            },
            _ => Err(RegisterError::NotJoin),
        }
    }

    /// Registers a new connection of the `tty_msg` protocol from its first packet,
    /// under the same rules as [`Roster::register`]: only a `Join` registers, only
    /// under a name that is not connected yet, and the first user is the admin.
    pub fn register_tty(&mut self, first: &tty_msg::Packet, queue: S) -> (res: Result<tty_msg::User, RegisterError>)
        ensures
            match first {
                tty_msg::Packet::Join(name) => if old(self)@.contains_key(name@) {
                    &&& res == Err::<tty_msg::User, RegisterError>(RegisterError::NameTaken)
                    &&& final(self)@ == old(self)@
                } else {
                    &&& res matches Ok(user) && user@.name == name@ && user@.privelige == if old(self)@.dom()
                        == Set::<Seq<char>>::empty() {
                        tty_msg::UserPrivelige::Admin
                    } else {
                        tty_msg::UserPrivelige::Normal
                    }
                    &&& final(self)@ == old(self)@.insert(name@, queue)
                },
                _ => {
                    &&& res == Err::<tty_msg::User, RegisterError>(RegisterError::NotJoin)
                    &&& final(self)@ == old(self)@
                },
            },
    {
        match first {
            tty_msg::Packet::Join(name) => {
                let mut user = tty_msg::User::new(name.clone(), None);
                if self.is_empty() {
                    assert(old(self)@.dom() =~= Set::<Seq<char>>::empty());
                    user.set_privelige(tty_msg::UserPrivelige::Admin);
                } else {
                    assert(old(self)@.dom() != Set::<Seq<char>>::empty()) by {
                        if old(self)@.dom() == Set::<Seq<char>>::empty() {
                            assert(old(self)@ =~= Map::<Seq<char>, S>::empty());
                        }
                    }
                }
                if self.contains(name.as_str()) {
                    return Err(RegisterError::NameTaken);
                }
                self.push_new(name.as_str(), queue);
                Ok(user)
            },
            _ => Err(RegisterError::NotJoin),
        }
    }
}

/// What registering a connection whose first packet is `first` gives, where the
/// names in `connected` are connected: the new user, or why there is none.
pub open spec fn register_result(connected: Set<Seq<char>>, first: Packet) -> Result<UserView, RegisterError> {
    match first {
        Packet::Join(name) => if connected.contains(name@) {
            Err(RegisterError::NameTaken)
        } else {
            Ok(joined_user(connected, name@))
        },
        _ => Err(RegisterError::NotJoin),
    }
}

/// The roster after registering a connection whose first packet is `first`, with
/// the queue `queue`.
pub open spec fn roster_after_register<S>(roster: Map<Seq<char>, S>, first: Packet, queue: S) -> Map<Seq<char>, S> {
    match first {
        Packet::Join(name) => if roster.contains_key(name@) {
            roster
        } else {
            roster.insert(name@, queue)
        },
        _ => roster,
    }
}

/// A name is connected at most once: once a join under a name succeeded, a second
/// join under the same name is refused, and the name keeps its first queue.
pub proof fn lemma_second_join_refused<S>(roster: Map<Seq<char>, S>, first: Packet, queue: S, other: S)
    requires
        register_result(roster.dom(), first) is Ok,
    ensures
        register_result(roster_after_register(roster, first, queue).dom(), first) == Err::<UserView, RegisterError>(
            RegisterError::NameTaken,
        ),
        roster_after_register(roster_after_register(roster, first, queue), first, other)
            == roster_after_register(roster, first, queue),
{
}

/// The first user to join an empty server becomes its admin; a user who joins a
/// server where somebody is connected gets the default privilege.
pub proof fn lemma_first_user_is_admin(connected: Set<Seq<char>>, first: Packet)
    requires
        first is Join,
        !connected.contains(first->Join_0@),
    ensures
        register_result(connected, first) matches Ok(u) && u.name == first->Join_0@ && (u.privilege
            == UserPrivilege::Admin <==> connected == Set::<Seq<char>>::empty()),
{
}

/// A connection that does not start with `Join` is never registered, and leaves
/// the roster as it was.
pub proof fn lemma_join_required<S>(roster: Map<Seq<char>, S>, first: Packet, queue: S)
    requires
        !(first is Join),
    ensures
        register_result(roster.dom(), first) == Err::<UserView, RegisterError>(RegisterError::NotJoin),
        roster_after_register(roster, first, queue) == roster,
{
}

/// Once a user is taken off the roster (it left or was kicked), its name can be
/// joined under again.
pub proof fn lemma_removed_name_free<S>(roster: Map<Seq<char>, S>, first: Packet)
    requires
        first is Join,
    ensures
        register_result(roster.remove(first->Join_0@).dom(), first) is Ok,
{
}

/// The user that a join under `name` makes: the admin when nobody was connected,
/// a user of the default privilege otherwise.
pub open spec fn joined_user(roster: Set<Seq<char>>, name: Seq<char>) -> UserView {
    UserView {
        name,
        privilege: if roster == Set::<Seq<char>>::empty() {
            UserPrivilege::Admin
        } else {
            UserPrivilege::Normal
        },
    }
}

/// A message from the server.
pub open spec fn server_says(text: Seq<char>) -> MessageView {
    MessageView { user: "server"@, msg: text }
}

/// The text with which the server answers `GetPort`.
pub open spec fn port_text(port: u16) -> Seq<char> {
    "port = "@ + decimal(port as nat)
}

/// The text by which the server says that no user of that name is connected.
pub open spec fn missing_user_text(name: Seq<char>) -> Seq<char> {
    name + " doesn't exist"@
}

/// The character of a decimal digit.
pub open spec fn digit_char(d: nat) -> char {
    if d == 0 {
        '0'
    } else if d == 1 {
        '1'
    } else if d == 2 {
        '2'
    } else if d == 3 {
        '3'
    } else if d == 4 {
        '4'
    } else if d == 5 {
        '5'
    } else if d == 6 {
        '6'
    } else if d == 7 {
        '7'
    } else if d == 8 {
        '8'
    } else {
        '9'
    }
}

/// A number written in decimal, without leading zeros.
pub open spec fn decimal(n: nat) -> Seq<char>
    decreases n,
{
    if n < 10 {
        seq![digit_char(n)]
    } else {
        decimal(n / 10) + seq![digit_char(n % 10)]
    }
}

/// The number that a text of decimal digits denotes.
pub open spec fn decimal_value(s: Seq<char>) -> int
    decreases s.len(),
{
    if s.len() == 0 {
        0
    } else {
        decimal_value(s.drop_last()) * 10 + (s.last() as int - '0' as int)
    }
}

/// Whether a character is a decimal digit.
pub open spec fn is_digit(c: char) -> bool {
    '0' as int <= c as int <= '9' as int
}

proof fn lemma_digit_char(d: nat)
    requires
        d < 10,
    ensures
        digit_char(d) as int - '0' as int == d,
        is_digit(digit_char(d)),
{
    assert('0' as int == 48 && '1' as int == 49 && '2' as int == 50 && '3' as int == 51 && '4' as int == 52
        && '5' as int == 53 && '6' as int == 54 && '7' as int == 55 && '8' as int == 56 && '9' as int
        == 57);
}

/// A number is written with decimal digits that denote it, the first of which is
/// no `0` unless the number is 0.
pub proof fn lemma_decimal(n: nat)
    ensures
        decimal(n).len() > 0,
        forall|i: int| 0 <= i < decimal(n).len() ==> is_digit(#[trigger] decimal(n)[i]),
        decimal_value(decimal(n)) == n,
        n > 0 ==> decimal(n)[0] != '0',
    decreases n,
{
    if n < 10 {
        lemma_digit_char(n);
        let s = decimal(n);
        assert(s.drop_last() =~= Seq::<char>::empty());
        assert(decimal_value(s.drop_last()) == 0);
        assert(decimal_value(s) == n);
        if n > 0 {
            assert(digit_char(n) as int - '0' as int == n);
        }
    } else {
        lemma_decimal(n / 10);
        lemma_digit_char(n % 10);
        let s = decimal(n);
        assert(s.drop_last() =~= decimal(n / 10));
        assert(s.last() == digit_char(n % 10));
        assert(decimal_value(s) == decimal_value(decimal(n / 10)) * 10 + (n % 10));
        assert((n / 10) * 10 + n % 10 == n);
        assert(s[0] == decimal(n / 10)[0]);
    }
}

/// The text of one decimal digit.
fn digit_text(d: u16) -> (res: String)
    requires
        d < 10,
    ensures
        res@ == seq![digit_char(d as nat)],
{
    proof {
        reveal_strlit("0");
        reveal_strlit("1");
        reveal_strlit("2");
        reveal_strlit("3");
        reveal_strlit("4");
        reveal_strlit("5");
        reveal_strlit("6");
        reveal_strlit("7");
        reveal_strlit("8");
        reveal_strlit("9");
    }
    let s = if d == 0 {
        "0"
    } else if d == 1 {
        "1"
    } else if d == 2 {
        "2"
    } else if d == 3 {
        "3"
    } else if d == 4 {
        "4"
    } else if d == 5 {
        "5"
    } else if d == 6 {
        "6"
    } else if d == 7 {
        "7"
    } else if d == 8 {
        "8"
    } else {
        "9"
    };
    let res = s.to_owned();
    assert(res@ =~= seq![digit_char(d as nat)]);
    res
}

/// A number written in decimal.
pub fn decimal_text(n: u16) -> (res: String)
    ensures
        res@ == decimal(n as nat),
    decreases n,
{
    if n < 10 {
        digit_text(n)
    } else {
        let mut text = decimal_text(n / 10);
        let last = digit_text(n % 10);
        text.append(last.as_str());
        text
    }
}

/// A packet with a message from the server.
fn from_server(text: &str) -> (res: Packet)
    ensures
        res matches Packet::Msg(m) && m@ == server_says(text@),
{
    Packet::Msg(Message::new("server", text))
}

/// What the server tells a user who asks for the port.
pub fn port_message(port: u16) -> (res: Packet)
    ensures
        res matches Packet::Msg(m) && m@ == server_says(port_text(port)),
{
    let mut text = "port = ".to_owned();
    let number = decimal_text(port);
    text.append(number.as_str());
    from_server(text.as_str())
}

/// What the server tells a user who was kicked.
pub fn kick_message() -> (res: Packet)
    ensures
        res matches Packet::Msg(m) && m@ == server_says("you have been kicked!"@),
{
    from_server("you have been kicked!")
}

/// What the server tells a user who may not kick.
pub fn no_kick_permission_message() -> (res: Packet)
    ensures
        res matches Packet::Msg(m) && m@ == server_says("you don't have premision to kick people"@),
{
    from_server("you don't have premision to kick people")
}

/// What the server tells a user who may not change the privilege of others.
pub fn no_change_privilege_permission_message() -> (res: Packet)
    ensures
        res matches Packet::Msg(m) && m@ == server_says(
            "you don't have the premision to change the privilege of other users"@,
        ),
{
    from_server("you don't have the premision to change the privilege of other users")
}

/// What the server tells a user who tries to change their own privilege.
pub fn cant_change_own_privilege_message() -> (res: Packet)
    ensures
        res matches Packet::Msg(m) && m@ == server_says("you can't change your own premision"@),
{
    from_server("you can't change your own premision")
}

/// What the server tells a user who names a user that is not connected.
pub fn missing_user_message(name: &str) -> (res: Packet)
    ensures
        res matches Packet::Msg(m) && m@ == server_says(missing_user_text(name@)),
{
    let mut text = name.to_owned();
    text.append(" doesn't exist");
    from_server(text.as_str())
}

/// A stored message as it is replayed to a user who joins: the user's own
/// messages are shown as sent by `me`.
pub fn history_packet(user: &str, message: &str, me: &str) -> (res: Packet)
    ensures
        res matches Packet::Msg(m) && m@ == (MessageView {
            user: if user@ == me@ {
                "me"@
            } else {
                user@
            },
            msg: message@,
        }),
{
    let own = user.to_owned() == me.to_owned();
    if own {
        Packet::Msg(Message::new("me", message))
    } else {
        Packet::Msg(Message::new(user, message))
    }
}

/// What the server tells a user who may only read and tried to send.
pub fn no_send_permission_message() -> (res: Packet)
    ensures
        res matches Packet::Msg(m) && m@ == server_says("you don't have premission to send messages"@),
{
    from_server("you don't have premission to send messages")
}

/// What the reader of a connection does with a packet that its client sent.
#[derive(Debug)]
pub enum ReaderAction {
    /// queue the packet for every connected user (a message is also stored)
    Broadcast,
    /// queue this answer for the sender itself
    Answer(Packet),
    /// queue the packet for the sender's own writer
    Queue,
}

/// What the reader of a connection does with a packet that its client, of
/// privilege `privilege`, sent.
///
/// - A message or a file goes to every connected user, unless the sender may only
///   read: then the sender is told that it may not send.
/// - A client may not set its own privilege: it is told so.
/// - Every other packet goes to the client's own writer.
pub fn route_incoming(packet: &Packet, privilege: UserPrivilege) -> (res: ReaderAction)
    ensures
        match packet {
            Packet::Msg(_) | Packet::File(_) => if privilege == UserPrivilege::ReadOnly {
                res matches ReaderAction::Answer(Packet::Msg(m)) && m@ == server_says(
                    "you don't have premission to send messages"@,
                )
            } else {
                res is Broadcast
            },
            Packet::SetPrivilege(None, _) => res matches ReaderAction::Answer(Packet::Msg(m)) && m@
                == server_says("you can't change your own premision"@),
            _ => res is Queue,
        },
{
    match packet {
        Packet::Msg(_) | Packet::File(_) => {
            if privilege == UserPrivilege::ReadOnly {
                ReaderAction::Answer(no_send_permission_message())
            } else {
                ReaderAction::Broadcast
            }
        },
        Packet::SetPrivilege(None, _) => ReaderAction::Answer(cant_change_own_privilege_message()),
        _ => ReaderAction::Queue,
    }
}

/// What the writer of a connection does with a packet queued for its user.
#[derive(Debug)]
pub enum WriterAction<S> {
    /// stop writing to this user
    Stop,
    /// nothing to send
    Nothing,
    /// send this answer to the user
    Answer(Packet),
    /// send the queued packet itself to the user
    Deliver,
    /// the kicked user was taken off the roster: queue these packets, in order,
    /// on its queue
    Kick(S, Vec<Packet>),
    /// queue this packet on this queue, a clone of another user's queue
    Forward(S, Packet),
}

/// The packets that a kicked user is sent, in order: the kick message, then
/// `Exit`, which ends that user's writer.
pub open spec fn kick_packets(sends: Seq<Packet>) -> bool {
    &&& sends.len() == 2
    &&& sends[0] matches Packet::Msg(m) && m@ == server_says("you have been kicked!"@)
    &&& sends[1] is Exit
}

/// The sender of a message or of a file.
pub open spec fn sent_by(packet: Packet) -> Seq<char> {
    match packet {
        Packet::Msg(m) => m@.user,
        Packet::File(t) => t.spec_msg()@.user,
        _ => Seq::empty(),
    }
}

/// What the writer of `me`'s connection does with a packet queued for `me`.
///
/// - `Exit` stops the writer; `Join` is ignored; `GetPort` is answered with the port.
/// - `Kick(u)`: only an admin may kick; a connected `u` is taken off the roster and
///   sent the kick message and `Exit` on its queue, otherwise the admin is told
///   that `u` does not exist.
/// - `SetPrivilege(None, p)` sets `me`'s own privilege to `p` (it comes from an
///   admin); `SetPrivilege(Some(u), p)` from an admin is forwarded on `u`'s queue
///   as `SetPrivilege(None, p)`, unless `u` is `me` or not connected.
/// - A message or a file is delivered unless `me` sent it: clients show their own.
pub fn handle_queued<S: Clone>(me: &mut User, roster: &mut Roster<S>, packet: &Packet, port: u16) -> (res:
    WriterAction<S>)
    ensures
        match packet {
            Packet::Exit => res is Stop && final(me)@ == old(me)@ && final(roster)@ == old(roster)@,
            Packet::Join(_) => res is Nothing && final(me)@ == old(me)@ && final(roster)@ == old(
                roster,
            )@,
            Packet::GetPort => res matches WriterAction::Answer(Packet::Msg(m)) && m@ == server_says(
                port_text(port),
            ) && final(me)@ == old(me)@ && final(roster)@ == old(roster)@,
            Packet::Kick(u) => final(me)@ == old(me)@ && if old(me)@.privilege != UserPrivilege::Admin {
                &&& res matches WriterAction::Answer(Packet::Msg(m)) && m@ == server_says(
                    "you don't have premision to kick people"@,
                )
                &&& final(roster)@ == old(roster)@
            } else if !old(roster)@.contains_key(u@) {
                &&& res matches WriterAction::Answer(Packet::Msg(m)) && m@ == server_says(
                    missing_user_text(u@),
                )
                &&& final(roster)@ == old(roster)@
            } else {
                &&& res matches WriterAction::Kick(q, sends) && q == old(roster)@[u@] && kick_packets(
                    sends@,
                )
                &&& final(roster)@ == old(roster)@.remove(u@)
            },
            Packet::SetPrivilege(None, p) => res is Nothing && final(me)@ == (UserView {
                name: old(me)@.name,
                privilege: *p,
            }) && final(roster)@ == old(roster)@,
            Packet::SetPrivilege(Some(u), p) => final(me)@ == old(me)@ && final(roster)@ == old(
                roster,
            )@ && if old(me)@.privilege != UserPrivilege::Admin {
                res matches WriterAction::Answer(Packet::Msg(m)) && m@ == server_says(
                    "you don't have the premision to change the privilege of other users"@,
                )
            } else if u@ == old(me)@.name {
                res matches WriterAction::Answer(Packet::Msg(m)) && m@ == server_says(
                    "you can't change your own premision"@,
                )
            } else if !old(roster)@.contains_key(u@) {
                res matches WriterAction::Answer(Packet::Msg(m)) && m@ == server_says(
                    missing_user_text(u@),
                )
            } else {
                res matches WriterAction::Forward(q, Packet::SetPrivilege(None, r)) && cloned(
                    old(roster)@[u@],
                    q,
                ) && r == *p
            },
            Packet::Msg(m) => final(me)@ == old(me)@ && final(roster)@ == old(roster)@ && if m@.user
                == old(me)@.name {
                res is Nothing
            } else {
                res is Deliver
            },
            Packet::File(t) => final(me)@ == old(me)@ && final(roster)@ == old(roster)@ && if t.spec_msg()@.user
                == old(me)@.name {
                res is Nothing
            } else {
                res is Deliver
            },
        },
{
    match packet {
        Packet::Exit => WriterAction::Stop,
        Packet::Join(_) => WriterAction::Nothing,
        Packet::GetPort => WriterAction::Answer(port_message(port)),
        Packet::Kick(u) => {
            if me.get_privilege() != UserPrivilege::Admin {
                return WriterAction::Answer(no_kick_permission_message());
            }
            match roster.remove(u.as_str()) {
                Some(queue) => {
                    let mut sends: Vec<Packet> = Vec::new();
                    sends.push(kick_message());
                    sends.push(Packet::Exit);
                    WriterAction::Kick(queue, sends)
                },
                None => WriterAction::Answer(missing_user_message(u.as_str())),
            }
        },
        Packet::SetPrivilege(None, p) => {
            me.set_privilege(*p);
            WriterAction::Nothing
        },
        Packet::SetPrivilege(Some(u), p) => {
            if me.get_privilege() != UserPrivilege::Admin {
                return WriterAction::Answer(no_change_privilege_permission_message());
            }
            if *u == me.get_username().to_owned() {
                return WriterAction::Answer(cant_change_own_privilege_message());
            }
            match roster.queue_of(u.as_str()) {
                Some(queue) => WriterAction::Forward(queue.clone(), Packet::SetPrivilege(None, *p)),
                None => WriterAction::Answer(missing_user_message(u.as_str())),
            }
        },
        Packet::Msg(m) => {
            if m.get_username().to_owned() == me.get_username().to_owned() {
                WriterAction::Nothing
            } else {
                WriterAction::Deliver
            }
        },
        Packet::File(t) => {
            if t.get_message().get_username().to_owned() == me.get_username().to_owned() {
                WriterAction::Nothing
            } else {
                WriterAction::Deliver
            }
        },
    }
}

/// The sender of a message is the user named in it, and the sender of a file is
/// the user named in the message that comes with it.
pub proof fn lemma_sent_by(m: Message, t: FileTransfer)
    ensures
        sent_by(Packet::Msg(m)) == m@.user,
        sent_by(Packet::File(t)) == t.spec_msg()@.user,
{
}

} // verus!
