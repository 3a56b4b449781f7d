//! The registry of UDP sessions.
//!
//! Datagrams of the virtual stack that share a local and a remote endpoint form
//! one session, and a session owns one real socket for as long as it lives. The
//! registry says, for each datagram, whether its session lives already or has
//! to be opened, hands each new session an identifier of its own, and forgets a
//! session when receiving from its socket has failed. The program around the
//! registry holds the sockets, one for each identifier.

use vstd::prelude::*;
use crate::endpoint::Endpoint;
use crate::framing::copy_range;

verus! {

/// Length of the buffer into which a reply of the real peer is received.
pub const REPLY_BUFFER_LEN: usize = 1024;

/// What names a session: the endpoints of the first datagram seen for it.
#[derive(Clone, Copy, Debug, PartialEq, Eq, Hash, Structural)]
pub struct SessionKey {
    pub local: Endpoint,
    pub remote: Endpoint,
}

/// A live session: its key, and the identifier of its socket.
#[derive(Clone, Copy, Debug, PartialEq, Eq, Hash, Structural)]
pub struct Session {
    pub key: SessionKey,
    pub id: u64,
}

/// Why a session cannot be registered.
#[derive(Clone, Copy, Debug, PartialEq, Eq, Structural)]
pub enum RegisterError {
    /// A session with this key lives already; its socket has to be used.
    KeyInUse,
    /// Every identifier has been handed out.
    Exhausted,
}

/// What happens to a registry.
#[derive(Clone, Copy, Debug, PartialEq, Eq, Structural)]
pub enum RegistryEvent {
    /// A socket has been opened for a key and asks to be registered.
    Register(SessionKey),
    /// Receiving from the socket with this identifier has failed.
    ReceiveError(u64),
}

/// The registry as a mathematical value: the live sessions in the order in which
/// they were registered, and the identifier that the next session gets.
pub struct Registry {
    pub sessions: Seq<Session>,
    pub next_id: u64,
}

impl Registry {
    /// The registry in which no session lives.
    pub open spec fn empty() -> Registry {
        Registry { sessions: Seq::empty(), next_id: 0 }
    }

    /// No key and no identifier occurs twice, and every identifier in use has
    /// been handed out before.
    pub open spec fn wf(self) -> bool {
        &&& forall|i: int, j: int|
            0 <= i < j < self.sessions.len() ==> (#[trigger] self.sessions[i]).key != (
            #[trigger] self.sessions[j]).key
        &&& forall|i: int, j: int|
            0 <= i < j < self.sessions.len() ==> (#[trigger] self.sessions[i]).id != (
            #[trigger] self.sessions[j]).id
        &&& forall|i: int|
            0 <= i < self.sessions.len() ==> (#[trigger] self.sessions[i]).id < self.next_id
    }

    /// Whether `session` lives.
    pub open spec fn live(self, session: Session) -> bool {
        self.sessions.contains(session)
    }

    /// Whether a session with this key lives.
    pub open spec fn has_key(self, key: SessionKey) -> bool {
        exists|i: int| 0 <= i < self.sessions.len() && (#[trigger] self.sessions[i]).key == key
    }

    /// Whether a session with this identifier lives.
    pub open spec fn has_id(self, id: u64) -> bool {
        exists|i: int| 0 <= i < self.sessions.len() && (#[trigger] self.sessions[i]).id == id
    }

    /// The place of a live session with this key.
    pub open spec fn index_of_key(self, key: SessionKey) -> int {
        choose|i: int| 0 <= i < self.sessions.len() && (#[trigger] self.sessions[i]).key == key
    }

    /// The place of a live session with this identifier.
    pub open spec fn index_of_id(self, id: u64) -> int {
        choose|i: int| 0 <= i < self.sessions.len() && (#[trigger] self.sessions[i]).id == id
    }

    /// The identifier of the live session with this key, if there is one.
    pub open spec fn route(self, key: SessionKey) -> Option<u64> {
        if self.has_key(key) {
            Some(self.sessions[self.index_of_key(key)].id)
        } else {
            None
        }
    }

    /// The registry after a socket for `key` has asked to be registered, and
    /// the answer it got: a fresh identifier, unless the key is in use or the
    /// identifiers have run out; then nothing changes.
    pub open spec fn register(self, key: SessionKey) -> (Registry, Result<u64, RegisterError>) {
        if self.has_key(key) {
            (self, Err(RegisterError::KeyInUse))
        } else if self.next_id == u64::MAX {
            (self, Err(RegisterError::Exhausted))
        } else {
            (
                Registry {
                    sessions: self.sessions.push(Session { key, id: self.next_id }),
                    next_id: (self.next_id + 1) as u64,
                },
                Ok(self.next_id),
            )
        }
    }

    /// The registry after receiving from the socket `id` has failed, and the
    /// key that became free: the session with this identifier is gone and every
    /// other session stays in its place. Where no such session lives, nothing
    /// changes.
    pub open spec fn close(self, id: u64) -> (Registry, Option<SessionKey>) {
        if self.has_id(id) {
            let i = self.index_of_id(id);
            (
                Registry { sessions: self.sessions.remove(i), next_id: self.next_id },
                Some(self.sessions[i].key),
            )
        } else {
            (self, None)
        }
    }

    /// The registry after one event.
    pub open spec fn step(self, event: RegistryEvent) -> Registry {
        match event {
            RegistryEvent::Register(key) => self.register(key).0,
            RegistryEvent::ReceiveError(id) => self.close(id).0,
        }
    }

    /// The registry after a history of events, from the empty registry.
    pub open spec fn run(events: Seq<RegistryEvent>) -> Registry
        decreases events.len(),
    {
        if events.len() == 0 {
            Registry::empty()
        } else {
            Registry::run(events.drop_last()).step(events.last())
        }
    }
}

/// Registering keeps a registry well formed.
pub proof fn register_keeps_wf(reg: Registry, key: SessionKey)
    requires
        reg.wf(),
    ensures
        reg.register(key).0.wf(),
{
    let after = reg.register(key).0;
    if !reg.has_key(key) && reg.next_id != u64::MAX {
        assert forall|i: int, j: int| 0 <= i < j < after.sessions.len() implies (
        #[trigger] after.sessions[i]).key != (#[trigger] after.sessions[j]).key by {
            if j == reg.sessions.len() {
                assert(reg.sessions[i].key != key);
            } else {
                assert(reg.sessions[i].key != reg.sessions[j].key);
            }
        }
        assert forall|i: int, j: int| 0 <= i < j < after.sessions.len() implies (
        #[trigger] after.sessions[i]).id != (#[trigger] after.sessions[j]).id by {
            if j == reg.sessions.len() {
                assert(reg.sessions[i].id < reg.next_id);
            } else {
                assert(reg.sessions[i].id != reg.sessions[j].id);
            }
        }
        assert forall|i: int| 0 <= i < after.sessions.len() implies (
        #[trigger] after.sessions[i]).id < after.next_id by {
            if i < reg.sessions.len() {
                assert(reg.sessions[i].id < reg.next_id);
            }
        }
    }
}

/// Closing keeps a registry well formed.
pub proof fn close_keeps_wf(reg: Registry, id: u64)
    requires
        reg.wf(),
    ensures
        reg.close(id).0.wf(),
{
    let after = reg.close(id).0;
    if reg.has_id(id) {
        let k = reg.index_of_id(id);
        assert forall|i: int| 0 <= i < after.sessions.len() implies #[trigger] after.sessions[i]
            == reg.sessions[if i < k {
            i
        } else {
            i + 1
        }] by {}
        assert forall|i: int, j: int| 0 <= i < j < after.sessions.len() implies (
        #[trigger] after.sessions[i]).key != (#[trigger] after.sessions[j]).key by {
            let a = if i < k { i } else { i + 1 };
            let b = if j < k { j } else { j + 1 };
            assert(reg.sessions[a].key != reg.sessions[b].key);
        }
        assert forall|i: int, j: int| 0 <= i < j < after.sessions.len() implies (
        #[trigger] after.sessions[i]).id != (#[trigger] after.sessions[j]).id by {
            let a = if i < k { i } else { i + 1 };
            let b = if j < k { j } else { j + 1 };
            assert(reg.sessions[a].id != reg.sessions[b].id);
        }
        assert forall|i: int| 0 <= i < after.sessions.len() implies (
        #[trigger] after.sessions[i]).id < after.next_id by {
            let a = if i < k { i } else { i + 1 };
            assert(reg.sessions[a].id < reg.next_id);
        }
    }
}

/// Whatever has happened to a registry, it is well formed.
pub proof fn every_history_is_wf(events: Seq<RegistryEvent>)
    ensures
        Registry::run(events).wf(),
    decreases events.len(),
{
    if events.len() > 0 {
        every_history_is_wf(events.drop_last());
        let before = Registry::run(events.drop_last());
        match events.last() {
            RegistryEvent::Register(key) => register_keeps_wf(before, key),
            RegistryEvent::ReceiveError(id) => close_keeps_wf(before, id),
        }
    }
}

/// In a well-formed registry two live sessions with one key are one session:
/// no key has more than one socket.
pub proof fn one_session_per_key(reg: Registry, first: Session, second: Session)
    requires
        reg.wf(),
        reg.live(first),
        reg.live(second),
        first.key == second.key,
    ensures
        first == second,
{
    let i = choose|i: int| 0 <= i < reg.sessions.len() && reg.sessions[i] == first;
    let j = choose|j: int| 0 <= j < reg.sessions.len() && reg.sessions[j] == second;
    if i < j {
        assert(reg.sessions[i].key != reg.sessions[j].key);
    } else if j < i {
        assert(reg.sessions[j].key != reg.sessions[i].key);
    }
}

/// After any history of registrations and receive errors, no key has more than
/// one live session, and so no more than one socket open.
pub proof fn never_two_sockets_for_one_key(
    events: Seq<RegistryEvent>,
    first: Session,
    second: Session,
)
    requires
        Registry::run(events).live(first),
        Registry::run(events).live(second),
        first.key == second.key,
    ensures
        first == second,
{
    every_history_is_wf(events);
    one_session_per_key(Registry::run(events), first, second);
}

/// In a well-formed registry the route of a key is the identifier of the live
/// session with that key.
pub proof fn route_finds_the_live_session(reg: Registry, session: Session)
    requires
        reg.wf(),
        reg.live(session),
    ensures
        reg.route(session.key) == Some(session.id),
        reg.has_id(session.id),
        reg.sessions[reg.index_of_id(session.id)] == session,
{
    let i = choose|i: int| 0 <= i < reg.sessions.len() && reg.sessions[i] == session;
    assert(reg.sessions[i].key == session.key);
    assert(reg.sessions[i].id == session.id);
    let k = reg.index_of_key(session.key);
    if i < k {
        assert(reg.sessions[i].key != reg.sessions[k].key);
    } else if k < i {
        assert(reg.sessions[k].key != reg.sessions[i].key);
    }
    let d = reg.index_of_id(session.id);
    if i < d {
        assert(reg.sessions[i].id != reg.sessions[d].id);
    } else if d < i {
        assert(reg.sessions[d].id != reg.sessions[i].id);
    }
}

/// A receive error on the socket of a live session removes that session and no
/// other. Its key is then free: a datagram with the key finds no session, and
/// the session that is registered for it next gets an identifier that the dead
/// one never had.
pub proof fn receive_error_frees_the_key(reg: Registry, session: Session)
    requires
        reg.wf(),
        reg.live(session),
    ensures
        reg.close(session.id).1 == Some(session.key),
        forall|other: Session|
            reg.close(session.id).0.live(other) <==> reg.live(other) && other != session,
        reg.close(session.id).0.route(session.key).is_none(),
        reg.next_id < u64::MAX ==> {
            let reopened = reg.close(session.id).0.register(session.key);
            &&& reopened.1 == Ok::<u64, RegisterError>(reg.next_id)
            &&& reg.next_id != session.id
            &&& reopened.0.live(Session { key: session.key, id: reg.next_id })
            &&& !reopened.0.live(session)
        },
{
    route_finds_the_live_session(reg, session);
    let k = reg.index_of_id(session.id);
    let after = reg.close(session.id).0;
    close_keeps_wf(reg, session.id);
    assert forall|i: int| 0 <= i < after.sessions.len() implies #[trigger] after.sessions[i]
        == reg.sessions[if i < k {
        i
    } else {
        i + 1
    }] by {}
    assert forall|other: Session| after.live(other) implies reg.live(other) && other != session by {
        let i = choose|i: int| 0 <= i < after.sessions.len() && after.sessions[i] == other;
        let a = if i < k { i } else { i + 1 };
        assert(reg.sessions[a] == other);
        if a < k {
            assert(reg.sessions[a].id != reg.sessions[k].id);
        } else {
            assert(reg.sessions[k].id != reg.sessions[a].id);
        }
    }
    assert forall|other: Session| reg.live(other) && other != session implies after.live(
        other,
    ) by {
        let a = choose|a: int| 0 <= a < reg.sessions.len() && reg.sessions[a] == other;
        assert(a != k);
        let i = if a < k { a } else { a - 1 };
        assert(after.sessions[i] == other);
    }
    if after.has_key(session.key) {
        let i = after.index_of_key(session.key);
        let twin = after.sessions[i];
        assert(after.live(twin));
        assert(reg.live(twin) && twin != session);
        one_session_per_key(reg, twin, session);
    }
    assert(reg.sessions[k].id < reg.next_id);
    if reg.next_id < u64::MAX {
        let reopened = after.register(session.key);
        let fresh = Session { key: session.key, id: reg.next_id };
        assert(reopened.0.sessions[after.sessions.len() as int] == fresh);
        if reopened.0.live(session) {
            let i = choose|i: int|
                0 <= i < reopened.0.sessions.len() && reopened.0.sessions[i] == session;
            if i < after.sessions.len() {
                assert(after.sessions[i] == session);
                assert(after.live(session));
            }
        }
    }
}

/// What is to be done with a datagram of the virtual stack.
#[derive(Clone, Debug, PartialEq, Eq)]
pub enum DatagramAction {
    /// Its session lives: send the payload on the socket `session`.
    Forward { session: u64, payload: Vec<u8> },
    /// Its session does not live: open a socket to the remote endpoint of
    /// `key`, register it, and send the payload on it. If the socket cannot be
    /// opened the datagram is dropped.
    Open { key: SessionKey, payload: Vec<u8> },
}

/// The registry of the live sessions.
pub struct SessionTable {
    sessions: Vec<Session>,
    next_id: u64,
}

impl View for SessionTable {
    type V = Registry;

    closed spec fn view(&self) -> Registry {
        Registry { sessions: self.sessions@, next_id: self.next_id }
    }
}

impl SessionTable {
    /// The invariant of the table: that of its registry.
    pub open spec fn wf(&self) -> bool {
        self@.wf()
    }

    /// A table without sessions.
    pub fn new() -> (table: SessionTable)
        ensures
            table@ == Registry::empty(),
            table.wf(),
    {
        SessionTable { sessions: Vec::new(), next_id: 0 }
    }

    /// A table without sessions whose identifiers begin at `first_id`.
    pub fn starting_at(first_id: u64) -> (table: SessionTable)
        ensures
            table@ == (Registry { sessions: Seq::empty(), next_id: first_id }),
            table.wf(),
    {
        SessionTable { sessions: Vec::new(), next_id: first_id }
    }

    /// The number of live sessions.
    pub fn len(&self) -> (n: usize)
        ensures
            n == self@.sessions.len(),
    {
        self.sessions.len()
    }

    /// The live sessions, in the order in which they were registered.
    pub fn sessions(&self) -> (list: Vec<Session>)
        ensures
            list@ == self@.sessions,
    {
        let mut list: Vec<Session> = Vec::new();
        let mut i: usize = 0;
        while i < self.sessions.len()
            invariant
                i <= self.sessions@.len(),
                list@ == self.sessions@.subrange(0, i as int),
            decreases self.sessions@.len() - i,
        {
            list.push(self.sessions[i]);
            i += 1;
            assert(list@ =~= self.sessions@.subrange(0, i as int));
        }
        assert(self.sessions@.subrange(0, i as int) =~= self.sessions@);
        list
    }

    /// The place of the session with this key, if one lives.
    fn find_key(&self, key: &SessionKey) -> (found: Option<usize>)
        requires
            self.wf(),
        ensures
            match found {
                Some(i) => i < self@.sessions.len() && self@.sessions[i as int].key == *key
                    && self@.has_key(*key) && self@.index_of_key(*key) == i,
                None => !self@.has_key(*key),
            },
    {
        let mut i: usize = 0;
        while i < self.sessions.len()
            invariant
                i <= self.sessions@.len(),
                self.wf(),
                forall|j: int| 0 <= j < i ==> (#[trigger] self.sessions@[j]).key != *key,
            decreases self.sessions@.len() - i,
        {
            if self.sessions[i].key == *key {
                proof {
                    let c = self@.index_of_key(*key);
                    if c < i {
                        assert(self@.sessions[c].key != self@.sessions[i as int].key);
                    } else if i < c {
                        assert(self@.sessions[i as int].key != self@.sessions[c].key);
                    }
                }
                return Some(i);
            }
            i += 1;
        }
        None
    }

    /// The place of the session with this identifier, if one lives.
    fn find_id(&self, id: u64) -> (found: Option<usize>)
        requires
            self.wf(),
        ensures
            match found {
                Some(i) => i < self@.sessions.len() && self@.sessions[i as int].id == id
                    && self@.has_id(id) && self@.index_of_id(id) == i,
                None => !self@.has_id(id),
            },
    {
        let mut i: usize = 0;
        while i < self.sessions.len()
            invariant
                i <= self.sessions@.len(),
                self.wf(),
                forall|j: int| 0 <= j < i ==> (#[trigger] self.sessions@[j]).id != id,
            decreases self.sessions@.len() - i,
        {
            if self.sessions[i].id == id {
                proof {
                    let c = self@.index_of_id(id);
                    if c < i {
                        assert(self@.sessions[c].id != self@.sessions[i as int].id);
                    } else if i < c {
                        assert(self@.sessions[i as int].id != self@.sessions[c].id);
                    }
                }
                return Some(i);
            }
            i += 1;
        }
        None
    }

    /// Decides what is done with a datagram from `local` to `remote`: it goes to
    /// the socket of its session if that session lives, and asks for a socket
    /// to be opened if not. The payload is handed on as it came. The table does
    /// not change: a session is registered once its socket is there.
    pub fn on_datagram(&self, payload: Vec<u8>, local: Endpoint, remote: Endpoint) -> (action:
        DatagramAction)
        requires
            self.wf(),
        ensures
            match action {
                DatagramAction::Forward { session, payload: sent } => {
                    &&& self@.route(SessionKey { local, remote }) == Some(session)
                    &&& sent == payload
                },
                DatagramAction::Open { key, payload: kept } => {
                    &&& self@.route(SessionKey { local, remote }).is_none()
                    &&& key == (SessionKey { local, remote })
                    &&& kept == payload
                },
            },
    {
        let key = SessionKey { local, remote };
        match self.find_key(&key) {
            Some(i) => DatagramAction::Forward { session: self.sessions[i].id, payload },
            None => DatagramAction::Open { key, payload },
        }
    }

    /// Registers the session of `key`, whose socket has just been opened, and
    /// returns the identifier under which the socket is to be kept. Where the
    /// key has a live session already, or no identifier is left, nothing is
    /// registered and the socket has to be closed again.
    pub fn register(&mut self, key: SessionKey) -> (r: Result<u64, RegisterError>)
        requires
            old(self).wf(),
        ensures
            final(self).wf(),
            (final(self)@, r) == old(self)@.register(key),
    {
        proof {
            register_keeps_wf(self@, key);
        }
        if self.find_key(&key).is_some() {
            return Err(RegisterError::KeyInUse);
        }
        if self.next_id == u64::MAX {
            return Err(RegisterError::Exhausted);
        }
        let id = self.next_id;
        self.sessions.push(Session { key, id });
        self.next_id = id + 1;
        Ok(id)
    }

    /// Takes note that receiving from the socket `id` has failed: its session
    /// ends and its key is returned, free for a later session. Every other
    /// session stays. Where no session has this identifier nothing changes.
    pub fn on_receive_error(&mut self, id: u64) -> (freed: Option<SessionKey>)
        requires
            old(self).wf(),
        ensures
            final(self).wf(),
            (final(self)@, freed) == old(self)@.close(id),
    {
        proof {
            close_keeps_wf(self@, id);
        }
        match self.find_id(id) {
            Some(i) => {
                let session = self.sessions.remove(i);
                Some(session.key)
            },
            None => None,
        }
    }
}

/// One reply on its way back to the virtual stack: the bytes that a session
/// received, and the endpoints of that session as the virtual stack named them.
#[derive(Clone, Debug, PartialEq, Eq)]
pub struct ReturnEntry {
    pub payload: Vec<u8>,
    pub local: Endpoint,
    pub remote: Endpoint,
}

/// A datagram as the virtual stack sends it out.
#[derive(Clone, Debug, PartialEq, Eq)]
pub struct Datagram {
    pub payload: Vec<u8>,
    pub source: Endpoint,
    pub destination: Endpoint,
}

/// The entry that a session puts on the return path after it has received `len`
/// bytes into `buf`: those bytes, under the endpoints of its key. A length that
/// the buffer cannot hold gives no entry.
pub fn return_entry(key: &SessionKey, buf: &[u8], len: usize) -> (entry: Option<ReturnEntry>)
    ensures
        match entry {
            Some(e) => {
                &&& len <= buf@.len()
                &&& e.payload@ == buf@.take(len as int)
                &&& e.local == key.local
                &&& e.remote == key.remote
            },
            None => len > buf@.len(),
        },
{
    if len > buf.len() {
        None
    } else {
        let payload = copy_range(buf, 0, len);
        assert(buf@.subrange(0, len as int) =~= buf@.take(len as int));
        Some(ReturnEntry { payload, local: key.local, remote: key.remote })
    }
}

/// The datagram that the writer of the return path hands to the virtual stack
/// for an entry: it comes from the remote endpoint of the session and goes to
/// its local endpoint, with the payload as received.
pub fn reply_datagram(entry: ReturnEntry) -> (datagram: Datagram)
    ensures
        datagram.payload == entry.payload,
        datagram.source == entry.remote,
        datagram.destination == entry.local,
{
    Datagram { payload: entry.payload, source: entry.remote, destination: entry.local }
}

} // verus!
