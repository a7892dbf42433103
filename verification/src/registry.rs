//! The servers that the JavaScript side created, each with the local socket
//! that drives it, and the open streams of the requests in flight.
use vstd::prelude::*;
use std::collections::HashMap;

verus! {

broadcast use vstd::std_specs::hash::group_hash_axioms;

/// The servers of one protocol and their sockets, by id. Ids are handed out
/// in increasing order from 1; an id is never handed out twice.
pub struct Instances<U, S> {
    last_id: u64,
    sockets: HashMap<u64, U>,
    servers: HashMap<u64, S>,
}

impl<U, S> Instances<U, S> {
    /// The last id handed out; 0 before the first.
    pub closed spec fn last_id(&self) -> u64 {
        self.last_id
    }

    /// The sockets, by id.
    pub closed spec fn sockets(&self) -> Map<u64, U> {
        self.sockets@
    }

    /// The servers, by id.
    pub closed spec fn servers(&self) -> Map<u64, S> {
        self.servers@
    }

    /// Every id in use was handed out, and every server has its socket.
    pub closed spec fn wf(&self) -> bool {
        &&& forall|id: u64| #[trigger] self.sockets@.contains_key(id) ==> 1 <= id <= self.last_id
        &&& forall|id: u64| #[trigger] self.servers@.contains_key(id) ==> 1 <= id <= self.last_id
        &&& forall|id: u64|
            #[trigger] self.servers@.contains_key(id) ==> self.sockets@.contains_key(id)
    }

    pub fn new() -> (r: Self)
        ensures
            r.wf(),
            r.last_id() == 0,
            r.sockets() == Map::<u64, U>::empty(),
            r.servers() == Map::<u64, S>::empty(),
    {
        Instances { last_id: 0, sockets: HashMap::new(), servers: HashMap::new() }
    }

    /// The last id handed out, as a number.
    pub fn current_id(&self) -> (r: u64)
        ensures
            r == self.last_id(),
    {
        self.last_id
    }

    /// Law: every id in use, by a socket or by a server, was handed out
    /// before: it lies between 1 and the last id handed out.
    pub proof fn law_ids_in_use_were_handed_out(&self, id: u64)
        requires
            self.wf(),
            self.sockets().contains_key(id) || self.servers().contains_key(id),
        ensures
            1 <= id <= self.last_id(),
    {
    }

    /// Law: the id that `next_id` hands out is used by no socket and no
    /// server, and differs from every id in use.
    pub proof fn law_next_id_is_fresh(&self, id: u64)
        requires
            self.wf(),
            self.sockets().contains_key(id) || self.servers().contains_key(id),
        ensures
            id != self.last_id() + 1,
    {
    }

    /// Law: every server filed has its socket filed under the same id.
    pub proof fn law_every_server_has_its_socket(&self, id: u64)
        requires
            self.wf(),
            self.servers().contains_key(id),
        ensures
            self.sockets().contains_key(id),
    {
    }

    /// Hands out the next id.
    pub fn next_id(&mut self) -> (id: u64)
        requires
            old(self).wf(),
            old(self).last_id() < u64::MAX,
        ensures
            final(self).wf(),
            id == old(self).last_id() + 1,
            final(self).last_id() == id,
            final(self).sockets() == old(self).sockets(),
            final(self).servers() == old(self).servers(),
            !old(self).sockets().contains_key(id),
            !old(self).servers().contains_key(id),
    {
        self.last_id = self.last_id + 1;
        self.last_id
    }

    /// Files the socket of the server with the given id.
    pub fn add_socket(&mut self, id: u64, socket: U)
        requires
            old(self).wf(),
            1 <= id <= old(self).last_id(),
        ensures
            final(self).wf(),
            final(self).last_id() == old(self).last_id(),
            final(self).sockets() == old(self).sockets().insert(id, socket),
            final(self).servers() == old(self).servers(),
    {
        self.sockets.insert(id, socket);
    }

    /// Files the server with the given id, whose socket is filed.
    pub fn add_server(&mut self, id: u64, server: S)
        requires
            old(self).wf(),
            1 <= id <= old(self).last_id(),
            old(self).sockets().contains_key(id),
        ensures
            final(self).wf(),
            final(self).last_id() == old(self).last_id(),
            final(self).sockets() == old(self).sockets(),
            final(self).servers() == old(self).servers().insert(id, server),
    {
        self.servers.insert(id, server);
    }

    /// Forgets the server with the given id and its socket.
    pub fn destroy(&mut self, id: u64)
        requires
            old(self).wf(),
        ensures
            final(self).wf(),
            final(self).last_id() == old(self).last_id(),
            final(self).sockets() == old(self).sockets().remove(id),
            final(self).servers() == old(self).servers().remove(id),
    {
        self.servers.remove(&id);
        self.sockets.remove(&id);
    }

    /// The socket of the server with the given id.
    pub fn socket(&self, id: u64) -> (r: Option<&U>)
        ensures
            match r {
                Some(u) => self.sockets().contains_key(id) && self.sockets()[id] == *u,
                None => !self.sockets().contains_key(id),
            },
    {
        self.sockets.get(&id)
    }

    /// The server with the given id.
    pub fn server(&self, id: u64) -> (r: Option<&S>)
        ensures
            match r {
                Some(s) => self.servers().contains_key(id) && self.servers()[id] == *s,
                None => !self.servers().contains_key(id),
            },
    {
        self.servers.get(&id)
    }
}

/// The open streams of one protocol, by the id handed to the JavaScript side
/// with the request. Ids count up from 1 and wrap around after `u64::MAX`.
pub struct StreamTable<T> {
    next_id: u64,
    streams: HashMap<u64, T>,
    /// No id has wrapped around yet.
    counting_up: Ghost<bool>,
}

/// The id that follows `id`, wrapping around after `u64::MAX`.
pub open spec fn following_id(id: u64) -> u64 {
    if id == u64::MAX {
        0
    } else {
        (id + 1) as u64
    }
}

impl<T> StreamTable<T> {
    /// The id that the next stream gets.
    pub closed spec fn next_id(&self) -> u64 {
        self.next_id
    }

    /// The open streams, by id.
    pub closed spec fn streams(&self) -> Map<u64, T> {
        self.streams@
    }

    /// No id has wrapped around yet: every id handed out so far was the one
    /// after the id handed out before it.
    pub closed spec fn counting_up(&self) -> bool {
        self.counting_up@
    }

    /// Until the ids wrap around, every open stream has an id below the next
    /// one, and ids start at 1.
    pub closed spec fn wf(&self) -> bool {
        self.counting_up@ ==> {
            &&& self.next_id >= 1
            &&& forall|id: u64| #[trigger] self.streams@.contains_key(id) ==> 1 <= id < self.next_id
        }
    }

    pub fn new() -> (r: Self)
        ensures
            r.wf(),
            r.counting_up(),
            r.next_id() == 1,
            r.streams() == Map::<u64, T>::empty(),
    {
        StreamTable { next_id: 1, streams: HashMap::new(), counting_up: Ghost(true) }
    }

    /// Law: until the ids wrap around, the id that the next stream gets is
    /// used by no open stream and exceeds every id in use, so the streams
    /// filed one after another get pairwise different ids.
    pub proof fn law_next_stream_id_is_fresh(&self, id: u64)
        requires
            self.wf(),
            self.counting_up(),
            self.streams().contains_key(id),
        ensures
            id < self.next_id(),
            id != self.next_id(),
            1 <= id,
    {
    }

    /// Files a stream under the next id, and returns that id. Until the ids
    /// wrap around, that id is new and larger than every id in use, and the
    /// next id grows.
    pub fn register(&mut self, stream: T) -> (id: u64)
        requires
            old(self).wf(),
        ensures
            final(self).wf(),
            id == old(self).next_id(),
            final(self).next_id() == following_id(id),
            final(self).streams() == old(self).streams().insert(id, stream),
            final(self).counting_up() == (old(self).counting_up() && id != u64::MAX),
            old(self).counting_up() ==> {
                &&& !old(self).streams().contains_key(id)
                &&& forall|k: u64| #[trigger] old(self).streams().contains_key(k) ==> k < id
            },
            final(self).counting_up() ==> final(self).next_id() > id,
    {
        let id = self.next_id;
        if id == u64::MAX {
            self.next_id = 0;
            self.counting_up = Ghost(false);
        } else {
            self.next_id = id + 1;
        }
        self.streams.insert(id, stream);
        id
    }

    /// The stream with the given id.
    pub fn get(&self, id: u64) -> (r: Option<&T>)
        ensures
            match r {
                Some(s) => self.streams().contains_key(id) && self.streams()[id] == *s,
                None => !self.streams().contains_key(id),
            },
    {
        self.streams.get(&id)
    }

    /// Takes the stream with the given id out of the table.
    pub fn remove(&mut self, id: u64) -> (r: Option<T>)
        requires
            old(self).wf(),
        ensures
            final(self).wf(),
            final(self).next_id() == old(self).next_id(),
            final(self).counting_up() == old(self).counting_up(),
            final(self).streams() == old(self).streams().remove(id),
            match r {
                Some(s) => old(self).streams().contains_key(id) && old(self).streams()[id] == s,
                None => !old(self).streams().contains_key(id),
            },
    {
        self.streams.remove(&id)
    }
}

} // verus!
