//! The bounded set of live connections that the multiplexer serves.

use vstd::prelude::*;

verus! {

/// How many connections are served at once.
pub const MAX_CONNECTIONS: usize = 16;

/// What the multiplexer does when the listener hands it a socket.
#[derive(Clone, Copy, Debug, PartialEq, Eq, Structural)]
pub enum Arrival {
    /// A shutdown was asked for: stop accepting and return.
    Stop,
    /// There is room: make the socket non-blocking and accept it.
    Accept,
    /// The set is full: let the socket go.
    Refuse,
}

/// Which of `items` stay when `keep` says of each whether it does, in the
/// order in which they stood.
pub open spec fn kept<T>(items: Seq<T>, keep: Seq<bool>) -> Seq<T>
    recommends
        items.len() == keep.len(),
    decreases items.len(),
{
    if items.len() == 0 {
        Seq::empty()
    } else if keep.last() {
        kept(items.drop_last(), keep.drop_last()).push(items.last())
    } else {
        kept(items.drop_last(), keep.drop_last())
    }
}

/// No more stay than there were.
pub proof fn lemma_kept_len<T>(items: Seq<T>, keep: Seq<bool>)
    ensures
        kept(items, keep).len() <= items.len(),
    decreases items.len(),
{
    if items.len() > 0 {
        lemma_kept_len(items.drop_last(), keep.drop_last());
    }
}

/// The live connections, in the order in which they were accepted. There
/// are never more than `MAX_CONNECTIONS` of them.
pub struct LiveSet<T> {
    connections: Vec<T>,
}

impl<T> View for LiveSet<T> {
    type V = Seq<T>;

    closed spec fn view(&self) -> Seq<T> {
        self.connections@
    }
}

impl<T> LiveSet<T> {
    /// The bound that every live set keeps.
    #[verifier::type_invariant]
    spec fn bounded(&self) -> bool {
        self.connections@.len() <= MAX_CONNECTIONS
    }

    /// A set without connections.
    pub fn new() -> (set: Self)
        ensures
            set@ == Seq::<T>::empty(),
    {
        LiveSet { connections: Vec::new() }
    }

    /// The number of live connections.
    pub fn len(&self) -> (n: usize)
        ensures
            n == self@.len(),
            n <= MAX_CONNECTIONS,
    {
        proof {
            use_type_invariant(self);
        }
        self.connections.len()
    }

    /// Whether one more connection can be accepted.
    pub fn has_room(&self) -> (room: bool)
        ensures
            room == (self@.len() < MAX_CONNECTIONS),
    {
        self.connections.len() < MAX_CONNECTIONS
    }

    /// What to do with a socket that has just arrived.
    pub fn on_arrival(&self, running: bool) -> (arrival: Arrival)
        ensures
            arrival == if !running {
                Arrival::Stop
            } else if self@.len() < MAX_CONNECTIONS {
                Arrival::Accept
            } else {
                Arrival::Refuse
            },
    {
        if !running {
            Arrival::Stop
        } else if self.has_room() {
            Arrival::Accept
        } else {
            Arrival::Refuse
        }
    }

    /// Accepts a connection behind those that are live, where there is room.
    /// A full set stays as it is and hands the connection back.
    pub fn accept(&mut self, connection: T) -> (refused: Option<T>)
        ensures
            old(self)@.len() < MAX_CONNECTIONS ==> refused is None && final(self)@ == old(self)@.push(
                connection,
            ),
            old(self)@.len() >= MAX_CONNECTIONS ==> refused == Some(connection) && final(self)@
                == old(self)@,
    {
        if self.connections.len() < MAX_CONNECTIONS {
            // The vector is taken out, grown and put back: the bound is
            // checked where the field is assigned.
            let mut connections: Vec<T> = Vec::new();
            core::mem::swap(&mut self.connections, &mut connections);
            connections.push(connection);
            self.connections = connections;
            None
        } else {
            Some(connection)
        }
    }

    /// The connection at place `index`, to be served.
    pub fn get_mut(&mut self, index: usize) -> (connection: &mut T)
        requires
            index < old(self)@.len(),
        ensures
            *connection == old(self)@[index as int],
            final(self)@ == old(self)@.update(index as int, *final(connection)),
    {
        proof {
            use_type_invariant(&*self);
        }
        &mut self.connections[index]
    }

    /// Drops every connection of which `keep` says that it does not stay,
    /// and keeps the others in their order.
    pub fn retain(&mut self, keep: &Vec<bool>)
        requires
            keep@.len() == old(self)@.len(),
        ensures
            final(self)@ == kept(old(self)@, keep@),
    {
        proof {
            use_type_invariant(&*self);
        }
        let ghost before = self.connections@;
        let mut rest: Vec<T> = Vec::new();
        let mut stay: Vec<T> = Vec::new();
        core::mem::swap(&mut self.connections, &mut rest);
        let mut i: usize = 0;
        while rest.len() > 0
            invariant
                before.len() == keep@.len(),
                before.len() <= MAX_CONNECTIONS,
                i + rest@.len() == before.len(),
                rest@ == before.skip(i as int),
                stay@ == kept(before.take(i as int), keep@.take(i as int)),
            decreases rest@.len(),
        {
            let connection = rest.remove(0);
            proof {
                assert(before.take(i + 1).drop_last() =~= before.take(i as int));
                assert(keep@.take(i + 1).drop_last() =~= keep@.take(i as int));
                assert(before.skip(i as int).remove(0) =~= before.skip(i + 1));
            }
            if keep[i] {
                stay.push(connection);
            }
            i += 1;
        }
        proof {
            assert(before.take(i as int) =~= before);
            assert(keep@.take(i as int) =~= keep@);
            lemma_kept_len(before, keep@);
        }
        self.connections = stay;
    }
}

} // verus!
