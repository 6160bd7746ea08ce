use vstd::prelude::*;

verus! {

/// The connector as plain values: the identifier of the live connection, if
/// any, and the identifier handed out last.
pub struct ConnectorModel {
    pub current: Option<u64>,
    pub last: u64,
}

/// The identifier that the next successful connect is given.
pub open spec fn next_id(last: u64) -> u64 {
    if last == u64::MAX {
        0
    } else {
        (last + 1) as u64
    }
}

/// The connector's state once `ensure_connected` has returned: unchanged
/// where a connection is live, otherwise holding a fresh one. Failed connect
/// attempts are retried and change nothing.
pub open spec fn ensured(c: ConnectorModel) -> ConnectorModel {
    if c.current is Some {
        c
    } else {
        ConnectorModel { current: Some(next_id(c.last)), last: next_id(c.last) }
    }
}

/// The connection that `ensure_connected` hands out.
pub open spec fn ensured_handle(c: ConnectorModel) -> u64 {
    ensured(c).current->Some_0
}

/// The connector's state after a reset by a caller that observed `seen`:
/// only a reset of the live connection drops it.
pub open spec fn after_reset(c: ConnectorModel, seen: u64) -> ConnectorModel {
    if c.current == Some(seen) {
        ConnectorModel { current: None, last: c.last }
    } else {
        c
    }
}

/// What `ensure_connected` has to do next.
#[derive(Clone, Copy, Debug, PartialEq, Eq)]
pub enum EnsureStep {
    /// Hand out the live connection with this identifier.
    Use(u64),
    /// No connection is live: attempt to connect, and on failure attempt again.
    Connect,
}

/// Owns at most one live connection, by identifier. The connections
/// themselves, and their watcher tasks, are held beside it by whoever
/// performs the connect attempts.
pub struct Connector {
    current: Option<u64>,
    last: u64,
}

impl View for Connector {
    type V = ConnectorModel;

    closed spec fn view(&self) -> ConnectorModel {
        ConnectorModel { current: self.current, last: self.last }
    }
}

impl Connector {
    /// A connector with no connection yet.
    pub fn new() -> (r: Connector)
        ensures
            r@ == (ConnectorModel { current: None, last: 0 }),
    {
        Connector { current: None, last: 0 }
    }

    /// The live connection, if any.
    pub fn current(&self) -> (r: Option<u64>)
        ensures
            r == self@.current,
    {
        self.current
    }

    /// The first step of `ensure_connected`: use the live connection, or
    /// connect where there is none.
    pub fn ensure_connected(&self) -> (r: EnsureStep)
        ensures
            self@.current matches Some(id) ==> r == EnsureStep::Use(id) && id == ensured_handle(
                self@,
            ),
            self@.current is None ==> r == EnsureStep::Connect,
    {
        match self.current {
            Some(id) => EnsureStep::Use(id),
            None => EnsureStep::Connect,
        }
    }

    /// Records a successful connect attempt and returns the identifier of
    /// the live connection. Where another caller installed one meanwhile,
    /// that one stays and the new attempt is to be discarded.
    pub fn connected(&mut self) -> (id: u64)
        ensures
            final(self)@ == ensured(old(self)@),
            id == ensured_handle(old(self)@),
            old(self)@.current is None ==> id != old(self)@.last,
    {
        match self.current {
            Some(id) => id,
            None => {
                let id = self.last.wrapping_add(1);
                self.current = Some(id);
                self.last = id;
                id
            },
        }
    }

    /// Drops the live connection if it is the one that the caller observed,
    /// and returns whether it did: the caller then stops that connection's
    /// watcher. A reset that comes after a reconnect changes nothing.
    pub fn reset(&mut self, seen: u64) -> (stopped: bool)
        ensures
            final(self)@ == after_reset(old(self)@, seen),
            stopped == (old(self)@.current == Some(seen)),
    {
        if self.current == Some(seen) {
            self.current = None;
            true
        } else {
            false
        }
    }
}

/// Calling `ensure_connected` twice with no reset or failure in between
/// hands out the same connection both times, and the second call changes
/// nothing.
pub proof fn lemma_ensure_connected_idempotent(c: ConnectorModel)
    ensures
        ensured(ensured(c)) == ensured(c),
        ensured_handle(ensured(c)) == ensured_handle(c),
{
}

/// A reset by a caller that observed an older connection leaves a newer
/// live connection in place.
pub proof fn lemma_stale_reset_keeps_connection(c: ConnectorModel, seen: u64)
    requires
        c.current is Some,
        c.current != Some(seen),
    ensures
        ensured_handle(after_reset(c, seen)) == ensured_handle(c),
{
}

} // verus!
