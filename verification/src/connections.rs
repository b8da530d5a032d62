//! The connection table: the records of every logical connection the
//! gateway has opened, keyed by an id that is never issued twice.

use vstd::prelude::*;
use crate::errors::GatewayError;

verus! {

/// Where a connection is in its lifecycle.
#[derive(Clone, Copy, PartialEq, Eq, Structural, Debug)]
pub enum ConnStatus {
    Connecting,
    Connected,
    Closed,
}

impl ConnStatus {
    pub open spec fn spec_name(self) -> Seq<char> {
        match self {
            ConnStatus::Connecting => "connecting"@,
            ConnStatus::Connected => "connected"@,
            ConnStatus::Closed => "closed"@,
        }
    }

    /// The lifecycle stage as it appears on the wire.
    pub fn name(&self) -> (r: &'static str)
        ensures
            r@ == self.spec_name(),
    {
        match self {
            ConnStatus::Connecting => "connecting",
            ConnStatus::Connected => "connected",
            ConnStatus::Closed => "closed",
        }
    }
}

/// One logical connection of a device to the gateway.
pub struct Connection {
    pub id: u64,
    pub device_id: String,
    pub protocol: String,
    pub region: String,
    pub endpoint: String,
    pub status: ConnStatus,
}

/// The table of connections. `next_id` is the id the next successful open
/// will take; every id in the table is below it, so no id is ever reused,
/// even after a close.
pub struct ConnectionTable {
    conns: Vec<Connection>,
    next_id: u64,
}

impl ConnectionTable {
    pub closed spec fn spec_conns(self) -> Seq<Connection> {
        self.conns@
    }

    pub closed spec fn spec_next_id(self) -> u64 {
        self.next_id
    }

    /// The ids in the table, in insertion order.
    pub open spec fn ids(self) -> Seq<u64> {
        self.spec_conns().map_values(|c: Connection| c.id)
    }

    /// Table invariant: every issued id is below `next_id`, and ids are
    /// pairwise distinct.
    pub open spec fn wf(self) -> bool {
        &&& forall|i: int| 0 <= i < self.ids().len() ==> self.ids()[i] < self.spec_next_id()
        &&& forall|i: int, j: int|
            0 <= i < j < self.ids().len() ==> self.ids()[i] != self.ids()[j]
    }

    /// Whether `id` names a connection in the table.
    pub open spec fn contains_id(self, id: u64) -> bool {
        exists|i: int| 0 <= i < self.ids().len() && self.ids()[i] == id
    }

    /// An empty table; ids start at zero.
    pub fn new() -> (r: ConnectionTable)
        ensures
            r.wf(),
            r.spec_conns().len() == 0,
            r.spec_next_id() == 0,
    {
        ConnectionTable { conns: Vec::new(), next_id: 0 }
    }

    /// The id the next successful open will return.
    pub fn next_id(&self) -> (r: u64)
        ensures
            r == self.spec_next_id(),
    {
        self.next_id
    }

    /// How many connections the table holds, open or closed.
    pub fn len(&self) -> (r: usize)
        ensures
            r == self.spec_conns().len(),
    {
        self.conns.len()
    }

    /// Opens a connection with the given (already validated and defaulted)
    /// attributes and returns its fresh id: the current `next_id`, which no
    /// earlier call ever returned and no later call will return again.
    pub fn open(
        &mut self,
        device_id: String,
        protocol: String,
        region: String,
        endpoint: String,
    ) -> (r: u64)
        requires
            old(self).wf(),
            old(self).spec_next_id() < u64::MAX,
        ensures
            final(self).wf(),
            r == old(self).spec_next_id(),
            final(self).spec_next_id() == old(self).spec_next_id() + 1,
            !old(self).contains_id(r),
            final(self).contains_id(r),
            final(self).spec_conns().len() == old(self).spec_conns().len() + 1,
            forall|k: int|
                0 <= k < old(self).spec_conns().len()
                    ==> final(self).spec_conns()[k] == old(self).spec_conns()[k],
            final(self).spec_conns().last().id == r,
            final(self).spec_conns().last().device_id@ == device_id@,
            final(self).spec_conns().last().protocol@ == protocol@,
            final(self).spec_conns().last().region@ == region@,
            final(self).spec_conns().last().endpoint@ == endpoint@,
            final(self).spec_conns().last().status == ConnStatus::Connected,
    {
        let id = self.next_id;
        self.next_id = self.next_id + 1;
        self.conns.push(Connection {
            id,
            device_id,
            protocol,
            region,
            endpoint,
            status: ConnStatus::Connected,
        });
        proof {
            assert(self.ids() =~= old(self).ids().push(id));
            assert(self.ids()[old(self).ids().len() as int] == id);
        }
        id
    }

    /// Looks a connection up by id: `Some` exactly when the id was issued
    /// and is still in the table.
    pub fn get(&self, id: u64) -> (r: Option<&Connection>)
        ensures
            r is Some <==> self.contains_id(id),
            r matches Some(c) ==> c.id == id && (exists|i: int|
                0 <= i < self.spec_conns().len() && self.spec_conns()[i] == *c),
    {
        let n = self.conns.len();
        let mut i: usize = 0;
        while i < n
            invariant
                n == self.spec_conns().len(),
                i <= n,
                forall|k: int| 0 <= k < i ==> self.ids()[k] != id,
            decreases n - i,
        {
            if self.conns[i].id == id {
                assert(self.ids()[i as int] == id);
                return Some(&self.conns[i]);
            }
            i += 1;
        }
        None
    }

    /// Marks the connection `id` as closed. Fails with `UnknownConnection`,
    /// leaving the table as it was, exactly when the id is not in the table;
    /// otherwise only that connection's status changes, and its id remains
    /// in the table, so the id is still never reused.
    pub fn close(&mut self, id: u64) -> (r: Result<(), GatewayError>)
        requires
            old(self).wf(),
        ensures
            final(self).wf(),
            final(self).spec_next_id() == old(self).spec_next_id(),
            r is Ok <==> old(self).contains_id(id),
            r matches Err(e) ==> e == GatewayError::UnknownConnection && *final(self)
                == *old(self),
            r is Ok ==> {
                &&& final(self).spec_conns().len() == old(self).spec_conns().len()
                &&& forall|k: int|
                    0 <= k < old(self).spec_conns().len() && old(self).spec_conns()[k].id != id
                        ==> final(self).spec_conns()[k] == old(self).spec_conns()[k]
                &&& forall|k: int|
                    0 <= k < old(self).spec_conns().len() && old(self).spec_conns()[k].id == id
                        ==> final(self).spec_conns()[k] == (Connection {
                        status: ConnStatus::Closed,
                        ..old(self).spec_conns()[k]
                    })
            },
    {
        let n = self.conns.len();
        let mut i: usize = 0;
        while i < n
            invariant
                n == self.spec_conns().len(),
                i <= n,
                *self == *old(self),
                old(self).wf(),
                forall|k: int| 0 <= k < i ==> self.ids()[k] != id,
            decreases n - i,
        {
            if self.conns[i].id == id {
                assert(self.ids()[i as int] == id);
                let mut c = self.conns.remove(i);
                c.status = ConnStatus::Closed;
                self.conns.insert(i, c);
                proof {
                    vstd::seq_lib::lemma_update_is_remove_insert(
                        old(self).conns@,
                        i as int,
                        (Connection { status: ConnStatus::Closed, ..old(self).conns@[i as int] }),
                    );
                    assert(self.conns@ =~= old(self).conns@.update(
                        i as int,
                        (Connection { status: ConnStatus::Closed, ..old(self).conns@[i as int] }),
                    ));
                    assert(self.ids() =~= old(self).ids());
                    assert(forall|k: int|
                        0 <= k < old(self).ids().len() && k != i ==> old(self).ids()[k] != id);
                    assert(self.wf());
                    assert(forall|k: int|
                        0 <= k < old(self).spec_conns().len()
                            ==> old(self).ids()[k] == old(self).spec_conns()[k].id);
                    assert(self.conns@[i as int] == c);
                    assert(c == (Connection {
                        status: ConnStatus::Closed,
                        ..old(self).conns@[i as int]
                    }));
                    assert(forall|k: int|
                        0 <= k < old(self).spec_conns().len() && k != i
                            ==> self.conns@[k] == old(self).conns@[k]);
                    assert forall|k: int|
                        0 <= k < old(self).spec_conns().len() && old(self).spec_conns()[k].id
                            == id implies self.spec_conns()[k] == (Connection {
                        status: ConnStatus::Closed,
                        ..old(self).spec_conns()[k]
                    }) by {
                        assert(old(self).ids()[k] == old(self).spec_conns()[k].id);
                        assert(k == i as int);
                    };
                }
                return Ok(());
            }
            i += 1;
        }
        Err(GatewayError::UnknownConnection)
    }
}

} // verus!
