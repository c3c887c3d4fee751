use vstd::prelude::*;

use crate::errors::PoolError;

verus! {

/// The cause string reported when the pool has nothing left to lend.
pub open spec fn pool_exhausted_message() -> Seq<char> {
    "connection pool exhausted"@
}

/// A storage connection checked out of the pool for the duration of one
/// handler invocation. The handle is opaque: queries are made against it,
/// and it is given back with `Pool::release`. It is deliberately neither
/// `Clone` nor `Copy`, so a checked-out connection cannot be duplicated.
pub struct Connection {}

/// A bounded set of reusable storage connections, shared by all request
/// handlers. It only keeps count of what it has lent out: with at most
/// `capacity` connections in use, an acquire on an exhausted pool fails
/// fast rather than handing out a duplicate handle.
pub struct Pool {
    capacity: usize,
    in_use: usize,
}

impl Pool {
    /// How many connections the pool was created with.
    pub closed spec fn spec_capacity(&self) -> int {
        self.capacity as int
    }

    /// How many connections are checked out right now.
    pub closed spec fn spec_in_use(&self) -> int {
        self.in_use as int
    }

    /// How many connections are still available.
    pub open spec fn spec_available(&self) -> int {
        self.spec_capacity() - self.spec_in_use()
    }

    /// The pool never accounts for more checked-out connections than it has.
    pub open spec fn wf(&self) -> bool {
        0 <= self.spec_in_use() <= self.spec_capacity()
    }

    /// A fresh pool with every connection available.
    pub fn new(capacity: usize) -> (p: Pool)
        ensures
            p.wf(),
            p.spec_capacity() == capacity,
            p.spec_in_use() == 0,
    {
        Pool { capacity, in_use: 0 }
    }

    pub fn capacity(&self) -> (n: usize)
        ensures
            n == self.spec_capacity(),
    {
        self.capacity
    }

    pub fn available(&self) -> (n: usize)
        requires
            self.wf(),
        ensures
            n == self.spec_available(),
    {
        self.capacity - self.in_use
    }

    /// Check a connection out. Succeeds exactly when one is available;
    /// on an exhausted pool it fails with a pool error and changes nothing.
    pub fn acquire(&mut self) -> (r: Result<Connection, PoolError>)
        requires
            old(self).wf(),
        ensures
            final(self).wf(),
            final(self).spec_capacity() == old(self).spec_capacity(),
            old(self).spec_available() > 0 ==> r is Ok && final(self).spec_in_use() == old(
                self,
            ).spec_in_use() + 1,
            old(self).spec_available() == 0 ==> (r matches Err(e) && e.message@
                == pool_exhausted_message() && *final(self) == *old(self)),
    {
        if self.in_use < self.capacity {
            self.in_use = self.in_use + 1;
            Ok(Connection {  })
        } else {
            Err(PoolError { message: String::from_str("connection pool exhausted") })
        }
    }

    /// Check a connection back in. The connection is consumed: once given
    /// back, a handler cannot release it a second time. Only a connection
    /// this pool lent out can come back, so at least one is checked out.
    pub fn release(&mut self, conn: Connection)
        requires
            old(self).wf(),
            old(self).spec_in_use() > 0,
        ensures
            final(self).wf(),
            final(self).spec_capacity() == old(self).spec_capacity(),
            final(self).spec_in_use() == old(self).spec_in_use() - 1,
    {
        let Connection {  } = conn;
        self.in_use = self.in_use - 1;
    }
}

/// Law: a pool with capacity K never has more than K connections checked
/// out at once — the count of lent connections is bounded by the capacity
/// in every well-formed state, and `acquire` keeps the state well-formed
/// while refusing to lend from an exhausted pool.
pub proof fn lemma_pool_never_over_capacity(p: Pool)
    requires
        p.wf(),
    ensures
        p.spec_in_use() <= p.spec_capacity(),
        p.spec_available() == 0 ==> p.spec_in_use() == p.spec_capacity(),
{
}

} // verus!
