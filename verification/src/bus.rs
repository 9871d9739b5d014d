//! The shared bus arbiter: one holder at a time, and a record of what went
//! over the wire that shows it.

use vstd::prelude::*;

verus! {

/// Why the arbiter turned a request down.
#[derive(Clone, Copy, Debug, PartialEq, Eq, Structural)]
pub enum BusError {
    /// Another client holds the bus: the caller has to wait.
    Busy,
    /// The caller does not hold the bus.
    NotHolder,
    /// The arbiter has numbered as many transactions as it can.
    Exhausted,
}

/// The arbiter's state: who holds the bus, how many transactions were
/// granted, and for each byte on the wire who sent it within which
/// transaction.
pub struct BusModel {
    pub holder: Option<u32>,
    pub granted: int,
    pub wire: Seq<u8>,
    pub owners: Seq<u32>,
    pub serials: Seq<u64>,
}

impl BusModel {
    /// What holds of every arbiter: each byte belongs to a granted
    /// transaction, the bytes lie in the order in which their transactions
    /// were granted, one transaction has one sender, and only the holder
    /// adds to the newest transaction.
    pub open spec fn wf(self) -> bool {
        &&& 0 <= self.granted <= u64::MAX
        &&& self.owners.len() == self.wire.len()
        &&& self.serials.len() == self.wire.len()
        &&& self.holder.is_some() ==> self.granted > 0
        &&& forall|i: int| 0 <= i < self.wire.len() ==> (#[trigger] self.serials[i]) < self.granted
        &&& forall|i: int, j: int|
            0 <= i <= j < self.wire.len() ==> (#[trigger] self.serials[i]) <= (
            #[trigger] self.serials[j])
        &&& forall|i: int, j: int|
            0 <= i < self.wire.len() && 0 <= j < self.wire.len() && (#[trigger] self.serials[i])
                == (#[trigger] self.serials[j]) ==> self.owners[i] == self.owners[j]
        &&& forall|i: int|
            0 <= i < self.wire.len() && (#[trigger] self.serials[i]) == self.granted - 1
                && self.holder.is_some() ==> self.owners[i] == self.holder.unwrap()
    }

    /// Whether `client` may be granted the bus now.
    pub open spec fn grantable(self) -> bool {
        self.holder.is_none() && self.granted < u64::MAX
    }

    /// The state after the bus was granted to `client`.
    pub open spec fn acquired(self, client: u32) -> BusModel {
        BusModel { holder: Some(client), granted: self.granted + 1, ..self }
    }

    /// The state after the holder sent `bytes`.
    pub open spec fn written(self, bytes: Seq<u8>) -> BusModel {
        BusModel {
            wire: self.wire + bytes,
            owners: self.owners + Seq::new(bytes.len(), |i: int| self.holder.unwrap()),
            serials: self.serials + Seq::new(bytes.len(), |i: int| (self.granted - 1) as u64),
            ..self
        }
    }

    /// The state after the holder gave the bus back.
    pub open spec fn released(self) -> BusModel {
        BusModel { holder: None, ..self }
    }
}

/// The SPI transport behind a mutual-exclusion cell. Clients are told apart
/// by a number of their choosing.
pub struct SharedBus {
    holder: Option<u32>,
    granted: u64,
    wire: Vec<u8>,
    owners: Vec<u32>,
    serials: Vec<u64>,
}

impl View for SharedBus {
    type V = BusModel;

    closed spec fn view(&self) -> BusModel {
        BusModel {
            holder: self.holder,
            granted: self.granted as int,
            wire: self.wire@,
            owners: self.owners@,
            serials: self.serials@,
        }
    }
}

impl SharedBus {
    /// A free bus over which nothing was sent yet.
    pub fn new() -> (bus: SharedBus)
        ensures
            bus@.wf(),
            bus@.holder.is_none(),
            bus@.granted == 0,
            bus@.wire.len() == 0,
    {
        SharedBus {
            holder: None,
            granted: 0,
            wire: Vec::new(),
            owners: Vec::new(),
            serials: Vec::new(),
        }
    }

    /// A free bus that has numbered `granted` transactions already and sent
    /// nothing: transactions on it are numbered from `granted` on.
    pub fn with_granted(granted: u64) -> (bus: SharedBus)
        ensures
            bus@.wf(),
            bus@.holder.is_none(),
            bus@.granted == granted,
            bus@.wire.len() == 0,
    {
        SharedBus {
            holder: None,
            granted,
            wire: Vec::new(),
            owners: Vec::new(),
            serials: Vec::new(),
        }
    }

    /// Who holds the bus.
    pub fn holder(&self) -> (holder: Option<u32>)
        ensures
            holder == self@.holder,
    {
        self.holder
    }

    /// Every byte sent so far, in the order it went over the wire.
    pub fn wire(&self) -> (wire: &[u8])
        ensures
            wire@ == self@.wire,
    {
        self.wire.as_slice()
    }

    /// The client that sent byte `i` and the number of the transaction it
    /// sent it in, or `None` past the end of the wire.
    pub fn sender(&self, i: usize) -> (sender: Option<(u32, u64)>)
        requires
            self@.wf(),
        ensures
            i < self@.wire.len() ==> sender == Some((self@.owners[i as int], self@.serials[i as int])),
            i >= self@.wire.len() ==> sender.is_none(),
    {
        if i < self.wire.len() {
            Some((self.owners[i], self.serials[i]))
        } else {
            None
        }
    }

    /// Grants the bus to `client` if nobody holds it. While it is held the
    /// answer is `Busy`, to the holder too, and nothing changes: the caller
    /// waits and asks again.
    pub fn acquire(&mut self, client: u32) -> (granted: Result<(), BusError>)
        requires
            old(self)@.wf(),
        ensures
            final(self)@.wf(),
            old(self)@.grantable() ==> granted.is_ok() && final(self)@ == old(self)@.acquired(
                client,
            ),
            old(self)@.holder.is_some() ==> granted == Err::<(), BusError>(BusError::Busy)
                && final(self)@ == old(self)@,
            old(self)@.holder.is_none() && !old(self)@.grantable() ==> granted == Err::<
                (),
                BusError,
            >(BusError::Exhausted) && final(self)@ == old(self)@,
    {
        if self.holder.is_some() {
            return Err(BusError::Busy);
        }
        if self.granted == u64::MAX {
            return Err(BusError::Exhausted);
        }
        self.granted = self.granted + 1;
        self.holder = Some(client);
        Ok(())
    }

    /// Sends `bytes` for `client`, which must hold the bus; from anyone else
    /// nothing reaches the wire.
    pub fn write(&mut self, client: u32, bytes: &[u8]) -> (sent: Result<(), BusError>)
        requires
            old(self)@.wf(),
        ensures
            final(self)@.wf(),
            old(self)@.holder == Some(client) ==> sent.is_ok() && final(self)@ == old(self)@.written(bytes@),
            old(self)@.holder != Some(client) ==> sent == Err::<(), BusError>(BusError::NotHolder)
                && final(self)@ == old(self)@,
    {
        if self.holder != Some(client) {
            return Err(BusError::NotHolder);
        }
        let serial = self.granted - 1;
        let ghost before = old(self)@;
        let mut k: usize = 0;
        while k < bytes.len()
            invariant
                k <= bytes@.len(),
                before.wf(),
                before.holder == Some(client),
                serial == before.granted - 1,
                self@.holder == before.holder,
                self@.granted == before.granted,
                self@.wire == before.wire + bytes@.subrange(0, k as int),
                self@.owners == before.owners + Seq::new(k as nat, |i: int| client),
                self@.serials == before.serials + Seq::new(k as nat, |i: int| serial),
            decreases bytes@.len() - k,
        {
            self.wire.push(bytes[k]);
            self.owners.push(client);
            self.serials.push(serial);
            k += 1;
            proof {
                assert(self@.wire =~= before.wire + bytes@.subrange(0, k as int));
                assert(self@.owners =~= before.owners + Seq::new(k as nat, |i: int| client));
                assert(self@.serials =~= before.serials + Seq::new(k as nat, |i: int| serial));
            }
        }
        proof {
            assert(bytes@.subrange(0, k as int) =~= bytes@);
            lemma_written_wf(before, bytes@);
            assert(self@.owners =~= before.written(bytes@).owners);
            assert(self@.serials =~= before.written(bytes@).serials);
        }
        Ok(())
    }

    /// Gives the bus back. Only the holder can.
    pub fn release(&mut self, client: u32) -> (done: Result<(), BusError>)
        requires
            old(self)@.wf(),
        ensures
            final(self)@.wf(),
            old(self)@.holder == Some(client) ==> done.is_ok() && final(self)@ == old(self)@.released(),
            old(self)@.holder != Some(client) ==> done == Err::<(), BusError>(BusError::NotHolder)
                && final(self)@ == old(self)@,
    {
        if self.holder != Some(client) {
            return Err(BusError::NotHolder);
        }
        self.holder = None;
        Ok(())
    }

    /// One whole transaction: takes the bus for `client`, sends `bytes` and
    /// gives the bus back. If the bus cannot be had nothing is sent; however
    /// the call ends, `client` does not hold the bus after it.
    pub fn transaction(&mut self, client: u32, bytes: &[u8]) -> (done: Result<(), BusError>)
        requires
            old(self)@.wf(),
        ensures
            final(self)@.wf(),
            old(self)@.grantable() ==> done.is_ok() && final(self)@ == old(self)@.acquired(
                client,
            ).written(bytes@).released(),
            !old(self)@.grantable() ==> done.is_err() && final(self)@ == old(self)@,
            old(self)@.holder.is_some() ==> done == Err::<(), BusError>(BusError::Busy),
    {
        match self.acquire(client) {
            Err(e) => Err(e),
            Ok(()) => {
                let sent = self.write(client, bytes);
                let freed = self.release(client);
                match sent {
                    Err(e) => Err(e),
                    Ok(()) => freed,
                }
            },
        }
    }
}

/// Granting the bus keeps the arbiter well formed.
pub proof fn lemma_acquired_wf(m: BusModel, client: u32)
    requires
        m.wf(),
        m.grantable(),
    ensures
        m.acquired(client).wf(),
{
}

/// Sending keeps the arbiter well formed.
pub proof fn lemma_written_wf(m: BusModel, bytes: Seq<u8>)
    requires
        m.wf(),
        m.holder.is_some(),
    ensures
        m.written(bytes).wf(),
{
    let w = m.written(bytes);
    assert forall|i: int| 0 <= i < w.wire.len() implies (#[trigger] w.serials[i]) < w.granted by {}
    assert forall|i: int, j: int| 0 <= i <= j < w.wire.len() implies (#[trigger] w.serials[i]) <= (
    #[trigger] w.serials[j]) by {
        if j < m.wire.len() {
            assert(m.serials[i] <= m.serials[j]);
        } else if i < m.wire.len() {
            assert(m.serials[i] < m.granted);
        }
    }
    assert forall|i: int, j: int|
        0 <= i < w.wire.len() && 0 <= j < w.wire.len() && (#[trigger] w.serials[i]) == (
        #[trigger] w.serials[j]) implies w.owners[i] == w.owners[j] by {
        if i < m.wire.len() && j < m.wire.len() {
            assert(m.serials[i] == m.serials[j]);
        } else if i < m.wire.len() {
            assert(m.serials[i] == m.granted - 1);
        } else if j < m.wire.len() {
            assert(m.serials[j] == m.granted - 1);
        }
    }
    assert forall|i: int|
        0 <= i < w.wire.len() && (#[trigger] w.serials[i]) == w.granted - 1
            && w.holder.is_some() implies w.owners[i] == w.holder.unwrap() by {
        if i < m.wire.len() {
            assert(m.serials[i] == m.granted - 1);
        }
    }
}

/// Giving the bus back keeps the arbiter well formed.
pub proof fn lemma_released_wf(m: BusModel)
    requires
        m.wf(),
    ensures
        m.released().wf(),
{
}

/// Transactions never interleave on the wire: between two bytes of one
/// transaction lie only bytes of that transaction, all from one sender, and
/// a byte of a transaction granted later lies after every byte of one
/// granted earlier.
pub proof fn lemma_no_interleaving(m: BusModel, i: int, j: int, k: int)
    requires
        m.wf(),
        0 <= i <= j <= k < m.wire.len(),
        m.serials[i] == m.serials[k],
    ensures
        m.serials[j] == m.serials[i],
        m.owners[j] == m.owners[i],
        forall|a: int, b: int|
            0 <= a < m.wire.len() && 0 <= b < m.wire.len() && m.serials[a] < m.serials[b] ==> a
                < b,
{
    assert(m.serials[i] <= m.serials[j]);
    assert(m.serials[j] <= m.serials[k]);
    assert forall|a: int, b: int|
        0 <= a < m.wire.len() && 0 <= b < m.wire.len() && m.serials[a] < m.serials[b] implies a
        < b by {
        if b <= a {
            assert(m.serials[b] <= m.serials[a]);
        }
    }
}

/// Of two clients that ask for a free bus, the second waits: whatever it
/// asks or sends while the first holds the bus changes nothing, and once it
/// is granted the bus the wire holds all the first client's bytes, then its
/// own.
pub proof fn lemma_second_waits(m: BusModel, first: u32, second: u32, a: Seq<u8>, b: Seq<u8>)
    requires
        m.wf(),
        m.grantable(),
        m.granted + 1 < u64::MAX,
        first != second,
    ensures
        !m.acquired(first).written(a).grantable(),
        m.acquired(first).written(a).holder != Some(second),
        m.acquired(first).written(a).released().grantable(),
        m.acquired(first).written(a).released().acquired(second).written(b).wire == m.wire + a
            + b,
        m.acquired(first).written(a).released().acquired(second).written(b).wf(),
{
    lemma_acquired_wf(m, first);
    let m1 = m.acquired(first);
    lemma_written_wf(m1, a);
    let m2 = m1.written(a);
    lemma_released_wf(m2);
    let m3 = m2.released();
    lemma_acquired_wf(m3, second);
    let m4 = m3.acquired(second);
    lemma_written_wf(m4, b);
}

} // verus!
