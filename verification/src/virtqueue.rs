//! Model of one virtqueue and of the interrupt line it signals.
//!
//! The guest makes descriptor chains available; the host pops them, executes
//! them, adds each exactly once to the used ring with the byte count it
//! considers used, and signals the interrupt.  Signalling may coalesce, so
//! the interrupt is modelled as a level: `signaled` stays raised until the
//! (unmodelled) guest services it.

use vstd::prelude::*;

use crate::desc_chain::DescriptorChain;

verus! {

/// The interrupt line of a device: the queue signal and the config-change
/// signal.
pub struct Interrupt {
    signaled: bool,
    config_changed: bool,
}

impl Interrupt {
    /// Whether the queue interrupt has been signalled.
    pub closed spec fn is_signaled(self) -> bool {
        self.signaled
    }

    /// Whether a config change has been signalled.
    pub closed spec fn is_config_changed(self) -> bool {
        self.config_changed
    }

    /// A line with nothing signalled.
    pub fn new() -> (ir: Interrupt)
        ensures
            !ir.is_signaled(),
            !ir.is_config_changed(),
    {
        Interrupt { signaled: false, config_changed: false }
    }

    /// Raises the queue interrupt.
    pub fn signal_used_queue(&mut self)
        ensures
            final(self).is_signaled(),
            final(self).is_config_changed() == old(self).is_config_changed(),
    {
        self.signaled = true;
    }

    /// Tells the guest to re-read the config space.
    pub fn signal_config_changed(&mut self)
        ensures
            final(self).is_config_changed(),
            final(self).is_signaled() == old(self).is_signaled(),
    {
        self.config_changed = true;
    }

    /// Whether the queue interrupt is raised.
    pub fn read_signaled(&self) -> (b: bool)
        ensures
            b == self.is_signaled(),
    {
        self.signaled
    }

    /// Whether the config-change interrupt is raised.
    pub fn read_config_changed(&self) -> (b: bool)
        ensures
            b == self.is_config_changed(),
    {
        self.config_changed
    }
}

/// The notification object on which a queue's worker waits.  Only its
/// ownership is modelled: a drain runs when the guest signals it.
pub struct Event {}

impl Event {
    /// A fresh notification object.
    pub fn new() -> Event {
        Event {  }
    }
}

/// One entry of the used ring: the chain's identifier, the used byte count
/// reported to the guest, and the bytes the host wrote into the chain's data
/// and status regions.
pub struct UsedChain {
    /// Identifier of the completed chain.
    pub id: u16,
    /// Bytes the host reports as used, status byte included.
    pub len: u32,
    /// What was written into the data region.
    pub data: Vec<u8>,
    /// What was written into the status region.
    pub status: Vec<u8>,
}

/// One virtqueue: chains the guest made available, front first, and the used
/// ring the host fills.
pub struct Queue {
    size: u16,
    avail: Vec<DescriptorChain>,
    used: Vec<UsedChain>,
}

/// The identifier, used length, data bytes and status bytes of a used-ring
/// entry, as a tuple for use in specifications.
pub open spec fn used_view(u: UsedChain) -> (u16, u32, Seq<u8>, Seq<u8>) {
    (u.id, u.len, u.data@, u.status@)
}

impl Queue {
    /// Every available chain is well formed and untouched: the guest hands
    /// the host fresh writable regions.
    pub closed spec fn wf(self) -> bool {
        forall|i: int|
            0 <= i < self.avail@.len() ==> {
                &&& (#[trigger] self.avail@[i]).wf()
                &&& self.avail@[i].writer.contents() == Seq::<u8>::empty()
                &&& self.avail@[i].status@ == Seq::<u8>::empty()
            }
    }

    /// The maximum queue size the device advertised.
    pub closed spec fn size(self) -> u16 {
        self.size
    }

    /// The chains the guest has made available and the host has not popped,
    /// front first.
    pub closed spec fn avail_chains(self) -> Seq<DescriptorChain> {
        self.avail@
    }

    /// The used ring, in completion order.
    pub closed spec fn used_ring(self) -> Seq<UsedChain> {
        self.used@
    }

    /// An empty queue of the given maximum size.
    pub fn new(size: u16) -> (q: Queue)
        ensures
            q.wf(),
            q.size() == size,
            q.avail_chains() == Seq::<DescriptorChain>::empty(),
            q.used_ring() == Seq::<UsedChain>::empty(),
    {
        let q = Queue { size, avail: Vec::new(), used: Vec::new() };
        proof {
            assert(q.avail_chains() =~= Seq::<DescriptorChain>::empty());
            assert(q.used_ring() =~= Seq::<UsedChain>::empty());
        }
        q
    }

    /// The guest makes a chain available at the back of the queue.
    pub fn add_avail(&mut self, chain: DescriptorChain)
        requires
            old(self).wf(),
            chain.wf(),
            chain.writer.contents() == Seq::<u8>::empty(),
            chain.status@ == Seq::<u8>::empty(),
        ensures
            final(self).wf(),
            final(self).size() == old(self).size(),
            final(self).avail_chains() == old(self).avail_chains().push(chain),
            final(self).used_ring() == old(self).used_ring(),
    {
        self.avail.push(chain);
    }

    /// Pops the front available chain, if any.
    pub fn pop(&mut self) -> (c: Option<DescriptorChain>)
        requires
            old(self).wf(),
        ensures
            final(self).wf(),
            final(self).size() == old(self).size(),
            final(self).used_ring() == old(self).used_ring(),
            old(self).avail_chains().len() == 0 ==> (c is None && final(self).avail_chains()
                == old(self).avail_chains()),
            old(self).avail_chains().len() > 0 ==> (c == Some(old(self).avail_chains()[0])
                && final(self).avail_chains() == old(self).avail_chains().skip(1)
                && old(self).avail_chains()[0].wf()
                && old(self).avail_chains()[0].writer.contents() == Seq::<u8>::empty()
                && old(self).avail_chains()[0].status@ == Seq::<u8>::empty()),
    {
        if self.avail.len() == 0 {
            None
        } else {
            let c = self.avail.remove(0);
            proof {
                assert(self.avail@ =~= old(self).avail_chains().skip(1));
            }
            Some(c)
        }
    }

    /// The used ring, for inspection by the transport.
    pub fn used_entries(&self) -> (u: &Vec<UsedChain>)
        ensures
            u@ == self.used_ring(),
    {
        &self.used
    }

    /// Whether the guest has made no chain available.
    pub fn avail_empty(&self) -> (b: bool)
        ensures
            b == (self.avail_chains().len() == 0),
    {
        self.avail.len() == 0
    }

    /// Signals the interrupt for this queue's used ring.  Signalling may
    /// coalesce: the line stays raised until serviced.
    pub fn trigger_interrupt(&self, interrupt: &mut Interrupt)
        ensures
            final(interrupt).is_signaled(),
            final(interrupt).is_config_changed() == old(interrupt).is_config_changed(),
    {
        interrupt.signal_used_queue();
    }

    /// Marks a popped chain as used, reporting `len` bytes to the guest.
    /// Called exactly once per popped chain.
    pub fn add_used(&mut self, chain: DescriptorChain, len: u32)
        requires
            old(self).wf(),
        ensures
            final(self).wf(),
            final(self).size() == old(self).size(),
            final(self).avail_chains() == old(self).avail_chains(),
            final(self).used_ring().len() == old(self).used_ring().len() + 1,
            final(self).used_ring().subrange(0, old(self).used_ring().len() as int) == old(
                self,
            ).used_ring(),
            used_view(final(self).used_ring().last()) == (
                chain.id,
                len,
                chain.writer.contents(),
                chain.status@,
            ),
    {
        let DescriptorChain { id, reader: _, writer, status } = chain;
        let data = writer.into_vec();
        self.used.push(UsedChain { id, len, data, status });
        proof {
            assert(self.used@.subrange(0, old(self).used_ring().len() as int) =~= old(
                self,
            ).used_ring());
        }
    }
}

} // verus!
