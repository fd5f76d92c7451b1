use vstd::prelude::*;

use crate::packet::{Packet, PacketModel};

verus! {

/// The outbound packet queue shared by every producer (the join handshake,
/// the command loop, and the keep-alive tick) and drained by the single
/// writer. First in, first out: no producer's packet ever overtakes
/// another's.
pub struct OutboundQueue {
    items: Vec<Packet>,
}

impl View for OutboundQueue {
    type V = Seq<PacketModel>;

    closed spec fn view(&self) -> Seq<PacketModel> {
        self.items.deep_view()
    }
}

impl OutboundQueue {
    pub fn new() -> (q: OutboundQueue)
        ensures
            q@ == Seq::<PacketModel>::empty(),
    {
        let q = OutboundQueue { items: Vec::new() };
        proof {
            assert(q@ =~= Seq::<PacketModel>::empty());
        }
        q
    }

    pub fn len(&self) -> (n: usize)
        ensures
            n == self@.len(),
    {
        self.items.len()
    }

    /// Append a packet behind everything already queued.
    pub fn enqueue(&mut self, p: Packet)
        ensures
            final(self)@ == old(self)@.push(p@),
    {
        self.items.push(p);
        proof {
            assert(self@ =~= old(self)@.push(p@));
        }
    }

    /// Hand out the packet that has waited longest, if any: always the front
    /// of the queue, leaving the rest in their order.
    pub fn dequeue(&mut self) -> (r: Option<Packet>)
        ensures
            old(self)@.len() == 0 ==> r is None && final(self)@ == old(self)@,
            old(self)@.len() > 0 ==> (r matches Some(p) && p@ == old(self)@[0] && final(self)@
                == old(self)@.drop_first()),
    {
        if self.items.len() == 0 {
            return None;
        }
        let p = self.items.remove(0);
        proof {
            assert(self@ =~= old(self)@.drop_first());
        }
        Some(p)
    }
}

/// The packets that successive dequeues hand back, in order, until the queue
/// is empty.
pub open spec fn drain_order(s: Seq<PacketModel>) -> Seq<PacketModel>
    decreases s.len(),
{
    if s.len() == 0 {
        Seq::<PacketModel>::empty()
    } else {
        seq![s[0]] + drain_order(s.drop_first())
    }
}

/// Law: the writer sees packets in exactly the order the producers enqueued
/// them. Draining the queue reproduces its contents as they stand, so
/// keep-alive packets and user commands interleave in enqueue order only.
pub proof fn lemma_drain_preserves_enqueue_order(s: Seq<PacketModel>)
    ensures
        drain_order(s) == s,
    decreases s.len(),
{
    if s.len() == 0 {
        assert(drain_order(s) =~= s);
    } else {
        lemma_drain_preserves_enqueue_order(s.drop_first());
        assert(drain_order(s) =~= s);
    }
}

} // verus!
