//! A bounded queue of the latest beacons from a secure concentrator, waiting
//! for the signature that the concentrator sends after each of them.
use vstd::prelude::*;
use crate::packet::{PacketUp, PacketUpView};

verus! {

/// How many beacons wait for their signature; older ones are dropped, and
/// a signature that arrives after its beacon was dropped is lost.
pub const SIGNED_QUEUE_CAPACITY: usize = 5;

/// A beacon and its packet id.
#[derive(Debug, Clone)]
pub struct SignedBeacon {
    pub key: u32,
    pub packet: PacketUp,
}

/// `queue` after `entry` arrives: the oldest entries leave so that at most
/// `SIGNED_QUEUE_CAPACITY` remain.
pub open spec fn bounded_push(queue: Seq<(u32, PacketUpView)>, entry: (u32, PacketUpView)) -> Seq<(u32, PacketUpView)> {
    if queue.len() < SIGNED_QUEUE_CAPACITY {
        queue.push(entry)
    } else {
        queue.skip(queue.len() - SIGNED_QUEUE_CAPACITY + 1).push(entry)
    }
}

/// `i` is the first position of `queue` that holds `key`.
pub open spec fn is_first_with_key(queue: Seq<(u32, PacketUpView)>, key: u32, i: int) -> bool {
    &&& 0 <= i < queue.len()
    &&& queue[i].0 == key
    &&& forall|j: int| 0 <= j < i ==> #[trigger] queue[j].0 != key
}

/// Beacons waiting for their signature, oldest first.
#[derive(Debug)]
pub struct SignedBeaconQueue {
    entries: Vec<SignedBeacon>,
}

impl View for SignedBeaconQueue {
    type V = Seq<(u32, PacketUpView)>;

    closed spec fn view(&self) -> Seq<(u32, PacketUpView)> {
        self.entries@.map_values(|e: SignedBeacon| (e.key, e.packet@))
    }
}

impl SignedBeaconQueue {
    pub open spec fn wf(&self) -> bool {
        self@.len() <= SIGNED_QUEUE_CAPACITY
    }

    pub fn new() -> (r: Self)
        ensures
            r@ == Seq::<(u32, PacketUpView)>::empty(),
            r.wf(),
    {
        let r = SignedBeaconQueue { entries: Vec::new() };
        assert(r@ =~= Seq::<(u32, PacketUpView)>::empty());
        r
    }

    pub fn len(&self) -> (r: usize)
        ensures
            r == self@.len(),
    {
        self.entries.len()
    }

    /// The packet ids waiting, oldest first.
    pub fn keys(&self) -> (r: Vec<u32>)
        ensures
            r@ == self@.map_values(|e: (u32, PacketUpView)| e.0),
    {
        let mut r: Vec<u32> = Vec::new();
        let mut i: usize = 0;
        while i < self.entries.len()
            invariant
                i <= self@.len(),
                self@.len() == self.entries@.len(),
                r@ == self@.take(i as int).map_values(|e: (u32, PacketUpView)| e.0),
            decreases self@.len() - i,
        {
            r.push(self.entries[i].key);
            i = i + 1;
            assert(r@ =~= self@.take(i as int).map_values(|e: (u32, PacketUpView)| e.0));
        }
        assert(self@.take(i as int) =~= self@);
        r
    }

    /// Queues a beacon under its packet id, dropping the oldest when full.
    pub fn push(&mut self, key: u32, packet: PacketUp)
        requires
            old(self).wf(),
        ensures
            final(self).wf(),
            final(self)@ == bounded_push(old(self)@, (key, packet@)),
    {
        let ghost entry = (key, packet@);
        if self.entries.len() >= SIGNED_QUEUE_CAPACITY {
            self.entries.remove(0);
        }
        self.entries.push(SignedBeacon { key, packet });
        assert(self@ =~= bounded_push(old(self)@, entry));
    }

    /// Takes out the oldest beacon queued under `key`, if any.
    pub fn take_signed(&mut self, key: u32) -> (r: Option<PacketUp>)
        requires
            old(self).wf(),
        ensures
            final(self).wf(),
            match r {
                None => final(self)@ == old(self)@ && forall|i: int|
                    0 <= i < old(self)@.len() ==> #[trigger] old(self)@[i].0 != key,
                Some(p) => exists|i: int|
                    is_first_with_key(old(self)@, key, i) && p@ == old(self)@[i].1 && final(self)@ == old(self)@.remove(i),
            },
    {
        let mut i: usize = 0;
        while i < self.entries.len()
            invariant
                i <= self@.len(),
                self@.len() == self.entries@.len(),
                self@ == old(self)@,
                self.wf(),
                forall|j: int| 0 <= j < i ==> #[trigger] self@[j].0 != key,
            decreases self@.len() - i,
        {
            if self.entries[i].key == key {
                let ghost before = self@;
                let e = self.entries.remove(i);
                assert(self@ =~= before.remove(i as int));
                assert(is_first_with_key(before, key, i as int));
                return Some(e.packet);
            }
            i = i + 1;
        }
        None
    }
}

} // verus!
