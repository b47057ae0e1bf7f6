//! Split virtqueue: descriptor table, available ring and used ring.
//!
//! The queue is kept as a plain image of the three areas that driver and
//! device share. The driver half (descriptor table and available ring) is
//! written only by the functions of this module; the device half (used ring)
//! is copied in by whoever talks to the device and is never trusted.

use vstd::prelude::*;
use vstd::arithmetic::power2::lemma2_to64;
use vstd::arithmetic::power2::pow2;
use vstd::set_lib::lemma_int_range;
use vstd::set_lib::lemma_len_subset;
use vstd::set_lib::set_int_range;
use crate::bytes::get_u16;
use crate::bytes::get_u32;
use crate::bytes::le_u16;
use crate::bytes::le_u32;
use crate::bytes::le_u64;
use crate::bytes::put_u16;
use crate::bytes::put_u32;
use crate::bytes::put_u64;
use crate::bytes::u16_of_le;
use crate::bytes::u32_of_le;

verus! {

/// Why a virtqueue operation was refused.
#[derive(Debug, Clone, Copy, PartialEq, Eq)]
pub enum QueueError {
    /// The arguments do not describe a valid queue or submission.
    InvalidArgs,
    /// The submission needs more descriptors than are free.
    BufferTooSmall,
    /// The used ring holds no completion.
    NotReady,
    /// The descriptor is in use already.
    AlreadyUsed,
    /// The completion at the head of the used ring is not the expected one.
    WrongToken,
}

/// Descriptor flag: the chain goes on at `next`.
pub const DESC_F_NEXT: u16 = 1;

/// Descriptor flag: the device writes to the buffer (otherwise it reads).
pub const DESC_F_WRITE: u16 = 2;

/// Descriptor flag: the buffer holds a list of descriptors.
pub const DESC_F_INDIRECT: u16 = 4;

/// Available-ring flag: the driver wants no interrupt for this queue.
pub const VIRTQ_AVAIL_F_NO_INTERRUPT: u16 = 1;

/// Used-ring flag: the device wants no notification for this queue.
pub const VIRTQ_USED_F_NO_NOTIFY: u16 = 1;

/// Largest queue a legacy transport may be asked for.
pub const LEGACY_MAX_QUEUE_SIZE: u16 = 128;

/// Largest queue a modern transport may be asked for.
pub const MODERN_MAX_QUEUE_SIZE: u16 = 256;

/// Flags of one descriptor.
#[derive(Debug, Clone, Copy, PartialEq, Eq)]
pub struct DescFlags {
    pub bits: u16,
}

impl DescFlags {
    /// Whether every bit of `flag` is set.
    pub open spec fn has(self, flag: u16) -> bool {
        self.bits & flag == flag
    }

    /// No flag set.
    pub fn empty() -> (r: Self)
        ensures
            r.bits == 0,
    {
        DescFlags { bits: 0 }
    }

    /// The flags of a descriptor that the device reads and that is followed by another.
    pub fn next() -> (r: Self)
        ensures
            r.bits == DESC_F_NEXT,
    {
        DescFlags { bits: DESC_F_NEXT }
    }

    /// The flags of a descriptor that the device writes and that is followed by another.
    pub fn next_write() -> (r: Self)
        ensures
            r.bits == 3,
            r.bits == DESC_F_NEXT | DESC_F_WRITE,
    {
        assert(1u16 | 2u16 == 3u16) by (bit_vector);
        DescFlags { bits: DESC_F_NEXT | DESC_F_WRITE }
    }

    /// The flags as a number.
    pub fn bits(&self) -> (r: u16)
        ensures
            r == self.bits,
    {
        self.bits
    }

    /// Whether every bit of `flag` is set.
    pub fn contains(&self, flag: u16) -> (r: bool)
        ensures
            r == self.has(flag),
    {
        self.bits & flag == flag
    }

    /// Clears the bits of `flag`.
    pub fn remove(&mut self, flag: u16)
        ensures
            final(self).bits == old(self).bits & !flag,
    {
        self.bits = self.bits & !flag;
    }
}

/// Flags of the available ring.
#[derive(Debug, Clone, Copy, PartialEq, Eq)]
pub struct AvailFlags {
    pub bits: u16,
}

/// One entry of the descriptor table.
#[derive(Debug, Clone, Copy, PartialEq, Eq)]
pub struct Descriptor {
    pub addr: u64,
    pub len: u32,
    pub flags: DescFlags,
    pub next: u16,
}

/// The ring in which the driver offers descriptor chains to the device.
#[derive(Debug, Clone, PartialEq, Eq)]
pub struct AvailRing {
    pub flags: AvailFlags,
    /// Number of chains offered so far, modulo 2^16.
    pub idx: u16,
    /// One slot per descriptor; a slot holds the head of a chain.
    pub ring: Vec<u16>,
    pub used_event: u16,
}

/// One completion: the head of the chain and the number of bytes written.
#[derive(Debug, Clone, Copy, PartialEq, Eq)]
pub struct UsedElem {
    pub id: u32,
    pub len: u32,
}

/// The ring in which the device hands chains back.
#[derive(Debug, Clone, PartialEq, Eq)]
pub struct UsedRing {
    pub flags: u16,
    /// Number of chains handed back so far, modulo 2^16.
    pub idx: u16,
    /// One slot per descriptor.
    pub ring: Vec<UsedElem>,
    pub avail_event: u16,
}

/// What a DMA buffer tells the queue: where the device finds it, and its length.
#[derive(Debug, Clone, Copy, PartialEq, Eq)]
pub struct DmaBuf {
    pub daddr: u64,
    pub len: u32,
}

/// What the queue needs to know of the transport below it.
#[derive(Debug, Clone, Copy, PartialEq, Eq)]
pub enum QueueTransport {
    /// A modern transport: the driver chooses the queue size.
    Modern,
    /// A legacy transport: the device dictates the queue size.
    Legacy { max_queue_size: u16 },
}

/// The value that tells the device to look at a queue, in the width that the
/// transport's notify register has.
#[derive(Debug, Clone, Copy, PartialEq, Eq)]
pub enum Notify {
    Modern(u32),
    Legacy(u16),
}

/// Whether `n` is a power of two.
pub open spec fn is_power_of_two(n: u16) -> bool {
    exists|k: nat| k < 16 && n as nat == #[trigger] pow2(k)
}

/// The powers of two that fit in 16 bits, written out.
pub proof fn lemma_power_of_two_values(n: u16)
    ensures
        is_power_of_two(n) <==> (n == 1 || n == 2 || n == 4 || n == 8 || n == 16 || n == 32 || n
            == 64 || n == 128 || n == 256 || n == 512 || n == 1024 || n == 2048 || n == 4096 || n
            == 8192 || n == 16384 || n == 32768),
{
    lemma2_to64();
    if is_power_of_two(n) {
        let k = choose|k: nat| k < 16 && n as nat == #[trigger] pow2(k);
        assert(k == 0 || k == 1 || k == 2 || k == 3 || k == 4 || k == 5 || k == 6 || k == 7 || k
            == 8 || k == 9 || k == 10 || k == 11 || k == 12 || k == 13 || k == 14 || k == 15);
    }
    if n == 1 { assert(n as nat == pow2(0)); }
    if n == 2 { assert(n as nat == pow2(1)); }
    if n == 4 { assert(n as nat == pow2(2)); }
    if n == 8 { assert(n as nat == pow2(3)); }
    if n == 16 { assert(n as nat == pow2(4)); }
    if n == 32 { assert(n as nat == pow2(5)); }
    if n == 64 { assert(n as nat == pow2(6)); }
    if n == 128 { assert(n as nat == pow2(7)); }
    if n == 256 { assert(n as nat == pow2(8)); }
    if n == 512 { assert(n as nat == pow2(9)); }
    if n == 1024 { assert(n as nat == pow2(10)); }
    if n == 2048 { assert(n as nat == pow2(11)); }
    if n == 4096 { assert(n as nat == pow2(12)); }
    if n == 8192 { assert(n as nat == pow2(13)); }
    if n == 16384 { assert(n as nat == pow2(14)); }
    if n == 32768 { assert(n as nat == pow2(15)); }
}

/// For a power of two, masking with `size - 1` is the remainder by `size`.
pub proof fn lemma_mask_is_remainder(x: u16, size: u16)
    requires
        is_power_of_two(size),
    ensures
        x & ((size - 1) as u16) == x % size,
        x % size < size,
{
    lemma_power_of_two_values(size);
    assert((size == 1 || size == 2 || size == 4 || size == 8 || size == 16 || size == 32 || size
        == 64 || size == 128 || size == 256 || size == 512 || size == 1024 || size == 2048 || size
        == 4096 || size == 8192 || size == 16384 || size == 32768) ==> x & ((size - 1) as u16) == x
        % size) by (bit_vector);
}

/// Tells whether `n` is a power of two.
pub fn power_of_two(n: u16) -> (r: bool)
    ensures
        r == is_power_of_two(n),
{
    proof {
        lemma_power_of_two_values(n);
    }
    assert(n != 0 ==> ((n & ((n - 1) as u16) == 0) <==> (n == 1 || n == 2 || n == 4 || n == 8 || n
        == 16 || n == 32 || n == 64 || n == 128 || n == 256 || n == 512 || n == 1024 || n == 2048
        || n == 4096 || n == 8192 || n == 16384 || n == 32768))) by (bit_vector);
    n != 0 && n & (n - 1) == 0
}


/// A sequence of distinct numbers below `n` has at most `n` members.
pub proof fn lemma_distinct_below(s: Seq<int>, n: int)
    requires
        s.no_duplicates(),
        forall|i: int| 0 <= i < s.len() ==> 0 <= #[trigger] s[i] < n,
        0 <= n,
    ensures
        s.len() <= n,
{
    s.unique_seq_to_set();
    lemma_int_range(0, n);
    assert(s.to_set().subset_of(set_int_range(0, n))) by {
        assert forall|x: int| s.to_set().contains(x) implies set_int_range(0, n).contains(x) by {
            let i = choose|i: int| 0 <= i < s.len() && s[i] == x;
            assert(0 <= s[i] < n);
        }
    }
    lemma_len_subset(s.to_set(), set_int_range(0, n));
}

/// The mathematical content of a [`VirtQueue`].
pub struct VirtQueueView {
    /// Number of descriptors, and of slots in each ring.
    pub size: u16,
    /// Whether the notify register takes 32 bits.
    pub modern: bool,
    /// The queue's index on its device.
    pub index: u32,
    /// Number of descriptors that belong to submitted chains.
    pub num_used: u16,
    /// First descriptor of the free list, if that is not empty.
    pub free_head: u16,
    /// Number of chains offered so far, modulo 2^16.
    pub avail_idx: u16,
    /// Number of completions taken so far, modulo 2^16.
    pub last_used_idx: u16,
    pub callback_enabled: bool,
    pub descs: Seq<Descriptor>,
    pub avail_flags: AvailFlags,
    pub avail_ring_idx: u16,
    pub avail_ring: Seq<u16>,
    /// The event word of the available ring.
    pub avail_used_event: u16,
    pub used_flags: u16,
    pub used_idx: u16,
    pub used_ring: Seq<UsedElem>,
    /// The event word of the used ring.
    pub used_avail_event: u16,
    /// For each descriptor, whether it heads a submitted chain.
    pub heads: Seq<bool>,
    /// The free descriptors, in the order in which they will be handed out.
    pub free: Seq<int>,
    /// The submitted chains that have not been taken back, by their head.
    pub chains: Map<int, Seq<int>>,
}

impl VirtQueueView {
    /// The free list is threaded through the `next` fields, from `free_head` on.
    pub open spec fn free_linked(self) -> bool {
        &&& self.free.len() > 0 ==> self.free[0] == self.free_head
        &&& forall|i: int|
            0 <= i < self.free.len() ==> 0 <= #[trigger] self.free[i] < self.size
        &&& forall|i: int|
            0 <= i < self.free.len() - 1 ==> self.descs[#[trigger] self.free[i]].next
                == self.free[i + 1]
        &&& self.free.no_duplicates()
    }

    /// The chain headed by `h` starts at `h`, follows `next` while the flag
    /// `DESC_F_NEXT` is set, and ends at the first descriptor without it.
    pub open spec fn chain_linked(self, h: int) -> bool {
        let c = self.chains[h];
        &&& c.len() >= 1
        &&& c[0] == h
        &&& forall|j: int| 0 <= j < c.len() ==> 0 <= #[trigger] c[j] < self.size
        &&& forall|j: int|
            0 <= j < c.len() - 1 ==> self.descs[#[trigger] c[j]].next == c[j + 1]
                && self.descs[c[j]].flags.has(DESC_F_NEXT)
        &&& !self.descs[c[c.len() - 1]].flags.has(DESC_F_NEXT)
        &&& c.no_duplicates()
    }

    /// No descriptor is both free and in a chain, or in two chains.
    pub open spec fn disjoint(self) -> bool {
        &&& forall|h: int, j: int, i: int|
            self.chains.dom().contains(h) && 0 <= j < self.chains[h].len() && 0 <= i
                < self.free.len() ==> #[trigger] self.chains[h][j] != #[trigger] self.free[i]
        &&& forall|h1: int, j1: int, h2: int, j2: int|
            self.chains.dom().contains(h1) && self.chains.dom().contains(h2) && h1 != h2 && 0
                <= j1 < self.chains[h1].len() && 0 <= j2 < self.chains[h2].len()
                ==> #[trigger] self.chains[h1][j1] != #[trigger] self.chains[h2][j2]
    }

    /// The invariant of a queue.
    pub open spec fn wf(self) -> bool {
        &&& is_power_of_two(self.size)
        &&& self.descs.len() == self.size
        &&& self.avail_ring.len() == self.size
        &&& self.used_ring.len() == self.size
        &&& self.heads.len() == self.size
        &&& self.num_used <= self.size
        &&& self.free.len() == self.size - self.num_used
        &&& self.avail_ring_idx == self.avail_idx
        &&& self.avail_flags.bits == (if self.callback_enabled {
            0u16
        } else {
            VIRTQ_AVAIL_F_NO_INTERRUPT
        })
        &&& self.free_linked()
        &&& forall|h: int|
            0 <= h < self.size ==> (#[trigger] self.heads[h] <==> self.chains.dom().contains(h))
        &&& forall|h: int| #[trigger] self.chains.dom().contains(h) ==> 0 <= h < self.size
        &&& forall|h: int| #[trigger] self.chains.dom().contains(h) ==> self.chain_linked(h)
        &&& self.disjoint()
    }

    /// Whether `token` names a submitted chain that has not been taken back.
    pub open spec fn in_flight(self, token: u16) -> bool {
        self.chains.dom().contains(token as int)
    }

    /// The buffers of the chain headed by `token`, in order: address, length,
    /// and whether the device writes to it.
    pub open spec fn chain_bufs(self, token: u16) -> Seq<(u64, u32, bool)> {
        let c = self.chains[token as int];
        Seq::new(
            c.len(),
            |j: int| (self.descs[c[j]].addr, self.descs[c[j]].len, self.descs[c[j]].flags.has(
                DESC_F_WRITE,
            )),
        )
    }

    /// Whether the used ring holds a completion that has not been taken.
    pub open spec fn can_pop(self) -> bool {
        self.last_used_idx != self.used_idx
    }

    /// The completion that is next to be taken.
    pub open spec fn next_used(self) -> UsedElem {
        self.used_ring[(self.last_used_idx % self.size) as int]
    }

    /// The token that the next completion names: the low 16 bits of its id.
    pub open spec fn next_used_token(self) -> u16 {
        (self.next_used().id % 0x1_0000) as u16
    }
}

/// The state of a fresh queue of `size` descriptors: every descriptor free,
/// the free list in ascending order, both rings empty.
pub open spec fn fresh_queue(idx: u16, size: u16, modern: bool) -> VirtQueueView {
    VirtQueueView {
        size,
        modern,
        index: idx as u32,
        num_used: 0,
        free_head: 0,
        avail_idx: 0,
        last_used_idx: 0,
        callback_enabled: true,
        descs: Seq::new(
            size as nat,
            |i: int|
                Descriptor {
                    addr: 0,
                    len: 0,
                    flags: DescFlags { bits: 0 },
                    next: if i + 1 != size {
                        (i + 1) as u16
                    } else {
                        0
                    },
                },
        ),
        avail_flags: AvailFlags { bits: 0 },
        avail_ring_idx: 0,
        avail_ring: Seq::new(size as nat, |i: int| 0u16),
        avail_used_event: 0,
        used_flags: 0,
        used_idx: 0,
        used_ring: Seq::new(size as nat, |i: int| UsedElem { id: 0, len: 0 }),
        used_avail_event: 0,
        heads: Seq::new(size as nat, |i: int| false),
        free: Seq::new(size as nat, |i: int| i),
        chains: Map::empty(),
    }
}

/// The size that a queue gets when `size` is asked for on `transport`, if the
/// request is valid: the size asked for on a modern transport, the device's
/// size on a legacy one.
pub open spec fn queue_size_for(size: u16, transport: QueueTransport) -> Option<u16> {
    if !is_power_of_two(size) {
        None
    } else {
        match transport {
            QueueTransport::Modern => if size > MODERN_MAX_QUEUE_SIZE {
                None
            } else {
                Some(size)
            },
            QueueTransport::Legacy { max_queue_size } => if size > LEGACY_MAX_QUEUE_SIZE
                || !is_power_of_two(max_queue_size) {
                None
            } else {
                Some(max_queue_size)
            },
        }
    }
}

/// The mechanism for bulk data transport on virtio devices.
pub struct VirtQueue {
    descs: Vec<Descriptor>,
    avail: AvailRing,
    used: UsedRing,
    modern: bool,
    queue_idx: u32,
    queue_size: u16,
    num_used: u16,
    free_head: u16,
    avail_idx: u16,
    last_used_idx: u16,
    is_callback_enabled: bool,
    heads: Vec<bool>,
    free: Ghost<Seq<int>>,
    chains: Ghost<Map<int, Seq<int>>>,
}

impl View for VirtQueue {
    type V = VirtQueueView;

    closed spec fn view(&self) -> VirtQueueView {
        VirtQueueView {
            size: self.queue_size,
            modern: self.modern,
            index: self.queue_idx,
            num_used: self.num_used,
            free_head: self.free_head,
            avail_idx: self.avail_idx,
            last_used_idx: self.last_used_idx,
            callback_enabled: self.is_callback_enabled,
            descs: self.descs@,
            avail_flags: self.avail.flags,
            avail_ring_idx: self.avail.idx,
            avail_ring: self.avail.ring@,
            avail_used_event: self.avail.used_event,
            used_flags: self.used.flags,
            used_idx: self.used.idx,
            used_ring: self.used.ring@,
            used_avail_event: self.used.avail_event,
            heads: self.heads@,
            free: self.free@,
            chains: self.chains@,
        }
    }
}

impl VirtQueue {
    /// Creates the queue with index `idx` for a transport of the given kind.
    ///
    /// The size asked for must be a power of two, at most 128 on a legacy
    /// transport and 256 on a modern one. A legacy device dictates the size
    /// that is used in the end, which must be a power of two as well.
    pub fn new(idx: u16, size: u16, transport: QueueTransport) -> (r: Result<Self, QueueError>)
        ensures
            match queue_size_for(size, transport) {
                Some(n) => r is Ok && r->Ok_0@ == fresh_queue(
                    idx,
                    n,
                    transport is Modern,
                ) && r->Ok_0@.wf(),
                None => r == Err::<Self, QueueError>(QueueError::InvalidArgs),
            },
    {
        if !power_of_two(size) {
            return Err(QueueError::InvalidArgs);
        }
        let modern: bool;
        let queue_size: u16;
        match transport {
            QueueTransport::Legacy { max_queue_size } => {
                if size > LEGACY_MAX_QUEUE_SIZE || !power_of_two(max_queue_size) {
                    return Err(QueueError::InvalidArgs);
                }
                modern = false;
                queue_size = max_queue_size;
            },
            QueueTransport::Modern => {
                if size > MODERN_MAX_QUEUE_SIZE {
                    return Err(QueueError::InvalidArgs);
                }
                modern = true;
                queue_size = size;
            },
        }
        proof {
            lemma_power_of_two_values(queue_size);
        }
        let mut descs: Vec<Descriptor> = Vec::with_capacity(queue_size as usize);
        let mut avail_ring: Vec<u16> = Vec::with_capacity(queue_size as usize);
        let mut used_ring: Vec<UsedElem> = Vec::with_capacity(queue_size as usize);
        let mut heads: Vec<bool> = Vec::with_capacity(queue_size as usize);
        let ghost model = fresh_queue(idx, queue_size, modern);
        let mut i: u16 = 0;
        while i < queue_size
            invariant
                i <= queue_size,
                model == fresh_queue(idx, queue_size, modern),
                descs@ == model.descs.take(i as int),
                avail_ring@ == model.avail_ring.take(i as int),
                used_ring@ == model.used_ring.take(i as int),
                heads@ == model.heads.take(i as int),
            decreases queue_size - i,
        {
            let next_i: u16 = if i + 1 != queue_size {
                i + 1
            } else {
                0
            };
            descs.push(Descriptor { addr: 0, len: 0, flags: DescFlags::empty(), next: next_i });
            avail_ring.push(0);
            used_ring.push(UsedElem { id: 0, len: 0 });
            heads.push(false);
            proof {
                assert(descs@ == model.descs.take(i + 1));
                assert(avail_ring@ == model.avail_ring.take(i + 1));
                assert(used_ring@ == model.used_ring.take(i + 1));
                assert(heads@ == model.heads.take(i + 1));
            }
            i = i + 1;
        }
        let queue = VirtQueue {
            descs,
            avail: AvailRing {
                flags: AvailFlags { bits: 0 },
                idx: 0,
                ring: avail_ring,
                used_event: 0,
            },
            used: UsedRing { flags: 0, idx: 0, ring: used_ring, avail_event: 0 },
            modern,
            queue_idx: idx as u32,
            queue_size,
            num_used: 0,
            free_head: 0,
            avail_idx: 0,
            last_used_idx: 0,
            is_callback_enabled: true,
            heads,
            free: Ghost(model.free),
            chains: Ghost(model.chains),
        };
        proof {
            assert(queue@.descs == model.descs);
            assert(queue@.avail_ring == model.avail_ring);
            assert(queue@.used_ring == model.used_ring);
            assert(queue@.heads == model.heads);
            assert(queue@ == model);
            lemma_fresh_queue_wf(idx, queue_size, modern);
        }
        Ok(queue)
    }

    /// Adds the buffers to the queue as one chain, the device-readable
    /// `inputs` first and the device-writable `outputs` after them, offers
    /// the chain to the device and returns its token.
    #[verifier::rlimit(40)]
    pub fn add_dma_buf(&mut self, inputs: &[DmaBuf], outputs: &[DmaBuf]) -> (r: Result<
        u16,
        QueueError,
    >)
        requires
            old(self)@.wf(),
        ensures
            final(self)@.wf(),
            inputs@.len() + outputs@.len() == 0 ==> r == Err::<u16, QueueError>(
                QueueError::InvalidArgs,
            ),
            inputs@.len() + outputs@.len() > 0 && inputs@.len() + outputs@.len() + old(
                self,
            )@.num_used > old(self)@.size ==> r == Err::<u16, QueueError>(
                QueueError::BufferTooSmall,
            ),
            inputs@.len() + outputs@.len() > 0 && inputs@.len() + outputs@.len() + old(
                self,
            )@.num_used <= old(self)@.size ==> r == Ok::<u16, QueueError>(old(self)@.free_head),
            r is Err ==> final(self)@ == old(self)@,
            r is Ok ==> final(self)@ == added(old(self)@, inputs@, outputs@),
            r is Ok ==> final(self)@.in_flight(r->Ok_0) && final(self)@.chain_bufs(r->Ok_0)
                == submission(inputs@, outputs@),
    {
        if inputs.len() == 0 && outputs.len() == 0 {
            return Err(QueueError::InvalidArgs);
        }
        let free_count: usize = (self.queue_size - self.num_used) as usize;
        if inputs.len() > free_count || outputs.len() > free_count - inputs.len() {
            return Err(QueueError::BufferTooSmall);
        }
        let n_in: usize = inputs.len();
        let n: usize = n_in + outputs.len();
        let ghost before = self@;
        let ghost bufs = submission(inputs@, outputs@);
        let ghost goal = added(before, inputs@, outputs@);
        let head: u16 = self.free_head;
        let mut last: u16 = self.free_head;
        let mut k: usize = 0;
        proof {
            lemma_flag_values();
        }
        while k < n
            invariant
                before.wf(),
                n == inputs@.len() + outputs@.len(),
                n_in == inputs@.len(),
                1 <= n <= before.free.len(),
                k <= n,
                bufs == submission(inputs@, outputs@),
                self@ == (VirtQueueView { descs: self@.descs, free_head: self@.free_head, ..before }),
                self@.descs.len() == before.size,
                k < before.free.len() ==> self@.free_head == before.free[k as int],
                k > 0 ==> last == before.free[k - 1],
                k > 0 ==> self@.free_head == before.descs[before.free[k - 1]].next,
                forall|i: int|
                    0 <= i < before.size ==> (#[trigger] self@.descs[i]).next
                        == before.descs[i].next,
                forall|i: int|
                    0 <= i < k ==> self@.descs[#[trigger] before.free[i]] == (Descriptor {
                        addr: bufs[i].0,
                        len: bufs[i].1,
                        flags: DescFlags {
                            bits: if bufs[i].2 {
                                3u16
                            } else {
                                1u16
                            },
                        },
                        next: before.descs[before.free[i]].next,
                    }),
                forall|i: int|
                    0 <= i < before.size && !before.free.take(k as int).contains(i)
                        ==> #[trigger] self@.descs[i] == before.descs[i],
            decreases n - k,
        {
            let cur: usize = self.free_head as usize;
            let d: Descriptor = self.descs[cur];
            let buf: DmaBuf = if k < n_in {
                inputs[k]
            } else {
                outputs[k - n_in]
            };
            let flags: DescFlags = if k < n_in {
                DescFlags::next()
            } else {
                DescFlags::next_write()
            };
            self.descs.set(cur, set_dma_buf(d, buf, flags));
            last = self.free_head;
            self.free_head = d.next;
            proof {
                assert(before.descs[before.free[k as int]].next == d.next);
                if k + 1 < before.free.len() {
                    assert(before.descs[before.free[k as int]].next == before.free[k + 1]);
                }
                assert forall|i: int|
                    0 <= i < before.size && !before.free.take(k + 1).contains(
                        i,
                    ) implies #[trigger] self@.descs[i] == before.descs[i] by {
                    assert(before.free.take(k + 1)[k as int] == before.free[k as int]);
                    if before.free.take(k as int).contains(i) {
                        let p = before.free.take(k as int).index_of(i);
                        assert(before.free.take(k + 1)[p] == i);
                    }
                }
                assert forall|i: int| 0 <= i < k implies self@.descs[#[trigger] before.free[i]]
                    == (Descriptor {
                    addr: bufs[i].0,
                    len: bufs[i].1,
                    flags: DescFlags {
                        bits: if bufs[i].2 {
                            3u16
                        } else {
                            1u16
                        },
                    },
                    next: before.descs[before.free[i]].next,
                }) by {
                    assert(before.free[i] != before.free[k as int]);
                }
            }
            k = k + 1;
        }
        let d: Descriptor = self.descs[last as usize];
        let mut flags: DescFlags = d.flags;
        flags.remove(DESC_F_NEXT);
        self.descs.set(last as usize, Descriptor { addr: d.addr, len: d.len, flags, next: d.next });
        self.num_used = self.num_used + (n as u16);
        let avail_slot: u16 = self.avail_idx & (self.queue_size - 1);
        proof {
            lemma_mask_is_remainder(self.avail_idx, self.queue_size);
        }
        self.avail.ring.set(avail_slot as usize, head);
        self.avail_idx = if self.avail_idx == u16::MAX {
            0
        } else {
            self.avail_idx + 1
        };
        self.avail.idx = self.avail_idx;
        self.heads.set(head as usize, true);
        proof {
            self.free = Ghost(before.free.skip(n as int));
            self.chains = Ghost(before.chains.insert(head as int, before.free.take(n as int)));
            assert(self@.descs =~= goal.descs) by {
                assert forall|i: int| 0 <= i < before.size implies self@.descs[i]
                    == goal.descs[i] by {
                    if before.free.take(n as int).contains(i) {
                        let p = before.free.take(n as int).index_of(i);
                        assert(before.free[p] == i);
                        if p < n - 1 {
                            assert(before.free[p] != before.free[n - 1]);
                        }
                    } else {
                        lemma_outside_prefix(before, n as int, i);
                    }
                }
            }
            assert(self@.heads =~= goal.heads);
            assert(self@.avail_ring =~= goal.avail_ring);
            assert(self@ == goal);
            lemma_added_wf(before, inputs@, outputs@);
        }
        Ok(head)
    }

    /// Whether the used ring holds a completion that has not been taken.
    pub fn can_pop(&self) -> (r: bool)
        ensures
            r == self@.can_pop(),
    {
        self.last_used_idx != self.used.idx
    }

    /// The number of free descriptors.
    pub fn available_desc(&self) -> (r: usize)
        requires
            self@.wf(),
        ensures
            r == self@.size - self@.num_used,
    {
        (self.queue_size - self.num_used) as usize
    }

    /// The token that the next chain will get, where a descriptor is free.
    pub fn next_token(&self) -> (r: u16)
        requires
            self@.wf(),
        ensures
            r == self@.free_head,
            self@.num_used < self@.size ==> r < self@.size && !self@.in_flight(r),
    {
        proof {
            if self@.num_used < self@.size {
                lemma_free_head_is_free(self@);
            }
        }
        self.free_head
    }

    /// The size of the queue.
    pub fn size(&self) -> (r: u16)
        ensures
            r == self@.size,
    {
        self.queue_size
    }

    /// Takes the chain headed by `head` back: its descriptors are cleared and
    /// put at the front of the free list.
    #[verifier::rlimit(40)]
    fn recycle_descriptors(&mut self, head: u16)
        requires
            old(self)@.wf(),
            old(self)@.in_flight(head),
        ensures
            final(self)@ == recycled(old(self)@, head),
            final(self)@.wf(),
    {
        let ghost before = self@;
        let ghost c = before.chains[head as int];
        let ghost goal = recycled(before, head);
        proof {
            lemma_recycled_wf(before, head);
            assert(before.chain_linked(head as int));
        }
        let origin_free_head: u16 = self.free_head;
        self.free_head = head;
        let mut cur: u16 = head;
        let ghost mut j: int = 0;
        let mut done: bool = false;
        while !done
            invariant
                before.wf(),
                before.in_flight(head),
                before.chain_linked(head as int),
                c == before.chains[head as int],
                c.len() <= before.num_used,
                origin_free_head == before.free_head,
                0 <= j < c.len(),
                done ==> j == c.len() - 1,
                !done ==> cur == c[j],
                self@ == (VirtQueueView {
                    descs: self@.descs,
                    num_used: self@.num_used,
                    free_head: head,
                    ..before
                }),
                self@.descs.len() == before.size,
                self@.num_used == before.num_used - j - (if done {
                    1int
                } else {
                    0int
                }),
                forall|p: int|
                    0 <= p < j ==> self@.descs[#[trigger] c[p]] == (Descriptor {
                        addr: 0,
                        len: 0,
                        flags: DescFlags { bits: 0 },
                        next: before.descs[c[p]].next,
                    }),
                done ==> self@.descs[c[j]] == (Descriptor {
                    addr: 0,
                    len: 0,
                    flags: before.descs[c[j]].flags,
                    next: before.free_head,
                }),
                forall|i: int|
                    0 <= i < before.size && !c.take(j + (if done {
                        1int
                    } else {
                        0int
                    })).contains(i) ==> #[trigger] self@.descs[i] == before.descs[i],
            decreases c.len() - j, (if done { 0int } else { 1int }),
        {
            proof {
                assert(!c.take(j).contains(c[j])) by {
                    if c.take(j).contains(c[j]) {
                        let p = c.take(j).index_of(c[j]);
                        assert(c[p] == c[j]);
                    }
                }
            }
            let d: Descriptor = self.descs[cur as usize];
            self.num_used = self.num_used - 1;
            if d.flags.contains(DESC_F_NEXT) {
                self.descs.set(
                    cur as usize,
                    Descriptor { addr: 0, len: 0, flags: DescFlags::empty(), next: d.next },
                );
                proof {
                    assert(j < c.len() - 1);
                    assert forall|i: int|
                        0 <= i < before.size && !c.take(j + 1).contains(
                            i,
                        ) implies #[trigger] self@.descs[i] == before.descs[i] by {
                        assert(c.take(j + 1)[j] == c[j]);
                        if c.take(j).contains(i) {
                            let p = c.take(j).index_of(i);
                            assert(c.take(j + 1)[p] == i);
                        }
                    }
                    assert forall|p: int| 0 <= p < j + 1 implies self@.descs[#[trigger] c[p]] == (
                    Descriptor {
                        addr: 0,
                        len: 0,
                        flags: DescFlags { bits: 0 },
                        next: before.descs[c[p]].next,
                    }) by {
                        if p < j {
                            assert(c[p] != c[j]);
                        }
                    }
                    j = j + 1;
                }
                cur = d.next;
            } else {
                self.descs.set(
                    cur as usize,
                    Descriptor { addr: 0, len: 0, flags: d.flags, next: origin_free_head },
                );
                proof {
                    assert(j == c.len() - 1) by {
                        if j < c.len() - 1 {
                            assert(before.descs[c[j]].flags.has(DESC_F_NEXT));
                        }
                    }
                    assert forall|i: int|
                        0 <= i < before.size && !c.take(j + 1).contains(
                            i,
                        ) implies #[trigger] self@.descs[i] == before.descs[i] by {
                        assert(c.take(j + 1)[j] == c[j]);
                        if c.take(j).contains(i) {
                            let p = c.take(j).index_of(i);
                            assert(c.take(j + 1)[p] == i);
                        }
                    }
                    assert forall|p: int| 0 <= p < j implies self@.descs[#[trigger] c[p]] == (
                    Descriptor {
                        addr: 0,
                        len: 0,
                        flags: DescFlags { bits: 0 },
                        next: before.descs[c[p]].next,
                    }) by {
                        assert(c[p] != c[j]);
                    }
                }
                done = true;
            }
        }
        self.heads.set(head as usize, false);
        proof {
            self.free = Ghost(c + before.free);
            self.chains = Ghost(before.chains.remove(head as int));
            assert(c.take(c.len() as int) == c);
            assert(self@.descs =~= goal.descs) by {
                assert forall|i: int| 0 <= i < before.size implies self@.descs[i]
                    == goal.descs[i] by {
                    if c.contains(i) {
                        let p = c.index_of(i);
                        assert(c[p] == i);
                    }
                }
            }
            assert(self@.heads =~= goal.heads);
            assert(self@ == goal);
        }
    }

    /// Takes the next completion from the used ring and returns its token and
    /// the number of bytes that the device wrote.
    ///
    /// The token of a completion is the low 16 bits of its id. A completion
    /// that names no chain in flight is refused and stays in the ring.
    pub fn pop_used(&mut self) -> (r: Result<(u16, u32), QueueError>)
        requires
            old(self)@.wf(),
        ensures
            final(self)@.wf(),
            !old(self)@.can_pop() ==> r == Err::<(u16, u32), QueueError>(QueueError::NotReady),
            old(self)@.can_pop() && !old(self)@.in_flight(old(self)@.next_used_token()) ==> r
                == Err::<(u16, u32), QueueError>(QueueError::WrongToken),
            old(self)@.can_pop() && old(self)@.in_flight(old(self)@.next_used_token()) ==> r
                == Ok::<(u16, u32), QueueError>(
                (old(self)@.next_used_token(), old(self)@.next_used().len),
            ),
            r is Err ==> final(self)@ == old(self)@,
            r is Ok ==> final(self)@ == popped(old(self)@),
    {
        if !self.can_pop() {
            return Err(QueueError::NotReady);
        }
        let elem: UsedElem = self.next_used();
        let token: u16 = low_half(elem.id);
        if !self.is_in_flight(token) {
            return Err(QueueError::WrongToken);
        }
        self.recycle_descriptors(token);
        self.last_used_idx = if self.last_used_idx == u16::MAX {
            0
        } else {
            self.last_used_idx + 1
        };
        Ok((token, elem.len))
    }

    /// If the next completion in the used ring is that of `token`, takes it
    /// and returns the number of bytes that the device wrote.
    pub fn pop_used_with_token(&mut self, token: u16) -> (r: Result<u32, QueueError>)
        requires
            old(self)@.wf(),
        ensures
            final(self)@.wf(),
            !old(self)@.can_pop() ==> r == Err::<u32, QueueError>(QueueError::NotReady),
            old(self)@.can_pop() && !(old(self)@.next_used_token() == token && old(
                self,
            )@.in_flight(token)) ==> r == Err::<u32, QueueError>(QueueError::WrongToken),
            old(self)@.can_pop() && old(self)@.next_used_token() == token && old(
                self,
            )@.in_flight(token) ==> r == Ok::<u32, QueueError>(old(self)@.next_used().len),
            r is Err ==> final(self)@ == old(self)@,
            r is Ok ==> final(self)@ == popped(old(self)@),
    {
        if !self.can_pop() {
            return Err(QueueError::NotReady);
        }
        let elem: UsedElem = self.next_used();
        if low_half(elem.id) != token || !self.is_in_flight(token) {
            return Err(QueueError::WrongToken);
        }
        self.recycle_descriptors(token);
        self.last_used_idx = if self.last_used_idx == u16::MAX {
            0
        } else {
            self.last_used_idx + 1
        };
        Ok(elem.len)
    }

    /// The completion in the slot of the used ring that is read next.
    pub fn next_used(&self) -> (r: UsedElem)
        requires
            self@.wf(),
        ensures
            r == self@.next_used(),
    {
        proof {
            lemma_power_of_two_values(self.queue_size);
            lemma_mask_is_remainder(self.last_used_idx, self.queue_size);
        }
        let slot: u16 = self.last_used_idx & (self.queue_size - 1);
        self.used.ring[slot as usize]
    }

    /// Whether `token` names a chain that was submitted and not taken back.
    pub fn is_in_flight(&self, token: u16) -> (r: bool)
        requires
            self@.wf(),
        ensures
            r == self@.in_flight(token),
    {
        token < self.queue_size && self.heads[token as usize]
    }

    /// The buffers of the chain headed by `token`, in order, if such a chain
    /// is in flight: for each its address, its length, and whether the
    /// device writes to it.
    #[verifier::rlimit(40)]
    pub fn chain(&self, token: u16) -> (r: Option<Vec<(u64, u32, bool)>>)
        requires
            self@.wf(),
        ensures
            r is Some <==> self@.in_flight(token),
            r is Some ==> r->Some_0@ == self@.chain_bufs(token),
    {
        if !self.is_in_flight(token) {
            return None;
        }
        let ghost c = self@.chains[token as int];
        let ghost bufs = self@.chain_bufs(token);
        assert(self@.chain_linked(token as int));
        let mut out: Vec<(u64, u32, bool)> = Vec::new();
        let mut cur: u16 = token;
        let ghost mut j: int = 0;
        let mut done: bool = false;
        while !done
            invariant
                self@.wf(),
                self@.chain_linked(token as int),
                c == self@.chains[token as int],
                bufs == self@.chain_bufs(token),
                0 <= j < c.len(),
                done ==> j == c.len() - 1,
                !done ==> cur == c[j],
                out@ == bufs.take(j + (if done {
                    1int
                } else {
                    0int
                })),
            decreases c.len() - j, (if done { 0int } else { 1int }),
        {
            let d: Descriptor = self.descs[cur as usize];
            out.push((d.addr, d.len, d.flags.contains(DESC_F_WRITE)));
            proof {
                assert(out@ =~= bufs.take(j + 1));
            }
            if d.flags.contains(DESC_F_NEXT) {
                proof {
                    assert(j < c.len() - 1);
                    j = j + 1;
                }
                cur = d.next;
            } else {
                proof {
                    if j < c.len() - 1 {
                        assert(self@.descs[c[j]].flags.has(DESC_F_NEXT));
                    }
                }
                done = true;
            }
        }
        assert(bufs.take(c.len() as int) =~= bufs);
        Some(out)
    }

    /// Whether the device asks to be notified of new chains.
    pub fn should_notify(&self) -> (r: bool)
        ensures
            r == (self@.used_flags & VIRTQ_USED_F_NO_NOTIFY == 0),
    {
        self.used.flags & VIRTQ_USED_F_NO_NOTIFY == 0
    }

    /// The value to write to the transport's notify register to tell the
    /// device that chains are available: the queue's index, in 32 bits on a
    /// modern transport and in 16 on a legacy one.
    pub fn notify(&self) -> (r: Notify)
        ensures
            r == (if self@.modern {
                Notify::Modern(self@.index)
            } else {
                Notify::Legacy((self@.index % 0x1_0000) as u16)
            }),
    {
        if self.modern {
            Notify::Modern(self.queue_idx)
        } else {
            Notify::Legacy(low_half(self.queue_idx))
        }
    }

    /// Asks the device to raise no interrupt for this queue.
    pub fn disable_callback(&mut self)
        requires
            old(self)@.wf(),
        ensures
            final(self)@ == (VirtQueueView {
                callback_enabled: false,
                avail_flags: AvailFlags { bits: VIRTQ_AVAIL_F_NO_INTERRUPT },
                ..old(self)@
            }),
            final(self)@.wf(),
    {
        if !self.is_callback_enabled {
            return ;
        }
        self.avail.flags = AvailFlags { bits: VIRTQ_AVAIL_F_NO_INTERRUPT };
        self.is_callback_enabled = false;
    }

    /// Asks the device to raise interrupts for this queue again.
    pub fn enable_callback(&mut self)
        requires
            old(self)@.wf(),
        ensures
            final(self)@ == (VirtQueueView {
                callback_enabled: true,
                avail_flags: AvailFlags { bits: 0 },
                ..old(self)@
            }),
            final(self)@.wf(),
    {
        if self.is_callback_enabled {
            return ;
        }
        self.avail.flags = AvailFlags { bits: 0 };
        self.is_callback_enabled = true;
    }

    /// The descriptor table.
    pub fn descs(&self) -> (r: &Vec<Descriptor>)
        ensures
            r@ == self@.descs,
    {
        &self.descs
    }

    /// The available ring.
    pub fn avail(&self) -> (r: &AvailRing)
        ensures
            r.flags == self@.avail_flags,
            r.idx == self@.avail_ring_idx,
            r.ring@ == self@.avail_ring,
            r.used_event == self@.avail_used_event,
    {
        &self.avail
    }

    /// The used ring as it was last copied in.
    pub fn used(&self) -> (r: &UsedRing)
        ensures
            r.flags == self@.used_flags,
            r.idx == self@.used_idx,
            r.ring@ == self@.used_ring,
            r.avail_event == self@.used_avail_event,
    {
        &self.used
    }

    /// What the device does when it is done with a chain: it puts the
    /// chain's head and the number of bytes that it wrote into the next slot
    /// of the used ring and moves its place in the ring on by one.
    pub fn device_complete(&mut self, id: u32, len: u32)
        requires
            old(self)@.wf(),
        ensures
            final(self)@ == completed(old(self)@, id, len),
            final(self)@.wf(),
    {
        proof {
            lemma_power_of_two_values(self.queue_size);
            lemma_mask_is_remainder(self.used.idx, self.queue_size);
        }
        let slot: u16 = self.used.idx & (self.queue_size - 1);
        self.used.ring.set(slot as usize, UsedElem { id, len });
        self.used.idx = if self.used.idx == u16::MAX {
            0
        } else {
            self.used.idx + 1
        };
        proof {
            lemma_completed_wf(old(self)@, id, len);
        }
    }

    /// Copies in what the device has written to the used ring. A ring with
    /// another number of slots than the queue has is refused.
    pub fn set_used(&mut self, used: UsedRing) -> (r: bool)
        requires
            old(self)@.wf(),
        ensures
            r == (used.ring@.len() == old(self)@.size),
            r ==> final(self)@ == (VirtQueueView {
                used_flags: used.flags,
                used_idx: used.idx,
                used_ring: used.ring@,
                used_avail_event: used.avail_event,
                ..old(self)@
            }),
            !r ==> final(self)@ == old(self)@,
            final(self)@.wf(),
    {
        if used.ring.len() != self.queue_size as usize {
            return false;
        }
        self.used = used;
        true
    }
}

/// The descriptor `desc` made to describe `buf` with the given flags; its
/// place in the free list stays.
pub fn set_dma_buf(desc: Descriptor, buf: DmaBuf, flags: DescFlags) -> (r: Descriptor)
    ensures
        r == (Descriptor { addr: buf.daddr, len: buf.len, flags, next: desc.next }),
{
    Descriptor { addr: buf.daddr, len: buf.len, flags, next: desc.next }
}

/// The buffers of a submission as the device will see them: address, length,
/// and whether the device writes to the buffer.
pub open spec fn submission(inputs: Seq<DmaBuf>, outputs: Seq<DmaBuf>) -> Seq<(u64, u32, bool)> {
    Seq::new(
        inputs.len() + outputs.len(),
        |i: int|
            if i < inputs.len() {
                (inputs[i].daddr, inputs[i].len, false)
            } else {
                (outputs[i - inputs.len()].daddr, outputs[i - inputs.len()].len, true)
            },
    )
}

/// The index after `idx` in a ring, which wraps at 2^16.
pub open spec fn next_ring_idx(idx: u16) -> u16 {
    if idx == u16::MAX {
        0
    } else {
        (idx + 1) as u16
    }
}

/// The queue after a chain of the given buffers was added to `q`, where the
/// free list holds enough descriptors: the chain takes the first descriptors
/// of the free list, in order; each but the last carries `DESC_F_NEXT`, each
/// output carries `DESC_F_WRITE`; the head of the chain goes into the next
/// slot of the available ring.
pub open spec fn added(q: VirtQueueView, inputs: Seq<DmaBuf>, outputs: Seq<DmaBuf>)
    -> VirtQueueView {
    let bufs = submission(inputs, outputs);
    let n = bufs.len() as int;
    let chain = q.free.take(n);
    VirtQueueView {
        num_used: (q.num_used + n) as u16,
        free_head: q.descs[chain[n - 1]].next,
        avail_idx: next_ring_idx(q.avail_idx),
        avail_ring_idx: next_ring_idx(q.avail_idx),
        avail_ring: q.avail_ring.update((q.avail_idx % q.size) as int, q.free_head),
        descs: Seq::new(
            q.descs.len(),
            |i: int|
                if chain.contains(i) {
                    let p = chain.index_of(i);
                    Descriptor {
                        addr: bufs[p].0,
                        len: bufs[p].1,
                        flags: chain_flags(p, n, bufs[p].2),
                        next: q.descs[i].next,
                    }
                } else {
                    q.descs[i]
                },
        ),
        heads: q.heads.update(q.free_head as int, true),
        free: q.free.skip(n),
        chains: q.chains.insert(q.free_head as int, chain),
        ..q
    }
}

/// What the two descriptor flags in use mean for the four values that they
/// can make.
pub proof fn lemma_flag_values()
    ensures
        !(DescFlags { bits: 0 }).has(DESC_F_NEXT),
        (DescFlags { bits: 1 }).has(DESC_F_NEXT),
        !(DescFlags { bits: 2 }).has(DESC_F_NEXT),
        (DescFlags { bits: 3 }).has(DESC_F_NEXT),
        !(DescFlags { bits: 0 }).has(DESC_F_WRITE),
        !(DescFlags { bits: 1 }).has(DESC_F_WRITE),
        (DescFlags { bits: 2 }).has(DESC_F_WRITE),
        (DescFlags { bits: 3 }).has(DESC_F_WRITE),
        1u16 & !1u16 == 0,
        3u16 & !1u16 == 2,
{
    assert(0u16 & 1u16 != 1u16) by (bit_vector);
    assert(1u16 & 1u16 == 1u16) by (bit_vector);
    assert(2u16 & 1u16 != 1u16) by (bit_vector);
    assert(3u16 & 1u16 == 1u16) by (bit_vector);
    assert(0u16 & 2u16 != 2u16) by (bit_vector);
    assert(1u16 & 2u16 != 2u16) by (bit_vector);
    assert(2u16 & 2u16 == 2u16) by (bit_vector);
    assert(3u16 & 2u16 == 2u16) by (bit_vector);
    assert(1u16 & !1u16 == 0) by (bit_vector);
    assert(3u16 & !1u16 == 2) by (bit_vector);
}

/// A descriptor that is not among the first `n` of the free list is among
/// the rest of it or in a chain, or is unaccounted for; in each case
/// a change to the first `n` leaves it alone.
proof fn lemma_outside_prefix(q: VirtQueueView, n: int, i: int)
    requires
        q.wf(),
        0 <= n <= q.free.len(),
        0 <= i < q.size,
        !q.free.take(n).contains(i),
    ensures
        forall|p: int| 0 <= p < n ==> q.free[p] != i,
{
    assert forall|p: int| 0 <= p < n implies q.free[p] != i by {
        if q.free[p] == i {
            assert(q.free.take(n)[p] == i);
        }
    }
}

/// The flags of the descriptor at place `p` of a chain of `n` buffers.
pub open spec fn chain_flags(p: int, n: int, write: bool) -> DescFlags {
    DescFlags {
        bits: ((if p < n - 1 {
            DESC_F_NEXT
        } else {
            0u16
        }) + (if write {
            DESC_F_WRITE
        } else {
            0u16
        })) as u16,
    }
}

/// What the descriptor table holds after a chain was added: the chain's
/// descriptors describe the buffers; the rest of the free list and the other
/// chains are as before.
#[verifier::rlimit(40)]
proof fn lemma_added_descs(q: VirtQueueView, inputs: Seq<DmaBuf>, outputs: Seq<DmaBuf>)
    requires
        q.wf(),
        1 <= inputs.len() + outputs.len() <= q.free.len(),
    ensures
        forall|p: int|
            0 <= p < inputs.len() + outputs.len() ==> added(
                q,
                inputs,
                outputs,
            ).descs[#[trigger] q.free[p]] == (Descriptor {
                addr: submission(inputs, outputs)[p].0,
                len: submission(inputs, outputs)[p].1,
                flags: chain_flags(
                    p,
                    (inputs.len() + outputs.len()) as int,
                    submission(inputs, outputs)[p].2,
                ),
                next: q.descs[q.free[p]].next,
            }),
        forall|i: int|
            inputs.len() + outputs.len() <= i < q.free.len() ==> added(
                q,
                inputs,
                outputs,
            ).descs[#[trigger] q.free[i]] == q.descs[q.free[i]],
        forall|h: int, j: int|
            q.chains.dom().contains(h) && 0 <= j < q.chains[h].len() ==> added(
                q,
                inputs,
                outputs,
            ).descs[#[trigger] q.chains[h][j]] == q.descs[q.chains[h][j]],
        !q.chains.dom().contains(q.free_head as int),
        q.free[0] == q.free_head,
{
    let a = added(q, inputs, outputs);
    let bufs = submission(inputs, outputs);
    let n = bufs.len() as int;
    let chain = q.free.take(n);
    assert(chain.no_duplicates());
    assert forall|p: int| 0 <= p < n implies a.descs[#[trigger] q.free[p]] == (Descriptor {
        addr: bufs[p].0,
        len: bufs[p].1,
        flags: chain_flags(p, n, bufs[p].2),
        next: q.descs[q.free[p]].next,
    }) by {
        assert(chain[p] == q.free[p]);
        assert(chain.contains(chain[p]));
        assert(chain.index_of(chain[p]) == p);
    }
    assert forall|i: int| n <= i < q.free.len() implies a.descs[#[trigger] q.free[i]]
        == q.descs[q.free[i]] by {
        if chain.contains(q.free[i]) {
            let p = chain.index_of(q.free[i]);
            assert(q.free[p] == q.free[i]);
        }
    }
    assert forall|h: int, j: int|
        q.chains.dom().contains(h) && 0 <= j < q.chains[h].len() implies a.descs[#[trigger] q.chains[h][j]]
        == q.descs[q.chains[h][j]] by {
        if chain.contains(q.chains[h][j]) {
            let p = chain.index_of(q.chains[h][j]);
            assert(q.free[p] == q.chains[h][j]);
        }
    }
    assert(!q.chains.dom().contains(q.free_head as int)) by {
        if q.chains.dom().contains(q.free_head as int) {
            assert(q.chain_linked(q.free_head as int));
            assert(q.chains[q.free_head as int][0] == q.free[0]);
        }
    }
}

/// After a chain was added, the rest of the free list is linked as before.
#[verifier::rlimit(40)]
proof fn lemma_added_free_linked(q: VirtQueueView, inputs: Seq<DmaBuf>, outputs: Seq<DmaBuf>)
    requires
        q.wf(),
        1 <= inputs.len() + outputs.len() <= q.free.len(),
    ensures
        added(q, inputs, outputs).free_linked(),
{
    let a = added(q, inputs, outputs);
    let n = (inputs.len() + outputs.len()) as int;
    lemma_added_descs(q, inputs, outputs);
    assert(a.free == q.free.skip(n));
    assert(a.free.no_duplicates()) by {
        assert forall|i: int, j: int|
            0 <= i < a.free.len() && 0 <= j < a.free.len() && i != j implies a.free[i]
            != a.free[j] by {
            assert(q.free[n + i] != q.free[n + j]);
        }
    }
    assert(q.free.take(n)[n - 1] == q.free[n - 1]);
    assert(a.free_head == q.descs[q.free[n - 1]].next);
    if a.free.len() > 0 {
        assert(q.descs[q.free[n - 1]].next == q.free[n]);
        assert(a.free[0] == q.free[n]);
    }
    assert forall|i: int| 0 <= i < a.free.len() implies 0 <= #[trigger] a.free[i] < a.size by {
        assert(a.free[i] == q.free[n + i]);
    }
    assert forall|i: int| 0 <= i < a.free.len() - 1 implies a.descs[#[trigger] a.free[i]].next
        == a.free[i + 1] by {
        assert(a.free[i] == q.free[n + i]);
        assert(a.free[i + 1] == q.free[n + i + 1]);
        assert(a.descs[q.free[n + i]] == q.descs[q.free[n + i]]);
    }
}

/// After a chain was added, it and the chains before it are linked.
#[verifier::rlimit(40)]
proof fn lemma_added_chains_linked(q: VirtQueueView, inputs: Seq<DmaBuf>, outputs: Seq<DmaBuf>)
    requires
        q.wf(),
        1 <= inputs.len() + outputs.len() <= q.free.len(),
    ensures
        forall|h: int| #[trigger]
            added(q, inputs, outputs).chains.dom().contains(h) ==> added(
                q,
                inputs,
                outputs,
            ).chain_linked(h),
{
    let a = added(q, inputs, outputs);
    let bufs = submission(inputs, outputs);
    let n = bufs.len() as int;
    let chain = q.free.take(n);
    lemma_flag_values();
    lemma_added_descs(q, inputs, outputs);
    assert(chain.no_duplicates());
    assert forall|h: int| #[trigger] a.chains.dom().contains(h) implies a.chain_linked(h) by {
        if h == q.free_head as int {
            let c = a.chains[h];
            assert(c == chain);
            assert forall|j: int| 0 <= j < c.len() - 1 implies a.descs[#[trigger] c[j]].next
                == c[j + 1] && a.descs[c[j]].flags.has(DESC_F_NEXT) by {
                assert(c[j] == q.free[j]);
                assert(q.descs[q.free[j]].next == q.free[j + 1]);
                assert(a.descs[q.free[j]].flags == chain_flags(j, n, bufs[j].2));
            }
            assert(c[n - 1] == q.free[n - 1]);
            assert(a.descs[q.free[n - 1]].flags == chain_flags(n - 1, n, bufs[n - 1].2));
            assert forall|j: int| 0 <= j < c.len() implies 0 <= #[trigger] c[j] < a.size by {
                assert(c[j] == q.free[j]);
            }
        } else {
            assert(q.chains.dom().contains(h));
            assert(q.chain_linked(h));
            let c = q.chains[h];
            assert(a.chains[h] == c);
            assert forall|j: int| 0 <= j < c.len() - 1 implies a.descs[#[trigger] c[j]].next
                == c[j + 1] && a.descs[c[j]].flags.has(DESC_F_NEXT) by {
                assert(a.descs[q.chains[h][j]] == q.descs[q.chains[h][j]]);
            }
            assert(a.descs[q.chains[h][c.len() - 1]] == q.descs[q.chains[h][c.len() - 1]]);
        }
    }
}

/// After a chain was added, no descriptor is in two places.
#[verifier::rlimit(40)]
proof fn lemma_added_disjoint(q: VirtQueueView, inputs: Seq<DmaBuf>, outputs: Seq<DmaBuf>)
    requires
        q.wf(),
        1 <= inputs.len() + outputs.len() <= q.free.len(),
    ensures
        added(q, inputs, outputs).disjoint(),
{
    let a = added(q, inputs, outputs);
    let n = (inputs.len() + outputs.len()) as int;
    assert forall|h: int, j: int, i: int|
        a.chains.dom().contains(h) && 0 <= j < a.chains[h].len() && 0 <= i
            < a.free.len() implies #[trigger] a.chains[h][j] != #[trigger] a.free[i] by {
        assert(a.free[i] == q.free[n + i]);
        if h == q.free_head as int {
            assert(a.chains[h][j] == q.free[j]);
        } else {
            assert(a.chains[h][j] == q.chains[h][j]);
        }
    }
    assert forall|h1: int, j1: int, h2: int, j2: int|
        a.chains.dom().contains(h1) && a.chains.dom().contains(h2) && h1 != h2 && 0 <= j1
            < a.chains[h1].len() && 0 <= j2 < a.chains[h2].len() implies #[trigger] a.chains[h1][j1]
        != #[trigger] a.chains[h2][j2] by {
        if h1 == q.free_head as int {
            assert(a.chains[h1][j1] == q.free[j1]);
            assert(a.chains[h2][j2] == q.chains[h2][j2]);
        } else if h2 == q.free_head as int {
            assert(a.chains[h2][j2] == q.free[j2]);
            assert(a.chains[h1][j1] == q.chains[h1][j1]);
        } else {
            assert(a.chains[h1][j1] == q.chains[h1][j1]);
            assert(a.chains[h2][j2] == q.chains[h2][j2]);
        }
    }
}

/// Adding a chain keeps the invariant, and the chain describes the buffers
/// that were handed in.
#[verifier::rlimit(40)]
pub proof fn lemma_added_wf(q: VirtQueueView, inputs: Seq<DmaBuf>, outputs: Seq<DmaBuf>)
    requires
        q.wf(),
        1 <= inputs.len() + outputs.len() <= q.free.len(),
    ensures
        added(q, inputs, outputs).wf(),
        added(q, inputs, outputs).in_flight(q.free_head),
        added(q, inputs, outputs).chain_bufs(q.free_head) == submission(inputs, outputs),
{
    let a = added(q, inputs, outputs);
    let bufs = submission(inputs, outputs);
    let n = bufs.len() as int;
    lemma_flag_values();
    lemma_added_descs(q, inputs, outputs);
    lemma_added_free_linked(q, inputs, outputs);
    lemma_added_chains_linked(q, inputs, outputs);
    lemma_added_disjoint(q, inputs, outputs);
    lemma_mask_is_remainder(q.avail_idx, q.size);
    assert(a.wf());
    assert(a.chain_bufs(q.free_head) =~= bufs) by {
        assert forall|j: int| 0 <= j < n implies a.chain_bufs(q.free_head)[j] == bufs[j] by {
            assert(a.chains[q.free_head as int][j] == q.free[j]);
            assert(a.descs[q.free[j]].flags == chain_flags(j, n, bufs[j].2));
        }
    }
}

/// Where a descriptor is free, the head of the free list is a descriptor
/// of the queue and heads no chain.
pub proof fn lemma_free_head_is_free(q: VirtQueueView)
    requires
        q.wf(),
        q.num_used < q.size,
    ensures
        q.free_head < q.size,
        !q.in_flight(q.free_head),
{
    assert(q.free[0] == q.free_head);
    if q.chains.dom().contains(q.free_head as int) {
        assert(q.chain_linked(q.free_head as int));
        assert(q.chains[q.free_head as int][0] == q.free[0]);
    }
}

/// Adding a chain leaves the chains that were in flight as they were.
#[verifier::rlimit(40)]
pub proof fn lemma_added_keeps(q: VirtQueueView, inputs: Seq<DmaBuf>, outputs: Seq<DmaBuf>, t: u16)
    requires
        q.wf(),
        1 <= inputs.len() + outputs.len() <= q.free.len(),
        q.in_flight(t),
    ensures
        added(q, inputs, outputs).in_flight(t),
        added(q, inputs, outputs).chains[t as int] == q.chains[t as int],
        added(q, inputs, outputs).chain_bufs(t) == q.chain_bufs(t),
        t != q.free_head,
{
    lemma_free_head_is_free(q);
    lemma_added_descs(q, inputs, outputs);
    let a = added(q, inputs, outputs);
    assert(a.chain_bufs(t) =~= q.chain_bufs(t)) by {
        assert forall|j: int| 0 <= j < q.chains[t as int].len() implies a.chain_bufs(t)[j]
            == q.chain_bufs(t)[j] by {
            assert(a.descs[q.chains[t as int][j]] == q.descs[q.chains[t as int][j]]);
        }
    }
}

/// Taking a chain back leaves the other chains that were in flight as they
/// were.
pub proof fn lemma_recycled_keeps(q: VirtQueueView, head: u16, t: u16)
    requires
        q.wf(),
        q.in_flight(head),
        q.in_flight(t),
        t != head,
    ensures
        recycled(q, head).in_flight(t),
        popped_with(q, head).in_flight(t),
        recycled(q, head).chains[t as int] == q.chains[t as int],
{
}

/// The low 16 bits of `x`.
pub fn low_half(x: u32) -> (r: u16)
    ensures
        r == (x % 0x1_0000) as u16,
{
    assert(x & 0xffff == x % 0x1_0000) by (bit_vector);
    assert(x & 0xffff < 0x1_0000) by (bit_vector);
    (x & 0xffff) as u16
}

/// The queue after the chain headed by `head` was taken back: each of its
/// descriptors has address and length zero; each but the last has no flag
/// and keeps `next`; the last keeps its flags and leads to the former free
/// list, so that the chain is the front of the new one.
pub open spec fn recycled(q: VirtQueueView, head: u16) -> VirtQueueView {
    let c = q.chains[head as int];
    VirtQueueView {
        num_used: (q.num_used - c.len()) as u16,
        free_head: head,
        descs: Seq::new(
            q.descs.len(),
            |i: int|
                if c.contains(i) {
                    if c.index_of(i) < c.len() - 1 {
                        Descriptor {
                            addr: 0,
                            len: 0,
                            flags: DescFlags { bits: 0 },
                            next: q.descs[i].next,
                        }
                    } else {
                        Descriptor {
                            addr: 0,
                            len: 0,
                            flags: q.descs[i].flags,
                            next: q.free_head,
                        }
                    }
                } else {
                    q.descs[i]
                },
        ),
        heads: q.heads.update(head as int, false),
        free: c + q.free,
        chains: q.chains.remove(head as int),
        ..q
    }
}

/// The queue after a completion for the chain headed by `head` was taken.
pub open spec fn popped_with(q: VirtQueueView, head: u16) -> VirtQueueView {
    VirtQueueView { last_used_idx: next_ring_idx(q.last_used_idx), ..recycled(q, head) }
}

/// The queue after the device has completed the chain with the given head:
/// the next slot of the used ring holds the completion, and the device's
/// place in the ring has moved on by one.
pub open spec fn completed(q: VirtQueueView, id: u32, len: u32) -> VirtQueueView {
    VirtQueueView {
        used_ring: q.used_ring.update((q.used_idx % q.size) as int, UsedElem { id, len }),
        used_idx: next_ring_idx(q.used_idx),
        ..q
    }
}

/// What the device writes to the used ring does not touch the invariant.
#[verifier::rlimit(40)]
pub proof fn lemma_completed_wf(q: VirtQueueView, id: u32, len: u32)
    requires
        q.wf(),
    ensures
        completed(q, id, len).wf(),
{
    let c = completed(q, id, len);
    lemma_mask_is_remainder(q.used_idx, q.size);
    assert(c.free_linked());
    assert forall|h: int| #[trigger] c.chains.dom().contains(h) implies c.chain_linked(h) by {
        assert(q.chain_linked(h));
    }
    assert(c.disjoint());
}

/// Where the driver has taken every completion so far, the completion that
/// the device gives next is the next that the driver takes.
#[verifier::rlimit(40)]
pub proof fn lemma_completed_is_next(q: VirtQueueView, token: u16, len: u32)
    requires
        q.wf(),
        !q.can_pop(),
    ensures
        completed(q, token as u32, len).wf(),
        completed(q, token as u32, len).can_pop(),
        completed(q, token as u32, len).next_used() == (UsedElem { id: token as u32, len }),
        completed(q, token as u32, len).next_used_token() == token,
        !popped(completed(q, token as u32, len)).can_pop(),
{
    lemma_mask_is_remainder(q.used_idx, q.size);
    lemma_completed_wf(q, token as u32, len);
}

/// The queue after its next completion was taken: the chain that the
/// completion names is taken back, and the driver's place in the used ring
/// moves on by one.
pub open spec fn popped(q: VirtQueueView) -> VirtQueueView {
    VirtQueueView {
        last_used_idx: next_ring_idx(q.last_used_idx),
        ..recycled(q, q.next_used_token())
    }
}

/// Taking a chain back keeps the invariant, and the chain's descriptors are
/// among those counted as used.
#[verifier::rlimit(40)]
pub proof fn lemma_recycled_wf(q: VirtQueueView, head: u16)
    requires
        q.wf(),
        q.in_flight(head),
    ensures
        recycled(q, head).wf(),
        q.chains[head as int].len() <= q.num_used,
        !recycled(q, head).in_flight(head),
{
    let r = recycled(q, head);
    let c = q.chains[head as int];
    let m = c.len() as int;
    assert(q.chain_linked(head as int));
    let all = c + q.free;
    assert(all.no_duplicates()) by {
        assert forall|a: int, b: int| 0 <= a < all.len() && 0 <= b < all.len() && a != b implies all[a]
            != all[b] by {
            if a < m && b < m {
                assert(c[a] != c[b]);
            } else if a >= m && b >= m {
                assert(q.free[a - m] != q.free[b - m]);
            } else if a < m {
                assert(q.chains[head as int][a] != q.free[b - m]);
            } else {
                assert(q.chains[head as int][b] != q.free[a - m]);
            }
        }
    }
    assert forall|i: int| 0 <= i < all.len() implies 0 <= #[trigger] all[i] < q.size by {
        if i < m {
            assert(all[i] == c[i]);
        } else {
            assert(all[i] == q.free[i - m]);
        }
    }
    lemma_distinct_below(all, q.size as int);
    assert forall|p: int| 0 <= p < m implies #[trigger] c.index_of(c[p]) == p by {
        assert(c.contains(c[p]));
    }
    assert forall|p: int| 0 <= p < m - 1 implies r.descs[#[trigger] c[p]].next == c[p + 1] by {
        assert(c.contains(c[p]));
        assert(c.index_of(c[p]) == p);
    }
    assert(r.descs[c[m - 1]].next == q.free_head) by {
        assert(c.contains(c[m - 1]));
        assert(c.index_of(c[m - 1]) == m - 1);
    }
    assert forall|i: int| 0 <= i < q.free.len() implies r.descs[#[trigger] q.free[i]]
        == q.descs[q.free[i]] by {
        if c.contains(q.free[i]) {
            let p = c.index_of(q.free[i]);
            assert(q.chains[head as int][p] == q.free[i]);
        }
    }
    assert forall|h: int, j: int|
        q.chains.dom().contains(h) && h != head as int && 0 <= j
            < q.chains[h].len() implies r.descs[#[trigger] q.chains[h][j]]
        == q.descs[q.chains[h][j]] by {
        if c.contains(q.chains[h][j]) {
            let p = c.index_of(q.chains[h][j]);
            assert(q.chains[head as int][p] == q.chains[h][j]);
        }
    }
    assert(r.free_linked()) by {
        assert(r.free[0] == c[0]);
        assert forall|i: int| 0 <= i < r.free.len() - 1 implies r.descs[#[trigger] r.free[i]].next
            == r.free[i + 1] by {
            if i < m - 1 {
                assert(r.free[i] == c[i]);
                assert(r.free[i + 1] == c[i + 1]);
            } else if i == m - 1 {
                assert(r.free[i] == c[m - 1]);
                assert(r.free[i + 1] == q.free[0]);
            } else {
                assert(r.free[i] == q.free[i - m]);
                assert(r.free[i + 1] == q.free[i - m + 1]);
                assert(r.descs[q.free[i - m]] == q.descs[q.free[i - m]]);
            }
        }
    }
    assert forall|h: int| #[trigger] r.chains.dom().contains(h) implies r.chain_linked(h) by {
        assert(q.chains.dom().contains(h));
        assert(q.chain_linked(h));
        let ch = q.chains[h];
        assert(r.chains[h] == ch);
        assert forall|j: int| 0 <= j < ch.len() - 1 implies r.descs[#[trigger] ch[j]].next
            == ch[j + 1] && r.descs[ch[j]].flags.has(DESC_F_NEXT) by {
            assert(r.descs[q.chains[h][j]] == q.descs[q.chains[h][j]]);
        }
        assert(r.descs[q.chains[h][ch.len() - 1]] == q.descs[q.chains[h][ch.len() - 1]]);
    }
    assert(r.disjoint()) by {
        assert forall|h: int, j: int, i: int|
            r.chains.dom().contains(h) && 0 <= j < r.chains[h].len() && 0 <= i
                < r.free.len() implies #[trigger] r.chains[h][j] != #[trigger] r.free[i] by {
            assert(r.chains[h][j] == q.chains[h][j]);
            if i < m {
                assert(r.free[i] == q.chains[head as int][i]);
            } else {
                assert(r.free[i] == q.free[i - m]);
            }
        }
        assert forall|h1: int, j1: int, h2: int, j2: int|
            r.chains.dom().contains(h1) && r.chains.dom().contains(h2) && h1 != h2 && 0 <= j1
                < r.chains[h1].len() && 0 <= j2
                < r.chains[h2].len() implies #[trigger] r.chains[h1][j1]
            != #[trigger] r.chains[h2][j2] by {
            assert(r.chains[h1][j1] == q.chains[h1][j1]);
            assert(r.chains[h2][j2] == q.chains[h2][j2]);
        }
    }
    assert(r.wf());
}

/// A fresh queue meets the invariant.
pub proof fn lemma_fresh_queue_wf(idx: u16, size: u16, modern: bool)
    requires
        is_power_of_two(size),
    ensures
        fresh_queue(idx, size, modern).wf(),
{
    let v = fresh_queue(idx, size, modern);
    lemma_power_of_two_values(size);
    assert(v.free_linked());
    assert(v.disjoint());
}


/// Size of a descriptor in the memory that driver and device share.
pub const DESCRIPTOR_SIZE: usize = 16;

/// Size of a slot of the used ring in the memory that driver and device share.
pub const USED_ELEM_SIZE: usize = 8;

impl Descriptor {
    /// The bytes of the descriptor as the device reads them: address,
    /// length, flags and next, each little-endian.
    pub open spec fn encoding(self) -> Seq<u8> {
        le_u64(self.addr) + le_u32(self.len) + le_u16(self.flags.bits) + le_u16(self.next)
    }

    /// Appends the bytes of the descriptor to `out`.
    pub fn put(&self, out: &mut Vec<u8>)
        ensures
            final(out)@ == old(out)@ + self.encoding(),
    {
        put_u64(out, self.addr);
        put_u32(out, self.len);
        put_u16(out, self.flags.bits);
        put_u16(out, self.next);
        assert(out@ =~= old(out)@ + self.encoding());
    }
}

/// The bytes of a descriptor table.
pub open spec fn descs_encoding(descs: Seq<Descriptor>) -> Seq<u8>
    decreases descs.len(),
{
    if descs.len() == 0 {
        Seq::empty()
    } else {
        descs_encoding(descs.drop_last()) + descs.last().encoding()
    }
}

/// The bytes of the slots of an available ring.
pub open spec fn slots_encoding(ring: Seq<u16>) -> Seq<u8>
    decreases ring.len(),
{
    if ring.len() == 0 {
        Seq::empty()
    } else {
        slots_encoding(ring.drop_last()) + le_u16(ring.last())
    }
}

/// The number of bytes that a used ring of `size` slots takes: flags and
/// index, the slots, and the event word.
pub open spec fn used_ring_len(size: nat) -> nat {
    4 + USED_ELEM_SIZE as nat * size + 2
}

/// The used ring of `size` slots that stands in `bytes`.
pub open spec fn used_of(bytes: Seq<u8>, size: nat) -> (u16, u16, Seq<UsedElem>, u16) {
    (
        u16_of_le(bytes),
        u16_of_le(bytes.skip(2)),
        Seq::new(
            size,
            |i: int|
                UsedElem {
                    id: u32_of_le(bytes.skip(4 + USED_ELEM_SIZE as int * i)),
                    len: u32_of_le(bytes.skip(8 + USED_ELEM_SIZE as int * i)),
                },
        ),
        u16_of_le(bytes.skip(4 + USED_ELEM_SIZE as int * size)),
    )
}

impl UsedRing {
    /// Reads a used ring of `size` slots from the memory that the device
    /// writes, if `bytes` holds that much.
    pub fn from_bytes(bytes: &[u8], size: u16) -> (r: Option<Self>)
        ensures
            bytes@.len() < used_ring_len(size as nat) ==> r is None,
            bytes@.len() >= used_ring_len(size as nat) ==> r is Some && (
                r->Some_0.flags,
                r->Some_0.idx,
                r->Some_0.ring@,
                r->Some_0.avail_event,
            ) == used_of(bytes@, size as nat),
    {
        let n: usize = size as usize;
        if bytes.len() < 4 + USED_ELEM_SIZE * n + 2 {
            return None;
        }
        let flags: u16 = get_u16(bytes, 0);
        assert(bytes@.skip(0) =~= bytes@);
        let idx: u16 = get_u16(bytes, 2);
        let mut ring: Vec<UsedElem> = Vec::with_capacity(n);
        let mut i: usize = 0;
        while i < n
            invariant
                i <= n,
                n == size,
                bytes@.len() >= 4 + USED_ELEM_SIZE * n + 2,
                ring@ == used_of(bytes@, i as nat).2,
            decreases n - i,
        {
            let id: u32 = get_u32(bytes, 4 + USED_ELEM_SIZE * i);
            let len: u32 = get_u32(bytes, 8 + USED_ELEM_SIZE * i);
            ring.push(UsedElem { id, len });
            assert(ring@ =~= used_of(bytes@, (i + 1) as nat).2);
            i = i + 1;
        }
        let avail_event: u16 = get_u16(bytes, 4 + USED_ELEM_SIZE * n);
        Some(UsedRing { flags, idx, ring, avail_event })
    }
}

impl VirtQueue {
    /// The bytes of the descriptor table as the device reads them.
    pub fn descs_bytes(&self) -> (r: Vec<u8>)
        ensures
            r@ == descs_encoding(self@.descs),
    {
        let mut out: Vec<u8> = Vec::new();
        let mut i: usize = 0;
        while i < self.descs.len()
            invariant
                i <= self.descs@.len(),
                out@ == descs_encoding(self.descs@.take(i as int)),
            decreases self.descs@.len() - i,
        {
            proof {
                assert(self.descs@.take(i + 1).drop_last() =~= self.descs@.take(i as int));
            }
            self.descs[i].put(&mut out);
            i = i + 1;
        }
        assert(self.descs@.take(self.descs@.len() as int) =~= self.descs@);
        out
    }

    /// The bytes of the available ring as the device reads them: flags and
    /// index, the slots, and the event word.
    pub fn avail_bytes(&self) -> (r: Vec<u8>)
        ensures
            r@ == le_u16(self@.avail_flags.bits) + le_u16(self@.avail_ring_idx) + slots_encoding(
                self@.avail_ring,
            ) + le_u16(self@.avail_used_event),
    {
        let mut out: Vec<u8> = Vec::new();
        put_u16(&mut out, self.avail.flags.bits);
        put_u16(&mut out, self.avail.idx);
        let ghost front = out@;
        let mut i: usize = 0;
        while i < self.avail.ring.len()
            invariant
                i <= self.avail.ring@.len(),
                out@ == front + slots_encoding(self.avail.ring@.take(i as int)),
            decreases self.avail.ring@.len() - i,
        {
            proof {
                assert(self.avail.ring@.take(i + 1).drop_last() =~= self.avail.ring@.take(
                    i as int,
                ));
            }
            put_u16(&mut out, self.avail.ring[i]);
            assert(out@ =~= front + slots_encoding(self.avail.ring@.take(i + 1)));
            i = i + 1;
        }
        assert(self.avail.ring@.take(self.avail.ring@.len() as int) =~= self.avail.ring@);
        put_u16(&mut out, self.avail.used_event);
        assert(out@ =~= le_u16(self@.avail_flags.bits) + le_u16(self@.avail_ring_idx)
            + slots_encoding(self@.avail_ring) + le_u16(self@.avail_used_event));
        out
    }

}

/// The bytes of a descriptor table hold one descriptor after the other,
/// sixteen bytes each.
pub proof fn lemma_descs_encoding(descs: Seq<Descriptor>, i: int)
    requires
        0 <= i < descs.len(),
    ensures
        descs_encoding(descs).len() == DESCRIPTOR_SIZE * descs.len(),
        descs_encoding(descs).subrange(DESCRIPTOR_SIZE * i, DESCRIPTOR_SIZE * (i + 1))
            == descs[i].encoding(),
    decreases descs.len(),
{
    lemma_descs_encoding_len(descs);
    lemma_descs_encoding_len(descs.drop_last());
    if i == descs.len() - 1 {
        assert(descs_encoding(descs).subrange(DESCRIPTOR_SIZE * i, DESCRIPTOR_SIZE * (i + 1))
            =~= descs[i].encoding());
    } else {
        lemma_descs_encoding(descs.drop_last(), i);
        assert(descs_encoding(descs).subrange(DESCRIPTOR_SIZE * i, DESCRIPTOR_SIZE * (i + 1))
            =~= descs_encoding(descs.drop_last()).subrange(
            DESCRIPTOR_SIZE * i,
            DESCRIPTOR_SIZE * (i + 1),
        ));
    }
}

proof fn lemma_descs_encoding_len(descs: Seq<Descriptor>)
    ensures
        descs_encoding(descs).len() == DESCRIPTOR_SIZE * descs.len(),
    decreases descs.len(),
{
    if descs.len() > 0 {
        lemma_descs_encoding_len(descs.drop_last());
    }
}

} // verus!

