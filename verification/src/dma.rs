//! Images of the memory regions that driver and device share.
//!
//! A [`DmaStream`] holds the bytes of one region and the address at which
//! the device finds it. The driver core reads and writes the image; moving
//! the bytes to and from the device's memory is left to the code around it.

use vstd::prelude::*;
use crate::queue::DmaBuf;

verus! {

/// The mathematical content of a [`DmaStream`].
pub struct DmaStreamView {
    /// The address of the first byte, as the device sees it.
    pub daddr: u64,
    pub bytes: Seq<u8>,
}

impl DmaStreamView {
    /// The region lies within the device's address space, and a descriptor
    /// can hold its length.
    pub open spec fn wf(self) -> bool {
        &&& self.bytes.len() <= u32::MAX
        &&& self.daddr + self.bytes.len() <= u64::MAX
    }

    /// Whether the `len` bytes at `addr`, as the device counts addresses,
    /// lie in the region.
    pub open spec fn holds(self, addr: u64, len: u32) -> bool {
        self.daddr <= addr && addr + len <= self.daddr + self.bytes.len()
    }

    /// What `slice` gives for a part of the region.
    pub open spec fn slice(self, offset: nat, len: nat) -> DmaBuf {
        DmaBuf { daddr: (self.daddr + offset) as u64, len: len as u32 }
    }
}

/// The bytes of `old` with `data` copied to `offset`, as much of it as fits.
pub open spec fn written(old: Seq<u8>, offset: int, data: Seq<u8>) -> Seq<u8> {
    Seq::new(
        old.len(),
        |i: int|
            if offset <= i < offset + data.len() {
                data[i - offset]
            } else {
                old[i]
            },
    )
}

/// The number of bytes that a copy of `want` bytes to or from `offset` moves
/// in a region of `nbytes`.
pub open spec fn copy_len(nbytes: nat, offset: nat, want: nat) -> nat {
    if offset >= nbytes {
        0
    } else if want > nbytes - offset {
        (nbytes - offset) as nat
    } else {
        want
    }
}

/// The bytes that a read of `want` bytes from `offset` gives.
pub open spec fn read_of(bytes: Seq<u8>, offset: nat, want: nat) -> Seq<u8> {
    Seq::new(copy_len(bytes.len(), offset, want), |i: int| bytes[offset + i])
}

/// The image of a memory region that is mapped for the device.
#[derive(Debug)]
pub struct DmaStream {
    daddr: u64,
    bytes: Vec<u8>,
}

impl View for DmaStream {
    type V = DmaStreamView;

    closed spec fn view(&self) -> DmaStreamView {
        DmaStreamView { daddr: self.daddr, bytes: self.bytes@ }
    }
}

impl DmaStream {
    /// The image of a region of `nbytes` zero bytes at `daddr`, unless the
    /// region would reach beyond the address space or be longer than a
    /// descriptor can say.
    pub fn new(daddr: u64, nbytes: usize) -> (r: Option<Self>)
        ensures
            r is Some <==> nbytes <= u32::MAX && daddr + nbytes <= u64::MAX,
            r is Some ==> r->Some_0@.wf() && r->Some_0@.daddr == daddr && r->Some_0@.bytes
                == Seq::new(nbytes as nat, |i: int| 0u8),
    {
        if nbytes > u32::MAX as usize || nbytes as u64 > u64::MAX - daddr {
            return None;
        }
        let mut bytes: Vec<u8> = Vec::with_capacity(nbytes);
        let mut i: usize = 0;
        while i < nbytes
            invariant
                i <= nbytes,
                bytes@ == Seq::new(i as nat, |j: int| 0u8),
            decreases nbytes - i,
        {
            bytes.push(0);
            assert(bytes@ =~= Seq::new((i + 1) as nat, |j: int| 0u8));
            i = i + 1;
        }
        Some(DmaStream { daddr, bytes })
    }

    /// The number of bytes in the region.
    pub fn nbytes(&self) -> (r: usize)
        ensures
            r == self@.bytes.len(),
    {
        self.bytes.len()
    }

    /// The address of the region, as the device sees it.
    pub fn daddr(&self) -> (r: u64)
        ensures
            r == self@.daddr,
    {
        self.daddr
    }

    /// The bytes of the region.
    pub fn bytes(&self) -> (r: &[u8])
        ensures
            r@ == self@.bytes,
    {
        self.bytes.as_slice()
    }

    /// Copies `data` into the region from `offset` on, as much of it as
    /// fits, and returns the number of bytes copied.
    pub fn write(&mut self, offset: usize, data: &[u8]) -> (r: usize)
        ensures
            r == copy_len(old(self)@.bytes.len(), offset as nat, data@.len()),
            final(self)@.daddr == old(self)@.daddr,
            final(self)@.bytes == written(old(self)@.bytes, offset as int, data@.take(r as int)),
            final(self)@.bytes.len() == old(self)@.bytes.len(),
    {
        let nbytes: usize = self.bytes.len();
        if offset >= nbytes {
            assert(self@.bytes =~= written(old(self)@.bytes, offset as int, data@.take(0)));
            return 0;
        }
        let n: usize = if data.len() > nbytes - offset {
            nbytes - offset
        } else {
            data.len()
        };
        let mut i: usize = 0;
        while i < n
            invariant
                i <= n,
                n <= data@.len(),
                offset + n <= nbytes,
                nbytes == self.bytes@.len(),
                self.daddr == old(self).daddr,
                self.bytes@ == written(old(self)@.bytes, offset as int, data@.take(i as int)),
            decreases n - i,
        {
            self.bytes.set(offset + i, data[i]);
            assert(self.bytes@ =~= written(old(self)@.bytes, offset as int, data@.take(i + 1)));
            i = i + 1;
        }
        n
    }

    /// The bytes of the region from `offset` on, `len` of them or as many as
    /// there are.
    pub fn read(&self, offset: usize, len: usize) -> (r: Vec<u8>)
        ensures
            r@ == read_of(self@.bytes, offset as nat, len as nat),
    {
        let nbytes: usize = self.bytes.len();
        let mut out: Vec<u8> = Vec::new();
        if offset >= nbytes {
            assert(out@ =~= read_of(self@.bytes, offset as nat, len as nat));
            return out;
        }
        let n: usize = if len > nbytes - offset {
            nbytes - offset
        } else {
            len
        };
        let mut i: usize = 0;
        while i < n
            invariant
                i <= n,
                offset + n <= nbytes,
                nbytes == self.bytes@.len(),
                out@ == self@.bytes.subrange(offset as int, offset + i),
            decreases n - i,
        {
            out.push(self.bytes[offset + i]);
            assert(out@ =~= self@.bytes.subrange(offset as int, offset + i + 1));
            i = i + 1;
        }
        assert(out@ =~= read_of(self@.bytes, offset as nat, len as nat));
        out
    }

    /// The place in the region of the `len` bytes at `addr`, as the device
    /// counts addresses, if they lie in the region.
    pub fn offset_of(&self, addr: u64, len: u32) -> (r: Option<usize>)
        requires
            self@.wf(),
        ensures
            r == (if self@.holds(addr, len) {
                Some((addr - self@.daddr) as usize)
            } else {
                None
            }),
    {
        if addr < self.daddr {
            return None;
        }
        let at: u64 = addr - self.daddr;
        let nbytes: u64 = self.bytes.len() as u64;
        if at > nbytes || len as u64 > nbytes - at {
            return None;
        }
        Some(at as usize)
    }

    /// What the queue needs to know of the part of the region that starts
    /// at `offset` and has `len` bytes, if the region has such a part.
    pub fn slice(&self, offset: usize, len: usize) -> (r: Option<DmaBuf>)
        requires
            self@.wf(),
        ensures
            r == (if offset + len <= self@.bytes.len() {
                Some(self@.slice(offset as nat, len as nat))
            } else {
                None
            }),
    {
        let nbytes: usize = self.bytes.len();
        if offset > nbytes || len > nbytes - offset {
            return None;
        }
        Some(DmaBuf { daddr: self.daddr + offset as u64, len: len as u32 })
    }
}

} // verus!
