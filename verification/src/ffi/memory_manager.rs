//! The host's allocator. Whatever the host is to read after a call, text or
//! binary data, lies in memory that this allocator handed out, and is given
//! back through it.

use std::collections::HashMap;
use vstd::prelude::*;
use vstd::slice::*;
use vstd::std_specs::hash::*;

verus! {

broadcast use vstd::std_specs::hash::group_hash_axioms;

/// The allocator could not provide the memory.
#[derive(Clone, Copy, Debug, PartialEq, Eq, Structural)]
pub struct AllocationError;

/// The address of a buffer that the allocator handed out; never null.
#[derive(Clone, Copy, Debug, PartialEq, Eq, Structural)]
pub struct NonNullBuffer {
    addr: usize,
}

impl NonNullBuffer {
    #[verifier::type_invariant]
    spec fn non_null(self) -> bool {
        self.addr != 0
    }

    /// The buffer's address.
    pub closed spec fn spec_as_ptr(self) -> usize {
        self.addr
    }

    /// The buffer at `addr`, or none for the null address.
    pub fn new(addr: usize) -> (buffer: Option<NonNullBuffer>)
        ensures
            (addr == 0) == (buffer is None),
            buffer matches Some(b) ==> b.spec_as_ptr() == addr,
    {
        if addr == 0 {
            None
        } else {
            Some(NonNullBuffer { addr })
        }
    }

    /// The buffer's address.
    pub fn as_ptr(&self) -> (addr: usize)
        ensures
            addr == self.spec_as_ptr(),
            addr != 0,
    {
        proof {
            use_type_invariant(self);
        }
        self.addr
    }
}

/// What the binding makes of the answer to one request for memory: the host
/// reports whether it succeeded and where the memory is, and only success
/// together with an address other than null is an allocation.
pub fn checked_allocation(ok: bool, addr: usize) -> (buffer: Result<
    NonNullBuffer,
    AllocationError,
>)
    ensures
        buffer is Ok <==> ok && addr != 0,
        buffer matches Ok(b) ==> b.spec_as_ptr() == addr,
{
    if ok {
        match NonNullBuffer::new(addr) {
            Some(b) => Ok(b),
            None => Err(AllocationError),
        }
    } else {
        Err(AllocationError)
    }
}

/// The bytes that text of `len` UTF-16 units takes.
pub open spec fn str_bytes(len: nat) -> nat {
    2 * len
}

/// The bytes to request for text of `len` UTF-16 units, where that number
/// fits the host's size type.
pub fn str_byte_size(len: usize) -> (bytes: Option<u64>)
    ensures
        bytes is Some <==> str_bytes(len as nat) <= u64::MAX,
        bytes matches Some(b) ==> b == str_bytes(len as nat),
{
    let len64: u64 = len as u64;
    if len64 <= u64::MAX / 2 {
        Some(len64 * 2)
    } else {
        None
    }
}

/// The bytes to request for binary data of `len` bytes.
pub fn blob_byte_size(len: usize) -> (bytes: u64)
    ensures
        bytes == len,
{
    len as u64
}

/// What one live buffer holds.
pub enum HostBuffer {
    /// Text, as UTF-16 code units.
    Str(Vec<u16>),
    /// Binary data.
    Blob(Vec<u8>),
}

/// What one live buffer holds.
pub enum HostBufferView {
    Str(Seq<u16>),
    Blob(Seq<u8>),
}

impl View for HostBuffer {
    type V = HostBufferView;

    open spec fn view(&self) -> HostBufferView {
        match self {
            HostBuffer::Str(v) => HostBufferView::Str(v@),
            HostBuffer::Blob(v) => HostBufferView::Blob(v@),
        }
    }
}

/// The live buffers of the host's memory, by address.
pub type Heap = Map<usize, HostBufferView>;

/// The text of `len` units that the host finds at `ptr` in `heap`: the start
/// of the live text buffer there, if there is one and it is that long.
pub open spec fn str_at(heap: Heap, ptr: usize, len: nat) -> Option<Seq<u16>> {
    if heap.contains_key(ptr) {
        match heap[ptr] {
            HostBufferView::Str(s) => if len <= s.len() {
                Some(s.subrange(0, len as int))
            } else {
                None
            },
            HostBufferView::Blob(_) => None,
        }
    } else {
        None
    }
}

/// The binary data of `len` bytes that the host finds at `ptr` in `heap`:
/// the start of the live binary buffer there, if there is one and it is that
/// long.
pub open spec fn blob_at(heap: Heap, ptr: usize, len: nat) -> Option<Seq<u8>> {
    if heap.contains_key(ptr) {
        match heap[ptr] {
            HostBufferView::Blob(s) => if len <= s.len() {
                Some(s.subrange(0, len as int))
            } else {
                None
            },
            HostBufferView::Str(_) => None,
        }
    } else {
        None
    }
}

/// The address at which an allocator's memory starts.
pub const ARENA_BASE: usize = 0x1000;

/// The addresses that a buffer of `size` bytes takes up: its size rounded up
/// to the next multiple of eight above it, so that no two buffers share an
/// address, not even empty ones.
pub open spec fn footprint(size: nat) -> nat {
    (size / 8 + 1) * 8
}

/// The host's allocator, with the memory it manages.
///
/// The memory is a range of addresses from which buffers are carved in
/// rising order. A buffer that was given back is gone; its addresses are not
/// handed out again.
pub struct MemoryManager {
    buffers: HashMap<usize, HostBuffer>,
    next: usize,
    end: usize,
}

impl View for MemoryManager {
    type V = Map<usize, HostBufferView>;

    /// The live buffers, by address.
    closed spec fn view(&self) -> Map<usize, HostBufferView> {
        Map::new(|p: usize| self.buffers@.contains_key(p), |p: usize| self.buffers@[p]@)
    }
}

impl MemoryManager {
    /// The allocator's bookkeeping is sound: every live buffer lies inside
    /// the part of the address range that was handed out.
    pub closed spec fn wf(&self) -> bool {
        &&& ARENA_BASE <= self.next <= self.end
        &&& forall|p: usize| #[trigger] self.buffers@.contains_key(p) ==> ARENA_BASE <= p < self.next
    }

    /// The bytes of address space that are left to hand out.
    pub closed spec fn available(&self) -> nat {
        (self.end - self.next) as nat
    }

    /// The address that the next buffer gets.
    pub closed spec fn next_address(&self) -> usize {
        self.next
    }

    /// What is left to hand out ends within the address space.
    pub proof fn lemma_available(&self)
        requires
            self.wf(),
        ensures
            self.next_address() + self.available() <= usize::MAX,
    {
    }

    /// The next buffer does not get the null address.
    pub proof fn lemma_next_address(&self)
        requires
            self.wf(),
        ensures
            self.next_address() >= ARENA_BASE,
    {
    }

    /// A live buffer lies at an address that is not null and below the one
    /// that the next buffer gets.
    pub proof fn lemma_live_addresses(&self, ptr: usize)
        requires
            self.wf(),
            self@.contains_key(ptr),
        ensures
            0 < ptr < self.next_address(),
    {
    }

    /// An allocator with `capacity` bytes of address space and no buffer.
    pub fn new(capacity: usize) -> (mem: MemoryManager)
        ensures
            mem.wf(),
            mem@ == Map::<usize, HostBufferView>::empty(),
            mem.available() == if capacity <= usize::MAX - ARENA_BASE {
                capacity as nat
            } else {
                (usize::MAX - ARENA_BASE) as nat
            },
            mem.next_address() == ARENA_BASE,
    {
        let room: usize = if capacity <= usize::MAX - ARENA_BASE {
            capacity
        } else {
            usize::MAX - ARENA_BASE
        };
        let mem = MemoryManager { buffers: HashMap::new(), next: ARENA_BASE, end: ARENA_BASE + room };
        assert(mem@ =~= Map::<usize, HostBufferView>::empty());
        mem
    }

    /// The host's answer to a request for `size` bytes: whether it succeeded
    /// and the address. It succeeds where the buffer's footprint fits what is
    /// left, and then takes the footprint from it.
    fn alloc_memory(&mut self, size: u64) -> (answer: (bool, usize))
        requires
            old(self).wf(),
        ensures
            final(self).wf(),
            answer.0 <==> footprint(size as nat) <= old(self).available(),
            answer.0 ==> answer.1 == old(self).next_address() && final(self).available() == old(
                self,
            ).available() - footprint(size as nat) && final(self).next_address() == old(
                self,
            ).next_address() + footprint(size as nat),
            !answer.0 ==> answer.1 == 0 && final(self).available() == old(self).available()
                && final(self).next_address() == old(self).next_address(),
            final(self).buffers == old(self).buffers,
    {
        let room: usize = self.end - self.next;
        if size / 8 >= (room / 8) as u64 {
            // the footprint is above `room`
            assert(footprint(size as nat) > room);
            return (false, 0);
        }
        let need: usize = ((size / 8) as usize + 1) * 8;
        let addr: usize = self.next;
        self.next = self.next + need;
        (true, addr)
    }

    /// Allocates a buffer for text of `size` UTF-16 units, which takes twice
    /// as many bytes. The buffer comes filled with zero units.
    ///
    /// Fails, and changes nothing, where the bytes do not fit the host's size
    /// type or the footprint of the buffer does not fit what is left.
    pub fn alloc_str(&mut self, size: usize) -> (buffer: Result<NonNullBuffer, AllocationError>)
        requires
            old(self).wf(),
        ensures
            final(self).wf(),
            buffer is Ok <==> footprint(str_bytes(size as nat)) <= old(self).available(),
            buffer matches Ok(b) ==> {
                &&& b.spec_as_ptr() == old(self).next_address()
                &&& !old(self)@.contains_key(b.spec_as_ptr())
                &&& final(self)@ == old(self)@.insert(
                    b.spec_as_ptr(),
                    HostBufferView::Str(Seq::new(size as nat, |i: int| 0u16)),
                )
                &&& final(self).available() == old(self).available() - footprint(
                    str_bytes(size as nat),
                )
                &&& final(self).next_address() == old(self).next_address() + footprint(
                    str_bytes(size as nat),
                )
            },
            buffer is Err ==> final(self)@ == old(self)@ && final(self).available() == old(
                self,
            ).available() && final(self).next_address() == old(self).next_address(),
    {
        let bytes: u64 = match str_byte_size(size) {
            Some(b) => b,
            None => {
                return Err(AllocationError);
            },
        };
        let (ok, addr) = self.alloc_memory(bytes);
        match checked_allocation(ok, addr) {
            Ok(b) => {
                let mut units: Vec<u16> = Vec::new();
                let mut i: usize = 0;
                while i < size
                    invariant
                        i <= size,
                        units@ == Seq::new(i as nat, |k: int| 0u16),
                    decreases size - i,
                {
                    units.push(0u16);
                    assert(units@ =~= Seq::new((i + 1) as nat, |k: int| 0u16));
                    i += 1;
                }
                self.buffers.insert(addr, HostBuffer::Str(units));
                assert(self@ =~= old(self)@.insert(
                    addr,
                    HostBufferView::Str(Seq::new(size as nat, |i: int| 0u16)),
                ));
                Ok(b)
            },
            Err(e) => Err(e),
        }
    }

    /// Allocates a buffer for binary data of `size` bytes. The buffer comes
    /// filled with zero bytes.
    ///
    /// Fails, and changes nothing, where the footprint of the buffer does not
    /// fit what is left.
    pub fn alloc_blob(&mut self, size: usize) -> (buffer: Result<NonNullBuffer, AllocationError>)
        requires
            old(self).wf(),
        ensures
            final(self).wf(),
            buffer is Ok <==> footprint(size as nat) <= old(self).available(),
            buffer matches Ok(b) ==> {
                &&& b.spec_as_ptr() == old(self).next_address()
                &&& !old(self)@.contains_key(b.spec_as_ptr())
                &&& final(self)@ == old(self)@.insert(
                    b.spec_as_ptr(),
                    HostBufferView::Blob(Seq::new(size as nat, |i: int| 0u8)),
                )
                &&& final(self).available() == old(self).available() - footprint(size as nat)
                &&& final(self).next_address() == old(self).next_address() + footprint(
                    size as nat,
                )
            },
            buffer is Err ==> final(self)@ == old(self)@ && final(self).available() == old(
                self,
            ).available() && final(self).next_address() == old(self).next_address(),
    {
        let (ok, addr) = self.alloc_memory(blob_byte_size(size));
        match checked_allocation(ok, addr) {
            Ok(b) => {
                let mut bytes: Vec<u8> = Vec::new();
                let mut i: usize = 0;
                while i < size
                    invariant
                        i <= size,
                        bytes@ == Seq::new(i as nat, |k: int| 0u8),
                    decreases size - i,
                {
                    bytes.push(0u8);
                    assert(bytes@ =~= Seq::new((i + 1) as nat, |k: int| 0u8));
                    i += 1;
                }
                self.buffers.insert(addr, HostBuffer::Blob(bytes));
                assert(self@ =~= old(self)@.insert(
                    addr,
                    HostBufferView::Blob(Seq::new(size as nat, |i: int| 0u8)),
                ));
                Ok(b)
            },
            Err(e) => Err(e),
        }
    }

    /// Copies the text `src` to the start of the text buffer at `dst`, as the
    /// host will read it from there. Returns whether it did: it does not,
    /// and changes nothing, unless a text buffer lives at `dst` that is at
    /// least as long as `src`.
    pub fn write_str(&mut self, dst: usize, src: &[u16]) -> (done: bool)
        requires
            old(self).wf(),
        ensures
            final(self).wf(),
            final(self).available() == old(self).available(),
            final(self).next_address() == old(self).next_address(),
            done <==> old(self)@.contains_key(dst) && (old(self)@[dst] matches HostBufferView::Str(
                s,
            ) && src@.len() <= s.len()),
            done ==> (old(self)@[dst] matches HostBufferView::Str(s) && final(self)@ == old(
                self,
            )@.insert(
                dst,
                HostBufferView::Str(src@ + s.subrange(src@.len() as int, s.len() as int)),
            )),
            !done ==> final(self)@ == old(self)@,
    {
        let fits: bool = match self.buffers.get(&dst) {
            Some(HostBuffer::Str(v)) => src.len() <= v.len(),
            _ => false,
        };
        if !fits {
            return false;
        }
        match self.buffers.remove(&dst) {
            Some(HostBuffer::Str(mut units)) => {
                let ghost before = units@;
                let n: usize = src.len();
                let mut i: usize = 0;
                while i < n
                    invariant
                        n == src@.len(),
                        i <= n <= units@.len(),
                        units@.len() == before.len(),
                        forall|k: int| 0 <= k < i ==> units@[k] == src@[k],
                        forall|k: int| i <= k < before.len() ==> units@[k] == before[k],
                    decreases n - i,
                {
                    units.set(i, src[i]);
                    i += 1;
                }
                assert(units@ =~= src@ + before.subrange(n as int, before.len() as int));
                self.buffers.insert(dst, HostBuffer::Str(units));
                assert(self@ =~= old(self)@.insert(
                    dst,
                    HostBufferView::Str(src@ + before.subrange(n as int, before.len() as int)),
                ));
                true
            },
            _ => false,
        }
    }

    /// Copies the bytes `src` to the start of the binary buffer at `dst`, as
    /// the host will read them from there. Returns whether it did: it does
    /// not, and changes nothing, unless a binary buffer lives at `dst` that
    /// is at least as long as `src`.
    pub fn write_blob(&mut self, dst: usize, src: &[u8]) -> (done: bool)
        requires
            old(self).wf(),
        ensures
            final(self).wf(),
            final(self).available() == old(self).available(),
            final(self).next_address() == old(self).next_address(),
            done <==> old(self)@.contains_key(dst) && (old(self)@[dst] matches HostBufferView::Blob(
                s,
            ) && src@.len() <= s.len()),
            done ==> (old(self)@[dst] matches HostBufferView::Blob(s) && final(self)@ == old(
                self,
            )@.insert(
                dst,
                HostBufferView::Blob(src@ + s.subrange(src@.len() as int, s.len() as int)),
            )),
            !done ==> final(self)@ == old(self)@,
    {
        let fits: bool = match self.buffers.get(&dst) {
            Some(HostBuffer::Blob(v)) => src.len() <= v.len(),
            _ => false,
        };
        if !fits {
            return false;
        }
        match self.buffers.remove(&dst) {
            Some(HostBuffer::Blob(mut bytes)) => {
                let ghost before = bytes@;
                let n: usize = src.len();
                let mut i: usize = 0;
                while i < n
                    invariant
                        n == src@.len(),
                        i <= n <= bytes@.len(),
                        bytes@.len() == before.len(),
                        forall|k: int| 0 <= k < i ==> bytes@[k] == src@[k],
                        forall|k: int| i <= k < before.len() ==> bytes@[k] == before[k],
                    decreases n - i,
                {
                    bytes.set(i, src[i]);
                    i += 1;
                }
                assert(bytes@ =~= src@ + before.subrange(n as int, before.len() as int));
                self.buffers.insert(dst, HostBuffer::Blob(bytes));
                assert(self@ =~= old(self)@.insert(
                    dst,
                    HostBufferView::Blob(src@ + before.subrange(n as int, before.len() as int)),
                ));
                true
            },
            _ => false,
        }
    }

    /// A copy of the text of `len` units at `ptr`, if a text buffer lives
    /// there that is at least that long.
    pub fn read_str(&self, ptr: usize, len: usize) -> (text: Option<Vec<u16>>)
        requires
            self.wf(),
        ensures
            text is Some <==> str_at(self@, ptr, len as nat) is Some,
            text matches Some(t) ==> Some(t@) == str_at(self@, ptr, len as nat),
    {
        match self.buffers.get(&ptr) {
            Some(HostBuffer::Str(v)) => {
                if len <= v.len() {
                    Some(slice_to_vec(slice_subrange(v.as_slice(), 0, len)))
                } else {
                    None
                }
            },
            _ => None,
        }
    }

    /// A copy of the binary data of `len` bytes at `ptr`, if a binary buffer
    /// lives there that is at least that long.
    pub fn read_blob(&self, ptr: usize, len: usize) -> (data: Option<Vec<u8>>)
        requires
            self.wf(),
        ensures
            data is Some <==> blob_at(self@, ptr, len as nat) is Some,
            data matches Some(d) ==> Some(d@) == blob_at(self@, ptr, len as nat),
    {
        match self.buffers.get(&ptr) {
            Some(HostBuffer::Blob(v)) => {
                if len <= v.len() {
                    Some(slice_to_vec(slice_subrange(v.as_slice(), 0, len)))
                } else {
                    None
                }
            },
            _ => None,
        }
    }

    /// Whether a buffer lives at `ptr`.
    pub fn is_live(&self, ptr: usize) -> (live: bool)
        requires
            self.wf(),
        ensures
            live == self@.contains_key(ptr),
    {
        self.buffers.contains_key(&ptr)
    }

    /// Gives the buffer at `*ptr` back and sets `*ptr` to null. An address at
    /// which no buffer lives, null among them, is only set to null.
    pub fn free_memory(&mut self, ptr: &mut usize)
        requires
            old(self).wf(),
        ensures
            final(self).wf(),
            final(self)@ == old(self)@.remove(*old(ptr)),
            final(self).available() == old(self).available(),
            final(self).next_address() == old(self).next_address(),
            *final(ptr) == 0,
    {
        let addr: usize = *ptr;
        self.buffers.remove(&addr);
        *ptr = 0;
        assert(self@ =~= old(self)@.remove(addr));
    }
}

} // verus!
