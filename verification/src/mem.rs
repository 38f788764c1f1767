//! The memory bus: flat byte storage covering the full 16-bit address space,
//! unconditionally readable and writable at every address the processor can
//! form.

use vstd::prelude::*;

verus! {

/// Number of addressable bytes: one past the highest 16-bit address.
pub const MEM_SIZE: usize = 0x10000;

/// What copying `src` into `dst` at `offset` leaves behind: the copied bytes
/// where they landed, and every other byte as it was.
pub open spec fn loaded_from(dst: Seq<u8>, src: Seq<u8>, offset: u16, out: Seq<u8>) -> bool {
    &&& out.len() == dst.len()
    &&& forall|j: int| offset <= j < offset + src.len() ==> out[j] == src[j - offset]
    &&& forall|j: int| 0 <= j < out.len() && !(offset <= j < offset + src.len()) ==> out[j] == dst[j]
}

/// Flat byte storage for the whole address space.
pub struct Mem {
    data: Vec<u8>,
}

impl View for Mem {
    type V = Seq<u8>;

    /// The memory contents as a sequence indexed by address.
    closed spec fn view(&self) -> Seq<u8> {
        self.data@
    }
}

impl Mem {
    /// The storage covers the full address space, so every 16-bit address is
    /// in bounds. Established by `new` and preserved by every method.
    pub open spec fn wf(&self) -> bool {
        self@.len() == MEM_SIZE
    }

    /// Fresh memory, all bytes zero.
    pub fn new() -> (m: Mem)
        ensures
            m.wf(),
            forall|i: int| 0 <= i < m@.len() ==> m@[i] == 0x00u8,
    {
        let mut data: Vec<u8> = Vec::new();
        while data.len() < MEM_SIZE
            invariant
                data.len() <= MEM_SIZE,
                forall|i: int| 0 <= i < data.len() ==> data@[i] == 0x00u8,
            decreases MEM_SIZE - data.len(),
        {
            data.push(0x00);
        }
        Mem { data }
    }

    /// Clears every byte back to zero.
    pub fn reset(&mut self)
        requires
            old(self).wf(),
        ensures
            final(self).wf(),
            forall|i: int| 0 <= i < final(self)@.len() ==> final(self)@[i] == 0x00u8,
    {
        let mut i: usize = 0;
        while i < self.data.len()
            invariant
                self.wf(),
                i <= self.data.len(),
                forall|j: int| 0 <= j < i ==> self.data@[j] == 0x00u8,
            decreases self.data.len() - i,
        {
            self.data[i] = 0x00;
            i = i + 1;
        }
    }

    /// The byte stored at `addr`.
    pub fn read(&self, addr: u16) -> (r: u8)
        requires
            self.wf(),
        ensures
            r == self@[addr as int],
    {
        self.data[addr as usize]
    }

    /// Stores `data` at `addr`, leaving every other byte alone.
    pub fn write(&mut self, addr: u16, data: u8)
        requires
            old(self).wf(),
        ensures
            final(self).wf(),
            final(self)@ == old(self)@.update(addr as int, data),
    {
        self.data[addr as usize] = data;
    }

    /// Copies `data` into memory starting at `offset`.
    pub fn load(&mut self, data: &[u8], offset: u16)
        requires
            old(self).wf(),
            offset + data@.len() <= MEM_SIZE,
        ensures
            final(self).wf(),
            loaded_from(old(self)@, data@, offset, final(self)@),
    {
        let mut i: usize = 0;
        while i < data.len()
            invariant
                self.wf(),
                i <= data@.len(),
                offset + data@.len() <= MEM_SIZE,
                forall|j: int| offset <= j < offset + i ==> self@[j] == data@[j - offset],
                forall|j: int|
                    0 <= j < self@.len() && !(offset <= j < offset + i) ==> self@[j] == old(
                        self,
                    )@[j],
            decreases data@.len() - i,
        {
            self.data[i + offset as usize] = data[i];
            i = i + 1;
        }
    }
}

} // verus!
