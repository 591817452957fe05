//! Memory regions the GPU reads and writes: host-and-device ("linear")
//! memory, which the host may view, and device-only VRAM, which it may not.
use vstd::prelude::*;

verus! {

/// A bounded region of GPU-visible memory, by address and size in bytes.
#[derive(Clone, Copy, Debug, PartialEq, Eq, Structural)]
pub enum BufferSlice {
    /// Linear memory: the host can read and write it.
    Linear { addr: u32, size: usize },
    /// VRAM: only the GPU can reach it.
    Vram { addr: u32, size: usize },
}

impl BufferSlice {
    pub open spec fn spec_size(self) -> usize {
        match self {
            BufferSlice::Linear { size, .. } => size,
            BufferSlice::Vram { size, .. } => size,
        }
    }

    pub open spec fn spec_start_addr(self) -> u32 {
        match self {
            BufferSlice::Linear { addr, .. } => addr,
            BufferSlice::Vram { addr, .. } => addr,
        }
    }

    /// Length in bytes.
    pub fn size(&self) -> (r: usize)
        ensures
            r == self.spec_size(),
    {
        match self {
            BufferSlice::Linear { size, .. } => *size,
            BufferSlice::Vram { size, .. } => *size,
        }
    }

    /// Address of the first byte.
    pub fn start_addr(&self) -> (r: u32)
        ensures
            r == self.spec_start_addr(),
    {
        match self {
            BufferSlice::Linear { addr, .. } => *addr,
            BufferSlice::Vram { addr, .. } => *addr,
        }
    }

    /// Address one past the last byte, if it is a 32-bit address.
    pub fn end_addr(&self) -> (r: Option<u32>)
        ensures
            r is Some <==> self.spec_start_addr() + self.spec_size() <= u32::MAX,
            r matches Some(e) ==> e == self.spec_start_addr() + self.spec_size(),
    {
        let a = self.start_addr();
        let s = self.size();
        if s as u64 > (u32::MAX - a) as u64 {
            None
        } else {
            Some(a + s as u32)
        }
    }

    /// Whether the host may view the bytes: only linear memory; a device-only
    /// region never yields a host view.
    pub fn is_host_visible(&self) -> (r: bool)
        ensures
            r <==> self is Linear,
    {
        match self {
            BufferSlice::Linear { .. } => true,
            BufferSlice::Vram { .. } => false,
        }
    }

    /// Bytes `start..end` of this region, of the same kind; none unless
    /// `start <= end <= size` and the start is a 32-bit address.
    pub fn slice(&self, start: usize, end: usize) -> (r: Option<BufferSlice>)
        ensures
            r is Some <==> start <= end <= self.spec_size() && self.spec_start_addr() + start
                <= u32::MAX,
            r matches Some(s) ==> {
                &&& s.spec_start_addr() == self.spec_start_addr() + start
                &&& s.spec_size() == end - start
                &&& (s is Linear <==> self is Linear)
            },
    {
        if start > end || end > self.size() {
            return None;
        }
        let a = self.start_addr();
        if start as u64 > (u32::MAX - a) as u64 {
            return None;
        }
        let addr = a + start as u32;
        match self {
            BufferSlice::Linear { .. } => Some(BufferSlice::Linear { addr, size: end - start }),
            BufferSlice::Vram { .. } => Some(BufferSlice::Vram { addr, size: end - start }),
        }
    }
}

} // verus!
