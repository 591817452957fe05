//! Register commands: `[payload, header]` word pairs and the traits that
//! append them to a command buffer.
use vstd::prelude::*;

use regs::GPUREG_FINALIZE;

pub mod regs;
pub mod alpha;
pub mod chain;
pub mod color_operation;
pub mod cull_face;
pub mod depth_color_mask;
pub mod depth_map;
pub mod fixed_attrib;
pub mod geostage_config;
pub mod logic_op;
pub mod misc;
pub mod primitive;
pub mod shader_outmap;
pub mod texenv;
pub mod transfer;

verus! {

/// Header bit that makes the extra parameters of a command go to consecutive registers.
pub const CONSECUTIVE_WRITING: u32 = 0x8000_0000;

/// The value of the write-mask field of a header.
pub open spec fn spec_mask(m: u32) -> u32 {
    (m & 0xF) << 16
}

/// The value of the extra-parameters field of a header.
pub open spec fn spec_extra_params(n: u32) -> u32 {
    (n & 0xFF) << 20
}

/// Places a 4-bit write mask (one bit per byte of the register) at bits 16..20.
pub fn mask(m: u32) -> (r: u32)
    ensures
        r == spec_mask(m),
{
    (m & 0xF) << 16
}

/// Places an extra-parameter count (0..=255) at bits 20..28.
pub fn extra_params(n: u32) -> (r: u32)
    ensures
        r == spec_extra_params(n),
{
    (n & 0xFF) << 20
}

/// The header of a single write of all four bytes of register `reg`.
pub open spec fn full_write(reg: u32) -> u32 {
    reg | spec_mask(0xF)
}

/// A single register write: the payload word, then the header.
pub open spec fn single_write(reg: u32, param: u32) -> Seq<u32> {
    seq![param, full_write(reg)]
}

/// Appends `w` to `buf`.
pub fn append_words(buf: &mut Vec<u32>, w: &[u32])
    ensures
        final(buf)@ == old(buf)@ + w@,
{
    let mut i: usize = 0;
    while i < w.len()
        invariant
            i <= w@.len(),
            buf@ == old(buf)@ + w@.subrange(0, i as int),
        decreases w@.len() - i,
    {
        buf.push(w[i]);
        i = i + 1;
        assert(w@.subrange(0, i as int) == w@.subrange(0, i - 1) + seq![w@[i - 1]]);
    }
    assert(w@.subrange(0, w@.len() as int) == w@);
}

/// A state change encoded as a fixed word sequence.
pub trait GpuCmd: Sized {
    /// The words of the command.
    spec fn words(self) -> Seq<u32>;

    fn cmd(self) -> (r: Vec<u32>)
        ensures
            r@ == self.words(),
    ;
}

/// A state change that also has a "disabled" encoding.
pub trait GpuCmdDisable: Sized {
    /// The words that disable the state.
    spec fn disable_words(self) -> Seq<u32>;

    fn cmd_disable(self) -> (r: Vec<u32>)
        ensures
            r@ == self.disable_words(),
    ;
}

/// Anything that appends its words to a command buffer.
pub trait GpuCmdByMut: Sized {
    /// The words appended.
    spec fn emitted(self) -> Seq<u32>;

    fn cmd_by_mut(self, buf: &mut Vec<u32>)
        ensures
            final(buf)@ == old(buf)@ + self.emitted(),
    ;
}

/// Anything that appends its disabling words to a command buffer.
pub trait GpuCmdDisableByMut: Sized {
    /// The words appended.
    spec fn emitted_disable(self) -> Seq<u32>;

    fn cmd_disable_by_mut(self, buf: &mut Vec<u32>)
        ensures
            final(buf)@ == old(buf)@ + self.emitted_disable(),
    ;
}

impl<C: GpuCmd> GpuCmdByMut for C {
    open spec fn emitted(self) -> Seq<u32> {
        self.words()
    }

    fn cmd_by_mut(self, buf: &mut Vec<u32>) {
        let w = self.cmd();
        append_words(buf, w.as_slice());
    }
}

impl<C: GpuCmdDisable> GpuCmdDisableByMut for C {
    open spec fn emitted_disable(self) -> Seq<u32> {
        self.disable_words()
    }

    fn cmd_disable_by_mut(self, buf: &mut Vec<u32>) {
        let w = self.cmd_disable();
        append_words(buf, w.as_slice());
    }
}

/// The empty command group, from which `add` and `sub` build a sequence.
#[derive(Clone, Copy)]
pub struct Root;

/// A command group followed by a command.
#[derive(Clone, Copy)]
pub struct Cons<A, B>(pub A, pub B);

/// A command group followed by the disabling form of a command.
#[derive(Clone, Copy)]
pub struct ConsNeg<A, B>(pub A, pub B);

impl GpuCmd for Root {
    open spec fn words(self) -> Seq<u32> {
        Seq::empty()
    }

    fn cmd(self) -> (r: Vec<u32>) {
        Vec::new()
    }
}

impl<A: GpuCmdByMut, B: GpuCmdByMut> GpuCmdByMut for Cons<A, B> {
    open spec fn emitted(self) -> Seq<u32> {
        self.0.emitted() + self.1.emitted()
    }

    fn cmd_by_mut(self, buf: &mut Vec<u32>) {
        self.0.cmd_by_mut(buf);
        self.1.cmd_by_mut(buf);
        assert(buf@ == old(buf)@ + self.emitted());
    }
}

impl<A: GpuCmdByMut, B: GpuCmdDisableByMut> GpuCmdByMut for ConsNeg<A, B> {
    open spec fn emitted(self) -> Seq<u32> {
        self.0.emitted() + self.1.emitted_disable()
    }

    fn cmd_by_mut(self, buf: &mut Vec<u32>) {
        self.0.cmd_by_mut(buf);
        self.1.cmd_disable_by_mut(buf);
        assert(buf@ == old(buf)@ + self.emitted());
    }
}

impl Root {
    /// Starts a group with `rhs`.
    pub fn add<A: GpuCmdByMut>(self, rhs: A) -> (r: Cons<Root, A>)
        ensures
            r == Cons(Root, rhs),
    {
        Cons(Root, rhs)
    }

    /// Starts a group with the disabling form of `rhs`.
    pub fn sub<A: GpuCmdDisableByMut>(self, rhs: A) -> (r: ConsNeg<Root, A>)
        ensures
            r == ConsNeg(Root, rhs),
    {
        ConsNeg(Root, rhs)
    }
}

impl<A, B> Cons<A, B> {
    /// Appends `rhs` to the group.
    pub fn add<C: GpuCmdByMut>(self, rhs: C) -> (r: Cons<Cons<A, B>, C>)
        ensures
            r == Cons(self, rhs),
    {
        Cons(self, rhs)
    }

    /// Appends the disabling form of `rhs` to the group.
    pub fn sub<C: GpuCmdDisableByMut>(self, rhs: C) -> (r: ConsNeg<Cons<A, B>, C>)
        ensures
            r == ConsNeg(self, rhs),
    {
        ConsNeg(self, rhs)
    }
}

impl<A, B> ConsNeg<A, B> {
    /// Appends `rhs` to the group.
    pub fn add<C: GpuCmdByMut>(self, rhs: C) -> (r: Cons<ConsNeg<A, B>, C>)
        ensures
            r == Cons(self, rhs),
    {
        Cons(self, rhs)
    }

    /// Appends the disabling form of `rhs` to the group.
    pub fn sub<C: GpuCmdDisableByMut>(self, rhs: C) -> (r: ConsNeg<ConsNeg<A, B>, C>)
        ensures
            r == ConsNeg(self, rhs),
    {
        ConsNeg(self, rhs)
    }
}


/// The two words of a single write of `param` to register `reg`.
pub fn reg_write(reg: u32, param: u32) -> (r: Vec<u32>)
    ensures
        r@ == single_write(reg, param),
{
    let mut v: Vec<u32> = Vec::new();
    v.push(param);
    v.push(reg | mask(0xF));
    v
}

/// The value written to `GPUREG_FINALIZE` to end a command list.
pub const FINALIZE_MAGIC: u32 = 0x1234_5678;

/// The marker that ends a command list.
#[derive(Clone, Copy)]
pub struct Finish;

impl GpuCmd for Finish {
    open spec fn words(self) -> Seq<u32> {
        single_write(GPUREG_FINALIZE, FINALIZE_MAGIC)
    }

    fn cmd(self) -> (r: Vec<u32>) {
        reg_write(GPUREG_FINALIZE, FINALIZE_MAGIC)
    }
}

/// A finished command list, ready to be handed to the GX queue. Its memory
/// must be 16-byte aligned in address and size.
#[derive(Clone)]
pub struct CommandBuffer {
    pub buf: Vec<u32>,
}

/// Builds a command list; commands are appended in call order.
#[derive(Clone)]
pub struct CommandEncoder {
    buf: CommandBuffer,
}

impl CommandEncoder {
    /// The words appended so far.
    pub closed spec fn spec_words(&self) -> Seq<u32> {
        self.buf.buf@
    }

    pub fn new() -> (r: CommandEncoder)
        ensures
            r.spec_words() == Seq::<u32>::empty(),
    {
        CommandEncoder { buf: CommandBuffer { buf: Vec::new() } }
    }

    /// An empty encoder with room for `capacity` words.
    pub fn new_with_capacity(capacity: usize) -> (r: CommandEncoder)
        ensures
            r.spec_words() == Seq::<u32>::empty(),
    {
        CommandEncoder { buf: CommandBuffer { buf: Vec::with_capacity(capacity) } }
    }

    /// The words appended so far.
    pub fn words(&self) -> (r: &[u32])
        ensures
            r@ == self.spec_words(),
    {
        self.buf.buf.as_slice()
    }

    /// Appends the words of `rhs`.
    pub fn add<T: GpuCmdByMut>(self, rhs: T) -> (r: CommandEncoder)
        ensures
            r.spec_words() == self.spec_words() + rhs.emitted(),
    {
        let mut s = self;
        rhs.cmd_by_mut(&mut s.buf.buf);
        s
    }

    /// Appends the words of `rhs` in place.
    pub fn add_assign<T: GpuCmdByMut>(&mut self, rhs: T)
        ensures
            final(self).spec_words() == old(self).spec_words() + rhs.emitted(),
    {
        rhs.cmd_by_mut(&mut self.buf.buf);
    }

    /// Appends the disabling words of `rhs`.
    pub fn sub<T: GpuCmdDisableByMut>(self, rhs: T) -> (r: CommandEncoder)
        ensures
            r.spec_words() == self.spec_words() + rhs.emitted_disable(),
    {
        let mut s = self;
        rhs.cmd_disable_by_mut(&mut s.buf.buf);
        s
    }

    /// Appends the finalize marker and yields the command list.
    pub fn finish(self) -> (r: CommandBuffer)
        ensures
            r.buf@ == self.spec_words() + single_write(GPUREG_FINALIZE, FINALIZE_MAGIC),
    {
        let mut b = self.buf;
        Finish.cmd_by_mut(&mut b.buf);
        b
    }
}

/// Alignment, in bytes, of command-list memory.
pub const CMDBUF_ALIGN: usize = 0x10;

/// Allocation rule for command-list memory: sizes are padded to a multiple
/// of 16 bytes and blocks are 16-byte aligned.
#[derive(Clone, Copy)]
pub struct CmdBufAllocator;

impl CmdBufAllocator {
    /// The size of the block that holds `size` bytes: `size` rounded up to a
    /// multiple of 16, or `None` when that does not fit in `usize`.
    pub fn padded_size(size: usize) -> (r: Option<usize>)
        ensures
            r is Some <==> size + 15 <= usize::MAX,
            r matches Some(p) ==> p % 16 == 0 && size <= p < size + 16,
    {
        if size > usize::MAX - 15 {
            return None;
        }
        let p = (size + 15) / 16 * 16;
        Some(p)
    }
}
} // verus!
