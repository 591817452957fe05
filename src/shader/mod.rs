//! Vertex-shader assembler: instruction words plus a table of operand
//! descriptors in which equal descriptors share one index.
use std::collections::HashMap;
use vstd::prelude::*;

use crate::gpucmd::regs::{
    GPUREG_VSH_CODETRANSFER_CONFIG, GPUREG_VSH_CODETRANSFER_DATA, GPUREG_VSH_CODETRANSFER_END,
    GPUREG_VSH_OPDESCS_CONFIG, GPUREG_VSH_OPDESCS_DATA,
};
use crate::gpucmd::transfer::{transfer_words, Transfer};
use crate::gpucmd::{full_write, mask, spec_mask, GpuCmdByMut};

verus! {

broadcast use vstd::std_specs::hash::group_hash_axioms;

/// Component selectors of a source operand, x/y/z/w order, two bits each.
pub type Swizzle = (u8, u8, u8, u8);

/// The identity swizzle.
pub const S: Swizzle = (0, 1, 2, 3);

/// Why an operand could not be made.
#[derive(Clone, Copy, Debug, PartialEq, Eq, Structural)]
pub enum Error {
    NoSuchRegister,
}

pub open spec fn spec_swizzle(s: Swizzle) -> u64 {
    ((s.3 & 3) | ((s.2 & 3) << 2u8) | ((s.1 & 3) << 4u8) | ((s.0 & 3) << 6u8)) as u64
}

/// Packs a swizzle into eight bits: x in the top two, w in the bottom two.
pub fn swizzle_to_u64(s: Swizzle) -> (r: u64)
    ensures
        r == spec_swizzle(s),
{
    ((s.3 & 3) | ((s.2 & 3) << 2u8) | ((s.1 & 3) << 4u8) | ((s.0 & 3) << 6u8)) as u64
}

/// Destination write mask: x, y, z, w.
#[derive(Clone, Copy, Debug, PartialEq, Eq, Structural)]
pub struct Mask(pub bool, pub bool, pub bool, pub bool);

impl Mask {
    /// All four lanes.
    pub open spec fn spec_xyzw() -> Mask {
        Mask(true, true, true, true)
    }

    /// All four lanes.
    pub fn xyzw() -> (r: Mask)
        ensures
            r == Mask::spec_xyzw(),
    {
        Mask(true, true, true, true)
    }
}

/// An operand descriptor: destination mask, and sign and swizzle of up to
/// three sources.
#[derive(Clone, Copy, Debug, PartialEq, Eq)]
pub struct OpDesc {
    pub dest: Mask,
    pub source1_neg: bool,
    pub source1: Swizzle,
    pub source2_neg: bool,
    pub source2: Swizzle,
    pub source3_neg: bool,
    pub source3: Swizzle,
}

pub open spec fn flag(b: bool, v: u64) -> u64 {
    if b {
        v
    } else {
        0
    }
}

impl OpDesc {
    /// The descriptor as the hardware reads it: mask at bits 0..4 (x at bit
    /// 3), then sign and swizzle of source 1 at 4 and 5..13, of source 2 at
    /// 13 and 14..22, of source 3 at 22 and 23..31.
    pub open spec fn spec_bits(self) -> u64 {
        flag(self.dest.0, 0x8) | flag(self.dest.1, 0x4) | flag(self.dest.2, 0x2) | flag(
            self.dest.3,
            0x1,
        ) | flag(self.source1_neg, 0x10) | (spec_swizzle(self.source1) << 5u64) | flag(
            self.source2_neg,
            0x2000,
        ) | (spec_swizzle(self.source2) << 14u64) | flag(self.source3_neg, 0x40_0000) | (
        spec_swizzle(self.source3) << 23u64)
    }

    /// Packs the descriptor (see `spec_bits`).
    pub fn bits(self) -> (r: u64)
        ensures
            r == self.spec_bits(),
    {
        let d0: u64 = if self.dest.0 { 0x8 } else { 0 };
        let d1: u64 = if self.dest.1 { 0x4 } else { 0 };
        let d2: u64 = if self.dest.2 { 0x2 } else { 0 };
        let d3: u64 = if self.dest.3 { 0x1 } else { 0 };
        let n1: u64 = if self.source1_neg { 0x10 } else { 0 };
        let n2: u64 = if self.source2_neg { 0x2000 } else { 0 };
        let n3: u64 = if self.source3_neg { 0x40_0000 } else { 0 };
        d0 | d1 | d2 | d3 | n1 | (swizzle_to_u64(self.source1) << 5u64) | n2 | (swizzle_to_u64(
            self.source2,
        ) << 14u64) | n3 | (swizzle_to_u64(self.source3) << 23u64)
    }

    /// Full mask, no negation, identity swizzles.
    pub open spec fn spec_default() -> OpDesc {
        OpDesc {
            dest: Mask(true, true, true, true),
            source1_neg: false,
            source1: S,
            source2_neg: false,
            source2: S,
            source3_neg: false,
            source3: S,
        }
    }
}

impl Default for OpDesc {
    fn default() -> (r: OpDesc)
        ensures
            r == OpDesc::spec_default(),
    {
        OpDesc {
            dest: Mask(true, true, true, true),
            source1_neg: false,
            source1: S,
            source2_neg: false,
            source2: S,
            source3_neg: false,
            source3: S,
        }
    }
}

/// The index of `b` in a table that holds it.
pub open spec fn index_in(t: Seq<u64>, b: u64) -> int {
    choose|i: int| 0 <= i < t.len() && t[i] == b
}

/// No value stands twice in `t`.
pub open spec fn no_dups(t: Seq<u64>) -> bool {
    forall|i: int, j: int| 0 <= i < t.len() && 0 <= j < t.len() && t[i] == t[j] ==> i == j
}

/// Interning `b` into table `t`: the table afterwards and the index of `b` in it.
pub open spec fn intern(t: Seq<u64>, b: u64) -> (Seq<u64>, int) {
    if t.contains(b) {
        (t, index_in(t, b))
    } else {
        (t.push(b), t.len() as int)
    }
}

/// Interning keeps a table free of duplicates and yields the place of the value.
pub proof fn lemma_intern_sound(t: Seq<u64>, b: u64)
    requires
        no_dups(t),
    ensures
        no_dups(intern(t, b).0),
        0 <= intern(t, b).1 < intern(t, b).0.len(),
        intern(t, b).0[intern(t, b).1] == b,
        intern(t, b).0.subrange(0, t.len() as int) == t,
{
    if !t.contains(b) {
        assert(t.push(b).subrange(0, t.len() as int) == t);
    }
}

/// Interning the same descriptor value a second time yields the same index
/// and leaves the table as it was; the first time, the table grows by one
/// exactly when the value was not in it yet.
pub proof fn lemma_intern_twice(t: Seq<u64>, b: u64)
    requires
        no_dups(t),
    ensures
        intern(intern(t, b).0, b).1 == intern(t, b).1,
        intern(intern(t, b).0, b).0 == intern(t, b).0,
        intern(t, b).0.len() == t.len() + if t.contains(b) {
            0int
        } else {
            1int
        },
{
    lemma_intern_sound(t, b);
    let (t1, i1) = intern(t, b);
    assert(t1.contains(b)) by {
        assert(t1[i1] == b);
    }
    let i2 = index_in(t1, b);
    assert(0 <= i2 < t1.len() && t1[i2] == b);
}

/// An instruction program being assembled.
pub struct Builder {
    prog: Vec<u32>,
    opdesc: Vec<u64>,
    opdesc_map: HashMap<u64, u32>,
}

impl Builder {
    /// The instruction words so far.
    pub closed spec fn spec_prog(&self) -> Seq<u32> {
        self.prog@
    }

    /// The operand-descriptor table so far.
    pub closed spec fn spec_opdesc(&self) -> Seq<u64> {
        self.opdesc@
    }

    /// The lookup map and the table agree, and the table has no duplicates.
    pub closed spec fn wf(&self) -> bool {
        &&& self.opdesc@.len() <= u32::MAX
        &&& forall|k: u64|
            #[trigger] self.opdesc_map@.contains_key(k) ==> {
                &&& (self.opdesc_map@[k] as int) < self.opdesc@.len()
                &&& self.opdesc@[self.opdesc_map@[k] as int] == k
            }
        &&& forall|i: int|
            0 <= i < self.opdesc@.len() ==> {
                &&& self.opdesc_map@.contains_key(#[trigger] self.opdesc@[i])
                &&& self.opdesc_map@[self.opdesc@[i]] == i
            }
    }

    /// A well-formed builder has a table without duplicates.
    pub proof fn lemma_wf_no_dups(&self)
        requires
            self.wf(),
        ensures
            no_dups(self.spec_opdesc()),
    {
        assert forall|i: int, j: int|
            0 <= i < self.opdesc@.len() && 0 <= j < self.opdesc@.len() && self.opdesc@[i]
                == self.opdesc@[j] implies i == j by {
            assert(self.opdesc_map@[self.opdesc@[i]] == i);
            assert(self.opdesc_map@[self.opdesc@[j]] == j);
        }
    }

    /// An empty program.
    pub fn new() -> (r: Builder)
        ensures
            r.wf(),
            r.spec_prog() == Seq::<u32>::empty(),
            r.spec_opdesc() == Seq::<u64>::empty(),
    {
        Builder { prog: Vec::new(), opdesc: Vec::new(), opdesc_map: HashMap::new() }
    }

    /// The instruction words.
    pub fn prog(&self) -> (r: &Vec<u32>)
        ensures
            r@ == self.spec_prog(),
    {
        &self.prog
    }

    /// The operand-descriptor table.
    pub fn opdesc(&self) -> (r: &Vec<u64>)
        ensures
            r@ == self.spec_opdesc(),
    {
        &self.opdesc
    }

    /// Interns `opdesc`: an equal descriptor already in the table gives its
    /// index and changes nothing; otherwise it is appended, which needs room
    /// for one more `u32` index.
    pub fn add_opdesc(&mut self, opdesc: OpDesc) -> (r: u32)
        requires
            old(self).wf(),
            old(self).spec_opdesc().contains(opdesc.spec_bits()) || old(self).spec_opdesc().len()
                < u32::MAX,
        ensures
            final(self).wf(),
            final(self).spec_prog() == old(self).spec_prog(),
            (final(self).spec_opdesc(), r as int) == intern(
                old(self).spec_opdesc(),
                opdesc.spec_bits(),
            ),
    {
        let bits = opdesc.bits();
        proof {
            self.lemma_wf_no_dups();
        }
        match self.opdesc_map.get(&bits) {
            Some(x) => {
                let x = *x;
                assert(self.opdesc@.contains(bits)) by {
                    assert(self.opdesc@[x as int] == bits);
                }
                assert(index_in(self.opdesc@, bits) == x as int) by {
                    let c = index_in(self.opdesc@, bits);
                    assert(self.opdesc@[c] == bits);
                }
                x
            },
            None => {
                assert(!self.opdesc@.contains(bits)) by {
                    if self.opdesc@.contains(bits) {
                        let c = choose|c: int| 0 <= c < self.opdesc@.len() && self.opdesc@[c] == bits;
                        assert(self.opdesc_map@.contains_key(self.opdesc@[c]));
                    }
                }
                let current = self.opdesc.len() as u32;
                self.opdesc_map.insert(bits, current);
                self.opdesc.push(bits);
                assert forall|i: int| 0 <= i < self.opdesc@.len() implies {
                    &&& self.opdesc_map@.contains_key(#[trigger] self.opdesc@[i])
                    &&& self.opdesc_map@[self.opdesc@[i]] == i
                } by {
                    if i < current {
                        assert(self.opdesc@[i] != bits);
                    }
                }
                current
            },
        }
    }

    /// Appends one instruction (see `AddToBuilder`).
    pub fn add<T: AddToBuilder>(self, rhs: T) -> (r: Builder)
        requires
            self.wf(),
            self.spec_opdesc().len() < u32::MAX,
        ensures
            r.wf(),
            rhs.added(self, r),
    {
        rhs.add_to_builder(self)
    }

    /// Records in `label` the index of the next instruction.
    pub fn add_label(&self, label: &mut Label)
        requires
            self.spec_prog().len() <= u32::MAX,
        ensures
            final(label).0 == Some(self.spec_prog().len() as u32),
    {
        label.0 = Some(self.prog.len() as u32);
    }
}

/// An instruction index, once recorded.
pub struct Label(pub Option<u32>);

/// Marks an upload to the vertex-shader unit.
#[derive(Clone, Copy)]
pub struct VSH;

/// Marks an upload to the geometry-shader unit.
#[derive(Clone, Copy)]
pub struct GSH;

/// The descriptor table as 32-bit words, each descriptor as its low word
/// then its high word.
pub open spec fn opdesc_words(t: Seq<u64>) -> Seq<u32> {
    Seq::new(
        2 * t.len(),
        |k: int|
            if k % 2 == 0 {
                t[k / 2] as u32
            } else {
                (t[k / 2] >> 32u64) as u32
            },
    )
}

/// The upload of a vertex-shader program: code transfer, then the
/// descriptor words.
pub open spec fn program_upload(code: Seq<u32>, desc_words: Seq<u32>) -> Seq<u32> {
    seq![0u32, full_write(GPUREG_VSH_CODETRANSFER_CONFIG)] + transfer_words(
        GPUREG_VSH_CODETRANSFER_DATA | spec_mask(0xF),
        code,
    ) + seq![
        1u32,
        full_write(GPUREG_VSH_CODETRANSFER_END),
        0u32,
        full_write(GPUREG_VSH_OPDESCS_CONFIG),
    ] + transfer_words(GPUREG_VSH_OPDESCS_DATA | spec_mask(0xF), desc_words)
}

/// The upload of an assembled program, each descriptor as two words.
pub open spec fn vsh_upload(prog: Seq<u32>, table: Seq<u64>) -> Seq<u32> {
    program_upload(prog, opdesc_words(table))
}

/// Appends the upload of `code` and the descriptor words `desc_words` to
/// the vertex-shader unit.
pub fn upload_program(code: Vec<u32>, desc_words: Vec<u32>, buf: &mut Vec<u32>)
    ensures
        final(buf)@ == old(buf)@ + program_upload(code@, desc_words@),
{
    let ghost start = buf@;
    buf.push(0);
    buf.push(GPUREG_VSH_CODETRANSFER_CONFIG | mask(0xF));
    Transfer { reg: GPUREG_VSH_CODETRANSFER_DATA | mask(0xF), data: code }.cmd_by_mut(buf);
    buf.push(1);
    buf.push(GPUREG_VSH_CODETRANSFER_END | mask(0xF));
    buf.push(0);
    buf.push(GPUREG_VSH_OPDESCS_CONFIG | mask(0xF));
    Transfer { reg: GPUREG_VSH_OPDESCS_DATA | mask(0xF), data: desc_words }.cmd_by_mut(buf);
    assert(buf@ == start + program_upload(code@, desc_words@));
}

fn opdesc_to_words(t: &Vec<u64>) -> (r: Vec<u32>)
    ensures
        r@ == opdesc_words(t@),
{
    let mut r: Vec<u32> = Vec::new();
    let mut i: usize = 0;
    while i < t.len()
        invariant
            i <= t@.len(),
            r@ == opdesc_words(t@).subrange(0, 2 * i),
        decreases t@.len() - i,
    {
        r.push(t[i] as u32);
        r.push((t[i] >> 32u64) as u32);
        i = i + 1;
        assert(r@ =~= opdesc_words(t@).subrange(0, 2 * i));
    }
    assert(opdesc_words(t@).subrange(0, 2 * t@.len() as int) == opdesc_words(t@));
    r
}

impl GpuCmdByMut for (Builder, VSH) {
    open spec fn emitted(self) -> Seq<u32> {
        vsh_upload(self.0.spec_prog(), self.0.spec_opdesc())
    }

    fn cmd_by_mut(self, buf: &mut Vec<u32>) {
        let this = self.0;
        let words = opdesc_to_words(&this.opdesc);
        upload_program(this.prog, words, buf);
    }
}

/// Something that appends to a program.
pub trait AddToBuilder: Sized {
    /// `after` is `before` with this appended.
    spec fn added(self, before: Builder, after: Builder) -> bool;

    fn add_to_builder(self, b: Builder) -> (r: Builder)
        requires
            b.wf(),
            b.spec_opdesc().len() < u32::MAX,
        ensures
            r.wf(),
            self.added(b, r),
    ;
}

/// Output register `o0..o15`.
#[derive(Clone, Copy)]
pub struct OutReg {
    reg: u32,
}

/// Input register `v0..v15`.
#[derive(Clone, Copy)]
pub struct InReg {
    reg: u32,
}

/// Temporary register `r0..r15`.
#[derive(Clone, Copy)]
pub struct GeneralReg {
    reg: u32,
}

/// Uniform register `c0..c95`.
#[derive(Clone, Copy)]
pub struct UniformReg {
    reg: u32,
}

/// Integer uniform register `i0..i3`.
#[derive(Clone, Copy)]
pub struct IntReg {
    reg: u32,
}

/// Boolean uniform register `b0..b15`.
#[derive(Clone, Copy)]
pub struct BoolReg {
    reg: u32,
}

impl OutReg {
    #[verifier::type_invariant]
    spec fn inv(self) -> bool {
        self.reg < 16
    }

    pub closed spec fn index(self) -> u32 {
        self.reg
    }
}

impl InReg {
    #[verifier::type_invariant]
    spec fn inv(self) -> bool {
        self.reg < 16
    }

    pub closed spec fn index(self) -> u32 {
        self.reg
    }
}

impl GeneralReg {
    #[verifier::type_invariant]
    spec fn inv(self) -> bool {
        self.reg < 16
    }

    pub closed spec fn index(self) -> u32 {
        self.reg
    }
}

impl UniformReg {
    #[verifier::type_invariant]
    spec fn inv(self) -> bool {
        self.reg < 96
    }

    pub closed spec fn index(self) -> u32 {
        self.reg
    }
}

impl IntReg {
    #[verifier::type_invariant]
    spec fn inv(self) -> bool {
        self.reg < 4
    }

    pub closed spec fn index(self) -> u32 {
        self.reg
    }
}

impl BoolReg {
    #[verifier::type_invariant]
    spec fn inv(self) -> bool {
        self.reg < 16
    }

    pub closed spec fn index(self) -> u32 {
        self.reg
    }
}

/// Output register `reg`, which must be below 16.
pub fn o(reg: u32) -> (r: Result<OutReg, Error>)
    ensures
        r is Ok <==> reg < 16,
        r matches Ok(x) ==> x.index() == reg,
        r matches Err(e) ==> e is NoSuchRegister,
{
    if reg < 0x10 {
        Ok(OutReg { reg })
    } else {
        Err(Error::NoSuchRegister)
    }
}

/// Input register `reg`, which must be below 16.
pub fn v(reg: u32) -> (r: Result<InReg, Error>)
    ensures
        r is Ok <==> reg < 16,
        r matches Ok(x) ==> x.index() == reg,
        r matches Err(e) ==> e is NoSuchRegister,
{
    if reg < 0x10 {
        Ok(InReg { reg })
    } else {
        Err(Error::NoSuchRegister)
    }
}

/// Temporary register `reg`, which must be below 16.
pub fn r(reg: u32) -> (r: Result<GeneralReg, Error>)
    ensures
        r is Ok <==> reg < 16,
        r matches Ok(x) ==> x.index() == reg,
        r matches Err(e) ==> e is NoSuchRegister,
{
    if reg < 0x10 {
        Ok(GeneralReg { reg })
    } else {
        Err(Error::NoSuchRegister)
    }
}

/// Uniform register `reg`, which must be below 96.
pub fn c(reg: u32) -> (r: Result<UniformReg, Error>)
    ensures
        r is Ok <==> reg < 96,
        r matches Ok(x) ==> x.index() == reg,
        r matches Err(e) ==> e is NoSuchRegister,
{
    if reg < 96 {
        Ok(UniformReg { reg })
    } else {
        Err(Error::NoSuchRegister)
    }
}

/// Integer uniform register `reg`, which must be below 4.
pub fn i(reg: u32) -> (r: Result<IntReg, Error>)
    ensures
        r is Ok <==> reg < 4,
        r matches Ok(x) ==> x.index() == reg,
        r matches Err(e) ==> e is NoSuchRegister,
{
    if reg < 4 {
        Ok(IntReg { reg })
    } else {
        Err(Error::NoSuchRegister)
    }
}

/// Boolean uniform register `reg`, which must be below 16.
pub fn b(reg: u32) -> (r: Result<BoolReg, Error>)
    ensures
        r is Ok <==> reg < 16,
        r matches Ok(x) ==> x.index() == reg,
        r matches Err(e) ==> e is NoSuchRegister,
{
    if reg < 0x10 {
        Ok(BoolReg { reg })
    } else {
        Err(Error::NoSuchRegister)
    }
}

/// A destination operand: register number in the instruction encoding
/// (outputs 0..16, temporaries 16..32) and write mask.
#[derive(Clone, Copy)]
pub struct DstReg {
    reg: u32,
    mask: Mask,
}

/// A source operand with the wide (7-bit) register field: inputs 0..16,
/// temporaries 16..32, uniforms 32..128.
#[derive(Clone, Copy)]
pub struct SrcRegLong {
    reg: u32,
    neg: bool,
    swizzle: Swizzle,
}

/// A source operand with the narrow (5-bit) register field: inputs 0..16,
/// temporaries 16..32.
#[derive(Clone, Copy)]
pub struct SrcRegShort {
    reg: u32,
    neg: bool,
    swizzle: Swizzle,
}

impl DstReg {
    pub closed spec fn spec_reg(self) -> u32 {
        self.reg
    }

    pub closed spec fn spec_mask(self) -> Mask {
        self.mask
    }

    /// Writes the lanes of `mask` of output register `o`.
    pub fn out(o: OutReg, mask: Mask) -> (r: DstReg)
        ensures
            r.spec_reg() == o.index(),
            r.spec_mask() == mask,
    {
        DstReg { reg: o.reg, mask }
    }

    /// Writes the lanes of `mask` of temporary register `g`.
    pub fn general(g: GeneralReg, mask: Mask) -> (r: DstReg)
        ensures
            r.spec_reg() == g.index() + 0x10,
            r.spec_mask() == mask,
    {
        proof {
            use_type_invariant(g);
        }
        DstReg { reg: g.reg + 0x10, mask }
    }
}

impl SrcRegLong {
    pub closed spec fn spec_reg(self) -> u32 {
        self.reg
    }

    pub closed spec fn spec_neg(self) -> bool {
        self.neg
    }

    pub closed spec fn spec_swizzle(self) -> Swizzle {
        self.swizzle
    }

    /// Reads input register `v`.
    pub fn input(v: InReg, neg: bool, swizzle: Swizzle) -> (r: SrcRegLong)
        ensures
            r.spec_reg() == v.index(),
            r.spec_neg() == neg,
            r.spec_swizzle() == swizzle,
    {
        SrcRegLong { reg: v.reg, neg, swizzle }
    }

    /// Reads temporary register `g`.
    pub fn general(g: GeneralReg, neg: bool, swizzle: Swizzle) -> (r: SrcRegLong)
        ensures
            r.spec_reg() == g.index() + 0x10,
            r.spec_neg() == neg,
            r.spec_swizzle() == swizzle,
    {
        proof {
            use_type_invariant(g);
        }
        SrcRegLong { reg: g.reg + 0x10, neg, swizzle }
    }

    /// Reads uniform register `u`.
    pub fn uniform(u: UniformReg, neg: bool, swizzle: Swizzle) -> (r: SrcRegLong)
        ensures
            r.spec_reg() == u.index() + 0x20,
            r.spec_neg() == neg,
            r.spec_swizzle() == swizzle,
    {
        proof {
            use_type_invariant(u);
        }
        SrcRegLong { reg: u.reg + 0x20, neg, swizzle }
    }
}

impl SrcRegShort {
    pub closed spec fn spec_reg(self) -> u32 {
        self.reg
    }

    pub closed spec fn spec_neg(self) -> bool {
        self.neg
    }

    pub closed spec fn spec_swizzle(self) -> Swizzle {
        self.swizzle
    }

    /// Reads input register `v`.
    pub fn input(v: InReg, neg: bool, swizzle: Swizzle) -> (r: SrcRegShort)
        ensures
            r.spec_reg() == v.index(),
            r.spec_neg() == neg,
            r.spec_swizzle() == swizzle,
    {
        SrcRegShort { reg: v.reg, neg, swizzle }
    }

    /// Reads temporary register `g`.
    pub fn general(g: GeneralReg, neg: bool, swizzle: Swizzle) -> (r: SrcRegShort)
        ensures
            r.spec_reg() == g.index() + 0x10,
            r.spec_neg() == neg,
            r.spec_swizzle() == swizzle,
    {
        proof {
            use_type_invariant(g);
        }
        SrcRegShort { reg: g.reg + 0x10, neg, swizzle }
    }
}

/// Address-register offset applied to the first source.
#[derive(Clone, Copy, PartialEq, Eq, Structural, Debug)]
pub enum Addr {
    /// No offset.
    Direct,
    X,
    Y,
    Loop,
}

impl Addr {
    pub open spec fn spec_code(self) -> u32 {
        match self {
            Addr::Direct => 0,
            Addr::X => 1,
            Addr::Y => 2,
            Addr::Loop => 3,
        }
    }

    /// The two-bit field value.
    pub fn code(self) -> (r: u32)
        ensures
            r == self.spec_code(),
    {
        match self {
            Addr::Direct => 0,
            Addr::X => 1,
            Addr::Y => 2,
            Addr::Loop => 3,
        }
    }
}

/// An instruction with one wide source operand and a destination (format 1u).
#[derive(Clone, Copy)]
pub struct Format1u {
    pub source1: SrcRegLong,
    pub source1_addr: Addr,
    pub dest: DstReg,
    pub opcode: u32,
}

/// The word of a format-1u instruction:
/// `opcode<<26 | dest<<21 | addr<<19 | source<<7 | descriptor index`.
pub open spec fn format1u_word(opcode: u32, dest: u32, addr: u32, source: u32, desc: u32) -> u32 {
    desc | (source << 7u32) | (addr << 19u32) | (dest << 21u32) | (opcode << 26u32)
}

impl Format1u {
    pub fn new(opcode: u32, dest: DstReg, source1: SrcRegLong) -> (r: Format1u)
        ensures
            r == (Format1u { source1, source1_addr: Addr::Direct, dest, opcode }),
    {
        Format1u { opcode, dest, source1, source1_addr: Addr::Direct }
    }

    /// Offsets the source by an address register.
    pub fn with_addr(self, addr: Addr) -> (r: Format1u)
        ensures
            r == (Format1u { source1_addr: addr, ..self }),
    {
        Format1u { source1_addr: addr, ..self }
    }

    /// The descriptor of the instruction: its destination mask and the sign
    /// and swizzle of its source, the rest as in the default.
    pub open spec fn spec_opdesc(self) -> OpDesc {
        OpDesc {
            dest: self.dest.spec_mask(),
            source1_neg: self.source1.spec_neg(),
            source1: self.source1.spec_swizzle(),
            ..OpDesc::spec_default()
        }
    }
}

impl AddToBuilder for Format1u {
    /// The descriptor is interned and one instruction word appended.
    open spec fn added(self, before: Builder, after: Builder) -> bool {
        let (t, idx) = intern(before.spec_opdesc(), self.spec_opdesc().spec_bits());
        &&& after.spec_opdesc() == t
        &&& after.spec_prog() == before.spec_prog().push(
            format1u_word(
                self.opcode,
                self.dest.spec_reg(),
                self.source1_addr.spec_code(),
                self.source1.spec_reg(),
                idx as u32,
            ),
        )
    }

    fn add_to_builder(self, b: Builder) -> (r: Builder) {
        let mut b = b;
        let opdesc = OpDesc {
            dest: self.dest.mask,
            source1_neg: self.source1.neg,
            source1: self.source1.swizzle,
            source2_neg: false,
            source2: S,
            source3_neg: false,
            source3: S,
        };
        let idx = b.add_opdesc(opdesc);
        let word = idx | (self.source1.reg << 7u32) | (self.source1_addr.code() << 19u32) | (
        self.dest.reg << 21u32) | (self.opcode << 26u32);
        b.prog.push(word);
        b
    }
}

/// `mov dst, src`.
pub fn mov(dst: DstReg, src: SrcRegLong) -> (r: Format1u)
    ensures
        r == (Format1u { source1: src, source1_addr: Addr::Direct, dest: dst, opcode: 0x13 }),
{
    Format1u::new(0x13, dst, src)
}

/// An instruction without operands (format 0).
#[derive(Clone, Copy)]
pub struct Format0 {
    pub opcode: u32,
}

impl AddToBuilder for Format0 {
    /// One instruction word `opcode<<26` is appended.
    open spec fn added(self, before: Builder, after: Builder) -> bool {
        &&& after.spec_opdesc() == before.spec_opdesc()
        &&& after.spec_prog() == before.spec_prog().push(self.opcode << 26u32)
    }

    fn add_to_builder(self, b: Builder) -> (r: Builder) {
        let mut b = b;
        b.prog.push(self.opcode << 26u32);
        b
    }
}

/// `end`.
pub fn end() -> (r: Format0)
    ensures
        r.opcode == 0x22,
{
    Format0 { opcode: 0x22 }
}

#[verifier::external_type_specification]
#[verifier::external_body]
#[verifier::reject_recursive_types(T)]
pub struct ExNoHashHasher<T>(nohash::NoHashHasher<T>);

#[verifier::external_type_specification]
#[verifier::external_body]
#[verifier::reject_recursive_types(H)]
pub struct ExBuildHasherDefault<H>(std::hash::BuildHasherDefault<H>);

/// Four single-precision floats, as their bits.
pub type Vec4Bits = [u32; 4];

/// Constant data by uniform register.
pub type ConstMap = nohash::IntMap<u32, Vec4Bits>;

/// Relies on `HashMap::default` (with nohash's hasher builder): the map is empty.
#[verifier::external_body]
fn const_map_new() -> (r: ConstMap)
    ensures
        r@.dom() == Set::<u32>::empty(),
{
    ConstMap::default()
}

/// Relies on `HashMap::insert` (keys hashed by nohash's identity hasher):
/// afterwards `k` maps to `v` and every other key is as before.
#[verifier::external_body]
fn const_map_insert(m: &mut ConstMap, k: u32, v: Vec4Bits)
    ensures
        final(m)@ == old(m)@.insert(k, v),
{
    m.insert(k, v);
}

/// Relies on `HashMap::get` (keys hashed by nohash's identity hasher): the
/// value under `k`, if any.
#[verifier::external_body]
fn const_map_get(m: &ConstMap, k: u32) -> (r: Option<Vec4Bits>)
    ensures
        r is Some <==> m@.contains_key(k),
        r matches Some(v) ==> v == m@[k],
{
    m.get(&k).copied()
}

/// Hands out uniform registers in order and keeps the constants that fill
/// some of them.
pub struct UniformAllocator {
    /// Constant data by register, as the bits of four single-precision
    /// floats in w, z, y, x order.
    pub consts: ConstMap,
    /// Registers handed out so far.
    pub n_allocated: u32,
}

impl UniformAllocator {
    pub fn new() -> (r: UniformAllocator)
        ensures
            r.consts@ == Map::<u32, Vec4Bits>::empty(),
            r.n_allocated == 0,
    {
        UniformAllocator { consts: const_map_new(), n_allocated: 0 }
    }

    /// The next register, filled with `data`; `NoSuchRegister` once all 96
    /// are handed out, and then nothing changes.
    pub fn add_const(&mut self, data: Vec4Bits) -> (r: Result<UniformReg, Error>)
        ensures
            r is Ok <==> old(self).n_allocated < 96,
            r matches Ok(u) ==> {
                &&& u.index() == old(self).n_allocated
                &&& final(self).n_allocated == old(self).n_allocated + 1
                &&& final(self).consts@ == old(self).consts@.insert(old(self).n_allocated, data)
            },
            r matches Err(e) ==> e is NoSuchRegister && final(self).n_allocated == old(
                self,
            ).n_allocated && final(self).consts@ == old(self).consts@,
    {
        let next = self.n_allocated;
        let the_reg = c(next)?;
        const_map_insert(&mut self.consts, next, data);
        self.n_allocated = next + 1;
        Ok(the_reg)
    }

    /// The next register, for a uniform the application sets; `NoSuchRegister`
    /// once all 96 are handed out.
    pub fn add_uniform(&mut self) -> (r: Result<UniformReg, Error>)
        ensures
            r is Ok <==> old(self).n_allocated < 96,
            r matches Ok(u) ==> u.index() == old(self).n_allocated && final(self).n_allocated
                == old(self).n_allocated + 1,
            r is Err ==> final(self).n_allocated == old(self).n_allocated,
            final(self).consts@ == old(self).consts@,
    {
        let next = self.n_allocated;
        let the_reg = c(next)?;
        self.n_allocated = next + 1;
        Ok(the_reg)
    }

    /// The constant in register `reg`, if one was added.
    pub fn constant(&self, reg: u32) -> (r: Option<Vec4Bits>)
        ensures
            r is Some <==> self.consts@.contains_key(reg),
            r matches Some(v) ==> v == self.consts@[reg],
    {
        const_map_get(&self.consts, reg)
    }
}

} // verus!
