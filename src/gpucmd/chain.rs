//! Incremental writes: one header for a run of writes to consecutive
//! registers, followed by the payload words.
use vstd::prelude::*;

use super::{
    append_words, extra_params, mask, spec_extra_params, spec_mask, single_write, GpuCmd,
    GpuCmdByMut, CONSECUTIVE_WRITING,
};

verus! {

/// Most members a chain can have: the first plus 255 extra parameters.
pub const MAX_CHAIN: usize = 256;

/// Register identifiers have 12 significant bits.
pub const REG_LIMIT: u32 = 0x1000;

/// A single-word register write that can stand in a chain.
pub trait Chainable: Sized {
    spec fn spec_reg(&self) -> u32;

    spec fn spec_param(&self) -> u32;

    fn reg(&self) -> (r: u32)
        ensures
            r == self.spec_reg(),
            r < REG_LIMIT,
    ;

    fn param(self) -> (r: u32)
        ensures
            r == self.spec_param(),
    ;
}

impl<T: Chainable> GpuCmd for T {
    open spec fn words(self) -> Seq<u32> {
        single_write(self.spec_reg(), self.spec_param())
    }

    fn cmd(self) -> (r: Vec<u32>) {
        let reg = self.reg();
        let param = self.param();
        let mut v: Vec<u32> = Vec::new();
        v.push(param);
        v.push(reg | mask(0xF));
        v
    }
}

/// Why a member could not join a chain.
#[derive(Clone, Copy, Debug, PartialEq, Eq, Structural)]
pub enum ChainError {
    /// The member does not write the register right after the chain's last one.
    NotConsecutive,
    /// The chain already has 256 members.
    TooLong,
}

/// The header of a chain of `n` members that starts at register `reg`.
pub open spec fn chain_header(reg: u32, n: nat) -> u32 {
    if n > 1 {
        reg | spec_mask(0xF) | spec_extra_params((n - 1) as u32) | CONSECUTIVE_WRITING
    } else {
        reg | spec_mask(0xF)
    }
}

/// A chain: the first payload, the header, the other payloads, and a zero
/// word when the count of other payloads is odd.
pub open spec fn chain_words(reg: u32, params: Seq<u32>) -> Seq<u32> {
    seq![params[0], chain_header(reg, params.len())] + params.skip(1) + if (params.len() - 1) % 2
        == 1 {
        seq![0u32]
    } else {
        Seq::empty()
    }
}

/// Starts chains.
#[derive(Clone, Copy)]
pub struct Chain;

/// A chain of one member.
#[derive(Clone, Copy)]
pub struct ChainOne {
    reg: u32,
    param: u32,
}

/// A chain of two to 256 members.
pub struct ChainMore {
    reg: u32,
    params: Vec<u32>,
}

impl Chain {
    /// A chain whose first member is `first`.
    pub fn start<T: Chainable>(first: T) -> (r: ChainOne)
        ensures
            r.spec_reg() == first.spec_reg(),
            r.spec_reg() < REG_LIMIT,
            r.spec_param() == first.spec_param(),
    {
        let reg = first.reg();
        ChainOne { reg, param: first.param() }
    }
}

impl ChainOne {
    #[verifier::type_invariant]
    spec fn inv(self) -> bool {
        self.reg < REG_LIMIT
    }

    /// The register of the member.
    pub closed spec fn spec_reg(self) -> u32 {
        self.reg
    }

    /// The payload of the member.
    pub closed spec fn spec_param(self) -> u32 {
        self.param
    }

    /// Adds `next`, which must write register `reg + 1`.
    pub fn link<T: Chainable>(self, next: T) -> (r: Result<ChainMore, ChainError>)
        ensures
            r is Ok <==> next.spec_reg() == self.spec_reg() + 1,
            r matches Ok(c) ==> c.spec_reg() == self.spec_reg() && c.spec_reg() < REG_LIMIT
                && c.spec_params() == seq![self.spec_param(), next.spec_param()],
            r matches Err(e) ==> e is NotConsecutive,
    {
        proof {
            use_type_invariant(&self);
        }
        let reg = next.reg();
        if reg as u64 != self.reg as u64 + 1 {
            return Err(ChainError::NotConsecutive);
        }
        let mut params: Vec<u32> = Vec::new();
        params.push(self.param);
        params.push(next.param());
        Ok(ChainMore { reg: self.reg, params })
    }
}

impl GpuCmdByMut for ChainOne {
    open spec fn emitted(self) -> Seq<u32> {
        chain_words(self.spec_reg(), seq![self.spec_param()])
    }

    fn cmd_by_mut(self, buf: &mut Vec<u32>) {
        buf.push(self.param);
        buf.push(self.reg | mask(0xF));
        assert(seq![self.param].skip(1) == Seq::<u32>::empty());
    }
}

impl ChainMore {
    #[verifier::type_invariant]
    spec fn inv(self) -> bool {
        &&& 2 <= self.params@.len() <= MAX_CHAIN
        &&& self.reg < REG_LIMIT
    }

    /// The register of the first member.
    pub closed spec fn spec_reg(self) -> u32 {
        self.reg
    }

    /// The payloads of the members, in order.
    pub closed spec fn spec_params(self) -> Seq<u32> {
        self.params@
    }

    /// Adds `next`, which must write the register after the chain's last one,
    /// while the chain has fewer than 256 members.
    pub fn link<T: Chainable>(self, next: T) -> (r: Result<ChainMore, ChainError>)
        ensures
            r is Ok <==> (self.spec_params().len() < MAX_CHAIN && next.spec_reg()
                == self.spec_reg() + self.spec_params().len()),
            r matches Ok(c) ==> c.spec_reg() == self.spec_reg() && c.spec_reg() < REG_LIMIT
                && c.spec_params() == self.spec_params().push(next.spec_param()),
            r matches Err(e) ==> (e is TooLong <==> self.spec_params().len() >= MAX_CHAIN),
    {
        proof {
            use_type_invariant(&self);
        }
        let n = self.params.len();
        if n >= MAX_CHAIN {
            return Err(ChainError::TooLong);
        }
        let reg = next.reg();
        if reg as u64 != self.reg as u64 + n as u64 {
            return Err(ChainError::NotConsecutive);
        }
        let mut params = self.params;
        params.push(next.param());
        Ok(ChainMore { reg: self.reg, params })
    }
}

impl GpuCmdByMut for ChainMore {
    open spec fn emitted(self) -> Seq<u32> {
        chain_words(self.spec_reg(), self.spec_params())
    }

    fn cmd_by_mut(self, buf: &mut Vec<u32>) {
        proof {
            use_type_invariant(&self);
        }
        let n = self.params.len();
        buf.push(self.params[0]);
        buf.push(self.reg | mask(0xF) | extra_params((n - 1) as u32) | CONSECUTIVE_WRITING);
        let rest = vstd::slice::slice_subrange(self.params.as_slice(), 1, n);
        append_words(buf, rest);
        if (n - 1) % 2 == 1 {
            buf.push(0);
        }
    }
}

/// A chain of `n` members takes an even number of words: `n` payloads, one
/// header and a pad word exactly when `n - 1` is odd. For `n > 1` the header
/// carries `n - 1` extra parameters and the consecutive-writing bit.
pub proof fn lemma_chain_layout(reg: u32, params: Seq<u32>)
    requires
        1 <= params.len() <= MAX_CHAIN,
        reg < 0x1_0000,
    ensures
        chain_words(reg, params).len() % 2 == 0,
        chain_words(reg, params).len() == params.len() + 1 + (params.len() - 1) % 2,
        chain_words(reg, params)[0] == params[0],
        chain_words(reg, params).subrange(2, params.len() + 1int) == params.skip(1),
        params.len() > 1 ==> (chain_words(reg, params)[1] >> 20u32) & 0xFF == params.len() - 1,
        params.len() > 1 ==> chain_words(reg, params)[1] & CONSECUTIVE_WRITING != 0,
        (chain_words(reg, params)[1] & 0xFFFF) == reg,
        (chain_words(reg, params)[1] >> 16u32) & 0xF == 0xF,
{
    let n = params.len();
    let e = (n - 1) as u32;
    let h = chain_header(reg, n);
    assert(e <= 255);
    if n > 1 {
        assert((((reg | ((0xFu32 & 0xF) << 16u32) | ((e & 0xFF) << 20u32) | 0x8000_0000u32) >> 20u32)
            & 0xFF) == e) by (bit_vector)
            requires
                e <= 255,
                reg < 0x1_0000,
        ;
        assert(((reg | ((0xFu32 & 0xF) << 16u32) | ((e & 0xFF) << 20u32) | 0x8000_0000u32)
            & 0x8000_0000u32) != 0) by (bit_vector);
        assert(((reg | ((0xFu32 & 0xF) << 16u32) | ((e & 0xFF) << 20u32) | 0x8000_0000u32)
            & 0xFFFF) == reg) by (bit_vector)
            requires
                reg < 0x1_0000,
        ;
        assert((((reg | ((0xFu32 & 0xF) << 16u32) | ((e & 0xFF) << 20u32) | 0x8000_0000u32)
            >> 16u32) & 0xF) == 0xF) by (bit_vector);
    } else {
        assert(((reg | ((0xFu32 & 0xF) << 16u32)) & 0xFFFF) == reg) by (bit_vector)
            requires
                reg < 0x1_0000,
        ;
        assert((((reg | ((0xFu32 & 0xF) << 16u32)) >> 16u32) & 0xF) == 0xF) by (bit_vector);
    }
    assert(chain_words(reg, params).subrange(2, n + 1int) == params.skip(1));
}

/// Three single-word writes to consecutive registers from `reg` make one
/// header with two extra parameters and the consecutive-writing bit,
/// followed by the three payloads and no pad word.
pub proof fn lemma_chain_of_three(reg: u32, a: u32, b: u32, c: u32)
    requires
        reg < REG_LIMIT,
    ensures
        chain_words(reg, seq![a, b, c]) == seq![
            a,
            reg | spec_mask(0xF) | spec_extra_params(2) | CONSECUTIVE_WRITING,
            b,
            c,
        ],
        (chain_words(reg, seq![a, b, c])[1] >> 20u32) & 0xFF == 2,
        chain_words(reg, seq![a, b, c])[1] >> 31u32 == 1,
        chain_words(reg, seq![a, b, c])[1] & 0xFFF == reg,
{
    let p = seq![a, b, c];
    assert(p.skip(1) == seq![b, c]);
    let h = reg | ((0xFu32 & 0xF) << 16u32) | ((2u32 & 0xFF) << 20u32) | 0x8000_0000u32;
    assert((h >> 20u32) & 0xFF == 2 && h >> 31u32 == 1 && h & 0xFFF == reg) by (bit_vector)
        requires
            reg < 0x1000,
            h == reg | ((0xFu32 & 0xF) << 16u32) | ((2u32 & 0xFF) << 20u32) | 0x8000_0000u32,
    ;
    assert(chain_words(reg, p) == seq![a, h, b, c]);
}

} // verus!
