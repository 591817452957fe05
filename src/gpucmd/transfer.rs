//! Bulk transfer of a word array to one register, in chunks of at most 256
//! words, each chunk under its own header.
use vstd::prelude::*;
use vstd::slice::slice_subrange;

use super::{append_words, extra_params, spec_extra_params, GpuCmdByMut};

verus! {

/// Largest number of words one header can carry: the first word plus 255 extra ones.
pub const CHUNK_WORDS: usize = 256;

/// A transfer of `data` to register `reg`. `reg` already holds the write mask
/// (and the consecutive-writing bit where wanted); the extra-parameter count
/// of each chunk is filled in here.
#[derive(Clone)]
pub struct Transfer {
    pub reg: u32,
    pub data: Vec<u32>,
}

/// One chunk `c` (1 to 256 words): its first word, the header, the other
/// words, and a zero word when the count of other words is odd, so that the
/// chunk takes an even number of words.
pub open spec fn chunk_words(reg: u32, c: Seq<u32>) -> Seq<u32> {
    seq![c[0], reg | spec_extra_params((c.len() - 1) as u32)] + c.skip(1) + if (c.len() - 1) % 2
        == 1 {
        seq![0u32]
    } else {
        Seq::empty()
    }
}

/// The size of the first chunk of `n` remaining words.
pub open spec fn chunk_len(n: nat) -> nat {
    if n < CHUNK_WORDS {
        n
    } else {
        CHUNK_WORDS as nat
    }
}

/// All chunks of `data`, in order.
pub open spec fn transfer_words(reg: u32, data: Seq<u32>) -> Seq<u32>
    decreases data.len(),
{
    if data.len() == 0 {
        Seq::empty()
    } else {
        let n = chunk_len(data.len()) as int;
        chunk_words(reg, data.take(n)) + transfer_words(reg, data.skip(n))
    }
}

impl GpuCmdByMut for Transfer {
    open spec fn emitted(self) -> Seq<u32> {
        transfer_words(self.reg, self.data@)
    }

    fn cmd_by_mut(self, buf: &mut Vec<u32>) {
        let data = self.data.as_slice();
        let len = data.len();
        let ghost start = buf@;
        let mut i: usize = 0;
        assert(data@.skip(0) == data@);
        while i < len
            invariant
                len == data@.len(),
                data@ == self.data@,
                i <= len,
                start + transfer_words(self.reg, data@) == buf@ + transfer_words(
                    self.reg,
                    data@.skip(i as int),
                ),
            decreases len - i,
        {
            let n: usize = if len - i < CHUNK_WORDS {
                len - i
            } else {
                CHUNK_WORDS
            };
            let ghost rest = data@.skip(i as int);
            let ghost before = buf@;
            buf.push(data[i]);
            buf.push(self.reg | extra_params((n - 1) as u32));
            append_words(buf, slice_subrange(data, i + 1, i + n));
            if (n - 1) % 2 == 1 {
                buf.push(0);
            }
            assert(rest.take(n as int).skip(1) == data@.subrange(i + 1, i + n));
            assert(rest.skip(n as int) == data@.skip(i + n));
            assert(buf@ == before + chunk_words(self.reg, rest.take(n as int)));
            i = i + n;
        }
        assert(data@.skip(len as int) == Seq::<u32>::empty());
    }
}

/// A chunk of `c.len()` words (1 to 256) takes an even number of words:
/// the chunk, its header, and a zero word exactly when `c.len() - 1` is odd.
/// Its header carries `c.len() - 1` extra parameters.
pub proof fn lemma_chunk_layout(reg: u32, c: Seq<u32>)
    requires
        1 <= c.len() <= CHUNK_WORDS,
        reg & 0x0FF0_0000 == 0,
    ensures
        chunk_words(reg, c).len() == c.len() + 1 + (c.len() - 1) % 2,
        chunk_words(reg, c).len() % 2 == 0,
        chunk_words(reg, c)[0] == c[0],
        (chunk_words(reg, c)[1] >> 20u32) & 0xFF == c.len() - 1,
        chunk_words(reg, c)[1] & !0x0FF0_0000u32 == reg,
        chunk_words(reg, c).subrange(2, c.len() + 1int) == c.skip(1),
{
    let e = (c.len() - 1) as u32;
    assert(((((reg | ((e & 0xFF) << 20u32)) >> 20u32) & 0xFF) == e) && ((reg | ((e & 0xFF)
        << 20u32)) & !0x0FF0_0000u32) == reg) by (bit_vector)
        requires
            e <= 255,
            reg & 0x0FF0_0000 == 0,
    ;
    assert(chunk_words(reg, c).subrange(2, c.len() + 1int) == c.skip(1));
}

/// A payload longer than 256 words starts with a full chunk of 256 words;
/// the rest is the transfer of what remains.
pub proof fn lemma_transfer_split(reg: u32, data: Seq<u32>)
    requires
        data.len() > CHUNK_WORDS,
    ensures
        transfer_words(reg, data) == chunk_words(reg, data.take(CHUNK_WORDS as int))
            + transfer_words(reg, data.skip(CHUNK_WORDS as int)),
{
}

/// A payload of 1 to 256 words is one chunk.
pub proof fn lemma_transfer_single(reg: u32, data: Seq<u32>)
    requires
        1 <= data.len() <= CHUNK_WORDS,
    ensures
        transfer_words(reg, data) == chunk_words(reg, data),
{
    assert(data.take(data.len() as int) == data);
    assert(data.skip(data.len() as int) == Seq::<u32>::empty());
    assert(transfer_words(reg, Seq::<u32>::empty()) == Seq::<u32>::empty());
    assert(chunk_words(reg, data) + Seq::<u32>::empty() == chunk_words(reg, data));
}

/// Every transfer takes an even number of words.
pub proof fn lemma_transfer_even(reg: u32, data: Seq<u32>)
    ensures
        transfer_words(reg, data).len() % 2 == 0,
    decreases data.len(),
{
    if data.len() > 0 {
        let n = chunk_len(data.len()) as int;
        lemma_transfer_even(reg, data.skip(n));
    }
}

/// A payload cut after a whole number of chunks is sent as the transfer of
/// the first part followed by the transfer of the rest.
pub proof fn lemma_transfer_append(reg: u32, a: Seq<u32>, b: Seq<u32>)
    requires
        a.len() % (CHUNK_WORDS as nat) == 0,
    ensures
        transfer_words(reg, a + b) == transfer_words(reg, a) + transfer_words(reg, b),
    decreases a.len(),
{
    let n = CHUNK_WORDS as int;
    if a.len() == 0 {
        assert(a + b == b);
        assert(transfer_words(reg, a) == Seq::<u32>::empty());
        assert(Seq::<u32>::empty() + transfer_words(reg, b) == transfer_words(reg, b));
    } else {
        assert((a + b).take(n) == a.take(n));
        assert((a + b).skip(n) == a.skip(n) + b);
        lemma_transfer_append(reg, a.skip(n), b);
    }
}

/// The end of chunk `k` of a payload of `len` words.
pub open spec fn chunk_end(len: int, k: int) -> int {
    if (CHUNK_WORDS as int) * (k + 1) < len {
        (CHUNK_WORDS as int) * (k + 1)
    } else {
        len
    }
}

/// Every chunk `k` of a payload (words `256k` up to the next 256 or the
/// end) is sent as `chunk_words`: its first word, a header with one extra
/// parameter per further word, those words, and a zero word exactly when
/// their count is odd (see `lemma_chunk_layout`); the chunks before it and
/// after it are sent before and after it.
pub proof fn lemma_transfer_at_chunk(reg: u32, data: Seq<u32>, k: int)
    requires
        0 <= k,
        (CHUNK_WORDS as int) * k < data.len(),
    ensures
        transfer_words(reg, data) == transfer_words(reg, data.take((CHUNK_WORDS as int) * k))
            + chunk_words(
            reg,
            data.subrange((CHUNK_WORDS as int) * k, chunk_end(data.len() as int, k)),
        ) + transfer_words(reg, data.skip(chunk_end(data.len() as int, k))),
{
    let s = (CHUNK_WORDS as int) * k;
    let e = chunk_end(data.len() as int, k);
    assert(data.take(s).len() % (CHUNK_WORDS as nat) == 0) by (nonlinear_arith)
        requires
            data.take(s).len() == s,
            s == 256 * k,
    ;
    assert(data == data.take(s) + data.skip(s));
    lemma_transfer_append(reg, data.take(s), data.skip(s));
    let rest = data.skip(s);
    assert(chunk_len(rest.len()) as int == e - s);
    assert(rest.take(e - s) == data.subrange(s, e));
    assert(rest.skip(e - s) == data.skip(e));
}

} // verus!
