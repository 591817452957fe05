//! A shader entry: its kind, geometry parameters, uniform symbols and the
//! output map that tells the rasterizer what each output register holds.
use vstd::prelude::*;

use super::{decode_utf8, spec_gsh_mode, utf8_decode, Error, Failure, GshMode, Kind};
use crate::gpucmd::regs::GPUREG_SH_OUTMAP_TOTAL;
use crate::gpucmd::chain::chain_words;
use crate::gpucmd::{spec_extra_params, spec_mask, CONSECUTIVE_WRITING};

verus! {

pub const RESULT_POSITION: u16 = 0;
pub const RESULT_NORMALQUAT: u16 = 1;
pub const RESULT_COLOR: u16 = 2;
pub const RESULT_TEXCOORD0: u16 = 3;
pub const RESULT_TEXCOORD0W: u16 = 4;
pub const RESULT_TEXCOORD1: u16 = 5;
pub const RESULT_TEXCOORD2: u16 = 6;
pub const RESULT_VIEW: u16 = 8;

/// Number of output-map registers (`GPUREG_SH_OUTMAP_O0..O6`).
pub const OUTMAP_REGS: u16 = 7;

/// The value of an output-map lane that no semantic has been written to.
pub const LANE_UNUSED: u32 = 0x1F;

/// Header of the output-map command group: `GPUREG_SH_OUTMAP_TOTAL`, then
/// seven consecutive writes to `O0..O6`.
pub const OUTMAP_HEADER: u32 = 0x807F_004F;

/// Parameters of a geometry-shader entry.
#[derive(Clone, Copy, Debug, PartialEq, Eq, Structural)]
pub struct DVLEGeom {
    pub mode: GshMode,
    pub fixed_vertex_start: u8,
    pub variable_vertex_num: u8,
    pub fixed_vertex_num: u8,
}

/// The registers a uniform occupies.
#[derive(Clone, Copy, Debug, PartialEq, Eq, Structural)]
pub struct UniformEntry {
    pub start_reg: u16,
    pub end_reg: u16,
}

/// A row of the output table.
#[derive(Clone, Copy, Debug, PartialEq, Eq, Structural)]
pub struct OutEntry {
    pub kind: u16,
    pub reg_id: u16,
    /// Bit `j` selects byte lane `j` of the output register.
    pub out_mask: u32,
}

/// What an output kind writes: the semantic code of its lanes, how many
/// lanes, the clock bits it enables and whether it needs texture-coordinate mode.
#[derive(Clone, Copy, Debug, PartialEq, Eq, Structural)]
pub struct Semantic {
    pub code: u32,
    pub count: u32,
    pub clock: u32,
    pub texcoord: bool,
}

/// The output map of an entry.
pub struct OutputMap {
    /// `[total, header, O0..O6, 0]`: a chained command group.
    pub cmd: Vec<u32>,
    /// The value for `GPUREG_SH_OUTATTR_MODE`.
    pub mode: u32,
    /// The value for `GPUREG_SH_OUTATTR_CLOCK`.
    pub clock: u32,
}

/// A parsed shader entry.
pub struct DVLE {
    pub kind: Kind,
    pub merge_outmaps: bool,
    pub main_offset: u32,
    pub main_end: u32,
    /// Set for a geometry shader.
    pub geom: Option<DVLEGeom>,
    /// The uniforms in table order, each under its name; a later row with a
    /// name already seen takes precedence in `uniform`.
    pub symbol_to_uniform: Vec<(String, UniformEntry)>,
    pub outmap: OutputMap,
}

pub open spec fn spec_semantic(kind: u16) -> Option<Semantic> {
    if kind == RESULT_POSITION {
        Some(Semantic { code: 0x00, count: 4, clock: 0, texcoord: false })
    } else if kind == RESULT_NORMALQUAT {
        Some(Semantic { code: 0x04, count: 4, clock: 0x0100_0000, texcoord: false })
    } else if kind == RESULT_COLOR {
        Some(Semantic { code: 0x08, count: 4, clock: 0x2, texcoord: false })
    } else if kind == RESULT_TEXCOORD0 {
        Some(Semantic { code: 0x0C, count: 2, clock: 0x100, texcoord: true })
    } else if kind == RESULT_TEXCOORD0W {
        Some(Semantic { code: 0x10, count: 1, clock: 0x1_0000, texcoord: true })
    } else if kind == RESULT_TEXCOORD1 {
        Some(Semantic { code: 0x0E, count: 2, clock: 0x200, texcoord: true })
    } else if kind == RESULT_TEXCOORD2 {
        Some(Semantic { code: 0x16, count: 2, clock: 0x400, texcoord: true })
    } else if kind == RESULT_VIEW {
        Some(Semantic { code: 0x12, count: 3, clock: 0x0100_0000, texcoord: false })
    } else {
        None
    }
}

/// The semantic of an output kind; unknown kinds have none.
pub fn semantic(kind: u16) -> (r: Option<Semantic>)
    ensures
        r == spec_semantic(kind),
{
    match kind {
        RESULT_POSITION => Some(Semantic { code: 0x00, count: 4, clock: 0, texcoord: false }),
        RESULT_NORMALQUAT => Some(
            Semantic { code: 0x04, count: 4, clock: 0x0100_0000, texcoord: false },
        ),
        RESULT_COLOR => Some(Semantic { code: 0x08, count: 4, clock: 0x2, texcoord: false }),
        RESULT_TEXCOORD0 => Some(Semantic { code: 0x0C, count: 2, clock: 0x100, texcoord: true }),
        RESULT_TEXCOORD0W => Some(
            Semantic { code: 0x10, count: 1, clock: 0x1_0000, texcoord: true },
        ),
        RESULT_TEXCOORD1 => Some(Semantic { code: 0x0E, count: 2, clock: 0x200, texcoord: true }),
        RESULT_TEXCOORD2 => Some(Semantic { code: 0x16, count: 2, clock: 0x400, texcoord: true }),
        RESULT_VIEW => Some(Semantic { code: 0x12, count: 3, clock: 0x0100_0000, texcoord: false }),
        _ => None,
    }
}

/// Byte lane `j` of `w`.
pub open spec fn lane(w: u32, j: u32) -> u32 {
    (w >> ((8 * j) as u32)) & 0xFF
}

/// `w` with byte lane `j` set to `v`.
pub open spec fn with_lane(w: u32, j: u32, v: u32) -> u32 {
    (w & !(0xFFu32 << ((8 * j) as u32))) | (v << ((8 * j) as u32))
}

/// Writes `code` into the lanes `j..4` of `w` that `mask` selects and that are
/// still unused, until `count` lanes in all (`k` so far) have been written.
/// Yields the new word and the number of lanes written.
pub open spec fn fill_lanes(w: u32, code: u32, mask: u32, count: u32, j: u32, k: u32) -> (u32, u32)
    decreases 4 - j,
{
    if j >= 4 || k >= count {
        (w, k)
    } else if mask & (1u32 << j) != 0 && lane(w, j) == LANE_UNUSED {
        fill_lanes(with_lane(w, j, code), code, mask, count, (j + 1) as u32, (k + 1) as u32)
    } else {
        fill_lanes(w, code, mask, count, (j + 1) as u32, k)
    }
}

/// The output map while its rows are taken in: the seven register words,
/// the set of registers touched (as bits), the mode and the clock.
pub struct OutmapAcc {
    pub regs: Seq<u32>,
    pub used: u32,
    pub mode: u32,
    pub clock: u32,
}

pub open spec fn outmap_init() -> OutmapAcc {
    OutmapAcc { regs: Seq::new(7, |i: int| 0x1F1F_1F1Fu32), used: 0, mode: 0, clock: 0 }
}

/// Takes in one row; a row of unknown kind is skipped, one of a known kind
/// that names a register past `O6` is refused.
pub open spec fn outmap_step(a: OutmapAcc, e: OutEntry) -> Option<OutmapAcc> {
    match spec_semantic(e.kind) {
        None => Some(a),
        Some(s) => if e.reg_id >= OUTMAP_REGS {
            None
        } else {
            let (w, k) = fill_lanes(a.regs[e.reg_id as int], s.code, e.out_mask, s.count, 0, 0);
            let pos = if e.kind == RESULT_POSITION && k >= 3 {
                1u32
            } else {
                0u32
            };
            Some(
                OutmapAcc {
                    regs: a.regs.update(e.reg_id as int, w),
                    used: a.used | (1u32 << (e.reg_id as u32)),
                    mode: if s.texcoord {
                        1
                    } else {
                        a.mode
                    },
                    clock: a.clock | s.clock | pos,
                },
            )
        },
    }
}

/// All rows taken in, in order.
pub open spec fn outmap_fold(es: Seq<OutEntry>) -> Option<OutmapAcc>
    decreases es.len(),
{
    if es.len() == 0 {
        Some(outmap_init())
    } else {
        match outmap_fold(es.drop_last()) {
            None => None,
            Some(a) => outmap_step(a, es.last()),
        }
    }
}

/// How many of the bits `0..n` of `used` are set.
pub open spec fn count_used(used: u32, n: u32) -> nat
    decreases n,
{
    if n == 0 {
        0
    } else {
        count_used(used, (n - 1) as u32) + if used & (1u32 << ((n - 1) as u32)) != 0 {
            1nat
        } else {
            0nat
        }
    }
}

/// The command group of a finished map: a chain of eight writes, the
/// register count to `GPUREG_SH_OUTMAP_TOTAL`, then `O0..O6`.
pub open spec fn outmap_words(a: OutmapAcc) -> Seq<u32> {
    chain_words(GPUREG_SH_OUTMAP_TOTAL, seq![count_used(a.used, 7) as u32] + a.regs)
}

proof fn lemma_fold_prefix_none(es: Seq<OutEntry>, n: int)
    requires
        0 <= n <= es.len(),
        outmap_fold(es.subrange(0, n)) is None,
    ensures
        outmap_fold(es) is None,
    decreases es.len() - n,
{
    if n < es.len() {
        assert(es.subrange(0, n + 1).drop_last() == es.subrange(0, n));
        lemma_fold_prefix_none(es, n + 1);
    } else {
        assert(es.subrange(0, n) == es);
    }
}

/// Writes `code` into the unused lanes of `w0` that `mask` selects, at most
/// `count` of them, lowest first; yields the word and the number written.
fn fill(w0: u32, code: u32, mask: u32, count: u32) -> (r: (u32, u32))
    requires
        count <= 4,
    ensures
        r == fill_lanes(w0, code, mask, count, 0, 0),
{
    let mut w = w0;
    let mut j: u32 = 0;
    let mut k: u32 = 0;
    while j < 4 && k < count
        invariant
            j <= 4,
            k <= j,
            count <= 4,
            fill_lanes(w0, code, mask, count, 0, 0) == fill_lanes(w, code, mask, count, j, k),
        decreases 4 - j,
    {
        let sh: u32 = 8 * j;
        if mask & (1u32 << j) != 0 && ((w >> sh) & 0xFF) == LANE_UNUSED {
            w = (w & !(0xFFu32 << sh)) | (code << sh);
            k = k + 1;
        }
        j = j + 1;
    }
    (w, k)
}

/// Builds the output map from the rows of the output table.
pub fn build_outmap(entries: &[OutEntry]) -> (r: Result<OutputMap, Error>)
    ensures
        r is Ok <==> outmap_fold(entries@) is Some,
        r matches Ok(m) ==> {
            let a = outmap_fold(entries@)->0;
            &&& m.cmd@ == outmap_words(a)
            &&& m.mode == a.mode
            &&& m.clock == a.clock
        },
        r matches Err(e) ==> e is BadOutputRegister,
{
    assert(OUTMAP_HEADER == GPUREG_SH_OUTMAP_TOTAL | spec_mask(0xF) | spec_extra_params(7)
        | CONSECUTIVE_WRITING) by (bit_vector);
    let mut regs: Vec<u32> = vec![0x1F1F_1F1Fu32; 7];
    let mut used: u32 = 0;
    let mut mode: u32 = 0;
    let mut clock: u32 = 0;
    let mut i: usize = 0;
    assert(entries@.subrange(0, 0).len() == 0);
    assert(regs@ =~= outmap_init().regs);
    while i < entries.len()
        invariant
            i <= entries@.len(),
            outmap_fold(entries@.subrange(0, i as int)) == Some(
                OutmapAcc { regs: regs@, used, mode, clock },
            ),
            regs@.len() == 7,
        decreases entries@.len() - i,
    {
        let e = entries[i];
        assert(entries@.subrange(0, i + 1).drop_last() == entries@.subrange(0, i as int));
        assert(entries@.subrange(0, i + 1).last() == e);
        match semantic(e.kind) {
            None => {},
            Some(s) => {
                if e.reg_id >= OUTMAP_REGS {
                    proof {
                        lemma_fold_prefix_none(entries@, i + 1);
                    }
                    return Err(Error::BadOutputRegister);
                }
                let r = e.reg_id as usize;
                let (w, k) = fill(regs[r], s.code, e.out_mask, s.count);
                regs.set(r, w);
                used = used | (1u32 << (e.reg_id as u32));
                if s.texcoord {
                    mode = 1;
                }
                let pos: u32 = if e.kind == RESULT_POSITION && k >= 3 {
                    1
                } else {
                    0
                };
                clock = clock | s.clock | pos;
            },
        }
        i = i + 1;
    }
    assert(entries@.subrange(0, entries@.len() as int) == entries@);
    let mut total: u32 = 0;
    let mut n: u32 = 0;
    while n < 7
        invariant
            n <= 7,
            total as nat == count_used(used, n),
            total <= n,
        decreases 7 - n,
    {
        if used & (1u32 << n) != 0 {
            total = total + 1;
        }
        n = n + 1;
    }
    let mut cmd: Vec<u32> = Vec::new();
    cmd.push(total);
    cmd.push(OUTMAP_HEADER);
    let mut q: usize = 0;
    while q < 7
        invariant
            q <= 7,
            regs@.len() == 7,
            cmd@ == seq![total, OUTMAP_HEADER] + regs@.subrange(0, q as int),
        decreases 7 - q,
    {
        cmd.push(regs[q]);
        q = q + 1;
        assert(regs@.subrange(0, q as int) == regs@.subrange(0, q - 1) + seq![regs@[q - 1]]);
    }
    cmd.push(0);
    assert(regs@.subrange(0, 7) == regs@);
    let ghost params = seq![total] + regs@;
    assert(params.skip(1) == regs@);
    assert(cmd@ == chain_words(GPUREG_SH_OUTMAP_TOTAL, params));
    Ok(OutputMap { cmd, mode, clock })
}


/// Word `i` of the entry read as a byte offset, turned into a word index.
pub open spec fn word_index(d: Seq<u32>, i: int) -> int {
    (d[i] as int) / 4
}

pub open spec fn spec_kind(d: Seq<u32>) -> Kind {
    if (d[1] >> 16u32) & 0xFF == 1 {
        Kind::Geometry
    } else {
        Kind::Vertex
    }
}

/// The geometry parameters (`None` inside for a vertex shader); `None` when
/// the mode code is unknown.
pub open spec fn spec_geom(d: Seq<u32>) -> Option<Option<DVLEGeom>> {
    if spec_kind(d) is Vertex {
        Some(None)
    } else {
        let g = d[5];
        match spec_gsh_mode(g & 0xFF) {
            None => None,
            Some(m) => Some(
                Some(
                    DVLEGeom {
                        mode: m,
                        fixed_vertex_start: ((g >> 8u32) & 0xFF) as u8,
                        variable_vertex_num: ((g >> 16u32) & 0xFF) as u8,
                        fixed_vertex_num: ((g >> 24u32) & 0xFF) as u8,
                    },
                ),
            ),
        }
    }
}

/// The table whose byte offset is word `at` and whose row count is word
/// `at + 1` lies inside the entry, with rows of `row` words.
pub open spec fn table_fits(d: Seq<u32>, at: int, row: int) -> bool {
    word_index(d, at) + d[at + 1] * row <= d.len()
}

/// The constant, output and uniform tables and the start of the symbol table
/// lie inside the entry.
pub open spec fn tables_fit(d: Seq<u32>) -> bool {
    &&& table_fits(d, 6, 5)
    &&& table_fits(d, 10, 2)
    &&& table_fits(d, 12, 2)
    &&& word_index(d, 14) <= d.len()
}

/// Row `i` of the output table.
pub open spec fn out_entry(d: Seq<u32>, i: int) -> OutEntry {
    let w = d[word_index(d, 10) + 2 * i];
    OutEntry {
        kind: (w & 0xFFFF) as u16,
        reg_id: (w >> 16u32) as u16,
        out_mask: d[word_index(d, 10) + 2 * i + 1],
    }
}

pub open spec fn out_entries(d: Seq<u32>) -> Seq<OutEntry> {
    Seq::new(d[11] as nat, |i: int| out_entry(d, i))
}

/// Word `w` (0 or 1) of row `i` of the uniform table.
pub open spec fn uniform_word(d: Seq<u32>, i: int, w: int) -> u32 {
    d[word_index(d, 12) + 2 * i + w]
}

pub open spec fn uniform_entry(d: Seq<u32>, i: int) -> UniformEntry {
    let w = uniform_word(d, i, 1);
    UniformEntry { start_reg: (w & 0xFFFF) as u16, end_reg: (w >> 16u32) as u16 }
}

/// Byte `k` of the little-endian words that start at index `base`.
pub open spec fn byte_at(d: Seq<u32>, base: int, k: int) -> u8 {
    ((d[base + k / 4] >> ((8 * (k % 4)) as u32)) & 0xFF) as u8
}

/// The bytes of the symbol table: everything from its start to the end of the entry.
pub open spec fn symbol_bytes(d: Seq<u32>) -> Seq<u8> {
    Seq::new(((d.len() - word_index(d, 14)) * 4) as nat, |k: int| byte_at(d, word_index(d, 14), k))
}

/// The index of the first zero byte of `b` at or after `o`.
pub open spec fn first_nul(b: Seq<u8>, o: int) -> Option<int>
    decreases b.len() - o,
{
    if o < 0 || o >= b.len() {
        None
    } else if b[o] == 0 {
        Some(o)
    } else {
        first_nul(b, o + 1)
    }
}

/// The NUL-terminated name of uniform `i`, if the terminator lies inside the entry.
pub open spec fn symbol_raw(d: Seq<u32>, i: int) -> Option<Seq<u8>> {
    let b = symbol_bytes(d);
    let o = uniform_word(d, i, 0) as int;
    match first_nul(b, o) {
        None => None,
        Some(e) => Some(b.subrange(o, e)),
    }
}

/// The decoded name of uniform `i`.
pub open spec fn symbol_name(d: Seq<u32>, i: int) -> Seq<char> {
    utf8_decode(symbol_raw(d, i)->0)->0
}

/// The first failure among the names of the first `n` uniforms.
pub open spec fn symbols_failure(d: Seq<u32>, n: int) -> Option<Failure>
    decreases n,
{
    if n <= 0 {
        None
    } else {
        match symbols_failure(d, n - 1) {
            Some(f) => Some(f),
            None => match symbol_raw(d, n - 1) {
                None => Some(Failure::Eof),
                Some(raw) => if utf8_decode(raw) is None {
                    Some(Failure::Utf8)
                } else {
                    None
                },
            },
        }
    }
}

/// Why the words `d` are no shader entry, checked in this order: the
/// first six header words, the geometry mode (word 5), the other header words, the tables, each uniform name in
/// turn, the output rows.
pub open spec fn dvle_failure(d: Seq<u32>) -> Option<Failure> {
    if d.len() < 6 {
        Some(Failure::Eof)
    } else if spec_geom(d) is None {
        Some(Failure::GshMode)
    } else if d.len() < 15 || !tables_fit(d) {
        Some(Failure::Eof)
    } else if symbols_failure(d, d[13] as int) is Some {
        symbols_failure(d, d[13] as int)
    } else if outmap_fold(out_entries(d)) is None {
        Some(Failure::OutputRegister)
    } else {
        None
    }
}

/// `v` is what the entry `d`, which has no failure, holds.
pub open spec fn dvle_value(d: Seq<u32>, v: DVLE) -> bool {
    let a = outmap_fold(out_entries(d))->0;
    &&& v.kind == spec_kind(d)
    &&& v.merge_outmaps == ((d[1] >> 24u32) & 1 == 1)
    &&& v.main_offset == d[2]
    &&& v.main_end == d[3]
    &&& spec_geom(d) == Some(v.geom)
    &&& v.symbol_to_uniform@.len() == d[13]
    &&& forall|i: int|
        0 <= i < d[13] ==> {
            &&& (#[trigger] v.symbol_to_uniform@[i]).0@ == symbol_name(d, i)
            &&& v.symbol_to_uniform@[i].1 == uniform_entry(d, i)
        }
    &&& v.outmap.cmd@ == outmap_words(a)
    &&& v.outmap.mode == a.mode
    &&& v.outmap.clock == a.clock
}

proof fn lemma_symbols_failure_stays(d: Seq<u32>, m: int, n: int)
    requires
        0 <= m <= n,
        symbols_failure(d, m) is Some,
    ensures
        symbols_failure(d, n) == symbols_failure(d, m),
    decreases n - m,
{
    if m < n {
        lemma_symbols_failure_stays(d, m, n - 1);
    }
}

/// Reads the NUL-terminated name that starts `o` bytes into the little-endian
/// words `data[base..]`; `None` when no terminator comes before the end.
fn read_name(data: &[u32], base: usize, o: u32) -> (r: Option<Vec<u8>>)
    requires
        base <= data@.len(),
    ensures
        ({
            let b = Seq::new(((data@.len() - base) * 4) as nat, |k: int| byte_at(data@, base as int, k));
            match first_nul(b, o as int) {
                None => r is None,
                Some(e) => r matches Some(n) && n@ == b.subrange(o as int, e),
            }
        }),
{
    let ghost b = Seq::new(((data@.len() - base) * 4) as nat, |k: int| byte_at(data@, base as int, k));
    let len = data.len();
    let skip = (o / 4) as usize;
    if skip >= len - base {
        assert(first_nul(b, o as int) is None);
        return None;
    }
    let mut wi: usize = base + skip;
    let mut bi: u32 = o % 4;
    let mut name: Vec<u8> = Vec::new();
    while wi < len
        invariant
            len == data@.len(),
            base <= wi <= len,
            bi < 4,
            o as int <= 4 * (wi - base) + bi,
            b == Seq::new(((data@.len() - base) * 4) as nat, |k: int| byte_at(data@, base as int, k)),
            first_nul(b, o as int) == first_nul(b, 4 * (wi - base) + bi),
            name@ == b.subrange(o as int, 4 * (wi - base) + bi),
            wi == len ==> bi == 0,
        decreases (len - wi) * 4 - bi,
    {
        let k: Ghost<int> = Ghost(4 * (wi - base) + bi);
        let byte = ((data[wi] >> (8 * bi)) & 0xFF) as u8;
        assert(k@ / 4 == wi - base && k@ % 4 == bi);
        assert(byte == b[k@]);
        if byte == 0 {
            return Some(name);
        }
        name.push(byte);
        assert(name@ =~= b.subrange(o as int, k@ + 1));
        if bi == 3 {
            bi = 0;
            wi = wi + 1;
        } else {
            bi = bi + 1;
        }
    }
    None
}

impl DVLE {
    /// Parses a shader entry from its words; offsets inside it are relative
    /// to its start. Never reads past the end: anything out of range is
    /// `UnexpectedEof`.
    pub fn parse_dvle(data: &[u32]) -> (r: Result<DVLE, Error>)
        ensures
            r is Ok <==> dvle_failure(data@) is None,
            r matches Err(e) ==> dvle_failure(data@) == Some(super::failure_of(e)),
            r matches Ok(v) ==> dvle_value(data@, v),
    {
        let len = data.len();
        if len < 6 {
            return Err(Error::UnexpectedEof);
        }
        let kind = if (data[1] >> 16) & 0xFF == 1 {
            Kind::Geometry
        } else {
            Kind::Vertex
        };
        let merge_outmaps = (data[1] >> 24) & 1 == 1;
        let geom = match kind {
            Kind::Vertex => None,
            Kind::Geometry => {
                let g = data[5];
                let mode = GshMode::try_from(g & 0xFF)?;
                Some(
                    DVLEGeom {
                        mode,
                        fixed_vertex_start: ((g >> 8) & 0xFF) as u8,
                        variable_vertex_num: ((g >> 16) & 0xFF) as u8,
                        fixed_vertex_num: ((g >> 24) & 0xFF) as u8,
                    },
                )
            },
        };
        if len < 15 {
            return Err(Error::UnexpectedEof);
        }
        if !fits(data, 6, 5) || !fits(data, 10, 2) || !fits(data, 12, 2) || (data[14] / 4) as usize > len {
            return Err(Error::UnexpectedEof);
        }
        let sym_base = (data[14] / 4) as usize;
        let uni_start = (data[12] / 4) as usize;
        let uni_count = data[13] as usize;
        let mut symbol_to_uniform: Vec<(String, UniformEntry)> = Vec::new();
        let mut i: usize = 0;
        while i < uni_count
            invariant
                len == data@.len(),
                len >= 15,
                tables_fit(data@),
                spec_geom(data@) == Some(geom),
                sym_base == word_index(data@, 14),
                uni_start == word_index(data@, 12),
                uni_count == data@[13],
                i <= uni_count,
                symbols_failure(data@, i as int) is None,
                symbol_to_uniform@.len() == i,
                forall|q: int|
                    0 <= q < i ==> {
                        &&& (#[trigger] symbol_to_uniform@[q]).0@ == symbol_name(data@, q)
                        &&& symbol_to_uniform@[q].1 == uniform_entry(data@, q)
                    },
            decreases uni_count - i,
        {
            let w0 = data[uni_start + 2 * i];
            let w1 = data[uni_start + 2 * i + 1];
            let raw = read_name(data, sym_base, w0);
            assert(w0 == uniform_word(data@, i as int, 0));
            assert(w1 == uniform_word(data@, i as int, 1));
            match raw {
                None => {
                    assert(symbol_raw(data@, i as int) is None);
                    assert(symbols_failure(data@, i + 1) == Some(Failure::Eof));
                    proof {
                        lemma_symbols_failure_stays(data@, i + 1, uni_count as int);
                    }
                    return Err(Error::UnexpectedEof);
                },
                Some(raw) => {
                    match decode_utf8(raw.as_slice()) {
                        Err(e) => {
                            assert(symbols_failure(data@, i + 1) == Some(Failure::Utf8));
                            proof {
                                lemma_symbols_failure_stays(data@, i + 1, uni_count as int);
                            }
                            return Err(Error::Utf8Error(e));
                        },
                        Ok(name) => {
                            let entry = UniformEntry {
                                start_reg: (w1 & 0xFFFF) as u16,
                                end_reg: (w1 >> 16) as u16,
                            };
                            symbol_to_uniform.push((name, entry));
                        },
                    }
                },
            }
            i = i + 1;
        }
        let out_start = (data[10] / 4) as usize;
        let out_count = data[11] as usize;
        let mut entries: Vec<OutEntry> = Vec::new();
        let mut q: usize = 0;
        while q < out_count
            invariant
                len == data@.len(),
                len >= 15,
                tables_fit(data@),
                spec_geom(data@) == Some(geom),
                symbols_failure(data@, data@[13] as int) is None,
                symbol_to_uniform@.len() == data@[13],
                forall|q: int|
                    0 <= q < data@[13] ==> {
                        &&& (#[trigger] symbol_to_uniform@[q]).0@ == symbol_name(data@, q)
                        &&& symbol_to_uniform@[q].1 == uniform_entry(data@, q)
                    },
                out_start == word_index(data@, 10),
                out_count == data@[11],
                q <= out_count,
                entries@ == out_entries(data@).subrange(0, q as int),
            decreases out_count - q,
        {
            let w = data[out_start + 2 * q];
            entries.push(
                OutEntry {
                    kind: (w & 0xFFFF) as u16,
                    reg_id: (w >> 16) as u16,
                    out_mask: data[out_start + 2 * q + 1],
                },
            );
            q = q + 1;
            assert(entries@ =~= out_entries(data@).subrange(0, q as int));
        }
        assert(entries@ =~= out_entries(data@));
        let outmap = build_outmap(entries.as_slice())?;
        Ok(
            DVLE {
                kind,
                merge_outmaps,
                main_offset: data[2],
                main_end: data[3],
                geom,
                symbol_to_uniform,
                outmap,
            },
        )
    }
}

/// The table whose byte offset is word `at` and whose row count is word
/// `at + 1` has rows of `row` words and lies inside `data`.
fn fits(data: &[u32], at: usize, row: u64) -> (r: bool)
    requires
        at + 1 < data@.len(),
        row <= 5,
    ensures
        r == table_fits(data@, at as int, row as int),
{
    let start = (data[at] / 4) as u64;
    let size = data[at + 1] as u64;
    start + size * row <= data.len() as u64
}

/// The registers of the last uniform named `name` among `syms`.
pub open spec fn lookup_uniform(syms: Seq<(String, UniformEntry)>, name: Seq<char>) -> Option<
    UniformEntry,
>
    decreases syms.len(),
{
    if syms.len() == 0 {
        None
    } else if syms.last().0@ == name {
        Some(syms.last().1)
    } else {
        lookup_uniform(syms.drop_last(), name)
    }
}

impl DVLE {
    /// The registers of the uniform called `name`; where the table names it
    /// twice, the later row counts.
    pub fn uniform(&self, name: &String) -> (r: Option<UniformEntry>)
        ensures
            r == lookup_uniform(self.symbol_to_uniform@, name@),
    {
        let syms = &self.symbol_to_uniform;
        let mut n: usize = syms.len();
        assert(syms@.subrange(0, n as int) == syms@);
        while n > 0
            invariant
                n <= syms@.len(),
                syms@ == self.symbol_to_uniform@,
                lookup_uniform(syms@, name@) == lookup_uniform(syms@.subrange(0, n as int), name@),
            decreases n,
        {
            let ghost prefix = syms@.subrange(0, n as int);
            assert(prefix.drop_last() == syms@.subrange(0, n - 1));
            assert(prefix.last() == syms@[n - 1]);
            if syms[n - 1].0 == *name {
                assert(syms@[n - 1].0@ == name@);
                let found = syms[n - 1].1;
                return Some(found);
            }
            n = n - 1;
        }
        None
    }
}

} // verus!
