//! The program section: shader code and operand descriptors shared by all entries.
use vstd::prelude::*;
use vstd::slice::{slice_subrange, slice_to_vec};

use super::Error;
use crate::gpucmd::GpuCmdByMut;
use crate::shader::{program_upload, upload_program};

verus! {

/// Code and operand descriptors to be uploaded to a shader unit.
pub struct DVLP {
    pub code: Vec<u32>,
    pub opcdesc: Vec<u32>,
}

/// Marks an upload to the geometry-shader unit.
#[derive(Clone, Copy)]
pub struct GSH;

/// Marks an upload to the vertex-shader unit.
#[derive(Clone, Copy)]
pub struct VSH;

/// Word `i` of the section read as a byte offset, turned into a word index.
pub open spec fn word_offset(d: Seq<u32>, i: int) -> int {
    (d[i] as int) / 4
}

/// The section's header and both tables lie inside it: words 2/3 give the
/// code's byte offset and word count, words 4/5 those of the descriptor
/// table, whose entries stand two words apart.
pub open spec fn dvlp_fits(d: Seq<u32>) -> bool {
    &&& d.len() >= 6
    &&& word_offset(d, 2) + d[3] <= d.len()
    &&& d[5] == 0 || word_offset(d, 4) + 2 * (d[5] - 1) < d.len()
}

/// The code words of a section that fits.
pub open spec fn dvlp_code(d: Seq<u32>) -> Seq<u32> {
    d.subrange(word_offset(d, 2), word_offset(d, 2) + d[3])
}

/// The operand descriptors of a section that fits: every other word of the table.
pub open spec fn dvlp_opdescs(d: Seq<u32>) -> Seq<u32> {
    Seq::new(d[5] as nat, |i: int| d[word_offset(d, 4) + 2 * i])
}

impl DVLP {
    /// Parses a program section; anything that lies past its end is `UnexpectedEof`.
    pub fn parse_dvlp(data: &[u32]) -> (r: Result<DVLP, Error>)
        ensures
            r is Ok <==> dvlp_fits(data@),
            r matches Ok(p) ==> p.code@ == dvlp_code(data@) && p.opcdesc@ == dvlp_opdescs(
                data@,
            ),
            r matches Err(e) ==> e is UnexpectedEof,
    {
        if data.len() < 6 {
            return Err(Error::UnexpectedEof);
        }
        let code_start = (data[2] / 4) as usize;
        let code_size = data[3] as usize;
        if code_start > data.len() || code_size > data.len() - code_start {
            return Err(Error::UnexpectedEof);
        }
        let code = slice_to_vec(slice_subrange(data, code_start, code_start + code_size));
        let opdesc_start = (data[4] / 4) as usize;
        let opdesc_size = data[5] as usize;
        if opdesc_size > 0 {
            let last: u64 = opdesc_start as u64 + 2 * (opdesc_size as u64 - 1);
            if last >= data.len() as u64 {
                return Err(Error::UnexpectedEof);
            }
        }
        let len = data.len();
        let mut opcdesc: Vec<u32> = Vec::new();
        let mut i: usize = 0;
        while i < opdesc_size
            invariant
                dvlp_fits(data@),
                opdesc_start == word_offset(data@, 4),
                opdesc_size == data@[5],
                opdesc_size == 0 || opdesc_start + 2 * (opdesc_size - 1) < data@.len(),
                i <= opdesc_size,
                len == data@.len(),
                opcdesc@ == dvlp_opdescs(data@).subrange(0, i as int),
            decreases opdesc_size - i,
        {
            assert(opdesc_start + 2 * i <= opdesc_start + 2 * (opdesc_size - 1));
            opcdesc.push(data[opdesc_start + 2 * i]);
            i = i + 1;
            assert(opcdesc@ =~= dvlp_opdescs(data@).subrange(0, i as int));
        }
        assert(opcdesc@ =~= dvlp_opdescs(data@));
        Ok(DVLP { code, opcdesc })
    }
}

impl GpuCmdByMut for (VSH, DVLP) {
    /// The code, then the descriptors one word each.
    open spec fn emitted(self) -> Seq<u32> {
        program_upload(self.1.code@, self.1.opcdesc@)
    }

    fn cmd_by_mut(self, buf: &mut Vec<u32>) {
        let p = self.1;
        upload_program(p.code, p.opcdesc, buf);
    }
}

} // verus!
