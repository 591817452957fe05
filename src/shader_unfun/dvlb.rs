//! The container: a header listing the entries, the program section, the entries.
use vstd::prelude::*;
use vstd::slice::slice_subrange;

use super::dvle::{dvle_failure, dvle_value, DVLE};
use super::dvlp::{dvlp_code, dvlp_fits, dvlp_opdescs, DVLP};
use super::{cast_words, failure_of, le_words, Error, Failure};

verus! {

/// A parsed container: the shared program section and every entry.
pub struct DVLB {
    pub dvlp: DVLP,
    pub dvles: Vec<DVLE>,
}

/// The number of entries: the low half of word 1.
pub open spec fn entry_count(w: Seq<u32>) -> int {
    (w[1] & 0xFFFF) as int
}

/// The program section: everything after the entry offsets.
pub open spec fn program_words(w: Seq<u32>) -> Seq<u32> {
    w.subrange(2 + entry_count(w), w.len() as int)
}

/// Where entry `i` starts: word `2 + i` is its byte offset in the file.
pub open spec fn entry_start(w: Seq<u32>, i: int) -> int {
    (w[2 + i] as int) / 4
}

/// The words of entry `i`: from its start to the end of the file.
pub open spec fn entry_words(w: Seq<u32>, i: int) -> Seq<u32> {
    w.subrange(entry_start(w, i), w.len() as int)
}

/// The first failure among the first `n` entries.
pub open spec fn entries_failure(w: Seq<u32>, n: int) -> Option<Failure>
    decreases n,
{
    if n <= 0 {
        None
    } else {
        match entries_failure(w, n - 1) {
            Some(f) => Some(f),
            None => if entry_start(w, n - 1) > w.len() {
                Some(Failure::Eof)
            } else {
                dvle_failure(entry_words(w, n - 1))
            },
        }
    }
}

/// Why the words `w` are no container, checked in this order: the header,
/// the program section, each entry in turn.
pub open spec fn dvlb_failure(w: Seq<u32>) -> Option<Failure> {
    if w.len() < 2 || 2 + entry_count(w) > w.len() {
        Some(Failure::Eof)
    } else if !dvlp_fits(program_words(w)) {
        Some(Failure::Eof)
    } else {
        entries_failure(w, entry_count(w))
    }
}

/// `v` is what the container `w`, which has no failure, holds.
pub open spec fn dvlb_value(w: Seq<u32>, v: DVLB) -> bool {
    &&& v.dvlp.code@ == dvlp_code(program_words(w))
    &&& v.dvlp.opcdesc@ == dvlp_opdescs(program_words(w))
    &&& v.dvles@.len() == entry_count(w)
    &&& forall|i: int| 0 <= i < entry_count(w) ==> dvle_value(entry_words(w, i), #[trigger] v.dvles@[i])
}

proof fn lemma_entries_failure_stays(w: Seq<u32>, m: int, n: int)
    requires
        0 <= m <= n,
        entries_failure(w, m) is Some,
    ensures
        entries_failure(w, n) == entries_failure(w, m),
    decreases n - m,
{
    if m < n {
        lemma_entries_failure_stays(w, m, n - 1);
    }
}

impl DVLB {
    /// Parses a container file: its bytes read as little-endian words. The
    /// view as words is refused for a length that is not a multiple of four
    /// (and for a slice that is not four-byte aligned); otherwise the result
    /// is exactly that of `parse_words` on those words.
    pub fn parse_file(file: &[u8]) -> (r: Result<DVLB, Error>)
        ensures
            file@.len() % 4 != 0 ==> (r matches Err(e) && e is BytemuckPodcast),
            !(r matches Err(e) && e is BytemuckPodcast) ==> {
                &&& file@.len() % 4 == 0
                &&& (r is Ok <==> dvlb_failure(le_words(file@)) is None)
                &&& (r matches Ok(v) ==> dvlb_value(le_words(file@), v))
                &&& (r matches Err(e) ==> dvlb_failure(le_words(file@)) == Some(failure_of(e)))
            },
    {
        match cast_words(file) {
            Err(e) => Err(Error::BytemuckPodcast(e)),
            Ok(words) => DVLB::parse_words(words),
        }
    }

    /// Parses a container from its little-endian words.
    pub fn parse_words(w: &[u32]) -> (r: Result<DVLB, Error>)
        ensures
            r is Ok <==> dvlb_failure(w@) is None,
            r matches Err(e) ==> dvlb_failure(w@) == Some(failure_of(e)),
            r matches Ok(v) ==> dvlb_value(w@, v),
    {
        let len = w.len();
        if len < 2 {
            return Err(Error::UnexpectedEof);
        }
        let n = (w[1] & 0xFFFF) as usize;
        if n > len - 2 {
            return Err(Error::UnexpectedEof);
        }
        let dvlp = DVLP::parse_dvlp(slice_subrange(w, 2 + n, len))?;
        let mut dvles: Vec<DVLE> = Vec::new();
        let mut i: usize = 0;
        while i < n
            invariant
                len == w@.len(),
                len >= 2,
                n == entry_count(w@),
                2 + n <= len,
                i <= n,
                dvlp.code@ == dvlp_code(program_words(w@)),
                dvlp.opcdesc@ == dvlp_opdescs(program_words(w@)),
                dvlp_fits(program_words(w@)),
                entries_failure(w@, i as int) is None,
                dvles@.len() == i,
                forall|q: int| 0 <= q < i ==> dvle_value(entry_words(w@, q), #[trigger] dvles@[q]),
            decreases n - i,
        {
            let start = (w[2 + i] / 4) as usize;
            if start > len {
                assert(entries_failure(w@, i + 1) == Some(Failure::Eof));
                proof {
                    lemma_entries_failure_stays(w@, i + 1, n as int);
                }
                return Err(Error::UnexpectedEof);
            }
            match DVLE::parse_dvle(slice_subrange(w, start, len)) {
                Err(e) => {
                    assert(entries_failure(w@, i + 1) == Some(failure_of(e)));
                    proof {
                        lemma_entries_failure_stays(w@, i + 1, n as int);
                    }
                    return Err(e);
                },
                Ok(v) => {
                    dvles.push(v);
                },
            }
            i = i + 1;
        }
        Ok(DVLB { dvlp, dvles })
    }
}

/// A file shorter than its own header (two words and one offset per
/// entry) is refused as ending early.
pub proof fn lemma_short_header_is_eof(w: Seq<u32>)
    requires
        w.len() < 2 || 2 + entry_count(w) > w.len(),
    ensures
        dvlb_failure(w) == Some(Failure::Eof),
{
}

} // verus!
