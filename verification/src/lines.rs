//! Lines of a byte stream.

use vstd::prelude::*;
use vstd::slice::{slice_subrange, slice_to_vec};

verus! {

/// The number of bytes before the first line feed, or before the end where
/// there is none.
pub open spec fn line_length(data: Seq<u8>) -> nat
    decreases data.len(),
{
    if data.len() == 0 || data[0] == 10 {
        0
    } else {
        1 + line_length(data.skip(1))
    }
}

/// The lines of a stream: the runs of bytes between line feeds. A line feed
/// at the very end starts no further line, and the empty stream has none.
pub open spec fn lines_of(data: Seq<u8>) -> Seq<Seq<u8>>
    decreases data.len(),
{
    if data.len() == 0 {
        Seq::empty()
    } else if line_length(data) >= data.len() {
        seq![data]
    } else {
        seq![data.take(line_length(data) as int)] + lines_of(
            data.skip(line_length(data) as int + 1),
        )
    }
}

/// The bytes of each line.
pub open spec fn lines_view(lines: Seq<Vec<u8>>) -> Seq<Seq<u8>> {
    lines.map_values(|line: Vec<u8>| line@)
}

/// A run without line feeds that ends at a line feed or at the end is the
/// first line.
pub proof fn lemma_line_length(data: Seq<u8>, k: int)
    requires
        0 <= k <= data.len(),
        forall|j: int| 0 <= j < k ==> data[j] != 10,
        k < data.len() ==> data[k] == 10,
    ensures
        line_length(data) == k,
    decreases k,
{
    if k > 0 {
        let rest = data.skip(1);
        assert forall|j: int| 0 <= j < k - 1 implies rest[j] != 10 by {
            assert(rest[j] == data[j + 1]);
        }
        lemma_line_length(rest, k - 1);
    }
}

/// Finds the end of the line that starts at `start`.
fn line_end(data: &[u8], start: usize) -> (end: usize)
    requires
        start <= data@.len(),
    ensures
        start <= end <= data@.len(),
        end - start == line_length(data@.skip(start as int)),
{
    let mut end: usize = start;
    while end < data.len() && data[end] != 10
        invariant
            start <= end <= data@.len(),
            forall|j: int| start <= j < end ==> data@[j] != 10,
        decreases data@.len() - end,
    {
        end = end + 1;
    }
    proof {
        lemma_line_length(data@.skip(start as int), end - start);
    }
    end
}

/// Splits a stream into its lines.
pub fn split_lines(data: &[u8]) -> (lines: Vec<Vec<u8>>)
    ensures
        lines_view(lines@) == lines_of(data@),
{
    let mut lines: Vec<Vec<u8>> = Vec::new();
    let mut start: usize = 0;
    proof {
        assert(data@.skip(0) =~= data@);
        assert(lines_view(lines@) + lines_of(data@) =~= lines_of(data@));
    }
    while start < data.len()
        invariant
            start <= data@.len(),
            lines_view(lines@) + lines_of(data@.skip(start as int)) == lines_of(data@),
        decreases data@.len() - start,
    {
        let end = line_end(data, start);
        let line = slice_to_vec(slice_subrange(data, start, end));
        let ghost rest = data@.skip(start as int);
        let ghost before = lines_view(lines@);
        lines.push(line);
        proof {
            assert(lines_view(lines@) =~= before.push(line@));
            assert(line@ =~= rest.take(end - start));
            if end < data.len() {
                assert(rest.skip(end - start + 1) =~= data@.skip(end + 1));
                assert(before.push(line@) + lines_of(data@.skip(end + 1)) =~= before + (seq![
                    line@,
                ] + lines_of(data@.skip(end + 1))));
            } else {
                assert(rest.take(end - start) =~= rest);
                assert(data@.skip(data@.len() as int) =~= Seq::<u8>::empty());
                assert(before.push(line@) + Seq::<Seq<u8>>::empty() =~= before + seq![rest]);
            }
        }
        start = if end < data.len() {
            end + 1
        } else {
            end
        };
    }
    proof {
        assert(data@.skip(start as int) =~= Seq::<u8>::empty());
        assert(lines_view(lines@) + Seq::<Seq<u8>>::empty() =~= lines_view(lines@));
    }
    lines
}

} // verus!
