//! Recursive size accumulation: a file's size is its byte length, an
//! unreadable file counts as zero, and a directory's size is the sum of the
//! sizes of every file found beneath it.
use vstd::prelude::*;

verus! {

/// The byte size attributed to one file, given the byte length its metadata
/// reported, or `None` when the metadata could not be read: an unreadable
/// file silently contributes zero bytes.
pub open spec fn file_size_of(meta_len: Option<u64>) -> usize {
    match meta_len {
        Some(n) => n as usize,
        None => 0,
    }
}

/// The sum of a sequence of sizes, as an unbounded integer.
pub open spec fn spec_sum(s: Seq<usize>) -> int
    decreases s.len(),
{
    if s.len() == 0 {
        0
    } else {
        spec_sum(s.drop_last()) + s.last()
    }
}

/// The sizes attributed to a sequence of files, each given by the byte
/// length its metadata reported (`None` for an unreadable file).
pub open spec fn sizes_of(meta_lens: Seq<Option<u64>>) -> Seq<usize> {
    meta_lens.map_values(|m: Option<u64>| file_size_of(m))
}

/// The byte size of one file: its reported byte length, or zero when its
/// metadata could not be read.
pub fn get_file_size(meta_len: Option<u64>) -> (size: usize)
    ensures
        size == file_size_of(meta_len),
{
    match meta_len {
        Some(n) => n as usize,
        None => 0,
    }
}

pub proof fn lemma_sum_take_succ(s: Seq<usize>, i: int)
    requires
        0 <= i < s.len(),
    ensures
        spec_sum(s.take(i + 1)) == spec_sum(s.take(i)) + s[i],
{
    assert(s.take(i + 1).drop_last() =~= s.take(i));
    assert(s.take(i + 1).last() == s[i]);
}

pub proof fn lemma_sum_take_le(s: Seq<usize>, i: int)
    requires
        0 <= i <= s.len(),
    ensures
        spec_sum(s.take(i)) <= spec_sum(s),
    decreases s.len() - i,
{
    if i == s.len() {
        assert(s.take(i) =~= s);
    } else {
        lemma_sum_take_succ(s, i);
        lemma_sum_take_le(s, i + 1);
    }
}

/// Law: a directory holding only files of known byte lengths `a`, `b` and
/// `c` has computed size exactly `a + b + c`.
pub proof fn lemma_dir_size_three(a: u64, b: u64, c: u64)
    requires
        a <= usize::MAX,
        b <= usize::MAX,
        c <= usize::MAX,
    ensures
        spec_sum(sizes_of(seq![Some(a), Some(b), Some(c)])) == a + b + c,
{
    let s3 = seq![a as usize, b as usize, c as usize];
    let s2 = seq![a as usize, b as usize];
    let s1 = seq![a as usize];
    let s0 = Seq::<usize>::empty();
    assert(sizes_of(seq![Some(a), Some(b), Some(c)]) =~= s3);
    assert(s3.drop_last() =~= s2);
    assert(s2.drop_last() =~= s1);
    assert(s1.drop_last() =~= s0);
    assert(spec_sum(s0) == 0);
    assert(spec_sum(s1) == a);
    assert(spec_sum(s2) == a + b);
    assert(spec_sum(s3) == a + b + c);
}

/// Law: a file whose metadata reports byte length `len` has computed size
/// exactly `len`.
pub proof fn lemma_file_size(len: u64)
    requires
        len <= usize::MAX,
    ensures
        spec_sum(sizes_of(seq![Some(len)])) == len,
{
    let s1 = seq![len as usize];
    let s0 = Seq::<usize>::empty();
    assert(sizes_of(seq![Some(len)]) =~= s1);
    assert(s1.drop_last() =~= s0);
    assert(spec_sum(s0) == 0);
    assert(spec_sum(s1) == len);
}

/// The total byte size of an entry, given the reported byte lengths of every
/// file found beneath it (a lone file is a one-element sequence). Unreadable
/// files count as zero. Returns `None` when the exact sum does not fit in
/// `usize`.
pub fn get_size(meta_lens: &Vec<Option<u64>>) -> (size: Option<usize>)
    ensures
        spec_sum(sizes_of(meta_lens@)) <= usize::MAX ==> size == Some(
            spec_sum(sizes_of(meta_lens@)) as usize,
        ),
        spec_sum(sizes_of(meta_lens@)) > usize::MAX ==> size is None,
{
    let ghost all: Seq<usize> = sizes_of(meta_lens@);
    let mut acc: usize = 0;
    let mut i: usize = 0;
    while i < meta_lens.len()
        invariant
            0 <= i <= meta_lens@.len(),
            all == sizes_of(meta_lens@),
            acc == spec_sum(all.take(i as int)),
        decreases meta_lens@.len() - i,
    {
        let next = get_file_size(meta_lens[i]);
        proof {
            lemma_sum_take_succ(all, i as int);
        }
        if acc > usize::MAX - next {
            proof {
                lemma_sum_take_le(all, i as int + 1);
            }
            return None;
        }
        acc = acc + next;
        i = i + 1;
    }
    proof {
        assert(all.take(i as int) =~= all);
    }
    Some(acc)
}

} // verus!
