//! A named filesystem child with its aggregated byte size, and the
//! descending sort that orders a report.
use vstd::prelude::*;
use crate::size::spec_sum;

verus! {

broadcast use vstd::seq_lib::group_to_multiset_ensures;

/// Holds when the entries are in non-increasing order of size: every entry
/// is at least as large as each entry after it.
pub open spec fn sorted_desc(s: Seq<FileEntry>) -> bool {
    forall|i: int, j: int|
        0 <= i < j < s.len() ==> #[trigger] s[i].size >= #[trigger] s[j].size
}

/// The sizes of a sequence of entries, in order.
pub open spec fn entry_sizes(s: Seq<FileEntry>) -> Seq<usize> {
    s.map_values(|e: FileEntry| e.size)
}

/// A named filesystem child with its aggregated byte size.
pub struct FileEntry {
    pub name: String,
    pub size: usize,
}

impl Clone for FileEntry {
    fn clone(&self) -> (other: Self)
        ensures
            other.name@ == self.name@,
            other.size == self.size,
    {
        FileEntry { name: self.name.clone(), size: self.size }
    }
}

impl FileEntry {
    pub fn new(name: String, size: usize) -> (entry: FileEntry)
        ensures
            entry.name == name,
            entry.size == size,
    {
        FileEntry { name, size }
    }

    /// Reorders the entries into non-increasing order of size. The result
    /// holds exactly the entries that went in; entries of equal size keep no
    /// particular relative order.
    pub fn sort(vec: &mut Vec<FileEntry>)
        ensures
            final(vec)@.to_multiset() == old(vec)@.to_multiset(),
            final(vec)@.len() == old(vec)@.len(),
            sorted_desc(final(vec)@),
    {
        let mut out: Vec<FileEntry> = Vec::new();
        while vec.len() > 0
            invariant
                out@.to_multiset().add(vec@.to_multiset()) == old(vec)@.to_multiset(),
                out@.len() + vec@.len() == old(vec)@.len(),
                sorted_desc(out@),
                forall|i: int, j: int|
                    0 <= i < out@.len() && 0 <= j < vec@.len()
                        ==> #[trigger] out@[i].size >= #[trigger] vec@[j].size,
            decreases vec.len(),
        {
            let mut m: usize = 0;
            let mut k: usize = 1;
            while k < vec.len()
                invariant
                    vec@.len() > 0,
                    m < vec@.len(),
                    1 <= k <= vec@.len(),
                    forall|i: int|
                        0 <= i < k ==> vec@[m as int].size >= #[trigger] vec@[i].size,
                decreases vec@.len() - k,
            {
                if vec[k].size > vec[m].size {
                    m = k;
                }
                k = k + 1;
            }
            let ghost prev = vec@;
            let ghost out_prev = out@;
            let e = vec.remove(m);
            proof {
                prev.remove_ensures(m as int);
                assert forall|j: int| 0 <= j < vec@.len() implies e.size
                    >= #[trigger] vec@[j].size by {
                    if j < m as int {
                        assert(vec@[j] == prev[j]);
                    } else {
                        assert(vec@[j] == prev[j + 1]);
                    }
                }
                assert(prev[m as int] == e);
                assert(prev.contains(e));
                assert(out_prev.push(e).to_multiset().add(vec@.to_multiset())
                    =~= out_prev.to_multiset().add(prev.to_multiset()));
            }
            out.push(e);
        }
        proof {
            assert(vec@ =~= Seq::<FileEntry>::empty());
            assert forall|x: FileEntry| #[trigger]
                vec@.to_multiset().count(x) == 0 by {
                assert(!vec@.contains(x));
            }
            assert(out@.to_multiset().add(vec@.to_multiset()) =~= out@.to_multiset());
        }
        *vec = out;
    }
}

/// The total of a report: the sum of every entry's size, accumulated while
/// iterating the entries, independent of how each size is formatted. Returns
/// `None` when the exact sum does not fit in `usize`.
pub fn total_size(entries: &Vec<FileEntry>) -> (total: Option<usize>)
    ensures
        spec_sum(entry_sizes(entries@)) <= usize::MAX ==> total == Some(
            spec_sum(entry_sizes(entries@)) as usize,
        ),
        spec_sum(entry_sizes(entries@)) > usize::MAX ==> total is None,
{
    let ghost all: Seq<usize> = entry_sizes(entries@);
    let mut acc: usize = 0;
    let mut i: usize = 0;
    while i < entries.len()
        invariant
            0 <= i <= entries@.len(),
            all == entry_sizes(entries@),
            acc == spec_sum(all.take(i as int)),
        decreases entries@.len() - i,
    {
        let next = entries[i].size;
        proof {
            crate::size::lemma_sum_take_succ(all, i as int);
        }
        if acc > usize::MAX - next {
            proof {
                crate::size::lemma_sum_take_le(all, i as int + 1);
            }
            return None;
        }
        acc = acc + next;
        i = i + 1;
    }
    proof {
        assert(all.take(i as int) =~= all);
    }
    Some(acc)
}

} // verus!
