//! The list of patch files that make up an up-to-date game.

use vstd::prelude::*;
use crate::text::{after_last, tail_after_last};

verus! {

/// One patch file.
#[derive(Debug, PartialEq, Eq)]
pub struct PatchEntry {
    /// The file's path with `/` between the directories.
    pub path: String,
    /// The file's size in bytes.
    pub size: u64,
    /// The file's CRC-32.
    pub crc32: u32,
}

/// The file name of a manifest path, without the directories.
pub open spec fn leaf(path: Seq<char>) -> Seq<char> {
    after_last(path, '/')
}

/// The sizes of all entries added up.
pub open spec fn size_sum(manifest: Seq<PatchEntry>) -> nat
    decreases manifest.len(),
{
    if manifest.len() == 0 {
        0
    } else {
        size_sum(manifest.drop_last()) + manifest.last().size as nat
    }
}

/// The file name of a manifest path; see [`leaf`].
pub fn leaf_name(path: &str) -> (r: &str)
    ensures
        r@ == leaf(path@),
{
    tail_after_last(path, '/')
}

proof fn lemma_size_sum_grows(manifest: Seq<PatchEntry>, k: int)
    requires
        0 <= k <= manifest.len(),
    ensures
        size_sum(manifest.take(k)) <= size_sum(manifest),
    decreases manifest.len() - k,
{
    if k < manifest.len() {
        lemma_size_sum_grows(manifest, k + 1);
        assert(manifest.take(k + 1).drop_last() == manifest.take(k));
    } else {
        assert(manifest.take(k) == manifest);
    }
}

/// The number of bytes of all patch files together.
pub fn total_bytes(manifest: &Vec<PatchEntry>) -> (r: u64)
    requires
        size_sum(manifest@) <= u64::MAX,
    ensures
        r == size_sum(manifest@),
{
    let mut sum: u64 = 0;
    let mut i: usize = 0;
    while i < manifest.len()
        invariant
            i <= manifest.len(),
            sum == size_sum(manifest@.take(i as int)),
            size_sum(manifest@) <= u64::MAX,
        decreases manifest.len() - i,
    {
        proof {
            lemma_size_sum_grows(manifest@, i + 1);
            assert(manifest@.take(i + 1).drop_last() == manifest@.take(i as int));
        }
        sum = sum + manifest[i].size;
        i = i + 1;
    }
    assert(manifest@.take(manifest@.len() as int) == manifest@);
    sum
}

/// The file name of a path is what stands behind its last slash.
pub proof fn law_leaf_is_behind_the_last_slash(dirs: Seq<char>, name: Seq<char>)
    requires
        !name.contains('/'),
    ensures
        leaf(dirs + seq!['/'] + name) == name,
        leaf(name) == name,
{
    crate::text::law_tail_behind_the_last(dirs, name, '/');
    crate::text::law_tail_of_a_whole_text(name, '/');
}

/// The sizes of two lists add up, and one entry has its own size.
pub proof fn law_sizes_add_up(a: Seq<PatchEntry>, b: Seq<PatchEntry>, entry: PatchEntry)
    ensures
        size_sum(a + b) == size_sum(a) + size_sum(b),
        size_sum(seq![entry]) == entry.size,
        size_sum(Seq::empty()) == 0,
    decreases b.len(),
{
    if b.len() == 0 {
        assert(a + b =~= a);
    } else {
        assert((a + b).drop_last() =~= a + b.drop_last());
        law_sizes_add_up(a, b.drop_last(), entry);
    }
    assert(size_sum(Seq::empty()) == 0);
    assert(seq![entry].drop_last() =~= Seq::<PatchEntry>::empty());
    assert(seq![entry].last() == entry);
}

} // verus!
