//! Directory-scoped invalidation: the cache entries that the current images
//! of a collection map to, and the count of those removed.
use crate::listing::{is_vector, is_vector_path};
use crate::store::{cache_entry, cache_entry_name};
use vstd::prelude::*;

verus! {

/// The bound, in pixels, of the thumbnails that the gallery asks for.
pub const THUMBNAIL_SIZE: u32 = 400;

/// The entries that the image at `path`, last modified at `modified` (if
/// that could be read), may have in the cache.
pub open spec fn entries_for(path: Seq<char>, modified: Option<u128>) -> Seq<Seq<char>> {
    match modified {
        Some(m) => if is_vector(path) {
            seq![]
        } else {
            seq![cache_entry(path, m, THUMBNAIL_SIZE)]
        },
        None => seq![],
    }
}

/// The entries of all `images`, in their order; `modified[i]` is the
/// modification time of `images[i]`, if it could be read.
pub open spec fn targets(images: Seq<Seq<char>>, modified: Seq<Option<u128>>) -> Seq<Seq<char>>
    decreases images.len(),
{
    if images.len() == 0 || modified.len() == 0 {
        seq![]
    } else {
        targets(images.drop_last(), modified.drop_last()) + entries_for(
            images.last(),
            modified.last(),
        )
    }
}

/// The views of a sequence of strings.
pub open spec fn texts(s: Seq<String>) -> Seq<Seq<char>> {
    s.map_values(|t: String| t@)
}

/// The cache entries to remove for a collection: for each raster image whose
/// modification time could be read, its entry at the gallery's thumbnail
/// size. Vector images and images whose time is unknown are skipped.
pub fn invalidation_targets(images: &Vec<String>, modified: &Vec<Option<u128>>) -> (r: Vec<String>)
    requires
        images@.len() == modified@.len(),
    ensures
        texts(r@) == targets(texts(images@), modified@),
{
    let mut out: Vec<String> = Vec::new();
    let mut i: usize = 0;
    while i < images.len()
        invariant
            i <= images@.len(),
            images@.len() == modified@.len(),
            texts(out@) == targets(
                texts(images@.subrange(0, i as int)),
                modified@.subrange(0, i as int),
            ),
        decreases images@.len() - i,
    {
        let ghost before = out@;
        let path = images[i].as_str();
        match modified[i] {
            Some(m) => {
                if !is_vector_path(path) {
                    out.push(cache_entry_name(path, m, THUMBNAIL_SIZE));
                }
            },
            None => {},
        }
        proof {
            let imgs = texts(images@.subrange(0, i + 1));
            let mods = modified@.subrange(0, i + 1);
            assert(imgs.drop_last() =~= texts(images@.subrange(0, i as int)));
            assert(mods.drop_last() =~= modified@.subrange(0, i as int));
            assert(texts(out@) =~= texts(before) + entries_for(imgs.last(), mods.last()));
        }
        i = i + 1;
    }
    assert(images@.subrange(0, i as int) =~= images@);
    assert(modified@.subrange(0, i as int) =~= modified@);
    out
}

/// How many of the removal outcomes report that an entry was removed.
pub open spec fn removed_count(outcomes: Seq<bool>) -> nat {
    outcomes.filter(|b: bool| b).len()
}

/// Counts the entries that were removed, one outcome per target.
pub fn count_removed(outcomes: &Vec<bool>) -> (r: u32)
    requires
        outcomes@.len() <= u32::MAX,
    ensures
        r == removed_count(outcomes@),
{
    let mut n: u32 = 0;
    let mut i: usize = 0;
    while i < outcomes.len()
        invariant
            i <= outcomes@.len(),
            outcomes@.len() <= u32::MAX,
            n == removed_count(outcomes@.subrange(0, i as int)),
            n <= i,
        decreases outcomes@.len() - i,
    {
        proof {
            let next = outcomes@.subrange(0, i + 1);
            assert(next.drop_last() =~= outcomes@.subrange(0, i as int));
            reveal(Seq::filter);
        }
        if outcomes[i] {
            n = n + 1;
        }
        i = i + 1;
    }
    assert(outcomes@.subrange(0, i as int) =~= outcomes@);
    n
}

/// Every raster image of the collection whose time is known has its entry
/// among the targets, and every target is the entry of such an image: the
/// sweep reaches exactly this collection's entries and nothing else.
pub proof fn lemma_targets_exact(images: Seq<Seq<char>>, modified: Seq<Option<u128>>)
    requires
        images.len() == modified.len(),
    ensures
        forall|i: int|
            0 <= i < images.len() && !is_vector(#[trigger] images[i]) && modified[i] is Some
                ==> targets(images, modified).contains(
                cache_entry(images[i], modified[i]->0, THUMBNAIL_SIZE),
            ),
        forall|t: Seq<char>|
            #[trigger] targets(images, modified).contains(t) ==> exists|i: int|
                0 <= i < images.len() && !is_vector(images[i]) && modified[i] is Some && t
                    == #[trigger] cache_entry(images[i], modified[i]->0, THUMBNAIL_SIZE),
    decreases images.len(),
{
    if images.len() > 0 {
        let pre_i = images.drop_last();
        let pre_m = modified.drop_last();
        lemma_targets_exact(pre_i, pre_m);
        let tail = entries_for(images.last(), modified.last());
        let all = targets(images, modified);
        assert(all == targets(pre_i, pre_m) + tail);
        assert forall|i: int|
            0 <= i < images.len() && !is_vector(#[trigger] images[i]) && modified[i] is Some
                implies all.contains(cache_entry(images[i], modified[i]->0, THUMBNAIL_SIZE)) by {
            let e = cache_entry(images[i], modified[i]->0, THUMBNAIL_SIZE);
            if i < images.len() - 1 {
                assert(pre_i[i] == images[i]);
                assert(pre_m[i] == modified[i]);
                let k = choose|k: int| 0 <= k < targets(pre_i, pre_m).len() && targets(pre_i, pre_m)[k] == e;
                assert(all[k] == e);
            } else {
                assert(all[all.len() - 1] == e);
            }
        }
        assert forall|t: Seq<char>| #[trigger] all.contains(t) implies exists|i: int|
            0 <= i < images.len() && !is_vector(images[i]) && modified[i] is Some && t
                == #[trigger] cache_entry(images[i], modified[i]->0, THUMBNAIL_SIZE) by {
            let k = choose|k: int| 0 <= k < all.len() && all[k] == t;
            if k < targets(pre_i, pre_m).len() {
                assert(targets(pre_i, pre_m).contains(t));
                let i = choose|i: int|
                    0 <= i < pre_i.len() && !is_vector(pre_i[i]) && pre_m[i] is Some && t
                        == #[trigger] cache_entry(pre_i[i], pre_m[i]->0, THUMBNAIL_SIZE);
                assert(images[i] == pre_i[i]);
                assert(modified[i] == pre_m[i]);
            } else {
                let i = images.len() - 1;
                assert(t == cache_entry(images[i], modified[i]->0, THUMBNAIL_SIZE));
            }
        }
    }
}

} // verus!
