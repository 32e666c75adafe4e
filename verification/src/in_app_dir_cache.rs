//! Keeping a directory of build artifacts within a size budget.
//!
//! The host mirrors a directory of the application into a cache between
//! builds. When the cached files outgrow a budget, the least recently used
//! ones are chosen for cleaning: the files are ordered oldest first and taken
//! for as long as what would remain still reaches the budget.

use vstd::prelude::*;

verus! {

/// A cached directory: the path inside the application and the path the
/// cache keeps between builds.
#[derive(Debug, Clone, PartialEq, Eq)]
pub struct DirCache {
    pub app_path: String,
    pub cache_path: String,
}

/// One cached file as the selection logic sees it: its path, when it was
/// last modified on the host clock, and its size in bytes.
#[derive(Debug)]
pub struct MiniPathModSize {
    pub path: String,
    pub modified: u128,
    pub size: u64,
}

/// Files chosen for cleaning, and the total size of the set they were chosen
/// from.
#[derive(Debug, PartialEq)]
pub struct FilesWithSize {
    pub bytes: u128,
    pub files: Vec<String>,
}

impl Default for FilesWithSize {
    fn default() -> (r: Self)
        ensures
            r.bytes == 0,
            r.files@.len() == 0,
    {
        FilesWithSize { bytes: 0, files: Vec::new() }
    }
}

/// The sizes of the files added up.
pub open spec fn sum_sizes(s: Seq<MiniPathModSize>) -> int
    decreases s.len(),
{
    if s.len() == 0 {
        0
    } else {
        sum_sizes(s.drop_last()) + s.last().size
    }
}

pub proof fn lemma_sum_sizes_take_step(s: Seq<MiniPathModSize>, i: int)
    requires
        0 <= i < s.len(),
    ensures
        sum_sizes(s.take(i + 1)) == sum_sizes(s.take(i)) + s[i].size,
{
    assert(s.take(i + 1).drop_last() =~= s.take(i));
    assert(s.take(i + 1).last() == s[i]);
}

pub proof fn lemma_sum_sizes_bounds(s: Seq<MiniPathModSize>, i: int)
    requires
        0 <= i <= s.len(),
    ensures
        0 <= sum_sizes(s.take(i)) <= i * (u64::MAX as int),
    decreases i,
{
    if i == 0 {
        assert(s.take(0) =~= Seq::<MiniPathModSize>::empty());
    } else {
        lemma_sum_sizes_bounds(s, i - 1);
        lemma_sum_sizes_take_step(s, i - 1);
    }
}

pub proof fn lemma_sum_sizes_take_le(s: Seq<MiniPathModSize>, i: int)
    requires
        0 <= i <= s.len(),
    ensures
        sum_sizes(s.take(i)) <= sum_sizes(s),
    decreases s.len() - i,
{
    if i == s.len() {
        assert(s.take(i) =~= s);
    } else {
        lemma_sum_sizes_take_step(s, i);
        lemma_sum_sizes_take_le(s, i + 1);
    }
}

/// `x` placed into `sorted` after every file modified no later than it, so
/// that sorting stays stable.
pub open spec fn insert_by_modified(sorted: Seq<MiniPathModSize>, x: MiniPathModSize) -> Seq<
    MiniPathModSize,
>
    decreases sorted.len(),
{
    if sorted.len() == 0 {
        seq![x]
    } else if x.modified < sorted[0].modified {
        seq![x] + sorted
    } else {
        seq![sorted[0]] + insert_by_modified(sorted.skip(1), x)
    }
}

/// The files ordered by modification time, oldest first, files of one time
/// keeping their relative order.
pub open spec fn sort_by_modified(s: Seq<MiniPathModSize>) -> Seq<MiniPathModSize>
    decreases s.len(),
{
    if s.len() == 0 {
        Seq::<MiniPathModSize>::empty()
    } else {
        insert_by_modified(sort_by_modified(s.drop_last()), s.last())
    }
}

/// The files stand in order of modification time, oldest first.
pub open spec fn sorted_by_modified(s: Seq<MiniPathModSize>) -> bool {
    forall|i: int, j: int| 0 <= i < j < s.len() ==> s[i].modified <= s[j].modified
}

pub proof fn lemma_insert_by_modified_sorted(sorted: Seq<MiniPathModSize>, x: MiniPathModSize)
    requires
        sorted_by_modified(sorted),
    ensures
        sorted_by_modified(insert_by_modified(sorted, x)),
        insert_by_modified(sorted, x)[0].modified == if sorted.len() == 0 {
            x.modified
        } else if x.modified < sorted[0].modified {
            x.modified
        } else {
            sorted[0].modified
        },
    decreases sorted.len(),
{
    let r = insert_by_modified(sorted, x);
    if sorted.len() == 0 {
    } else if x.modified < sorted[0].modified {
        assert forall|i: int, j: int| 0 <= i < j < r.len() implies r[i].modified
            <= r[j].modified by {
            if i > 0 {
                assert(r[i] == sorted[i - 1]);
                assert(r[j] == sorted[j - 1]);
            }
        }
    } else {
        assert(sorted_by_modified(sorted.skip(1)));
        lemma_insert_by_modified_sorted(sorted.skip(1), x);
        let inner = insert_by_modified(sorted.skip(1), x);
        assert forall|i: int, j: int| 0 <= i < j < r.len() implies r[i].modified
            <= r[j].modified by {
            if i == 0 {
                assert(r[0] == sorted[0]);
                assert(r[j] == inner[j - 1]);
                if j > 1 {
                    assert(inner[0].modified <= inner[j - 1].modified);
                }
            } else {
                assert(r[i] == inner[i - 1]);
                assert(r[j] == inner[j - 1]);
            }
        }
    }
}

/// What the sorting promises: the result is ordered by modification time,
/// oldest first.
pub proof fn lemma_sort_by_modified_sorted(s: Seq<MiniPathModSize>)
    ensures
        sorted_by_modified(sort_by_modified(s)),
    decreases s.len(),
{
    if s.len() > 0 {
        lemma_sort_by_modified_sorted(s.drop_last());
        lemma_insert_by_modified_sorted(sort_by_modified(s.drop_last()), s.last());
    }
}

pub proof fn lemma_insert_keeps_sum(sorted: Seq<MiniPathModSize>, x: MiniPathModSize)
    ensures
        sum_sizes(insert_by_modified(sorted, x)) == sum_sizes(sorted) + x.size,
    decreases sorted.len(),
{
    let r = insert_by_modified(sorted, x);
    assert(sum_sizes(Seq::<MiniPathModSize>::empty()) == 0);
    if sorted.len() == 0 {
        assert(r =~= seq![x]);
        assert(r.drop_last() =~= Seq::<MiniPathModSize>::empty());
        assert(sum_sizes(r) == sum_sizes(r.drop_last()) + r.last().size);
        assert(sum_sizes(sorted) == 0);
    } else if x.modified < sorted[0].modified {
        lemma_sum_append_one(x, sorted);
    } else {
        lemma_insert_keeps_sum(sorted.skip(1), x);
        lemma_sum_append_one(sorted[0], insert_by_modified(sorted.skip(1), x));
        lemma_sum_append_one(sorted[0], sorted.skip(1));
        assert(seq![sorted[0]] + sorted.skip(1) =~= sorted);
    }
}

/// Adding up sizes with one file put in front.
pub proof fn lemma_sum_append_one(x: MiniPathModSize, s: Seq<MiniPathModSize>)
    ensures
        sum_sizes(seq![x] + s) == x.size + sum_sizes(s),
    decreases s.len(),
{
    let r = seq![x] + s;
    assert(sum_sizes(Seq::<MiniPathModSize>::empty()) == 0);
    if s.len() == 0 {
        assert(r =~= seq![x]);
        assert(r.drop_last() =~= Seq::<MiniPathModSize>::empty());
        assert(sum_sizes(r) == sum_sizes(r.drop_last()) + r.last().size);
    } else {
        assert(r.drop_last() =~= seq![x] + s.drop_last());
        lemma_sum_append_one(x, s.drop_last());
        assert(r.last() == s.last());
        assert(sum_sizes(r) == sum_sizes(r.drop_last()) + r.last().size);
        assert(sum_sizes(s) == sum_sizes(s.drop_last()) + s.last().size);
    }
}

pub proof fn lemma_sort_keeps_sum(s: Seq<MiniPathModSize>)
    ensures
        sum_sizes(sort_by_modified(s)) == sum_sizes(s),
        sort_by_modified(s).len() == s.len(),
    decreases s.len(),
{
    if s.len() > 0 {
        lemma_sort_keeps_sum(s.drop_last());
        lemma_insert_keeps_sum(sort_by_modified(s.drop_last()), s.last());
        lemma_insert_len(sort_by_modified(s.drop_last()), s.last());
    }
}

pub proof fn lemma_insert_len(sorted: Seq<MiniPathModSize>, x: MiniPathModSize)
    ensures
        insert_by_modified(sorted, x).len() == sorted.len() + 1,
    decreases sorted.len(),
{
    if sorted.len() > 0 && !(x.modified < sorted[0].modified) {
        lemma_insert_len(sorted.skip(1), x);
    }
}

fn insert_file(sorted: Vec<MiniPathModSize>, x: MiniPathModSize) -> (r: Vec<MiniPathModSize>)
    ensures
        r@ == insert_by_modified(sorted@, x),
    decreases sorted@.len(),
{
    let mut sorted = sorted;
    if sorted.len() == 0 {
        let mut r: Vec<MiniPathModSize> = Vec::new();
        r.push(x);
        proof {
            assert(r@ =~= seq![x]);
        }
        r
    } else if x.modified < sorted[0].modified {
        let ghost old_sorted = sorted@;
        sorted.insert(0, x);
        proof {
            assert(sorted@ =~= seq![x] + old_sorted);
        }
        sorted
    } else {
        let ghost old_sorted = sorted@;
        let head = sorted.remove(0);
        proof {
            assert(sorted@ =~= old_sorted.skip(1));
        }
        let mut rest = insert_file(sorted, x);
        rest.insert(0, head);
        proof {
            assert(rest@ =~= seq![old_sorted[0]] + insert_by_modified(old_sorted.skip(1), x));
        }
        rest
    }
}

fn sort_files(files: Vec<MiniPathModSize>) -> (r: Vec<MiniPathModSize>)
    ensures
        r@ == sort_by_modified(files@),
    decreases files@.len(),
{
    let mut files = files;
    let ghost whole = files@;
    match files.pop() {
        None => {
            proof {
                assert(whole =~= Seq::<MiniPathModSize>::empty());
            }
            files
        },
        Some(x) => {
            proof {
                assert(files@ =~= whole.drop_last());
            }
            let sorted = sort_files(files);
            insert_file(sorted, x)
        },
    }
}

/// The paths of the files, in order.
pub open spec fn paths_of(s: Seq<MiniPathModSize>) -> Seq<Seq<char>> {
    s.map_values(|m: MiniPathModSize| m.path@)
}

/// Chooses the least recently used files whose removal the budget asks for.
///
/// When the files already fit under `max_bytes`, nothing is chosen and the
/// reported size is zero. Otherwise the files are ordered oldest first and
/// taken one by one for as long as the size remaining after the taken ones
/// still reaches `max_bytes`; the reported size is the total before any
/// cleaning.
pub fn least_recently_used_files_above_limit(files: Vec<MiniPathModSize>, max_bytes: u128) -> (r:
    FilesWithSize)
    ensures
        sum_sizes(files@) < max_bytes ==> r.bytes == 0 && r.files@.len() == 0,
        sum_sizes(files@) >= max_bytes ==> {
            let sorted = sort_by_modified(files@);
            let count = r.files@.len() as int;
            &&& r.bytes == sum_sizes(files@)
            &&& count <= sorted.len()
            &&& r.files.deep_view() == paths_of(sorted.take(count))
            &&& forall|j: int|
                1 <= j <= count ==> sum_sizes(files@) - sum_sizes(sorted.take(j)) >= max_bytes
            &&& count < sorted.len() ==> sum_sizes(files@) - sum_sizes(sorted.take(count + 1))
                < max_bytes
        },
{
    let ghost original = files@;
    let mut total: u128 = 0;
    let mut i: usize = 0;
    proof {
        assert(original.take(0) =~= Seq::<MiniPathModSize>::empty());
    }
    while i < files.len()
        invariant
            i <= files@.len(),
            files@ == original,
            total as int == sum_sizes(original.take(i as int)),
        decreases files@.len() - i,
    {
        proof {
            lemma_sum_sizes_bounds(original, i as int);
            lemma_sum_sizes_take_step(original, i as int);
            assert(files.len() == files@.len());
            assert((i as int) * (u64::MAX as int) <= (usize::MAX as int) * (u64::MAX as int));
        }
        total = total + (files[i].size as u128);
        i = i + 1;
    }
    proof {
        assert(original.take(original.len() as int) =~= original);
    }
    if total < max_bytes {
        return FilesWithSize::default();
    }
    proof {
        lemma_sort_keeps_sum(original);
    }
    let sorted = sort_files(files);
    let mut out: Vec<String> = Vec::new();
    let mut current: u128 = total;
    let mut k: usize = 0;
    let mut done = false;
    proof {
        assert(sort_by_modified(original).take(0) =~= Seq::<MiniPathModSize>::empty());
        assert(out.deep_view() =~~= paths_of(sort_by_modified(original).take(0)));
    }
    while k < sorted.len() && !done
        invariant
            k <= sorted@.len(),
            sorted@ == sort_by_modified(original),
            total as int == sum_sizes(original),
            sum_sizes(sorted@) == sum_sizes(original),
            total >= max_bytes,
            current as int == sum_sizes(original) - sum_sizes(sorted@.take(k as int)),
            out.deep_view() == paths_of(sorted@.take(k as int)),
            forall|j: int|
                1 <= j <= k ==> sum_sizes(original) - sum_sizes(sorted@.take(j)) >= max_bytes,
            done ==> k < sorted@.len() && sum_sizes(original) - sum_sizes(
                sorted@.take(k as int + 1),
            ) < max_bytes,
        decreases sorted@.len() - k + (if done {
            0int
        } else {
            1int
        }),
    {
        proof {
            lemma_sum_sizes_take_step(sorted@, k as int);
            lemma_sum_sizes_take_le(sorted@, k as int + 1);
            lemma_sum_sizes_bounds(sorted@, k as int);
        }
        let size = sorted[k].size;
        let next = current - (size as u128);
        if next >= max_bytes {
            let ghost old_out = out.deep_view();
            out.push(sorted[k].path.clone());
            current = next;
            proof {
                assert(out.deep_view() =~~= old_out.push(sorted@[k as int].path@));
                assert(paths_of(sorted@.take(k as int + 1)) =~~= paths_of(
                    sorted@.take(k as int),
                ).push(sorted@[k as int].path@));
            }
            k = k + 1;
        } else {
            done = true;
        }
    }
    FilesWithSize { bytes: total, files: out }
}

} // verus!
