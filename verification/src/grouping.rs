//! Packing of produced files into delivery batches.
//!
//! A batch holds at most [`MAX_GROUP_ITEMS`] files and at most a given number
//! of bytes. Files are packed greedily and in order; a file that is larger
//! than the byte ceiling on its own goes to the failure list instead.

use vstd::prelude::*;
use crate::text::{
    chars_of, decimal, decimal_chars, find_char, is_text, is_text_ignoring_ascii_case, position,
    push_all, same_ignoring_ascii_case, slice_chars, string_of,
};

verus! {

/// The byte ceiling of one delivery.
pub const MAX_PAYLOAD_SIZE_BYTES: u64 = 50_000_000;

/// The most files one batch may hold.
pub const MAX_GROUP_ITEMS: usize = 10;

/// A candidate file: where it is, how large it is, and the media type that
/// was read off its content, if any.
#[derive(Debug)]
pub struct FileInfo {
    pub path: String,
    pub size: u64,
    pub mime: Option<String>,
}

impl FileInfo {
    /// A copy of this record.
    pub fn duplicate(&self) -> (copy: FileInfo)
        ensures
            copy == *self,
    {
        let mime = match &self.mime {
            Some(m) => Some(m.clone()),
            None => None,
        };
        FileInfo { path: self.path.clone(), size: self.size, mime }
    }
}

/// The sum of the sizes of the files in `batch`.
pub open spec fn total_size(batch: Seq<FileInfo>) -> int
    decreases batch.len(),
{
    if batch.len() == 0 {
        0
    } else {
        total_size(batch.drop_last()) + batch.last().size
    }
}

/// Whether a file may enter a batch at all under `ceiling`.
pub open spec fn fits(ceiling: u64) -> spec_fn(FileInfo) -> bool {
    |f: FileInfo| f.size <= ceiling
}

/// Whether a file is too large for any batch under `ceiling`.
pub open spec fn oversized(ceiling: u64) -> spec_fn(FileInfo) -> bool {
    |f: FileInfo| f.size > ceiling
}

/// A batch that may be delivered: not empty, within the item limit and
/// within the byte ceiling.
pub open spec fn deliverable(batch: Seq<FileInfo>, ceiling: u64) -> bool {
    &&& 0 < batch.len() <= MAX_GROUP_ITEMS
    &&& total_size(batch) <= ceiling
}

/// Every batch but the last one was closed for a reason: it was full, or
/// the first file of the next batch would have taken it over the ceiling.
pub open spec fn closed_when_needed(batches: Seq<Seq<FileInfo>>, ceiling: u64) -> bool {
    forall|k: int|
        0 <= k < batches.len() - 1 ==> {
            ||| (#[trigger] batches[k]).len() == MAX_GROUP_ITEMS
            ||| total_size(batches[k]) + batches[k + 1][0].size > ceiling
        }
}

/// What `batches` is to `flat` when it cuts `flat` greedily under
/// `ceiling`: the batches hold, in order, exactly the files of `flat`; each
/// batch is deliverable; and no batch was closed early.
#[verifier::opaque]
pub open spec fn is_greedy_split(flat: Seq<FileInfo>, ceiling: u64, batches: Seq<Seq<FileInfo>>) -> bool {
    &&& batches.flatten() == flat
    &&& forall|k: int| 0 <= k < batches.len() ==> deliverable(#[trigger] batches[k], ceiling)
    &&& closed_when_needed(batches, ceiling)
}

/// What `batches` is to `items` when it is their packing under `ceiling`:
/// the greedy split of the files that fit.
pub open spec fn is_packing(items: Seq<FileInfo>, ceiling: u64, batches: Seq<Seq<FileInfo>>) -> bool {
    is_greedy_split(items.filter(fits(ceiling)), ceiling, batches)
}

/// The packing of `items` under `ceiling`: there is one
/// (`lemma_packing_exists`) and no second one (`lemma_packing_unique`).
pub open spec fn packing(items: Seq<FileInfo>, ceiling: u64) -> Seq<Seq<FileInfo>> {
    choose|batches: Seq<Seq<FileInfo>>| is_packing(items, ceiling, batches)
}

/// The batches of `v` as sequences.
pub open spec fn batches_of(v: Seq<Vec<FileInfo>>) -> Seq<Seq<FileInfo>> {
    v.map_values(|b: Vec<FileInfo>| b@)
}

/// The text of the failure reported for a file of `size` bytes under a
/// ceiling of `ceiling` bytes.
pub open spec fn too_large_reason(size: u64, ceiling: u64) -> Seq<char> {
    "file is too large: "@ + decimal(size as nat) + " > "@ + decimal(ceiling as nat)
}

/// A failure entry as text: the path, then the reason.
pub open spec fn entry_text(entry: (String, String)) -> (Seq<char>, Seq<char>) {
    (entry.0@, entry.1@)
}

/// A failure list as text.
pub open spec fn entries_text(failed: Seq<(String, String)>) -> Seq<(Seq<char>, Seq<char>)> {
    failed.map_values(|e: (String, String)| entry_text(e))
}

/// The failure entry of an oversized file.
pub open spec fn rejection_of(file: FileInfo, ceiling: u64) -> (Seq<char>, Seq<char>) {
    (file.path@, too_large_reason(file.size, ceiling))
}

/// The failures that packing `items` under `ceiling` reports: one entry for
/// each oversized file, in order.
pub open spec fn rejections(items: Seq<FileInfo>, ceiling: u64) -> Seq<(Seq<char>, Seq<char>)> {
    items.filter(oversized(ceiling)).map_values(|f: FileInfo| rejection_of(f, ceiling))
}

fn too_large_message(size: u64, ceiling: u64) -> (text: String)
    ensures
        text@ == too_large_reason(size, ceiling),
{
    let mut out = chars_of("file is too large: ");
    let digits = decimal_chars(size);
    push_all(&mut out, &digits);
    let sep = chars_of(" > ");
    push_all(&mut out, &sep);
    let limit = decimal_chars(ceiling);
    push_all(&mut out, &limit);
    string_of(&out)
}

/// Adding a file to a batch adds its size to the total.
pub proof fn lemma_total_size_push(batch: Seq<FileInfo>, f: FileInfo)
    ensures
        total_size(batch.push(f)) == total_size(batch) + f.size,
{
    assert(batch.push(f).drop_last() == batch);
}

/// The first files of a batch are no larger together than the whole batch.
pub proof fn lemma_total_size_prefix(batch: Seq<FileInfo>, n: int)
    requires
        0 <= n <= batch.len(),
    ensures
        0 <= total_size(batch.take(n)) <= total_size(batch),
    decreases batch.len(),
{
    if n == batch.len() {
        assert(batch.take(n) == batch);
        if batch.len() > 0 {
            lemma_total_size_prefix(batch.drop_last(), n - 1);
        }
    } else {
        assert(batch.take(n) == batch.drop_last().take(n));
        lemma_total_size_prefix(batch.drop_last(), n);
    }
}

proof fn lemma_flatten_unfold(batches: Seq<Seq<FileInfo>>)
    requires
        batches.len() > 0,
    ensures
        batches.flatten() == batches[0] + batches.drop_first().flatten(),
{
}

proof fn lemma_rest_is_greedy_split(flat: Seq<FileInfo>, ceiling: u64, batches: Seq<Seq<FileInfo>>)
    requires
        is_greedy_split(flat, ceiling, batches),
        batches.len() > 0,
    ensures
        batches[0].len() <= flat.len(),
        batches[0] == flat.take(batches[0].len() as int),
        is_greedy_split(flat.skip(batches[0].len() as int), ceiling, batches.drop_first()),
{
    reveal(is_greedy_split);
    let rest = batches.drop_first();
    lemma_flatten_unfold(batches);
    assert(flat.take(batches[0].len() as int) == batches[0]);
    assert(flat.skip(batches[0].len() as int) == rest.flatten());
    assert forall|k: int| 0 <= k < rest.len() implies deliverable(#[trigger] rest[k], ceiling) by {
        assert(rest[k] == batches[k + 1]);
    }
    assert forall|k: int| 0 <= k < rest.len() - 1 implies {
        ||| (#[trigger] rest[k]).len() == MAX_GROUP_ITEMS
        ||| total_size(rest[k]) + rest[k + 1][0].size > ceiling
    } by {
        assert(rest[k] == batches[k + 1]);
        assert(rest[k + 1] == batches[k + 2]);
    }
}

proof fn lemma_first_batch_not_shorter(
    flat: Seq<FileInfo>,
    ceiling: u64,
    b1: Seq<Seq<FileInfo>>,
    b2: Seq<Seq<FileInfo>>,
)
    requires
        is_greedy_split(flat, ceiling, b1),
        is_greedy_split(flat, ceiling, b2),
        b1.len() > 0,
        b2.len() > 0,
    ensures
        b1[0].len() >= b2[0].len(),
{
    reveal(is_greedy_split);
    let n = b1[0].len() as int;
    if n < b2[0].len() {
        lemma_rest_is_greedy_split(flat, ceiling, b1);
        lemma_rest_is_greedy_split(flat, ceiling, b2);
        let rest = b1.drop_first();
        assert(rest.flatten().len() > 0);
        assert(rest.len() > 0) by {
            if rest.len() == 0 {
                assert(rest.flatten() == Seq::<FileInfo>::empty());
            }
        }
        lemma_flatten_unfold(rest);
        assert(deliverable(rest[0], ceiling));
        assert(b1[1] == rest[0]);
        let next = b1[1][0];
        assert(next == flat[n]);
        assert(next == b2[0][n]);
        assert(b2[0].take(n + 1) == b1[0].push(next));
        lemma_total_size_push(b1[0], next);
        lemma_total_size_prefix(b2[0], n + 1);
        assert(deliverable(b2[0], ceiling));
        assert(deliverable(b1[0], ceiling));
    }
}

proof fn lemma_split_of_nothing(flat: Seq<FileInfo>, ceiling: u64, batches: Seq<Seq<FileInfo>>)
    requires
        is_greedy_split(flat, ceiling, batches),
    ensures
        batches.len() == 0 <==> flat.len() == 0,
{
    reveal(is_greedy_split);
    if batches.len() > 0 {
        lemma_flatten_unfold(batches);
        assert(deliverable(batches[0], ceiling));
    } else {
        assert(batches.flatten() == Seq::<FileInfo>::empty());
    }
}

proof fn lemma_greedy_split_unique(
    flat: Seq<FileInfo>,
    ceiling: u64,
    b1: Seq<Seq<FileInfo>>,
    b2: Seq<Seq<FileInfo>>,
)
    requires
        is_greedy_split(flat, ceiling, b1),
        is_greedy_split(flat, ceiling, b2),
    ensures
        b1 == b2,
    decreases b1.len(),
{
    lemma_split_of_nothing(flat, ceiling, b1);
    lemma_split_of_nothing(flat, ceiling, b2);
    if b1.len() == 0 {
        assert(b1 =~= b2);
    } else {
        lemma_first_batch_not_shorter(flat, ceiling, b1, b2);
        lemma_first_batch_not_shorter(flat, ceiling, b2, b1);
        lemma_rest_is_greedy_split(flat, ceiling, b1);
        lemma_rest_is_greedy_split(flat, ceiling, b2);
        let n = b1[0].len() as int;
        assert(b1[0] == b2[0]);
        lemma_greedy_split_unique(flat.skip(n), ceiling, b1.drop_first(), b2.drop_first());
        assert(b1 =~= seq![b1[0]] + b1.drop_first());
        assert(b2 =~= seq![b2[0]] + b2.drop_first());
    }
}

/// How many files at the front of `flat` go into one batch, given that the
/// first `n` do: files are added while there are fewer than ten and the
/// next one does not take the batch over the ceiling.
pub open spec fn filled(flat: Seq<FileInfo>, ceiling: u64, n: int) -> int
    decreases flat.len() - n,
{
    if 0 <= n < flat.len() && n < MAX_GROUP_ITEMS && total_size(flat.take(n + 1)) <= ceiling {
        filled(flat, ceiling, n + 1)
    } else {
        n
    }
}

/// The batches that are had by filling one batch after the other from the
/// front of `flat`.
pub open spec fn filled_batches(flat: Seq<FileInfo>, ceiling: u64) -> Seq<Seq<FileInfo>>
    decreases flat.len(),
{
    let n = filled(flat, ceiling, 0);
    if 0 < n <= flat.len() {
        seq![flat.take(n)] + filled_batches(flat.skip(n), ceiling)
    } else {
        Seq::empty()
    }
}

proof fn lemma_filled(flat: Seq<FileInfo>, ceiling: u64, n: int)
    requires
        0 <= n <= flat.len(),
        n <= MAX_GROUP_ITEMS,
        total_size(flat.take(n)) <= ceiling,
    ensures
        n <= filled(flat, ceiling, n) <= flat.len(),
        filled(flat, ceiling, n) <= MAX_GROUP_ITEMS,
        total_size(flat.take(filled(flat, ceiling, n))) <= ceiling,
        filled(flat, ceiling, n) < flat.len() ==> filled(flat, ceiling, n) == MAX_GROUP_ITEMS
            || total_size(flat.take(filled(flat, ceiling, n) + 1)) > ceiling,
    decreases flat.len() - n,
{
    if 0 <= n < flat.len() && n < MAX_GROUP_ITEMS && total_size(flat.take(n + 1)) <= ceiling {
        lemma_filled(flat, ceiling, n + 1);
    }
}

proof fn lemma_filled_batches_split(flat: Seq<FileInfo>, ceiling: u64)
    requires
        forall|i: int| 0 <= i < flat.len() ==> (#[trigger] flat[i]).size <= ceiling,
    ensures
        is_greedy_split(flat, ceiling, filled_batches(flat, ceiling)),
    decreases flat.len(),
{
    reveal(is_greedy_split);
    let batches = filled_batches(flat, ceiling);
    if flat.len() == 0 {
        assert(flat.take(0) == Seq::<FileInfo>::empty());
        lemma_filled(flat, ceiling, 0);
        assert(batches == Seq::<Seq<FileInfo>>::empty());
        assert(batches.flatten() == flat);
    } else {
        assert(flat.take(0) == Seq::<FileInfo>::empty());
        assert(flat.take(1) == Seq::<FileInfo>::empty().push(flat[0]));
        lemma_total_size_push(Seq::empty(), flat[0]);
        lemma_filled(flat, ceiling, 1);
        let n = filled(flat, ceiling, 0);
        assert(n == filled(flat, ceiling, 1));
        let first = flat.take(n);
        let tail = flat.skip(n);
        let rest = filled_batches(tail, ceiling);
        assert forall|i: int| 0 <= i < tail.len() implies (#[trigger] tail[i]).size <= ceiling by {
            assert(tail[i] == flat[n + i]);
        }
        lemma_filled_batches_split(tail, ceiling);
        assert(batches == seq![first] + rest);
        assert(batches[0] == first);
        assert(batches.drop_first() == rest);
        lemma_flatten_unfold(batches);
        assert(first + tail == flat);
        assert forall|k: int| 0 <= k < batches.len() implies deliverable(
            #[trigger] batches[k],
            ceiling,
        ) by {
            if k > 0 {
                assert(batches[k] == rest[k - 1]);
            }
        }
        assert forall|k: int| 0 <= k < batches.len() - 1 implies {
            ||| (#[trigger] batches[k]).len() == MAX_GROUP_ITEMS
            ||| total_size(batches[k]) + batches[k + 1][0].size > ceiling
        } by {
            assert(batches[k + 1] == rest[k]);
            if k > 0 {
                assert(batches[k] == rest[k - 1]);
            } else {
                lemma_split_of_nothing(tail, ceiling, rest);
                assert(n < flat.len());
                lemma_flatten_unfold(rest);
                assert(deliverable(rest[0], ceiling));
                assert(rest[0][0] == tail[0]);
                assert(tail[0] == flat[n]);
                assert(flat.take(n + 1) == first.push(flat[n]));
                lemma_total_size_push(first, flat[n]);
            }
        }
    }
}

/// Every list of files has a packing under every ceiling, and `packing`
/// names it.
pub proof fn lemma_packing_exists(items: Seq<FileInfo>, ceiling: u64)
    ensures
        is_packing(items, ceiling, packing(items, ceiling)),
{
    let flat = items.filter(fits(ceiling));
    assert forall|i: int| 0 <= i < flat.len() implies (#[trigger] flat[i]).size <= ceiling by {
        Seq::lemma_filter_pred(items, fits(ceiling), i);
    }
    lemma_filled_batches_split(flat, ceiling);
    assert(is_packing(items, ceiling, filled_batches(flat, ceiling)));
}

/// Two packings of the same files under the same ceiling are the same.
pub proof fn lemma_packing_unique(
    items: Seq<FileInfo>,
    ceiling: u64,
    b1: Seq<Seq<FileInfo>>,
    b2: Seq<Seq<FileInfo>>,
)
    requires
        is_packing(items, ceiling, b1),
    ensures
        is_packing(items, ceiling, b2) ==> b1 == b2,
        packing(items, ceiling) == b1,
{
    if is_packing(items, ceiling, b2) {
        lemma_greedy_split_unique(items.filter(fits(ceiling)), ceiling, b1, b2);
    }
    lemma_greedy_split_unique(items.filter(fits(ceiling)), ceiling, b1, packing(items, ceiling));
}

/// Packs `items` into batches, in order, under `max_size_bytes`.
///
/// A new batch is started when the current one holds ten files or when the
/// next file would take it over the ceiling. A file that is larger than the
/// ceiling by itself is left out of every batch and reported in the second
/// list with its path and the reason.
pub fn chunk(items: Vec<FileInfo>, max_size_bytes: u64) -> (out: (Vec<Vec<FileInfo>>, Vec<(String, String)>))
    ensures
        is_packing(items@, max_size_bytes, batches_of(out.0@)),
        batches_of(out.0@) == packing(items@, max_size_bytes),
        entries_text(out.1@) == rejections(items@, max_size_bytes),
        forall|k: int| 0 <= k < out.0.len() ==> 0 < (#[trigger] out.0@[k]).len() <= MAX_GROUP_ITEMS,
        forall|k: int| 0 <= k < out.0.len() ==> total_size((#[trigger] out.0@[k])@) <= max_size_bytes,
{
    let mut failed: Vec<(String, String)> = Vec::new();
    let mut res: Vec<Vec<FileInfo>> = Vec::new();
    let mut res_size: u64 = 0;
    let mut res_item: Vec<FileInfo> = Vec::new();
    let mut i: usize = 0;
    proof {
        reveal(Seq::filter);
        assert(items@.take(0).filter(fits(max_size_bytes)) == Seq::<FileInfo>::empty());
        assert(items@.take(0).filter(oversized(max_size_bytes)) == Seq::<FileInfo>::empty());
        assert(batches_of(res@) == Seq::<Seq<FileInfo>>::empty());
        assert(batches_of(res@).flatten() + res_item@ == Seq::<FileInfo>::empty());
        assert(entries_text(failed@) == rejections(items@.take(0), max_size_bytes));
    }
    while i < items.len()
        invariant
            i <= items.len(),
            res_size == total_size(res_item@),
            res_size <= max_size_bytes,
            res_item.len() <= MAX_GROUP_ITEMS,
            batches_of(res@).flatten() + res_item@ == items@.take(i as int).filter(fits(max_size_bytes)),
            forall|k: int| 0 <= k < res.len() ==> deliverable(#[trigger] batches_of(res@)[k], max_size_bytes),
            closed_when_needed(batches_of(res@), max_size_bytes),
            res.len() > 0 ==> res_item.len() > 0,
            res.len() > 0 ==> {
                ||| batches_of(res@).last().len() == MAX_GROUP_ITEMS
                ||| total_size(batches_of(res@).last()) + res_item@[0].size > max_size_bytes
            },
            entries_text(failed@) == rejections(items@.take(i as int), max_size_bytes),
        decreases items.len() - i,
    {
        let item = items[i].duplicate();
        let size = item.size;
        proof {
            assert(items@.take(i + 1) == items@.take(i as int).push(items@[i as int]));
            Seq::lemma_filter_push(items@.take(i as int), items@[i as int], fits(max_size_bytes));
            Seq::lemma_filter_push(items@.take(i as int), items@[i as int], oversized(max_size_bytes));
        }
        if size > max_size_bytes {
            let reason = too_large_message(size, max_size_bytes);
            let ghost before = failed@;
            failed.push((item.path, reason));
            proof {
                let rejected = items@.take(i as int).filter(oversized(max_size_bytes));
                assert(entries_text(failed@) == entries_text(before).push(
                    rejection_of(items@[i as int], max_size_bytes),
                ));
                assert(rejected.push(items@[i as int]).map_values(
                    |f: FileInfo| rejection_of(f, max_size_bytes),
                ) == rejected.map_values(|f: FileInfo| rejection_of(f, max_size_bytes)).push(
                    rejection_of(items@[i as int], max_size_bytes),
                ));
            }
        } else {
            if res_item.len() >= MAX_GROUP_ITEMS || size > max_size_bytes - res_size {
                proof {
                    Seq::lemma_flatten_push(batches_of(res@), res_item@);
                    assert(batches_of(res@.push(res_item)) == batches_of(res@).push(res_item@));
                    assert(res_item.len() > 0);
                }
                let ghost closed = res_item@;
                let ghost before = batches_of(res@);
                res.push(res_item);
                res_item = Vec::new();
                res_size = 0;
                proof {
                    let after = batches_of(res@);
                    assert(after == before.push(closed));
                    assert forall|k: int| 0 <= k < after.len() - 1 implies {
                        ||| (#[trigger] after[k]).len() == MAX_GROUP_ITEMS
                        ||| total_size(after[k]) + after[k + 1][0].size > max_size_bytes
                    } by {
                        if k < before.len() - 1 {
                            assert(after[k] == before[k]);
                            assert(after[k + 1] == before[k + 1]);
                        } else {
                            assert(after[k] == before.last());
                            assert(after[k + 1] == closed);
                        }
                    }
                    assert(total_size(res_item@) == 0);
                }
            }
            proof {
                lemma_total_size_push(res_item@, item);
            }
            res_item.push(item);
            res_size = res_size + size;
        }
        i += 1;
    }
    proof {
        assert(items@.take(items.len() as int) == items@);
    }
    if res_item.len() > 0 {
        let ghost closed = res_item@;
        let ghost before = batches_of(res@);
        proof {
            Seq::lemma_flatten_push(before, closed);
            assert(batches_of(res@.push(res_item)) == before.push(closed));
        }
        res.push(res_item);
        proof {
            let after = batches_of(res@);
            assert forall|k: int| 0 <= k < after.len() - 1 implies {
                ||| (#[trigger] after[k]).len() == MAX_GROUP_ITEMS
                ||| total_size(after[k]) + after[k + 1][0].size > max_size_bytes
            } by {
                if k < before.len() - 1 {
                    assert(after[k] == before[k]);
                    assert(after[k + 1] == before[k + 1]);
                } else {
                    assert(after[k] == before.last());
                    assert(after[k + 1] == closed);
                }
            }
        }
    } else {
        assert(batches_of(res@).flatten() + res_item@ == batches_of(res@).flatten());
    }
    proof {
        assert(is_packing(items@, max_size_bytes, batches_of(res@))) by {
            reveal(is_greedy_split);
        }
        lemma_packing_unique(items@, max_size_bytes, batches_of(res@), packing(items@, max_size_bytes));
        assert forall|k: int| 0 <= k < res.len() implies 0 < (#[trigger] res@[k]).len()
            <= MAX_GROUP_ITEMS && total_size(res@[k]@) <= max_size_bytes by {
            assert(deliverable(batches_of(res@)[k], max_size_bytes));
        }
    }
    (res, failed)
}

/// The files that fit and the files that are oversized are, together, all
/// the files.
pub proof fn lemma_fits_or_oversized(items: Seq<FileInfo>, ceiling: u64)
    ensures
        items.filter(fits(ceiling)).len() + items.filter(oversized(ceiling)).len() == items.len(),
    decreases items.len(),
{
    reveal(Seq::filter);
    if items.len() > 0 {
        lemma_fits_or_oversized(items.drop_last(), ceiling);
    }
}

/// No batch of a packing is empty, holds more than ten files, or is larger
/// than the ceiling.
pub proof fn law_batches_are_bounded(items: Seq<FileInfo>, ceiling: u64, batches: Seq<Seq<FileInfo>>)
    requires
        is_packing(items, ceiling, batches),
    ensures
        forall|k: int|
            0 <= k < batches.len() ==> {
                &&& 0 < (#[trigger] batches[k]).len() <= 10
                &&& total_size(batches[k]) <= ceiling
            },
{
    reveal(is_greedy_split);
    assert forall|k: int| 0 <= k < batches.len() implies {
        &&& 0 < (#[trigger] batches[k]).len() <= 10
        &&& total_size(batches[k]) <= ceiling
    } by {
        assert(deliverable(batches[k], ceiling));
    }
}

/// Every file is either in a batch or in the failure list, never in both
/// and never in neither: the batches hold the files that fit, in their
/// order, the failure list has one entry for each of the others, and the
/// two counts add up to the number of files.
pub proof fn law_every_file_is_accounted_for(
    items: Seq<FileInfo>,
    ceiling: u64,
    batches: Seq<Seq<FileInfo>>,
)
    requires
        is_packing(items, ceiling, batches),
    ensures
        batches.flatten() == items.filter(fits(ceiling)),
        batches.flatten().len() + rejections(items, ceiling).len() == items.len(),
        forall|f: FileInfo| #[trigger] batches.flatten().contains(f) ==> f.size <= ceiling,
{
    reveal(is_greedy_split);
    lemma_fits_or_oversized(items, ceiling);
    assert forall|f: FileInfo| #[trigger] batches.flatten().contains(f) implies f.size <= ceiling by {
        let flat = items.filter(fits(ceiling));
        let i = choose|i: int| 0 <= i < flat.len() && flat[i] == f;
        Seq::lemma_filter_pred(items, fits(ceiling), i);
    }
}

/// How a file is handed to the delivery.
#[derive(Clone, Copy, Debug, PartialEq, Eq)]
pub enum MediaKind {
    Audio,
    Document,
    Photo,
    Video,
}

/// The bucket in which a file is packed.
#[derive(Clone, Copy, Debug, PartialEq, Eq)]
pub enum ChunkGroup {
    Document,
    Audio,
    Other,
}

/// One file of a delivery batch: what it is sent as, and where it is.
#[derive(Debug)]
pub struct InputMedia {
    pub kind: MediaKind,
    pub path: String,
}

/// What was found out about one candidate file: the media type read off its
/// content, if any, and its size, or `None` where its metadata could not be
/// read.
#[derive(Debug)]
pub struct FileProbe {
    pub path: String,
    pub mime: Option<String>,
    pub size: Option<u64>,
}

/// The part of a media type before the first `/`.
pub open spec fn top_level_type(mime: Seq<char>) -> Seq<char> {
    mime.take(position(mime, '/'))
}

/// How a file of the given media type is sent. GIF and PNG images go out as
/// documents, so that they arrive unchanged; other files go by the top-level
/// type, and as documents where that is none of audio, image and video.
pub open spec fn media_kind_of(mime: Option<String>) -> MediaKind {
    match mime {
        None => MediaKind::Document,
        Some(m) => {
            let top = top_level_type(m@);
            if m@ == "image/gif"@ || m@ == "image/png"@ {
                MediaKind::Document
            } else if same_ignoring_ascii_case(top, "audio"@) {
                MediaKind::Audio
            } else if same_ignoring_ascii_case(top, "image"@) {
                MediaKind::Photo
            } else if same_ignoring_ascii_case(top, "video"@) {
                MediaKind::Video
            } else {
                MediaKind::Document
            }
        },
    }
}

/// The bucket of a media kind: audio and documents each have their own, and
/// photos and videos share the third.
pub open spec fn group_of(kind: MediaKind) -> ChunkGroup {
    match kind {
        MediaKind::Audio => ChunkGroup::Audio,
        MediaKind::Document => ChunkGroup::Document,
        MediaKind::Photo => ChunkGroup::Other,
        MediaKind::Video => ChunkGroup::Other,
    }
}

/// Decides how a file of the given media type is sent.
pub fn media_kind(mime: &Option<String>) -> (kind: MediaKind)
    ensures
        kind == media_kind_of(*mime),
{
    match mime {
        None => MediaKind::Document,
        Some(m) => {
            let chars = chars_of(m.as_str());
            if is_text(&chars, "image/gif") || is_text(&chars, "image/png") {
                return MediaKind::Document;
            }
            let cut = find_char(&chars, '/');
            proof {
                crate::text::lemma_position(chars@, '/');
            }
            let top = slice_chars(&chars, 0, cut);
            assert(top@ == top_level_type(m@));
            if is_text_ignoring_ascii_case(&top, "audio") {
                MediaKind::Audio
            } else if is_text_ignoring_ascii_case(&top, "image") {
                MediaKind::Photo
            } else if is_text_ignoring_ascii_case(&top, "video") {
                MediaKind::Video
            } else {
                MediaKind::Document
            }
        },
    }
}

/// Decides the bucket of a media kind.
pub fn chunk_group(kind: MediaKind) -> (group: ChunkGroup)
    ensures
        group == group_of(kind),
{
    match kind {
        MediaKind::Audio => ChunkGroup::Audio,
        MediaKind::Document => ChunkGroup::Document,
        MediaKind::Photo => ChunkGroup::Other,
        MediaKind::Video => ChunkGroup::Other,
    }
}

/// Whether the metadata of a probed file could be read.
pub open spec fn is_readable() -> spec_fn(FileProbe) -> bool {
    |p: FileProbe| p.size is Some
}

/// Whether the metadata of a probed file could not be read.
pub open spec fn is_unreadable() -> spec_fn(FileProbe) -> bool {
    |p: FileProbe| p.size is None
}

/// The file record of a readable probe.
pub open spec fn info_of(p: FileProbe) -> FileInfo {
    FileInfo { path: p.path, size: p.size->0, mime: p.mime }
}

/// The failure entry of a probe whose metadata could not be read.
pub open spec fn unreadable_entry(p: FileProbe) -> (Seq<char>, Seq<char>) {
    (p.path@, "failed to get metadata for file"@)
}

/// The files whose metadata could be read, in order.
pub open spec fn readable(probes: Seq<FileProbe>) -> Seq<FileInfo> {
    probes.filter(is_readable()).map_values(|p: FileProbe| info_of(p))
}

/// The failures for the files whose metadata could not be read, in order.
pub open spec fn unreadable(probes: Seq<FileProbe>) -> Seq<(Seq<char>, Seq<char>)> {
    probes.filter(is_unreadable()).map_values(|p: FileProbe| unreadable_entry(p))
}

/// Sorts the probed files into those that can be packed and those that
/// cannot: a file whose metadata could not be read goes to the failure list
/// at once. Both lists keep the order of `files`.
pub fn infos_from_files(files: Vec<FileProbe>) -> (out: (Vec<FileInfo>, Vec<(String, String)>))
    ensures
        out.0@ == readable(files@),
        entries_text(out.1@) == unreadable(files@),
        out.0.len() + out.1.len() == files.len(),
{
    let mut infos: Vec<FileInfo> = Vec::new();
    let mut failed: Vec<(String, String)> = Vec::new();
    let mut i: usize = 0;
    proof {
        reveal(Seq::filter);
        assert(files@.take(0).filter(is_readable()) == Seq::<FileProbe>::empty());
        assert(files@.take(0).filter(is_unreadable()) == Seq::<FileProbe>::empty());
        assert(infos@ == readable(files@.take(0)));
        assert(entries_text(failed@) == unreadable(files@.take(0)));
    }
    while i < files.len()
        invariant
            i <= files.len(),
            infos@ == readable(files@.take(i as int)),
            entries_text(failed@) == unreadable(files@.take(i as int)),
            infos.len() + failed.len() == i,
        decreases files.len() - i,
    {
        let probe = &files[i];
        proof {
            let seen = files@.take(i as int);
            assert(files@.take(i + 1) == seen.push(files@[i as int]));
            Seq::lemma_filter_push(seen, files@[i as int], is_readable());
            Seq::lemma_filter_push(seen, files@[i as int], is_unreadable());
            let ok = seen.filter(is_readable());
            let bad = seen.filter(is_unreadable());
            assert(ok.push(files@[i as int]).map_values(|p: FileProbe| info_of(p)) == ok.map_values(
                |p: FileProbe| info_of(p),
            ).push(info_of(files@[i as int])));
            assert(bad.push(files@[i as int]).map_values(|p: FileProbe| unreadable_entry(p))
                == bad.map_values(|p: FileProbe| unreadable_entry(p)).push(
                unreadable_entry(files@[i as int]),
            ));
        }
        let path = probe.path.clone();
        match probe.size {
            Some(size) => {
                let mime = match &probe.mime {
                    Some(m) => Some(m.clone()),
                    None => None,
                };
                infos.push(FileInfo { path, size, mime });
            },
            None => {
                let ghost before = failed@;
                let reason = string_of(&chars_of("failed to get metadata for file"));
                failed.push((path, reason));
                assert(entries_text(failed@) == entries_text(before).push(
                    unreadable_entry(files@[i as int]),
                ));
            },
        }
        i += 1;
    }
    proof {
        assert(files@.take(files.len() as int) == files@);
    }
    (infos, failed)
}

/// Whether a file is packed in `group`.
pub open spec fn in_group(group: ChunkGroup) -> spec_fn(FileInfo) -> bool {
    |f: FileInfo| group_of(media_kind_of(f.mime)) == group
}

/// The files of `infos` that are packed in `group`, in order.
pub open spec fn members(infos: Seq<FileInfo>, group: ChunkGroup) -> Seq<FileInfo> {
    infos.filter(in_group(group))
}

/// What a file is sent as.
pub open spec fn media_of(f: FileInfo) -> InputMedia {
    InputMedia { kind: media_kind_of(f.mime), path: f.path }
}

/// The batches of `batches` as they are sent.
pub open spec fn media_batches(batches: Seq<Seq<FileInfo>>) -> Seq<Seq<InputMedia>> {
    batches.map_values(|b: Seq<FileInfo>| b.map_values(|f: FileInfo| media_of(f)))
}

/// The batches of `v` as sequences.
pub open spec fn media_view(v: Seq<Vec<InputMedia>>) -> Seq<Seq<InputMedia>> {
    v.map_values(|b: Vec<InputMedia>| b@)
}

/// The files of `infos` that are packed in `group`, in order.
pub fn select_group(infos: &Vec<FileInfo>, group: ChunkGroup) -> (out: Vec<FileInfo>)
    ensures
        out@ == members(infos@, group),
{
    let mut out: Vec<FileInfo> = Vec::new();
    let mut i: usize = 0;
    proof {
        reveal(Seq::filter);
        assert(infos@.take(0).filter(in_group(group)) == Seq::<FileInfo>::empty());
    }
    while i < infos.len()
        invariant
            i <= infos.len(),
            out@ == members(infos@.take(i as int), group),
        decreases infos.len() - i,
    {
        proof {
            assert(infos@.take(i + 1) == infos@.take(i as int).push(infos@[i as int]));
            Seq::lemma_filter_push(infos@.take(i as int), infos@[i as int], in_group(group));
        }
        let g = chunk_group(media_kind(&infos[i].mime));
        let same = match (g, group) {
            (ChunkGroup::Document, ChunkGroup::Document) => true,
            (ChunkGroup::Audio, ChunkGroup::Audio) => true,
            (ChunkGroup::Other, ChunkGroup::Other) => true,
            _ => false,
        };
        if same {
            out.push(infos[i].duplicate());
        }
        i += 1;
    }
    proof {
        assert(infos@.take(infos.len() as int) == infos@);
    }
    out
}

fn to_media(batch: &Vec<FileInfo>) -> (out: Vec<InputMedia>)
    ensures
        out@ == batch@.map_values(|f: FileInfo| media_of(f)),
{
    let mut out: Vec<InputMedia> = Vec::new();
    let mut i: usize = 0;
    while i < batch.len()
        invariant
            i <= batch.len(),
            out@ == batch@.take(i as int).map_values(|f: FileInfo| media_of(f)),
        decreases batch.len() - i,
    {
        let f = &batch[i];
        out.push(InputMedia { kind: media_kind(&f.mime), path: f.path.clone() });
        i += 1;
        assert(batch@.take(i as int) == batch@.take(i - 1).push(batch@[i - 1]));
    }
    proof {
        assert(batch@.take(batch.len() as int) == batch@);
    }
    out
}

fn pack_group(
    infos: &Vec<FileInfo>,
    group: ChunkGroup,
    max_size: u64,
    res: &mut Vec<Vec<InputMedia>>,
    failed: &mut Vec<(String, String)>,
)
    requires
        forall|k: int| 0 <= k < old(res).len() ==> 0 < (#[trigger] old(res)@[k]).len() <= MAX_GROUP_ITEMS,
    ensures
        media_view(final(res)@) == media_view(old(res)@) + media_batches(
            packing(members(infos@, group), max_size),
        ),
        entries_text(final(failed)@) == entries_text(old(failed)@) + rejections(
            members(infos@, group),
            max_size,
        ),
        forall|k: int| 0 <= k < final(res).len() ==> 0 < (#[trigger] final(res)@[k]).len() <= MAX_GROUP_ITEMS,
{
    let selected = select_group(infos, group);
    let (chunks, mut failed_inner) = chunk(selected, max_size);
    let ghost packed = packing(members(infos@, group), max_size);
    let ghost failed_before = failed@;
    failed.append(&mut failed_inner);
    assert(entries_text(failed@) == entries_text(failed_before) + rejections(
        members(infos@, group),
        max_size,
    ));
    let mut i: usize = 0;
    while i < chunks.len()
        invariant
            i <= chunks.len(),
            batches_of(chunks@) == packed,
            media_view(res@) == media_view(old(res)@) + media_batches(packed.take(i as int)),
            forall|k: int| 0 <= k < chunks.len() ==> 0 < (#[trigger] chunks@[k]).len() <= MAX_GROUP_ITEMS,
            forall|k: int| 0 <= k < res.len() ==> 0 < (#[trigger] res@[k]).len() <= MAX_GROUP_ITEMS,
        decreases chunks.len() - i,
    {
        let media = to_media(&chunks[i]);
        let ghost before = res@;
        res.push(media);
        i += 1;
        proof {
            assert(packed[i - 1] == chunks@[i - 1]@);
            assert(packed.take(i as int) == packed.take(i - 1).push(packed[i - 1]));
            assert(media_view(res@) == media_view(before).push(media@));
            assert(media_batches(packed.take(i as int)) == media_batches(packed.take(i - 1)).push(
                media@,
            ));
        }
    }
    proof {
        assert(packed.take(chunks.len() as int) == packed);
    }
}

/// The batches that `files_to_input_media_groups` produces: the packing of
/// the documents, then that of the audio files, then that of the photos and
/// videos.
pub open spec fn expected_batches(probes: Seq<FileProbe>, ceiling: u64) -> Seq<Seq<InputMedia>> {
    let infos = readable(probes);
    media_batches(packing(members(infos, ChunkGroup::Document), ceiling)) + media_batches(
        packing(members(infos, ChunkGroup::Audio), ceiling),
    ) + media_batches(packing(members(infos, ChunkGroup::Other), ceiling))
}

/// The failures that `files_to_input_media_groups` reports: the files whose
/// metadata could not be read, then the oversized files bucket by bucket.
pub open spec fn expected_failures(probes: Seq<FileProbe>, ceiling: u64) -> Seq<(Seq<char>, Seq<char>)> {
    let infos = readable(probes);
    unreadable(probes) + rejections(members(infos, ChunkGroup::Document), ceiling) + rejections(
        members(infos, ChunkGroup::Audio),
        ceiling,
    ) + rejections(members(infos, ChunkGroup::Other), ceiling)
}

/// Groups the probed files into delivery batches.
///
/// A file whose metadata could not be read is reported as a failure. The
/// others are sorted into three buckets (documents, audio, and the rest) and
/// each bucket is packed by itself, in the order of `files`, into batches of
/// at most ten files and at most `max_size` bytes; a file larger than that on
/// its own is reported as a failure.
pub fn files_to_input_media_groups(files: Vec<FileProbe>, max_size: u64) -> (out: (
    Vec<Vec<InputMedia>>,
    Vec<(String, String)>,
))
    ensures
        media_view(out.0@) == expected_batches(files@, max_size),
        entries_text(out.1@) == expected_failures(files@, max_size),
        forall|k: int| 0 <= k < out.0.len() ==> 0 < (#[trigger] out.0@[k]).len() <= MAX_GROUP_ITEMS,
{
    let (infos, mut failed) = infos_from_files(files);
    let mut res: Vec<Vec<InputMedia>> = Vec::new();
    assert(media_view(res@) == Seq::<Seq<InputMedia>>::empty());
    pack_group(&infos, ChunkGroup::Document, max_size, &mut res, &mut failed);
    pack_group(&infos, ChunkGroup::Audio, max_size, &mut res, &mut failed);
    pack_group(&infos, ChunkGroup::Other, max_size, &mut res, &mut failed);
    (res, failed)
}

} // verus!
