//! The decisions behind the longer operations of the workspace: how the
//! files of a scan reach the index in batches, and under which name an
//! exported file is written.

use vstd::prelude::*;
use crate::db::assets::{upsert_asset_statement, upsert_asset_view};
use crate::db::engine::{
    affected_since, each_changed, execute_each, statements_view, Index, Statement, StatementView,
};
use crate::db::records::{ScanProgress, ScanProgressView};
use crate::scanner::{ScannedFile, ScannedFileView};
use crate::text::{decimal, lemma_decimal_injective, push_decimal};
use crate::thumbnail::ThumbResult;

verus! {

/// The number of files that are written to the index in one go.
pub const SCAN_BATCH_SIZE: usize = 20;

/// A scanned file with what is known of its thumbnail.
#[derive(Debug, Clone)]
pub struct ScanItem {
    pub file: ScannedFile,
    pub thumb_path: String,
    pub width: u32,
    pub height: u32,
}

pub struct ScanItemView {
    pub file: ScannedFileView,
    pub thumb_path: Seq<char>,
    pub width: u32,
    pub height: u32,
}

impl View for ScanItem {
    type V = ScanItemView;

    open spec fn view(&self) -> ScanItemView {
        ScanItemView {
            file: self.file@,
            thumb_path: self.thumb_path@,
            width: self.width,
            height: self.height,
        }
    }
}

/// The views of a list of scan items.
pub open spec fn items_view(items: Seq<ScanItem>) -> Seq<ScanItemView> {
    items.map_values(|i: ScanItem| i@)
}

/// Joins a scanned file with its thumbnail. A file without one, because
/// none can be made for its kind or because making it failed, is indexed
/// with no thumbnail path and no dimensions.
pub fn scan_item(file: ScannedFile, thumb: Option<ThumbResult>) -> (r: ScanItem)
    ensures
        r@ == match thumb {
            Some(t) => ScanItemView {
                file: file@,
                thumb_path: t.thumb_path@,
                width: t.width,
                height: t.height,
            },
            None => ScanItemView { file: file@, thumb_path: Seq::empty(), width: 0, height: 0 },
        },
{
    match thumb {
        Some(t) => ScanItem { file, thumb_path: t.thumb_path, width: t.width, height: t.height },
        None => ScanItem { file, thumb_path: String::new(), width: 0, height: 0 },
    }
}

/// Gathers the files of one scan into batches for the index and keeps
/// count of what has been handed on.
#[derive(Debug)]
pub struct ScanBatcher {
    pub folder_id: i64,
    pub total: u32,
    pub processed: u32,
    pub pending: Vec<ScanItem>,
}

/// A progress report.
pub open spec fn progress(
    folder_id: i64,
    current: u32,
    total: u32,
    file_name: Seq<char>,
    phase: Seq<char>,
) -> ScanProgressView {
    ScanProgressView { folder_id, current, total, file_name, phase }
}

impl ScanBatcher {
    /// Fewer than a batch is waiting, and no more files were taken in than
    /// the scan announced.
    pub open spec fn well_formed(&self) -> bool {
        &&& self.pending@.len() < SCAN_BATCH_SIZE
        &&& self.processed + self.pending@.len() <= self.total
    }

    /// The number of files taken in so far.
    pub open spec fn taken(&self) -> int {
        self.processed + self.pending@.len()
    }

    /// A batcher for a scan of `total` files.
    pub fn new(folder_id: i64, total: u32) -> (r: ScanBatcher)
        ensures
            r.well_formed(),
            r.folder_id == folder_id,
            r.total == total,
            r.processed == 0,
            r.pending@.len() == 0,
    {
        ScanBatcher { folder_id, total, processed: 0, pending: Vec::new() }
    }

    /// The report that opens a scan.
    pub fn started(&self) -> (r: ScanProgress)
        ensures
            r@ == progress(self.folder_id, 0, self.total, Seq::empty(), "scanning"@),
    {
        ScanProgress {
            folder_id: self.folder_id,
            current: 0,
            total: self.total,
            file_name: String::new(),
            phase: String::from_str("scanning"),
        }
    }

    /// Takes in one file. When that fills a batch, the batch is handed out
    /// to be written, in the order in which its files came in, together
    /// with a report that names the file that filled it.
    pub fn push(&mut self, item: ScanItem) -> (r: Option<(Vec<ScanItem>, ScanProgress)>)
        requires
            old(self).well_formed(),
            old(self).taken() < old(self).total,
        ensures
            final(self).well_formed(),
            final(self).folder_id == old(self).folder_id,
            final(self).total == old(self).total,
            final(self).taken() == old(self).taken() + 1,
            r is Some <==> old(self).pending@.len() + 1 >= SCAN_BATCH_SIZE,
            match r {
                Some((batch, report)) => {
                    &&& batch@ == old(self).pending@.push(item)
                    &&& batch@.len() == SCAN_BATCH_SIZE
                    &&& final(self).pending@.len() == 0
                    &&& report@ == progress(
                        old(self).folder_id,
                        final(self).processed,
                        old(self).total,
                        item.file.name@,
                        "thumbnails"@,
                    )
                },
                None => {
                    &&& final(self).pending@ == old(self).pending@.push(item)
                    &&& final(self).processed == old(self).processed
                },
            },
    {
        let name = item.file.name.clone();
        self.pending.push(item);
        if self.pending.len() >= SCAN_BATCH_SIZE {
            let mut batch: Vec<ScanItem> = Vec::new();
            core::mem::swap(&mut batch, &mut self.pending);
            self.processed = self.processed + SCAN_BATCH_SIZE as u32;
            let report = ScanProgress {
                folder_id: self.folder_id,
                current: self.processed,
                total: self.total,
                file_name: name,
                phase: String::from_str("thumbnails"),
            };
            Some((batch, report))
        } else {
            None
        }
    }

    /// Ends the scan: hands out the files that are still waiting, which may
    /// be none, and the closing report, which counts every file taken in.
    pub fn finish(self) -> (r: (Vec<ScanItem>, ScanProgress))
        requires
            self.well_formed(),
        ensures
            r.0@ == self.pending@,
            r.1@ == progress(
                self.folder_id,
                self.taken() as u32,
                self.total,
                Seq::empty(),
                "complete"@,
            ),
    {
        let done: u32 = self.processed + self.pending.len() as u32;
        let report = ScanProgress {
            folder_id: self.folder_id,
            current: done,
            total: self.total,
            file_name: String::new(),
            phase: String::from_str("complete"),
        };
        (self.pending, report)
    }
}

/// The files still waiting after `items` have been taken in, one after the
/// other, by a batcher that had none.
pub open spec fn waiting_after(items: Seq<ScanItemView>) -> Seq<ScanItemView>
    decreases items.len(),
{
    if items.len() == 0 {
        Seq::empty()
    } else {
        let filled = waiting_after(items.drop_last()).push(items.last());
        if filled.len() >= SCAN_BATCH_SIZE {
            Seq::empty()
        } else {
            filled
        }
    }
}

/// The batches handed out while `items` were taken in, in their order.
pub open spec fn batches_of(items: Seq<ScanItemView>) -> Seq<Seq<ScanItemView>>
    decreases items.len(),
{
    if items.len() == 0 {
        Seq::empty()
    } else {
        let filled = waiting_after(items.drop_last()).push(items.last());
        if filled.len() >= SCAN_BATCH_SIZE {
            batches_of(items.drop_last()).push(filled)
        } else {
            batches_of(items.drop_last())
        }
    }
}

/// The members of the batches, one batch after the other.
pub open spec fn joined(batches: Seq<Seq<ScanItemView>>) -> Seq<ScanItemView>
    decreases batches.len(),
{
    if batches.len() == 0 {
        Seq::empty()
    } else {
        joined(batches.drop_last()) + batches.last()
    }
}

/// Batching neither loses nor reorders: the batches handed out, followed by
/// what is still waiting, are the files taken in, in the order in which
/// they came. Every batch handed out is full, and less than a batch is
/// waiting.
pub proof fn law_batches_partition(items: Seq<ScanItemView>)
    ensures
        joined(batches_of(items)) + waiting_after(items) == items,
        forall|k: int|
            0 <= k < batches_of(items).len() ==> (#[trigger] batches_of(items)[k]).len()
                == SCAN_BATCH_SIZE,
        waiting_after(items).len() < SCAN_BATCH_SIZE,
        batches_of(items).len() * SCAN_BATCH_SIZE + waiting_after(items).len() == items.len(),
    decreases items.len(),
{
    if items.len() == 0 {
        assert(joined(batches_of(items)) + waiting_after(items) =~= items);
    } else {
        let earlier = items.drop_last();
        law_batches_partition(earlier);
        let filled = waiting_after(earlier).push(items.last());
        assert(joined(batches_of(earlier)) + filled =~= (joined(batches_of(earlier))
            + waiting_after(earlier)).push(items.last()));
        assert(earlier.push(items.last()) =~= items);
        if filled.len() >= SCAN_BATCH_SIZE {
            let all = batches_of(earlier).push(filled);
            assert(all.drop_last() =~= batches_of(earlier));
            assert(joined(all) + Seq::<ScanItemView>::empty() =~= joined(all));
            assert forall|k: int| 0 <= k < all.len() implies (#[trigger] all[k]).len()
                == SCAN_BATCH_SIZE by {
                if k < batches_of(earlier).len() {
                    assert(all[k] == batches_of(earlier)[k]);
                }
            }
            assert((batches_of(earlier).len() + 1) * SCAN_BATCH_SIZE == batches_of(earlier).len()
                * SCAN_BATCH_SIZE + SCAN_BATCH_SIZE) by (nonlinear_arith);
        }
    }
}

/// A size or time in seconds as the index stores it: as it is, or the
/// largest storable number if it is larger than that.
pub open spec fn stored_number(n: u64) -> i64 {
    if n > i64::MAX {
        i64::MAX
    } else {
        n as i64
    }
}

pub fn to_stored_number(n: u64) -> (r: i64)
    ensures
        r == stored_number(n),
{
    if n > 0x7fff_ffff_ffff_ffff {
        0x7fff_ffff_ffff_ffff
    } else {
        n as i64
    }
}

/// The statement that writes one scan item under a folder.
pub open spec fn write_item_view(folder_id: i64, item: ScanItemView) -> StatementView {
    upsert_asset_view(
        folder_id,
        item.file.path,
        item.file.name,
        item.file.ext,
        stored_number(item.file.size),
        item.width,
        item.height,
        item.thumb_path,
        stored_number(item.file.modified),
    )
}

/// The statements that write a batch, one for each item and in order.
pub open spec fn write_batch_views(folder_id: i64, batch: Seq<ScanItemView>) -> Seq<StatementView> {
    Seq::new(batch.len(), |k: int| write_item_view(folder_id, batch[k]))
}

/// Writes a batch to the index, one statement for each file and in order.
/// A file that the engine refuses is passed over and the rest go on; the
/// number returned counts the files whose statement changed a row.
pub fn write_batch(index: &mut Index, folder_id: i64, batch: &Vec<ScanItem>) -> (r: usize)
    ensures
        each_changed(
            old(index).trace(),
            final(index).trace(),
            write_batch_views(folder_id, items_view(batch@)),
        ),
        r == affected_since(old(index).trace(), final(index).trace()),
        r <= batch@.len(),
{
    let mut statements: Vec<Statement> = Vec::new();
    let mut i: usize = 0;
    while i < batch.len()
        invariant
            i <= batch@.len(),
            statements_view(statements@) == write_batch_views(
                folder_id,
                items_view(batch@).take(i as int),
            ),
        decreases batch@.len() - i,
    {
        let item = &batch[i];
        let st = upsert_asset_statement(
            folder_id,
            item.file.path.as_str(),
            item.file.name.as_str(),
            item.file.ext.as_str(),
            to_stored_number(item.file.size),
            item.width,
            item.height,
            item.thumb_path.as_str(),
            to_stored_number(item.file.modified),
        );
        proof {
            let all = items_view(batch@);
            assert(statements_view(statements@.push(st)) =~= statements_view(statements@).push(
                st@,
            ));
            assert(all.take(i + 1)[i as int] == batch@[i as int]@);
            assert(write_batch_views(folder_id, all.take(i + 1)) =~= write_batch_views(
                folder_id,
                all.take(i as int),
            ).push(write_item_view(folder_id, batch@[i as int]@)));
        }
        statements.push(st);
        i += 1;
    }
    assert(items_view(batch@).take(batch@.len() as int) =~= items_view(batch@));
    execute_each(index, &statements)
}

/// The name under which a file is exported at the given attempt. The first
/// attempt uses the file's own name; each later one puts an underscore and
/// the number of the attempt behind the stem, before the extension if
/// there is one.
pub open spec fn export_name(
    file_name: Seq<char>,
    stem: Seq<char>,
    ext: Seq<char>,
    attempt: nat,
) -> Seq<char> {
    if attempt == 0 {
        file_name
    } else if ext.len() == 0 {
        stem + "_"@ + decimal(attempt)
    } else {
        stem + "_"@ + decimal(attempt) + "."@ + ext
    }
}

/// Builds the name for one attempt at exporting a file. The caller tries
/// attempt zero, then one, and so on, until the name is free in the target
/// directory.
pub fn export_candidate(file_name: &str, stem: &str, ext: &str, attempt: u32) -> (r: String)
    ensures
        r@ == export_name(file_name@, stem@, ext@, attempt as nat),
{
    if attempt == 0 {
        return String::from_str(file_name);
    }
    let mut name = String::from_str(stem);
    name.append("_");
    push_decimal(&mut name, attempt as u128);
    if !ext.is_empty() {
        name.append(".");
        name.append(ext);
    }
    name
}

/// No two numbered attempts give the same name, so trying them in turn
/// never tries a name twice.
pub proof fn law_export_names_differ(
    file_name: Seq<char>,
    stem: Seq<char>,
    ext: Seq<char>,
    a: nat,
    b: nat,
)
    requires
        a >= 1,
        b >= 1,
        a != b,
    ensures
        export_name(file_name, stem, ext, a) != export_name(file_name, stem, ext, b),
{
    reveal_strlit("_");
    reveal_strlit(".");
    let na = export_name(file_name, stem, ext, a);
    let nb = export_name(file_name, stem, ext, b);
    let da = decimal(a);
    let db = decimal(b);
    let lead = stem.len() + 1;
    if na == nb {
        assert(na.len() == nb.len());
        assert(da.len() == db.len());
        assert forall|i: int| 0 <= i < da.len() implies da[i] == db[i] by {
            assert(na[lead + i] == da[i]);
            assert(nb[lead + i] == db[i]);
        }
        assert(da =~= db);
        lemma_decimal_injective(a, b);
    }
}

} // verus!
