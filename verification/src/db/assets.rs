//! Asset rows: writing them on a scan, looking them up, and the totals.

use vstd::prelude::*;
use crate::db::engine::{
    affected_since, agrees, answer_view, binds_view, change_then_rowid, collect_rows, decoded_rows,
    each_changed, execute, execute_each, fetch, finish, first_row, plain, push_bind, read,
    read_once, rowid, rows_view, statement, statements_view, take_first_row, text_bind, views,
    with_id, Answer, Bind, BindView, CellView, DbError, Exchange, Fault, Index, RawRows,
    Statement, StatementView,
};
use crate::db::folders::id_statement;
use crate::db::query::{first_int, read_first_int};
use crate::db::records::{
    asset_of_cells, decode_asset, decode_format_count, format_count_of_cells, AssetInfo,
    AssetInfoView, FolderStats, FolderStatsView,
};

verus! {

/// Writes one scanned file. A path that is new gets a row; a path that is
/// indexed already keeps its row, and with it its identifier, folder, name
/// and extension, and takes the new size, dimensions, thumbnail and
/// modification time.
pub open spec fn upsert_asset_view(
    folder_id: i64,
    file_path: Seq<char>,
    file_name: Seq<char>,
    file_ext: Seq<char>,
    file_size: i64,
    width: u32,
    height: u32,
    thumb_path: Seq<char>,
    modified_at: i64,
) -> StatementView {
    StatementView {
        sql: "INSERT INTO assets (folder_id, file_path, file_name, file_ext, file_size, width, height, thumb_path, modified_at) VALUES (?1, ?2, ?3, ?4, ?5, ?6, ?7, ?8, ?9) ON CONFLICT(file_path) DO UPDATE SET file_size = excluded.file_size, width = excluded.width, height = excluded.height, thumb_path = excluded.thumb_path, modified_at = excluded.modified_at, scanned_at = strftime('%s','now')"@,
        binds: seq![
            BindView::Integer(folder_id),
            BindView::Text(file_path),
            BindView::Text(file_name),
            BindView::Text(file_ext),
            BindView::Integer(file_size),
            BindView::Integer(width as i64),
            BindView::Integer(height as i64),
            BindView::Text(thumb_path),
            BindView::Integer(modified_at),
        ],
    }
}

pub fn upsert_asset_statement(
    folder_id: i64,
    file_path: &str,
    file_name: &str,
    file_ext: &str,
    file_size: i64,
    width: u32,
    height: u32,
    thumb_path: &str,
    modified_at: i64,
) -> (r: Statement)
    ensures
        r@ == upsert_asset_view(
            folder_id,
            file_path@,
            file_name@,
            file_ext@,
            file_size,
            width,
            height,
            thumb_path@,
            modified_at,
        ),
{
    let mut binds: Vec<Bind> = Vec::new();
    push_bind(&mut binds, Bind::Integer(folder_id));
    push_bind(&mut binds, text_bind(file_path));
    push_bind(&mut binds, text_bind(file_name));
    push_bind(&mut binds, text_bind(file_ext));
    push_bind(&mut binds, Bind::Integer(file_size));
    push_bind(&mut binds, Bind::Integer(width as i64));
    push_bind(&mut binds, Bind::Integer(height as i64));
    push_bind(&mut binds, text_bind(thumb_path));
    push_bind(&mut binds, Bind::Integer(modified_at));
    assert(binds_view(binds@) =~= seq![
        BindView::Integer(folder_id),
        BindView::Text(file_path@),
        BindView::Text(file_name@),
        BindView::Text(file_ext@),
        BindView::Integer(file_size),
        BindView::Integer(width as i64),
        BindView::Integer(height as i64),
        BindView::Text(thumb_path@),
        BindView::Integer(modified_at),
    ]);
    statement(
        "INSERT INTO assets (folder_id, file_path, file_name, file_ext, file_size, width, height, thumb_path, modified_at) VALUES (?1, ?2, ?3, ?4, ?5, ?6, ?7, ?8, ?9) ON CONFLICT(file_path) DO UPDATE SET file_size = excluded.file_size, width = excluded.width, height = excluded.height, thumb_path = excluded.thumb_path, modified_at = excluded.modified_at, scanned_at = strftime('%s','now')",
        binds,
    )
}

/// Writes one scanned file and reports the row identifier of the
/// connection's latest insertion.
///
/// The engine is asked to run the statement of [`upsert_asset_view`] and
/// then, if it accepted that, for the identifier, which is the result.
pub fn upsert_asset(
    index: &mut Index,
    folder_id: i64,
    file_path: &str,
    file_name: &str,
    file_ext: &str,
    file_size: i64,
    width: u32,
    height: u32,
    thumb_path: &str,
    modified_at: i64,
) -> (r: Result<i64, DbError>)
    ensures
        change_then_rowid(
            old(index).trace(),
            final(index).trace(),
            upsert_asset_view(
                folder_id,
                file_path@,
                file_name@,
                file_ext@,
                file_size,
                width,
                height,
                thumb_path@,
                modified_at,
            ),
            r,
        ),
{
    let st = upsert_asset_statement(
        folder_id,
        file_path,
        file_name,
        file_ext,
        file_size,
        width,
        height,
        thumb_path,
        modified_at,
    );
    execute(index, &st)?;
    Ok(rowid(index))
}

/// A statement without parameters.
pub fn plain_statement(sql: &str) -> (r: Statement)
    ensures
        r@ == plain(sql@),
{
    let binds: Vec<Bind> = Vec::new();
    assert(binds_view(binds@) =~= Seq::empty());
    statement(sql, binds)
}

/// The number that the answer to a totals statement reports, or zero where
/// the statement failed or its answer does not decode.
pub open spec fn total_or_zero(answer: Option<Answer>) -> i64 {
    match answer {
        Some(rows) => match first_int(rows) {
            Ok(v) => v,
            Err(_) => 0,
        },
        None => 0,
    }
}

/// Reads a total, counting a failure as zero.
pub fn read_total(answer: &Result<RawRows, DbError>) -> (r: i64)
    ensures
        r == total_or_zero(answer_view(*answer)),
{
    match answer {
        Ok(rows) => match read_first_int(rows) {
            Ok(v) => v,
            Err(_) => 0,
        },
        Err(_) => 0,
    }
}

/// The per-format totals that the rows decode to, in row order.
pub open spec fn decoded_format_counts(rows: Answer) -> Seq<(Seq<char>, i64)> {
    decoded_rows(rows, |cells: Seq<CellView>| format_count_of_cells(cells))
}

/// Decodes the rows of the per-format totals.
pub fn collect_format_counts(rows: &RawRows) -> (r: Vec<(String, i64)>)
    ensures
        views(r@) == decoded_format_counts(rows_view(rows@)),
{
    collect_rows(
        rows,
        decode_format_count,
        Ghost(|cells: Seq<CellView>| format_count_of_cells(cells)),
    )
}

/// Counts the assets.
pub open spec fn count_assets_view() -> StatementView {
    plain("SELECT COUNT(*) FROM assets"@)
}

/// Counts the folders.
pub open spec fn count_folders_view() -> StatementView {
    plain("SELECT COUNT(*) FROM folders"@)
}

/// Adds up the sizes of the assets.
pub open spec fn sum_sizes_view() -> StatementView {
    plain("SELECT COALESCE(SUM(file_size),0) FROM assets"@)
}

/// Counts the assets of each format, the most frequent format first.
pub open spec fn format_counts_view() -> StatementView {
    plain("SELECT file_ext, COUNT(*) as cnt FROM assets GROUP BY file_ext ORDER BY cnt DESC"@)
}

/// Totals over the whole index: assets, folders, bytes, and assets per
/// format with the most frequent format first.
///
/// The engine is asked four things in this order. A total that cannot be
/// read counts as zero; only the per-format statement can fail the call.
pub fn get_stats(index: &mut Index) -> (r: Result<FolderStats, DbError>)
    ensures
        ({
            let before = old(index).trace();
            let after = final(index).trace();
            let n = before.len() as int;
            &&& after == before.push(read(count_assets_view(), after[n].answer())).push(
                read(count_folders_view(), after[n + 1].answer()),
            ).push(read(sum_sizes_view(), after[n + 2].answer())).push(
                read(format_counts_view(), after[n + 3].answer()),
            )
            &&& match after[n + 3].answer() {
                Some(rows) => r is Ok && r->Ok_0@ == (FolderStatsView {
                    total_assets: total_or_zero(after[n].answer()),
                    total_folders: total_or_zero(after[n + 1].answer()),
                    total_size: total_or_zero(after[n + 2].answer()),
                    format_counts: decoded_format_counts(rows),
                }),
                None => r is Err && r->Err_0 is Engine,
            }
        }),
{
    let ghost before = index.trace();
    let assets = fetch(index, &plain_statement("SELECT COUNT(*) FROM assets"));
    let total_assets = read_total(&assets);
    let folders = fetch(index, &plain_statement("SELECT COUNT(*) FROM folders"));
    let total_folders = read_total(&folders);
    let bytes = fetch(index, &plain_statement("SELECT COALESCE(SUM(file_size),0) FROM assets"));
    let total_size = read_total(&bytes);
    let listing = fetch(
        index,
        &plain_statement(
            "SELECT file_ext, COUNT(*) as cnt FROM assets GROUP BY file_ext ORDER BY cnt DESC",
        ),
    );
    proof {
        let after = index.trace();
        let n = before.len() as int;
        assert(after == before.push(read(count_assets_view(), answer_view(assets))).push(
            read(count_folders_view(), answer_view(folders)),
        ).push(read(sum_sizes_view(), answer_view(bytes))).push(
            read(format_counts_view(), answer_view(listing)),
        ));
        assert(after[n].answer() == answer_view(assets));
        assert(after[n + 1].answer() == answer_view(folders));
        assert(after[n + 2].answer() == answer_view(bytes));
        assert(after[n + 3].answer() == answer_view(listing));
    }
    let rows = listing?;
    let format_counts = collect_format_counts(&rows);
    Ok(FolderStats { total_assets, total_folders, total_size, format_counts })
}

/// The asset that the answer to a single-asset statement holds.
pub open spec fn asset_outcome(rows: Answer) -> Result<AssetInfoView, Fault> {
    match first_row(rows) {
        Ok(cells) => match asset_of_cells(cells) {
            Some(a) => Ok(a),
            None => Err(Fault::Corrupt),
        },
        Err(f) => Err(f),
    }
}

/// Reads the asset out of the answer to a single-asset statement.
pub fn read_asset(rows: &RawRows) -> (r: Result<AssetInfo, DbError>)
    ensures
        agrees(r, asset_outcome(rows_view(rows@))),
{
    let cells = take_first_row(rows)?;
    match decode_asset(cells) {
        Some(a) => Ok(a),
        None => Err(DbError::Corrupt),
    }
}

/// Reads the asset of an identifier.
pub open spec fn asset_by_id_view(asset_id: i64) -> StatementView {
    with_id(
        "SELECT id, folder_id, file_path, file_name, file_ext, file_size, width, height, thumb_path, modified_at FROM assets WHERE id = ?1"@,
        asset_id,
    )
}

/// The asset with the given identifier: what [`read_asset`] makes of the
/// engine's answer.
pub fn asset_by_id(index: &mut Index, asset_id: i64) -> (r: Result<AssetInfo, DbError>)
    ensures
        read_once(old(index).trace(), final(index).trace(), asset_by_id_view(asset_id)),
        agrees(
            r,
            finish(final(index).trace().last().answer(), |rows: Answer| asset_outcome(rows)),
        ),
{
    let st = id_statement(
        "SELECT id, folder_id, file_path, file_name, file_ext, file_size, width, height, thumb_path, modified_at FROM assets WHERE id = ?1",
        asset_id,
    );
    let rows = fetch(index, &st)?;
    read_asset(&rows)
}

/// Removes the asset of an identifier.
pub open spec fn delete_asset_view(asset_id: i64) -> StatementView {
    with_id("DELETE FROM assets WHERE id = ?1"@, asset_id)
}

/// The statements that remove the assets of the given identifiers, one
/// each and in order.
pub open spec fn delete_assets_views(asset_ids: Seq<i64>) -> Seq<StatementView> {
    Seq::new(asset_ids.len(), |k: int| delete_asset_view(asset_ids[k]))
}

/// Removes the assets with the given identifiers, one statement each and in
/// order. An identifier whose statement the engine refuses is passed over;
/// the count is of the statements that removed a row.
pub fn batch_delete_assets(index: &mut Index, asset_ids: &[i64]) -> (r: Result<u32, DbError>)
    requires
        asset_ids@.len() <= u32::MAX,
    ensures
        each_changed(old(index).trace(), final(index).trace(), delete_assets_views(asset_ids@)),
        r is Ok,
        r->Ok_0 == affected_since(old(index).trace(), final(index).trace()),
{
    let mut statements: Vec<Statement> = Vec::new();
    let mut i: usize = 0;
    while i < asset_ids.len()
        invariant
            i <= asset_ids@.len(),
            statements_view(statements@) == delete_assets_views(asset_ids@.take(i as int)),
        decreases asset_ids@.len() - i,
    {
        let st = id_statement("DELETE FROM assets WHERE id = ?1", asset_ids[i]);
        proof {
            assert(statements_view(statements@.push(st)) =~= statements_view(statements@).push(
                st@,
            ));
            assert(asset_ids@.take(i + 1)[i as int] == asset_ids@[i as int]);
            assert(delete_assets_views(asset_ids@.take(i + 1)) =~= delete_assets_views(
                asset_ids@.take(i as int),
            ).push(delete_asset_view(asset_ids@[i as int])));
        }
        statements.push(st);
        i += 1;
    }
    assert(asset_ids@.take(asset_ids@.len() as int) =~= asset_ids@);
    let count = execute_each(index, &statements);
    Ok(count as u32)
}

} // verus!
