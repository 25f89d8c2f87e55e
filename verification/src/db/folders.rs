//! Watched folders.

use vstd::prelude::*;
use crate::db::engine::{
    agrees, binds_view, change_then_read, changed_once, collect_rows, decoded_rows, execute, fetch,
    finish, first_row, listed, push_bind, read_once, rows_view, statement, take_first_row,
    text_bind, two_changes, views, with_id, with_text, Answer, Bind, BindView, CellView, DbError,
    Fault, Index, RawRows, Statement, StatementView,
};
use crate::db::records::{decode_folder, decode_text, folder_of_cells, text_at, FolderInfo, FolderInfoView};

verus! {

/// Registers a folder unless its path is registered already.
pub open spec fn insert_folder_view(
    path: Seq<char>,
    name: Seq<char>,
    space_type: Seq<char>,
) -> StatementView {
    StatementView {
        sql: "INSERT OR IGNORE INTO folders (path, name, space_type) VALUES (?1, ?2, ?3)"@,
        binds: seq![BindView::Text(path), BindView::Text(name), BindView::Text(space_type)],
    }
}

/// Reads the folder registered under `path`, with its asset count.
pub open spec fn folder_by_path_view(path: Seq<char>) -> StatementView {
    with_text(
        "SELECT id, path, name, space_type, (SELECT COUNT(*) FROM assets WHERE folder_id = folders.id) as cnt FROM folders WHERE path = ?1"@,
        path,
    )
}

/// Lists the folders by name, all of them or those of one space. The space
/// travels as a bound value, never as part of the text.
pub open spec fn folders_view(space_type: Option<Seq<char>>) -> StatementView {
    match space_type {
        Some(st) => with_text(
            "SELECT f.id, f.path, f.name, f.space_type, (SELECT COUNT(*) FROM assets WHERE folder_id = f.id) as cnt FROM folders f WHERE f.space_type = ?1 ORDER BY f.name"@,
            st,
        ),
        None => StatementView {
            sql: "SELECT f.id, f.path, f.name, f.space_type, (SELECT COUNT(*) FROM assets WHERE folder_id = f.id) as cnt FROM folders f ORDER BY f.name"@,
            binds: Seq::empty(),
        },
    }
}

/// Removes the assets indexed under a folder.
pub open spec fn delete_folder_assets_view(folder_id: i64) -> StatementView {
    with_id("DELETE FROM assets WHERE folder_id = ?1"@, folder_id)
}

/// Removes a folder.
pub open spec fn delete_folder_view(folder_id: i64) -> StatementView {
    with_id("DELETE FROM folders WHERE id = ?1"@, folder_id)
}

/// Reads the path of a folder.
pub open spec fn folder_path_view(folder_id: i64) -> StatementView {
    with_id("SELECT path FROM folders WHERE id = ?1"@, folder_id)
}

/// Reads the paths of the assets indexed under a folder.
pub open spec fn folder_asset_paths_view(folder_id: i64) -> StatementView {
    with_id("SELECT file_path FROM assets WHERE folder_id = ?1"@, folder_id)
}

/// The content of an optional text slice.
pub open spec fn opt_str(o: Option<&str>) -> Option<Seq<char>> {
    match o {
        Some(s) => Some(s@),
        None => None,
    }
}

pub fn insert_folder_statement(path: &str, name: &str, space_type: &str) -> (r: Statement)
    ensures
        r@ == insert_folder_view(path@, name@, space_type@),
{
    let mut binds: Vec<Bind> = Vec::new();
    push_bind(&mut binds, text_bind(path));
    push_bind(&mut binds, text_bind(name));
    push_bind(&mut binds, text_bind(space_type));
    assert(binds_view(binds@) =~= seq![
        BindView::Text(path@),
        BindView::Text(name@),
        BindView::Text(space_type@),
    ]);
    statement("INSERT OR IGNORE INTO folders (path, name, space_type) VALUES (?1, ?2, ?3)", binds)
}

/// A statement whose one parameter is a text.
pub fn text_statement(sql: &str, a: &str) -> (r: Statement)
    ensures
        r@ == with_text(sql@, a@),
{
    let mut binds: Vec<Bind> = Vec::new();
    push_bind(&mut binds, text_bind(a));
    assert(binds_view(binds@) =~= seq![BindView::Text(a@)]);
    statement(sql, binds)
}

pub fn folder_by_path_statement(path: &str) -> (r: Statement)
    ensures
        r@ == folder_by_path_view(path@),
{
    text_statement(
        "SELECT id, path, name, space_type, (SELECT COUNT(*) FROM assets WHERE folder_id = folders.id) as cnt FROM folders WHERE path = ?1",
        path,
    )
}

/// A statement with one integer parameter.
pub fn id_statement(sql: &str, id: i64) -> (r: Statement)
    ensures
        r@ == with_id(sql@, id),
{
    let mut binds: Vec<Bind> = Vec::new();
    push_bind(&mut binds, Bind::Integer(id));
    assert(binds_view(binds@) =~= seq![BindView::Integer(id)]);
    statement(sql, binds)
}

pub fn folders_statement(space_type: Option<&str>) -> (r: Statement)
    ensures
        r@ == folders_view(opt_str(space_type)),
{
    match space_type {
        Some(st) => text_statement(
            "SELECT f.id, f.path, f.name, f.space_type, (SELECT COUNT(*) FROM assets WHERE folder_id = f.id) as cnt FROM folders f WHERE f.space_type = ?1 ORDER BY f.name",
            st,
        ),
        None => {
            let binds: Vec<Bind> = Vec::new();
            assert(binds_view(binds@) =~= Seq::empty());
            statement(
                "SELECT f.id, f.path, f.name, f.space_type, (SELECT COUNT(*) FROM assets WHERE folder_id = f.id) as cnt FROM folders f ORDER BY f.name",
                binds,
            )
        },
    }
}

/// The folder that the answer to a single-folder statement holds.
pub open spec fn folder_outcome(rows: Answer) -> Result<FolderInfoView, Fault> {
    match first_row(rows) {
        Ok(cells) => match folder_of_cells(cells) {
            Some(f) => Ok(f),
            None => Err(Fault::Corrupt),
        },
        Err(f) => Err(f),
    }
}

/// Reads the folder out of the answer to a single-folder statement: its
/// first row must be there and must decode.
pub fn read_folder(rows: &RawRows) -> (r: Result<FolderInfo, DbError>)
    ensures
        agrees(r, folder_outcome(rows_view(rows@))),
{
    let cells = take_first_row(rows)?;
    match decode_folder(cells) {
        Some(f) => Ok(f),
        None => Err(DbError::Corrupt),
    }
}

/// The text in the first column of the first row of an answer.
pub open spec fn first_text(rows: Answer) -> Result<Seq<char>, Fault> {
    match first_row(rows) {
        Ok(cells) => match text_at(cells, 0) {
            Some(t) => Ok(t),
            None => Err(Fault::Corrupt),
        },
        Err(f) => Err(f),
    }
}

/// Reads the single text that a statement answers with.
pub fn read_first_text(rows: &RawRows) -> (r: Result<String, DbError>)
    ensures
        agrees(r, first_text(rows_view(rows@))),
{
    let cells = take_first_row(rows)?;
    match decode_text(cells) {
        Some(p) => Ok(p),
        None => Err(DbError::Corrupt),
    }
}

/// The folders that the rows of a listing decode to, in row order.
pub open spec fn decoded_folders(rows: Answer) -> Seq<FolderInfoView> {
    decoded_rows(rows, |cells: Seq<CellView>| folder_of_cells(cells))
}

/// Decodes the rows of a folder listing, passing over those that do not
/// decode.
pub fn collect_folders(rows: &RawRows) -> (r: Vec<FolderInfo>)
    ensures
        views(r@) == decoded_folders(rows_view(rows@)),
{
    collect_rows(rows, decode_folder, Ghost(|cells: Seq<CellView>| folder_of_cells(cells)))
}

/// The texts in the first column of the rows, in row order.
pub open spec fn decoded_texts(rows: Answer) -> Seq<Seq<char>> {
    decoded_rows(rows, |cells: Seq<CellView>| text_at(cells, 0))
}

/// Decodes the first column of every row as text, passing over the rows
/// where it is none.
pub fn collect_texts(rows: &RawRows) -> (r: Vec<String>)
    ensures
        views(r@) == decoded_texts(rows_view(rows@)),
{
    collect_rows(rows, decode_text, Ghost(|cells: Seq<CellView>| text_at(cells, 0)))
}

/// Registers the folder at `path` if it is not registered yet, and reads it
/// back with its asset count.
///
/// The engine is asked to insert the folder and then, if it accepted that,
/// to read the folder of that path; the result is what [`read_folder`]
/// makes of the answer.
pub fn insert_folder(index: &mut Index, path: &str, name: &str, space_type: &str) -> (r: Result<
    FolderInfo,
    DbError,
>)
    ensures
        change_then_read(
            old(index).trace(),
            final(index).trace(),
            insert_folder_view(path@, name@, space_type@),
            folder_by_path_view(path@),
            r,
            |rows: Answer| folder_outcome(rows),
        ),
{
    let insert = insert_folder_statement(path, name, space_type);
    execute(index, &insert)?;
    let select = folder_by_path_statement(path);
    let rows = fetch(index, &select)?;
    read_folder(&rows)
}

/// Removes a folder and the assets indexed under it: first the assets, then
/// the folder. Stops at the first statement that the engine refuses, and
/// succeeds exactly if it accepted both.
pub fn remove_folder(index: &mut Index, folder_id: i64) -> (r: Result<(), DbError>)
    ensures
        two_changes(
            old(index).trace(),
            final(index).trace(),
            delete_folder_assets_view(folder_id),
            delete_folder_view(folder_id),
            r is Ok,
        ),
        r is Err ==> r->Err_0 is Engine,
{
    let assets = id_statement("DELETE FROM assets WHERE folder_id = ?1", folder_id);
    execute(index, &assets)?;
    let folder = id_statement("DELETE FROM folders WHERE id = ?1", folder_id);
    execute(index, &folder)?;
    Ok(())
}

/// Lists the folders by name, all of them or those of one space: every row
/// of the engine's answer that decodes to a folder, in row order.
pub fn get_folders(index: &mut Index, space_type: Option<&str>) -> (r: Result<
    Vec<FolderInfo>,
    DbError,
>)
    ensures
        read_once(old(index).trace(), final(index).trace(), folders_view(opt_str(space_type))),
        listed(
            r,
            final(index).trace().last().answer(),
            |cells: Seq<CellView>| folder_of_cells(cells),
        ),
{
    let st = folders_statement(space_type);
    let rows = fetch(index, &st)?;
    Ok(collect_folders(&rows))
}

/// Removes every asset indexed under a folder, keeping the folder. Succeeds
/// exactly if the engine accepted the statement.
pub fn clear_folder_assets(index: &mut Index, folder_id: i64) -> (r: Result<(), DbError>)
    ensures
        changed_once(
            old(index).trace(),
            final(index).trace(),
            delete_folder_assets_view(folder_id),
            r is Ok,
        ),
        r is Err ==> r->Err_0 is Engine,
{
    let st = id_statement("DELETE FROM assets WHERE folder_id = ?1", folder_id);
    execute(index, &st)?;
    Ok(())
}

/// The path that a folder is registered under: the text in the first
/// column of the first row of the engine's answer.
pub fn folder_path(index: &mut Index, folder_id: i64) -> (r: Result<String, DbError>)
    ensures
        read_once(old(index).trace(), final(index).trace(), folder_path_view(folder_id)),
        agrees(r, finish(final(index).trace().last().answer(), |rows: Answer| first_text(rows))),
{
    let st = id_statement("SELECT path FROM folders WHERE id = ?1", folder_id);
    let rows = fetch(index, &st)?;
    read_first_text(&rows)
}

/// The paths of the assets indexed under a folder: the first column of
/// every row of the engine's answer that holds a text, in row order.
pub fn folder_asset_paths(index: &mut Index, folder_id: i64) -> (r: Result<Vec<String>, DbError>)
    ensures
        read_once(old(index).trace(), final(index).trace(), folder_asset_paths_view(folder_id)),
        listed(r, final(index).trace().last().answer(), |cells: Seq<CellView>| text_at(cells, 0)),
{
    let st = id_statement("SELECT file_path FROM assets WHERE folder_id = ?1", folder_id);
    let rows = fetch(index, &st)?;
    Ok(collect_texts(&rows))
}

} // verus!
