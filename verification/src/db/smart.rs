//! Smart folders: saved filters, kept as opaque condition texts.

use vstd::prelude::*;
use crate::db::assets::plain_statement;
use crate::db::engine::{
    binds_view, change_then_rowid, changed_once, collect_rows, decoded_rows, execute, fetch, listed, plain,
    push_bind, read_once, rowid, rows_view, statement, text_bind, views, with_id, with_text,
    Answer, Bind, BindView, CellView, DbError, Index, RawRows, Statement, StatementView,
};
use crate::db::folders::{id_statement, opt_str, text_statement};
use crate::db::records::{decode_smart_folder, smart_folder_of_cells, SmartFolder, SmartFolderView};
use crate::db::tags::{two_text_id_statement, with_two_texts_and_id};

verus! {

/// The icon of a smart folder that names none.
pub fn default_icon() -> (r: &'static str)
    ensures
        r@ == "folder"@,
{
    "folder"
}

/// Records a new smart folder.
pub open spec fn create_smart_folder_view(
    name: Seq<char>,
    conditions: Seq<char>,
    space_type: Seq<char>,
) -> StatementView {
    StatementView {
        sql: "INSERT INTO smart_folders (name, conditions, space_type) VALUES (?1, ?2, ?3)"@,
        binds: seq![BindView::Text(name), BindView::Text(conditions), BindView::Text(space_type)],
    }
}

pub fn create_smart_folder_statement(name: &str, conditions: &str, space_type: &str) -> (r: Statement)
    ensures
        r@ == create_smart_folder_view(name@, conditions@, space_type@),
{
    let mut binds: Vec<Bind> = Vec::new();
    push_bind(&mut binds, text_bind(name));
    push_bind(&mut binds, text_bind(conditions));
    push_bind(&mut binds, text_bind(space_type));
    assert(binds_view(binds@) =~= seq![
        BindView::Text(name@),
        BindView::Text(conditions@),
        BindView::Text(space_type@),
    ]);
    statement("INSERT INTO smart_folders (name, conditions, space_type) VALUES (?1, ?2, ?3)", binds)
}

/// Lists the smart folders by name, all of them or those of one space. The
/// space travels as a bound value, never as part of the text.
pub open spec fn smart_folders_view(space_type: Option<Seq<char>>) -> StatementView {
    match space_type {
        Some(st) => with_text(
            "SELECT id, name, icon, conditions, space_type FROM smart_folders WHERE space_type = ?1 ORDER BY name"@,
            st,
        ),
        None => plain(
            "SELECT id, name, icon, conditions, space_type FROM smart_folders ORDER BY name"@,
        ),
    }
}

pub fn smart_folders_statement(space_type: Option<&str>) -> (r: Statement)
    ensures
        r@ == smart_folders_view(opt_str(space_type)),
{
    match space_type {
        Some(st) => text_statement(
            "SELECT id, name, icon, conditions, space_type FROM smart_folders WHERE space_type = ?1 ORDER BY name",
            st,
        ),
        None => plain_statement(
            "SELECT id, name, icon, conditions, space_type FROM smart_folders ORDER BY name",
        ),
    }
}

/// Renames a smart folder and replaces its conditions.
pub open spec fn update_smart_folder_view(
    id: i64,
    name: Seq<char>,
    conditions: Seq<char>,
) -> StatementView {
    with_two_texts_and_id(
        "UPDATE smart_folders SET name = ?1, conditions = ?2 WHERE id = ?3"@,
        name,
        conditions,
        id,
    )
}

/// Removes a smart folder.
pub open spec fn delete_smart_folder_view(id: i64) -> StatementView {
    with_id("DELETE FROM smart_folders WHERE id = ?1"@, id)
}

/// Records a smart folder and returns it as recorded: the given name,
/// conditions and space, the default icon, and the identifier that the
/// engine reports for the insertion.
///
/// The engine is asked to insert the folder and then, if it accepted that,
/// for the identifier of the insertion.
pub fn create_smart_folder(index: &mut Index, name: &str, conditions: &str, space_type: &str) -> (r:
    Result<SmartFolder, DbError>)
    ensures
        change_then_rowid(
            old(index).trace(),
            final(index).trace(),
            create_smart_folder_view(name@, conditions@, space_type@),
            match r {
                Ok(f) => Ok(f.id),
                Err(e) => Err(e),
            },
        ),
        r is Ok ==> r->Ok_0@ == (SmartFolderView {
            id: r->Ok_0.id,
            name: name@,
            icon: "folder"@,
            conditions: conditions@,
            space_type: space_type@,
        }),
{
    let st = create_smart_folder_statement(name, conditions, space_type);
    execute(index, &st)?;
    let id = rowid(index);
    Ok(
        SmartFolder {
            id,
            name: String::from_str(name),
            icon: String::from_str(default_icon()),
            conditions: String::from_str(conditions),
            space_type: String::from_str(space_type),
        },
    )
}

/// Renames a smart folder and replaces its conditions. Succeeds exactly if
/// the engine accepted the statement.
pub fn update_smart_folder(index: &mut Index, id: i64, name: &str, conditions: &str) -> (r: Result<
    (),
    DbError,
>)
    ensures
        changed_once(
            old(index).trace(),
            final(index).trace(),
            update_smart_folder_view(id, name@, conditions@),
            r is Ok,
        ),
        r is Err ==> r->Err_0 is Engine,
{
    let st = two_text_id_statement(
        "UPDATE smart_folders SET name = ?1, conditions = ?2 WHERE id = ?3",
        name,
        conditions,
        id,
    );
    execute(index, &st)?;
    Ok(())
}

/// Removes a smart folder. Succeeds exactly if the engine accepted the
/// statement.
pub fn delete_smart_folder(index: &mut Index, id: i64) -> (r: Result<(), DbError>)
    ensures
        changed_once(
            old(index).trace(),
            final(index).trace(),
            delete_smart_folder_view(id),
            r is Ok,
        ),
        r is Err ==> r->Err_0 is Engine,
{
    let st = id_statement("DELETE FROM smart_folders WHERE id = ?1", id);
    execute(index, &st)?;
    Ok(())
}

/// The smart folders that the rows of a listing decode to, in row order.
pub open spec fn decoded_smart_folders(rows: Answer) -> Seq<SmartFolderView> {
    decoded_rows(rows, |cells: Seq<CellView>| smart_folder_of_cells(cells))
}

/// Decodes the rows of a smart-folder listing.
pub fn collect_smart_folders(rows: &RawRows) -> (r: Vec<SmartFolder>)
    ensures
        views(r@) == decoded_smart_folders(rows_view(rows@)),
{
    collect_rows(
        rows,
        decode_smart_folder,
        Ghost(|cells: Seq<CellView>| smart_folder_of_cells(cells)),
    )
}

/// Lists the smart folders by name, all of them or those of one space:
/// every row of the engine's answer that decodes to a smart folder, in row
/// order.
pub fn get_smart_folders(index: &mut Index, space_type: Option<&str>) -> (r: Result<
    Vec<SmartFolder>,
    DbError,
>)
    ensures
        read_once(old(index).trace(), final(index).trace(), smart_folders_view(opt_str(space_type))),
        listed(
            r,
            final(index).trace().last().answer(),
            |cells: Seq<CellView>| smart_folder_of_cells(cells),
        ),
{
    let st = smart_folders_statement(space_type);
    let rows = fetch(index, &st)?;
    Ok(collect_smart_folders(&rows))
}

} // verus!
