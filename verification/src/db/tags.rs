//! Tags and their attachment to assets.

use vstd::prelude::*;
use crate::db::assets::plain_statement;
use crate::db::engine::{
    affected_since, agrees, binds_view, change_then_read, changed_once, collect_rows,
    decoded_rows, each_changed, execute, execute_each, fetch, first_row, listed, plain, push_bind,
    read_once, rows_view, statement, statements_view, take_first_row, text_bind, two_changes,
    views, with_id, with_text, Answer, Bind, BindView, CellView, DbError, Fault, Index, RawRows,
    Statement, StatementView,
};
use crate::db::folders::{id_statement, text_statement};
use crate::db::records::{decode_tag, tag_of_cells, TagInfo, TagInfoView};

verus! {

/// A statement whose parameters are two texts.
pub open spec fn with_two_texts(sql: Seq<char>, a: Seq<char>, b: Seq<char>) -> StatementView {
    StatementView { sql, binds: seq![BindView::Text(a), BindView::Text(b)] }
}

/// A statement whose parameters are two texts and then an identifier.
pub open spec fn with_two_texts_and_id(
    sql: Seq<char>,
    a: Seq<char>,
    b: Seq<char>,
    id: i64,
) -> StatementView {
    StatementView { sql, binds: seq![BindView::Text(a), BindView::Text(b), BindView::Integer(id)] }
}

/// A statement whose parameters are two identifiers.
pub open spec fn with_two_ids(sql: Seq<char>, a: i64, b: i64) -> StatementView {
    StatementView { sql, binds: seq![BindView::Integer(a), BindView::Integer(b)] }
}

pub fn two_text_statement(sql: &str, a: &str, b: &str) -> (r: Statement)
    ensures
        r@ == with_two_texts(sql@, a@, b@),
{
    let mut binds: Vec<Bind> = Vec::new();
    push_bind(&mut binds, text_bind(a));
    push_bind(&mut binds, text_bind(b));
    assert(binds_view(binds@) =~= seq![BindView::Text(a@), BindView::Text(b@)]);
    statement(sql, binds)
}

pub fn two_text_id_statement(sql: &str, a: &str, b: &str, id: i64) -> (r: Statement)
    ensures
        r@ == with_two_texts_and_id(sql@, a@, b@, id),
{
    let mut binds: Vec<Bind> = Vec::new();
    push_bind(&mut binds, text_bind(a));
    push_bind(&mut binds, text_bind(b));
    push_bind(&mut binds, Bind::Integer(id));
    assert(binds_view(binds@) =~= seq![
        BindView::Text(a@),
        BindView::Text(b@),
        BindView::Integer(id),
    ]);
    statement(sql, binds)
}

pub fn two_id_statement(sql: &str, a: i64, b: i64) -> (r: Statement)
    ensures
        r@ == with_two_ids(sql@, a, b),
{
    let mut binds: Vec<Bind> = Vec::new();
    push_bind(&mut binds, Bind::Integer(a));
    push_bind(&mut binds, Bind::Integer(b));
    assert(binds_view(binds@) =~= seq![BindView::Integer(a), BindView::Integer(b)]);
    statement(sql, binds)
}

/// Attaches a tag to an asset on behalf of `user`, unless it is attached
/// already.
pub open spec fn attach_tag_view(asset_id: i64, tag_id: i64, user: Seq<char>) -> StatementView {
    StatementView {
        sql: "INSERT OR IGNORE INTO asset_tags (asset_id, tag_id, tagged_by) VALUES (?1, ?2, ?3)"@,
        binds: seq![BindView::Integer(asset_id), BindView::Integer(tag_id), BindView::Text(user)],
    }
}

pub fn attach_tag_statement(asset_id: i64, tag_id: i64, user: &str) -> (r: Statement)
    ensures
        r@ == attach_tag_view(asset_id, tag_id, user@),
{
    let mut binds: Vec<Bind> = Vec::new();
    push_bind(&mut binds, Bind::Integer(asset_id));
    push_bind(&mut binds, Bind::Integer(tag_id));
    push_bind(&mut binds, text_bind(user));
    assert(binds_view(binds@) =~= seq![
        BindView::Integer(asset_id),
        BindView::Integer(tag_id),
        BindView::Text(user@),
    ]);
    statement(
        "INSERT OR IGNORE INTO asset_tags (asset_id, tag_id, tagged_by) VALUES (?1, ?2, ?3)",
        binds,
    )
}

/// Creates a tag unless one of that name, in any letter case, exists.
pub open spec fn insert_tag_view(name: Seq<char>, color: Seq<char>) -> StatementView {
    with_two_texts("INSERT OR IGNORE INTO tags (name, color) VALUES (?1, ?2)"@, name, color)
}

/// Reads the tag of a name, letter case aside, with its asset count.
pub open spec fn tag_by_name_view(name: Seq<char>) -> StatementView {
    with_text(
        "SELECT id, name, color, (SELECT COUNT(*) FROM asset_tags WHERE tag_id = tags.id) FROM tags WHERE name = ?1 COLLATE NOCASE"@,
        name,
    )
}

/// Renames and recolours a tag.
pub open spec fn update_tag_view(tag_id: i64, name: Seq<char>, color: Seq<char>) -> StatementView {
    with_two_texts_and_id("UPDATE tags SET name = ?1, color = ?2 WHERE id = ?3"@, name, color, tag_id)
}

/// Removes the attachments of a tag.
pub open spec fn delete_tag_links_view(tag_id: i64) -> StatementView {
    with_id("DELETE FROM asset_tags WHERE tag_id = ?1"@, tag_id)
}

/// Removes a tag.
pub open spec fn delete_tag_view(tag_id: i64) -> StatementView {
    with_id("DELETE FROM tags WHERE id = ?1"@, tag_id)
}

/// Lists every tag with its asset count, the most used first and then by
/// name.
pub open spec fn all_tags_view() -> StatementView {
    plain(
        "SELECT t.id, t.name, t.color, (SELECT COUNT(*) FROM asset_tags WHERE tag_id = t.id) as cnt FROM tags t ORDER BY cnt DESC, t.name"@,
    )
}

/// Detaches a tag from an asset.
pub open spec fn detach_tag_view(asset_id: i64, tag_id: i64) -> StatementView {
    with_two_ids("DELETE FROM asset_tags WHERE asset_id = ?1 AND tag_id = ?2"@, asset_id, tag_id)
}

/// Lists the tags of an asset by name, each with an asset count of zero.
pub open spec fn asset_tags_view(asset_id: i64) -> StatementView {
    with_id(
        "SELECT t.id, t.name, t.color, 0 FROM tags t JOIN asset_tags at ON t.id = at.tag_id WHERE at.asset_id = ?1 ORDER BY t.name"@,
        asset_id,
    )
}

/// The tag that the answer to a single-tag statement holds.
pub open spec fn tag_outcome(rows: Answer) -> Result<TagInfoView, Fault> {
    match first_row(rows) {
        Ok(cells) => match tag_of_cells(cells) {
            Some(t) => Ok(t),
            None => Err(Fault::Corrupt),
        },
        Err(f) => Err(f),
    }
}

/// Reads the tag out of the answer to a single-tag statement.
pub fn read_tag(rows: &RawRows) -> (r: Result<TagInfo, DbError>)
    ensures
        agrees(r, tag_outcome(rows_view(rows@))),
{
    let cells = take_first_row(rows)?;
    match decode_tag(cells) {
        Some(t) => Ok(t),
        None => Err(DbError::Corrupt),
    }
}

/// The tags that the rows of a listing decode to, in row order.
pub open spec fn decoded_tags(rows: Answer) -> Seq<TagInfoView> {
    decoded_rows(rows, |cells: Seq<CellView>| tag_of_cells(cells))
}

/// Decodes the rows of a tag listing, passing over those that do not decode.
pub fn collect_tags(rows: &RawRows) -> (r: Vec<TagInfo>)
    ensures
        views(r@) == decoded_tags(rows_view(rows@)),
{
    collect_rows(rows, decode_tag, Ghost(|cells: Seq<CellView>| tag_of_cells(cells)))
}

/// Creates the tag `name` unless a tag of that name, in any letter case,
/// exists, and reads back the tag of that name with its asset count.
///
/// The engine is asked to insert the tag and then, if it accepted that, to
/// read the tag of that name; the result is what [`read_tag`] makes of the
/// answer.
pub fn create_tag(index: &mut Index, name: &str, color: &str) -> (r: Result<TagInfo, DbError>)
    ensures
        change_then_read(
            old(index).trace(),
            final(index).trace(),
            insert_tag_view(name@, color@),
            tag_by_name_view(name@),
            r,
            |rows: Answer| tag_outcome(rows),
        ),
{
    let insert = two_text_statement(
        "INSERT OR IGNORE INTO tags (name, color) VALUES (?1, ?2)",
        name,
        color,
    );
    execute(index, &insert)?;
    let select = text_statement(
        "SELECT id, name, color, (SELECT COUNT(*) FROM asset_tags WHERE tag_id = tags.id) FROM tags WHERE name = ?1 COLLATE NOCASE",
        name,
    );
    let rows = fetch(index, &select)?;
    read_tag(&rows)
}

/// Renames and recolours a tag. Succeeds exactly if the engine accepted the
/// statement.
pub fn update_tag(index: &mut Index, tag_id: i64, name: &str, color: &str) -> (r: Result<
    (),
    DbError,
>)
    ensures
        changed_once(
            old(index).trace(),
            final(index).trace(),
            update_tag_view(tag_id, name@, color@),
            r is Ok,
        ),
        r is Err ==> r->Err_0 is Engine,
{
    let st = two_text_id_statement(
        "UPDATE tags SET name = ?1, color = ?2 WHERE id = ?3",
        name,
        color,
        tag_id,
    );
    execute(index, &st)?;
    Ok(())
}

/// Removes a tag: first its attachments, then the tag. Stops at the first
/// statement that the engine refuses, and succeeds exactly if it accepted
/// both.
pub fn delete_tag(index: &mut Index, tag_id: i64) -> (r: Result<(), DbError>)
    ensures
        two_changes(
            old(index).trace(),
            final(index).trace(),
            delete_tag_links_view(tag_id),
            delete_tag_view(tag_id),
            r is Ok,
        ),
        r is Err ==> r->Err_0 is Engine,
{
    let links = id_statement("DELETE FROM asset_tags WHERE tag_id = ?1", tag_id);
    execute(index, &links)?;
    let tag = id_statement("DELETE FROM tags WHERE id = ?1", tag_id);
    execute(index, &tag)?;
    Ok(())
}

/// Lists every tag with its asset count, the most used first and then by
/// name: every row of the engine's answer that decodes to a tag, in row
/// order.
pub fn get_all_tags(index: &mut Index) -> (r: Result<Vec<TagInfo>, DbError>)
    ensures
        read_once(old(index).trace(), final(index).trace(), all_tags_view()),
        listed(r, final(index).trace().last().answer(), |cells: Seq<CellView>| tag_of_cells(cells)),
{
    let st = plain_statement(
        "SELECT t.id, t.name, t.color, (SELECT COUNT(*) FROM asset_tags WHERE tag_id = t.id) as cnt FROM tags t ORDER BY cnt DESC, t.name",
    );
    let rows = fetch(index, &st)?;
    Ok(collect_tags(&rows))
}

/// Attaches a tag to an asset; attaching it again changes nothing. Succeeds
/// exactly if the engine accepted the statement.
pub fn add_tag_to_asset(index: &mut Index, asset_id: i64, tag_id: i64, user: &str) -> (r: Result<
    (),
    DbError,
>)
    ensures
        changed_once(
            old(index).trace(),
            final(index).trace(),
            attach_tag_view(asset_id, tag_id, user@),
            r is Ok,
        ),
        r is Err ==> r->Err_0 is Engine,
{
    let st = attach_tag_statement(asset_id, tag_id, user);
    execute(index, &st)?;
    Ok(())
}

/// Detaches a tag from an asset. Succeeds exactly if the engine accepted
/// the statement.
pub fn remove_tag_from_asset(index: &mut Index, asset_id: i64, tag_id: i64) -> (r: Result<
    (),
    DbError,
>)
    ensures
        changed_once(
            old(index).trace(),
            final(index).trace(),
            detach_tag_view(asset_id, tag_id),
            r is Ok,
        ),
        r is Err ==> r->Err_0 is Engine,
{
    let st = two_id_statement(
        "DELETE FROM asset_tags WHERE asset_id = ?1 AND tag_id = ?2",
        asset_id,
        tag_id,
    );
    execute(index, &st)?;
    Ok(())
}

/// Lists the tags of an asset by name: every row of the engine's answer
/// that decodes to a tag, in row order. The asset count of each is reported
/// as zero.
pub fn get_asset_tags(index: &mut Index, asset_id: i64) -> (r: Result<Vec<TagInfo>, DbError>)
    ensures
        read_once(old(index).trace(), final(index).trace(), asset_tags_view(asset_id)),
        listed(r, final(index).trace().last().answer(), |cells: Seq<CellView>| tag_of_cells(cells)),
{
    let st = id_statement(
        "SELECT t.id, t.name, t.color, 0 FROM tags t JOIN asset_tags at ON t.id = at.tag_id WHERE at.asset_id = ?1 ORDER BY t.name",
        asset_id,
    );
    let rows = fetch(index, &st)?;
    Ok(collect_tags(&rows))
}

/// The statements that attach one tag to the given assets, one each and in
/// order.
pub open spec fn attach_tag_views(asset_ids: Seq<i64>, tag_id: i64, user: Seq<char>) -> Seq<
    StatementView,
> {
    Seq::new(asset_ids.len(), |k: int| attach_tag_view(asset_ids[k], tag_id, user))
}

/// Attaches one tag to many assets, one statement each and in order. An
/// asset whose statement the engine refuses is passed over and the rest go
/// on; the count is of the statements that attached the tag, so an asset
/// that carried it already does not count.
pub fn batch_add_tag(index: &mut Index, asset_ids: &[i64], tag_id: i64, user: &str) -> (r: Result<
    u32,
    DbError,
>)
    requires
        asset_ids@.len() <= u32::MAX,
    ensures
        each_changed(
            old(index).trace(),
            final(index).trace(),
            attach_tag_views(asset_ids@, tag_id, user@),
        ),
        r is Ok,
        r->Ok_0 == affected_since(old(index).trace(), final(index).trace()),
{
    let mut statements: Vec<Statement> = Vec::new();
    let mut i: usize = 0;
    while i < asset_ids.len()
        invariant
            i <= asset_ids@.len(),
            statements_view(statements@) == attach_tag_views(
                asset_ids@.take(i as int),
                tag_id,
                user@,
            ),
        decreases asset_ids@.len() - i,
    {
        let st = attach_tag_statement(asset_ids[i], tag_id, user);
        proof {
            assert(statements_view(statements@.push(st)) =~= statements_view(statements@).push(
                st@,
            ));
            assert(asset_ids@.take(i + 1)[i as int] == asset_ids@[i as int]);
            assert(attach_tag_views(asset_ids@.take(i + 1), tag_id, user@) =~= attach_tag_views(
                asset_ids@.take(i as int),
                tag_id,
                user@,
            ).push(attach_tag_view(asset_ids@[i as int], tag_id, user@)));
        }
        statements.push(st);
        i += 1;
    }
    assert(asset_ids@.take(asset_ids@.len() as int) =~= asset_ids@);
    let count = execute_each(index, &statements);
    Ok(count as u32)
}

} // verus!
