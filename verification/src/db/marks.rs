//! Ratings and notes, one of each per asset at most, and the detail record
//! that gathers them.

use vstd::prelude::*;
use crate::db::assets::{asset_by_id, asset_by_id_view, asset_outcome};
use crate::db::engine::{
    affected_since, answer_view, binds_view, changed_once, each_changed, execute, execute_each,
    fetch, finish, first_row, push_bind, read, read_once, statement, statements_view,
    take_first_row, text_bind, with_id, Answer, Bind, BindView, DbError, Exchange, Index, RawRows,
    Statement, StatementView,
};
use crate::db::folders::id_statement;
use crate::db::records::{cell_i32, cell_text, i32_at, text_at, AssetDetail, AssetDetailView};
use crate::db::tags::{asset_tags_view, decoded_tags, get_asset_tags};

verus! {

/// The statement that records a rating: writing zero removes the rating,
/// any other value replaces whatever rating the asset had.
pub open spec fn rating_statement_view(asset_id: i64, rating: i32, user: Seq<char>) -> StatementView {
    if rating == 0 {
        StatementView {
            sql: "DELETE FROM asset_ratings WHERE asset_id = ?1"@,
            binds: seq![BindView::Integer(asset_id)],
        }
    } else {
        StatementView {
            sql: "INSERT INTO asset_ratings (asset_id, rating, rated_by) VALUES (?1, ?2, ?3) ON CONFLICT(asset_id) DO UPDATE SET rating = excluded.rating, rated_by = excluded.rated_by, rated_at = strftime('%s','now')"@,
            binds: seq![
                BindView::Integer(asset_id),
                BindView::Integer(rating as i64),
                BindView::Text(user),
            ],
        }
    }
}

pub fn rating_statement(asset_id: i64, rating: i32, user: &str) -> (r: Statement)
    ensures
        r@ == rating_statement_view(asset_id, rating, user@),
{
    if rating == 0 {
        id_statement("DELETE FROM asset_ratings WHERE asset_id = ?1", asset_id)
    } else {
        let mut binds: Vec<Bind> = Vec::new();
        push_bind(&mut binds, Bind::Integer(asset_id));
        push_bind(&mut binds, Bind::Integer(rating as i64));
        push_bind(&mut binds, text_bind(user));
        assert(binds_view(binds@) =~= seq![
            BindView::Integer(asset_id),
            BindView::Integer(rating as i64),
            BindView::Text(user@),
        ]);
        statement(
            "INSERT INTO asset_ratings (asset_id, rating, rated_by) VALUES (?1, ?2, ?3) ON CONFLICT(asset_id) DO UPDATE SET rating = excluded.rating, rated_by = excluded.rated_by, rated_at = strftime('%s','now')",
            binds,
        )
    }
}

/// The statement that records a note: an empty text removes the note, any
/// other text replaces whatever note the asset had.
pub open spec fn note_statement_view(asset_id: i64, note: Seq<char>, user: Seq<char>) -> StatementView {
    if note.len() == 0 {
        StatementView {
            sql: "DELETE FROM asset_notes WHERE asset_id = ?1"@,
            binds: seq![BindView::Integer(asset_id)],
        }
    } else {
        StatementView {
            sql: "INSERT INTO asset_notes (asset_id, note, updated_by) VALUES (?1, ?2, ?3) ON CONFLICT(asset_id) DO UPDATE SET note = excluded.note, updated_by = excluded.updated_by, updated_at = strftime('%s','now')"@,
            binds: seq![BindView::Integer(asset_id), BindView::Text(note), BindView::Text(user)],
        }
    }
}

pub fn note_statement(asset_id: i64, note: &str, user: &str) -> (r: Statement)
    ensures
        r@ == note_statement_view(asset_id, note@, user@),
{
    if note.is_empty() {
        id_statement("DELETE FROM asset_notes WHERE asset_id = ?1", asset_id)
    } else {
        let mut binds: Vec<Bind> = Vec::new();
        push_bind(&mut binds, Bind::Integer(asset_id));
        push_bind(&mut binds, text_bind(note));
        push_bind(&mut binds, text_bind(user));
        assert(binds_view(binds@) =~= seq![
            BindView::Integer(asset_id),
            BindView::Text(note@),
            BindView::Text(user@),
        ]);
        statement(
            "INSERT INTO asset_notes (asset_id, note, updated_by) VALUES (?1, ?2, ?3) ON CONFLICT(asset_id) DO UPDATE SET note = excluded.note, updated_by = excluded.updated_by, updated_at = strftime('%s','now')",
            binds,
        )
    }
}

/// Rates an asset; a rating of zero removes the rating. Succeeds exactly if
/// the engine accepted the statement.
pub fn set_rating(index: &mut Index, asset_id: i64, rating: i32, user: &str) -> (r: Result<
    (),
    DbError,
>)
    ensures
        changed_once(
            old(index).trace(),
            final(index).trace(),
            rating_statement_view(asset_id, rating, user@),
            r is Ok,
        ),
        r is Err ==> r->Err_0 is Engine,
{
    let st = rating_statement(asset_id, rating, user);
    execute(index, &st)?;
    Ok(())
}

/// The rating that an answer holds: the integer in the first column of the
/// first row if it fits in 32 bits, and zero (unrated) in every other case.
pub open spec fn rating_of(answer: Option<Answer>) -> i32 {
    match answer {
        Some(rows) => match first_row(rows) {
            Ok(cells) => match i32_at(cells, 0) {
                Some(v) => v,
                None => 0,
            },
            Err(_) => 0,
        },
        None => 0,
    }
}

/// Reads a rating, taking every failure as "unrated".
pub fn read_rating(answer: &Result<RawRows, DbError>) -> (r: i32)
    ensures
        r == rating_of(answer_view(*answer)),
{
    match answer {
        Ok(rows) => match take_first_row(rows) {
            Ok(cells) => match cell_i32(cells, 0) {
                Some(v) => v,
                None => 0,
            },
            Err(_) => 0,
        },
        Err(_) => 0,
    }
}

/// Reads the rating of an asset.
pub open spec fn rating_view(asset_id: i64) -> StatementView {
    with_id("SELECT rating FROM asset_ratings WHERE asset_id = ?1"@, asset_id)
}

/// The rating of an asset: what [`rating_of`] makes of the engine's answer,
/// so zero if the asset has none or it cannot be read.
pub fn get_rating(index: &mut Index, asset_id: i64) -> (r: i32)
    ensures
        read_once(old(index).trace(), final(index).trace(), rating_view(asset_id)),
        r == rating_of(final(index).trace().last().answer()),
{
    let st = id_statement("SELECT rating FROM asset_ratings WHERE asset_id = ?1", asset_id);
    let answer = fetch(index, &st);
    read_rating(&answer)
}

/// The statements that rate the given assets alike, one each and in order.
pub open spec fn rating_views(asset_ids: Seq<i64>, rating: i32, user: Seq<char>) -> Seq<
    StatementView,
> {
    Seq::new(asset_ids.len(), |k: int| rating_statement_view(asset_ids[k], rating, user))
}

/// Rates many assets alike, one statement each and in order. An asset whose
/// statement the engine refuses is passed over; the count is of the
/// statements that changed a row.
pub fn batch_set_rating(index: &mut Index, asset_ids: &[i64], rating: i32, user: &str) -> (r:
    Result<u32, DbError>)
    requires
        asset_ids@.len() <= u32::MAX,
    ensures
        each_changed(
            old(index).trace(),
            final(index).trace(),
            rating_views(asset_ids@, rating, user@),
        ),
        r is Ok,
        r->Ok_0 == affected_since(old(index).trace(), final(index).trace()),
{
    let mut statements: Vec<Statement> = Vec::new();
    let mut i: usize = 0;
    while i < asset_ids.len()
        invariant
            i <= asset_ids@.len(),
            statements_view(statements@) == rating_views(asset_ids@.take(i as int), rating, user@),
        decreases asset_ids@.len() - i,
    {
        let st = rating_statement(asset_ids[i], rating, user);
        proof {
            assert(statements_view(statements@.push(st)) =~= statements_view(statements@).push(
                st@,
            ));
            assert(asset_ids@.take(i + 1)[i as int] == asset_ids@[i as int]);
            assert(rating_views(asset_ids@.take(i + 1), rating, user@) =~= rating_views(
                asset_ids@.take(i as int),
                rating,
                user@,
            ).push(rating_statement_view(asset_ids@[i as int], rating, user@)));
        }
        statements.push(st);
        i += 1;
    }
    assert(asset_ids@.take(asset_ids@.len() as int) =~= asset_ids@);
    let count = execute_each(index, &statements);
    Ok(count as u32)
}

/// Writes the note of an asset; an empty text removes the note. Succeeds
/// exactly if the engine accepted the statement.
pub fn set_note(index: &mut Index, asset_id: i64, note: &str, user: &str) -> (r: Result<
    (),
    DbError,
>)
    ensures
        changed_once(
            old(index).trace(),
            final(index).trace(),
            note_statement_view(asset_id, note@, user@),
            r is Ok,
        ),
        r is Err ==> r->Err_0 is Engine,
{
    let st = note_statement(asset_id, note, user);
    execute(index, &st)?;
    Ok(())
}

/// The note that an answer holds: the text in the first column of the first
/// row, and the empty text in every other case.
pub open spec fn note_of(answer: Option<Answer>) -> Seq<char> {
    match answer {
        Some(rows) => match first_row(rows) {
            Ok(cells) => match text_at(cells, 0) {
                Some(t) => t,
                None => Seq::empty(),
            },
            Err(_) => Seq::empty(),
        },
        None => Seq::empty(),
    }
}

/// Reads a note, taking every failure as "no note".
pub fn read_note(answer: &Result<RawRows, DbError>) -> (r: String)
    ensures
        r@ == note_of(answer_view(*answer)),
{
    match answer {
        Ok(rows) => match take_first_row(rows) {
            Ok(cells) => match cell_text(cells, 0) {
                Some(t) => t,
                None => String::new(),
            },
            Err(_) => String::new(),
        },
        Err(_) => String::new(),
    }
}

/// Reads the note of an asset.
pub open spec fn note_view(asset_id: i64) -> StatementView {
    with_id("SELECT note FROM asset_notes WHERE asset_id = ?1"@, asset_id)
}

/// The note of an asset: what [`note_of`] makes of the engine's answer, so
/// empty if the asset has none or it cannot be read.
pub fn get_note(index: &mut Index, asset_id: i64) -> (r: String)
    ensures
        read_once(old(index).trace(), final(index).trace(), note_view(asset_id)),
        r@ == note_of(final(index).trace().last().answer()),
{
    let st = id_statement("SELECT note FROM asset_notes WHERE asset_id = ?1", asset_id);
    let answer = fetch(index, &st);
    read_note(&answer)
}

/// The exchanges of reading an asset with its marks, and the result. The
/// engine is asked for the asset, then for its tags, its rating and its
/// note. The call fails, and asks no more, where the asset or the tags
/// cannot be read; a rating or note that cannot be read counts as absent.
pub open spec fn detail_exchange(
    before: Seq<Exchange>,
    after: Seq<Exchange>,
    asset_id: i64,
    r: Result<AssetDetail, DbError>,
) -> bool {
    let n = before.len() as int;
    &&& after.len() >= n + 1
    &&& after.take(n) == before
    &&& after[n] == read(asset_by_id_view(asset_id), after[n].answer())
    &&& match finish(after[n].answer(), |rows: Answer| asset_outcome(rows)) {
        Err(f) => after.len() == n + 1 && r is Err && r->Err_0.fault() == f,
        Ok(asset) => {
            &&& after.len() >= n + 2
            &&& after[n + 1] == read(asset_tags_view(asset_id), after[n + 1].answer())
            &&& match after[n + 1].answer() {
                None => after.len() == n + 2 && r is Err && r->Err_0 is Engine,
                Some(rows) => {
                    &&& after.len() == n + 4
                    &&& after[n + 2] == read(rating_view(asset_id), after[n + 2].answer())
                    &&& after[n + 3] == read(note_view(asset_id), after[n + 3].answer())
                    &&& r is Ok
                    &&& r->Ok_0@ == (AssetDetailView {
                        asset,
                        tags: decoded_tags(rows),
                        rating: rating_of(after[n + 2].answer()),
                        note: note_of(after[n + 3].answer()),
                    })
                },
            }
        },
    }
}

/// An asset with its tags, rating and note.
pub fn get_asset_detail(index: &mut Index, asset_id: i64) -> (r: Result<AssetDetail, DbError>)
    ensures
        detail_exchange(old(index).trace(), final(index).trace(), asset_id, r),
{
    let ghost before = index.trace();
    let ghost n = before.len() as int;
    let found = asset_by_id(index, asset_id);
    let ghost t1 = index.trace();
    proof {
        assert(t1.take(n) =~= before);
        assert(t1[n] == t1.last());
    }
    let asset = found?;
    let tagged = get_asset_tags(index, asset_id);
    let ghost t2 = index.trace();
    proof {
        assert(t2.take(n) =~= before);
        assert(t2[n] == t1[n]);
        assert(t2[n + 1] == t2.last());
    }
    let tags = tagged?;
    let rating = get_rating(index, asset_id);
    let ghost t3 = index.trace();
    let note = get_note(index, asset_id);
    proof {
        let t4 = index.trace();
        assert(t4.take(n) =~= before);
        assert(t4[n] == t1[n]);
        assert(t4[n + 1] == t2[n + 1]);
        assert(t4[n + 2] == t3.last());
        assert(t4[n + 3] == t4.last());
    }
    Ok(AssetDetail { asset, tags, rating, note })
}

} // verus!
