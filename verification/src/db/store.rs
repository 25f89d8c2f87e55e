//! Opening the store and laying out its tables.

use vstd::prelude::*;
use crate::db::engine::{batch, connect, DbError, Exchange, Index};

verus! {

/// The settings applied to every connection: write-ahead journaling with
/// relaxed synchronous commits, enforced foreign keys, and a cache of eight
/// thousand kibibytes.
pub open spec fn settings_text() -> Seq<char> {
    "PRAGMA journal_mode=WAL;
     PRAGMA synchronous=NORMAL;
     PRAGMA foreign_keys=ON;
     PRAGMA cache_size=-8000;"@
}

/// The tables and indexes of the index. Every statement is conditional, so
/// running the text on a store that already has them changes nothing.
pub open spec fn schema_text() -> Seq<char> {
    "CREATE TABLE IF NOT EXISTS folders (
        id INTEGER PRIMARY KEY AUTOINCREMENT,
        path TEXT NOT NULL UNIQUE,
        name TEXT NOT NULL,
        space_type TEXT NOT NULL DEFAULT 'personal',
        created_at INTEGER NOT NULL DEFAULT (strftime('%s','now'))
    );

    CREATE TABLE IF NOT EXISTS assets (
        id INTEGER PRIMARY KEY AUTOINCREMENT,
        folder_id INTEGER NOT NULL,
        file_path TEXT NOT NULL UNIQUE,
        file_name TEXT NOT NULL,
        file_ext TEXT NOT NULL,
        file_size INTEGER NOT NULL DEFAULT 0,
        width INTEGER NOT NULL DEFAULT 0,
        height INTEGER NOT NULL DEFAULT 0,
        thumb_path TEXT NOT NULL DEFAULT '',
        modified_at INTEGER NOT NULL DEFAULT 0,
        scanned_at INTEGER NOT NULL DEFAULT (strftime('%s','now')),
        FOREIGN KEY (folder_id) REFERENCES folders(id) ON DELETE CASCADE
    );

    CREATE INDEX IF NOT EXISTS idx_assets_folder ON assets(folder_id);
    CREATE INDEX IF NOT EXISTS idx_assets_ext ON assets(file_ext);
    CREATE INDEX IF NOT EXISTS idx_assets_name ON assets(file_name COLLATE NOCASE);
    CREATE INDEX IF NOT EXISTS idx_assets_size ON assets(file_size);
    CREATE INDEX IF NOT EXISTS idx_assets_modified ON assets(modified_at);

    CREATE TABLE IF NOT EXISTS tags (
        id INTEGER PRIMARY KEY AUTOINCREMENT,
        name TEXT NOT NULL UNIQUE COLLATE NOCASE,
        color TEXT NOT NULL DEFAULT '#6b7280'
    );

    CREATE TABLE IF NOT EXISTS asset_tags (
        asset_id INTEGER NOT NULL,
        tag_id INTEGER NOT NULL,
        tagged_by TEXT NOT NULL DEFAULT '',
        tagged_at INTEGER NOT NULL DEFAULT (strftime('%s','now')),
        PRIMARY KEY (asset_id, tag_id),
        FOREIGN KEY (asset_id) REFERENCES assets(id) ON DELETE CASCADE,
        FOREIGN KEY (tag_id) REFERENCES tags(id) ON DELETE CASCADE
    );

    CREATE TABLE IF NOT EXISTS asset_ratings (
        asset_id INTEGER PRIMARY KEY,
        rating INTEGER NOT NULL DEFAULT 0,
        rated_by TEXT NOT NULL DEFAULT '',
        rated_at INTEGER NOT NULL DEFAULT (strftime('%s','now')),
        FOREIGN KEY (asset_id) REFERENCES assets(id) ON DELETE CASCADE
    );

    CREATE TABLE IF NOT EXISTS asset_notes (
        asset_id INTEGER PRIMARY KEY,
        note TEXT NOT NULL DEFAULT '',
        updated_by TEXT NOT NULL DEFAULT '',
        updated_at INTEGER NOT NULL DEFAULT (strftime('%s','now')),
        FOREIGN KEY (asset_id) REFERENCES assets(id) ON DELETE CASCADE
    );

    CREATE TABLE IF NOT EXISTS smart_folders (
        id INTEGER PRIMARY KEY AUTOINCREMENT,
        name TEXT NOT NULL,
        icon TEXT NOT NULL DEFAULT 'folder',
        conditions TEXT NOT NULL DEFAULT '{}',
        space_type TEXT NOT NULL DEFAULT 'personal',
        created_at INTEGER NOT NULL DEFAULT (strftime('%s','now'))
    );

    CREATE INDEX IF NOT EXISTS idx_asset_tags_asset ON asset_tags(asset_id);
    CREATE INDEX IF NOT EXISTS idx_asset_tags_tag ON asset_tags(tag_id);"@
}

/// The text of the connection settings.
fn connection_settings() -> (r: &'static str)
    ensures
        r@ == settings_text(),
{
    "PRAGMA journal_mode=WAL;
     PRAGMA synchronous=NORMAL;
     PRAGMA foreign_keys=ON;
     PRAGMA cache_size=-8000;"
}

/// The text that lays out the tables and indexes.
fn schema() -> (r: &'static str)
    ensures
        r@ == schema_text(),
{
    "CREATE TABLE IF NOT EXISTS folders (
        id INTEGER PRIMARY KEY AUTOINCREMENT,
        path TEXT NOT NULL UNIQUE,
        name TEXT NOT NULL,
        space_type TEXT NOT NULL DEFAULT 'personal',
        created_at INTEGER NOT NULL DEFAULT (strftime('%s','now'))
    );

    CREATE TABLE IF NOT EXISTS assets (
        id INTEGER PRIMARY KEY AUTOINCREMENT,
        folder_id INTEGER NOT NULL,
        file_path TEXT NOT NULL UNIQUE,
        file_name TEXT NOT NULL,
        file_ext TEXT NOT NULL,
        file_size INTEGER NOT NULL DEFAULT 0,
        width INTEGER NOT NULL DEFAULT 0,
        height INTEGER NOT NULL DEFAULT 0,
        thumb_path TEXT NOT NULL DEFAULT '',
        modified_at INTEGER NOT NULL DEFAULT 0,
        scanned_at INTEGER NOT NULL DEFAULT (strftime('%s','now')),
        FOREIGN KEY (folder_id) REFERENCES folders(id) ON DELETE CASCADE
    );

    CREATE INDEX IF NOT EXISTS idx_assets_folder ON assets(folder_id);
    CREATE INDEX IF NOT EXISTS idx_assets_ext ON assets(file_ext);
    CREATE INDEX IF NOT EXISTS idx_assets_name ON assets(file_name COLLATE NOCASE);
    CREATE INDEX IF NOT EXISTS idx_assets_size ON assets(file_size);
    CREATE INDEX IF NOT EXISTS idx_assets_modified ON assets(modified_at);

    CREATE TABLE IF NOT EXISTS tags (
        id INTEGER PRIMARY KEY AUTOINCREMENT,
        name TEXT NOT NULL UNIQUE COLLATE NOCASE,
        color TEXT NOT NULL DEFAULT '#6b7280'
    );

    CREATE TABLE IF NOT EXISTS asset_tags (
        asset_id INTEGER NOT NULL,
        tag_id INTEGER NOT NULL,
        tagged_by TEXT NOT NULL DEFAULT '',
        tagged_at INTEGER NOT NULL DEFAULT (strftime('%s','now')),
        PRIMARY KEY (asset_id, tag_id),
        FOREIGN KEY (asset_id) REFERENCES assets(id) ON DELETE CASCADE,
        FOREIGN KEY (tag_id) REFERENCES tags(id) ON DELETE CASCADE
    );

    CREATE TABLE IF NOT EXISTS asset_ratings (
        asset_id INTEGER PRIMARY KEY,
        rating INTEGER NOT NULL DEFAULT 0,
        rated_by TEXT NOT NULL DEFAULT '',
        rated_at INTEGER NOT NULL DEFAULT (strftime('%s','now')),
        FOREIGN KEY (asset_id) REFERENCES assets(id) ON DELETE CASCADE
    );

    CREATE TABLE IF NOT EXISTS asset_notes (
        asset_id INTEGER PRIMARY KEY,
        note TEXT NOT NULL DEFAULT '',
        updated_by TEXT NOT NULL DEFAULT '',
        updated_at INTEGER NOT NULL DEFAULT (strftime('%s','now')),
        FOREIGN KEY (asset_id) REFERENCES assets(id) ON DELETE CASCADE
    );

    CREATE TABLE IF NOT EXISTS smart_folders (
        id INTEGER PRIMARY KEY AUTOINCREMENT,
        name TEXT NOT NULL,
        icon TEXT NOT NULL DEFAULT 'folder',
        conditions TEXT NOT NULL DEFAULT '{}',
        space_type TEXT NOT NULL DEFAULT 'personal',
        created_at INTEGER NOT NULL DEFAULT (strftime('%s','now'))
    );

    CREATE INDEX IF NOT EXISTS idx_asset_tags_asset ON asset_tags(asset_id);
    CREATE INDEX IF NOT EXISTS idx_asset_tags_tag ON asset_tags(tag_id);"
}

/// Creates the tables and indexes that are not there yet: the whole layout
/// goes to the engine in one go.
pub fn init_tables(index: &mut Index) -> (r: Result<(), DbError>)
    ensures
        final(index).trace() == old(index).trace().push(
            Exchange::Batch { sql: schema_text(), accepted: r is Ok },
        ),
        r is Err ==> r->Err_0 is Engine,
{
    batch(index, schema())
}

/// Opens the store at `db_path`, creating it if need be, applies the
/// connection settings and lays out the tables. Whether this succeeds is
/// the engine's and the file system's to decide; on failure the error
/// carries the engine's description. An index that is handed out has had
/// exactly two exchanges, both accepted: the settings, then the layout.
pub fn open_index(db_path: &str) -> (r: Result<Index, DbError>)
    ensures
        match r {
            Ok(index) => index.trace() == seq![
                Exchange::Batch { sql: settings_text(), accepted: true },
                Exchange::Batch { sql: schema_text(), accepted: true },
            ],
            Err(e) => e is Engine,
        },
{
    let mut index = connect(db_path)?;
    batch(&mut index, connection_settings())?;
    init_tables(&mut index)?;
    assert(index.trace() =~= seq![
        Exchange::Batch { sql: settings_text(), accepted: true },
        Exchange::Batch { sql: schema_text(), accepted: true },
    ]);
    Ok(index)
}

} // verus!
