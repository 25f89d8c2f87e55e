//! The asset index: folders, assets, tags, ratings, notes and smart folders
//! kept in an embedded relational store.
//!
//! Every operation builds its statement text and bound values here, hands
//! them to the engine, and decodes the rows that come back. What the engine
//! answers is outside this crate's proofs. What is asked of it, in which
//! order, and what is made of each possible answer, is not: an open store
//! carries the record of its exchanges with the engine, and the contract
//! of every operation says how that record grows and how the result
//! follows from the answers in it.

pub mod assets;
pub mod engine;
pub mod folders;
pub mod marks;
pub mod query;
pub mod records;
pub mod smart;
pub mod store;
pub mod tags;

pub use assets::{
    asset_by_id, batch_delete_assets, get_stats, read_asset, read_total, upsert_asset,
    upsert_asset_statement,
};
pub use engine::{
    index_over, Bind, BindView, Cell, CellView, DbError, Exchange, Fault, Index, RawRows,
    Statement, StatementView,
};
pub use folders::{
    clear_folder_assets, folder_asset_paths, folder_by_path_statement, folder_path,
    folders_statement, get_folders, insert_folder, insert_folder_statement, read_first_text,
    read_folder, remove_folder,
};
pub use marks::{
    batch_set_rating, get_asset_detail, get_note, get_rating, note_statement, rating_statement,
    read_note, read_rating, set_note, set_rating,
};
pub use query::{
    assemble_query_result, build_filter, effective_page, effective_page_size, plan_asset_query,
    query_assets, sort_column_name, sort_direction_name, AssetQueryParams, AssetQueryParamsView,
    AssetQueryResult, AssetQueryResultView, Filter, QueryPlan, DEFAULT_PAGE_SIZE, MAX_PAGE_SIZE,
};
pub use records::{
    decode_asset, decode_folder, decode_smart_folder, decode_tag, AssetDetail, AssetDetailView,
    AssetInfo, AssetInfoView, FolderInfo, FolderInfoView, FolderStats, FolderStatsView,
    ScanProgress, ScanProgressView, SmartFolder, SmartFolderView, TagInfo, TagInfoView,
};
pub use smart::{
    create_smart_folder, delete_smart_folder, get_smart_folders, smart_folders_statement,
    update_smart_folder,
};
pub use store::{init_tables, open_index};
pub use tags::{
    add_tag_to_asset, batch_add_tag, create_tag, delete_tag, get_all_tags, get_asset_tags,
    remove_tag_from_asset, update_tag,
};
