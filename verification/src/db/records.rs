//! The records of the index and how a result row decodes into each.

use vstd::prelude::*;
use vstd::utf8::*;
use crate::db::engine::{cells_view, decoded_is, text_from_utf8, views, Cell, CellView};

verus! {

/// A watched folder with the number of assets indexed under it.
#[derive(Debug, Clone)]
pub struct FolderInfo {
    pub id: i64,
    pub path: String,
    pub name: String,
    pub space_type: String,
    pub asset_count: i64,
}

pub struct FolderInfoView {
    pub id: i64,
    pub path: Seq<char>,
    pub name: Seq<char>,
    pub space_type: Seq<char>,
    pub asset_count: i64,
}

impl View for FolderInfo {
    type V = FolderInfoView;

    open spec fn view(&self) -> FolderInfoView {
        FolderInfoView {
            id: self.id,
            path: self.path@,
            name: self.name@,
            space_type: self.space_type@,
            asset_count: self.asset_count,
        }
    }
}

/// One indexed file.
#[derive(Debug, Clone)]
pub struct AssetInfo {
    pub id: i64,
    pub folder_id: i64,
    pub file_path: String,
    pub file_name: String,
    pub file_ext: String,
    pub file_size: i64,
    pub width: u32,
    pub height: u32,
    pub thumb_path: String,
    pub modified_at: i64,
}

pub struct AssetInfoView {
    pub id: i64,
    pub folder_id: i64,
    pub file_path: Seq<char>,
    pub file_name: Seq<char>,
    pub file_ext: Seq<char>,
    pub file_size: i64,
    pub width: u32,
    pub height: u32,
    pub thumb_path: Seq<char>,
    pub modified_at: i64,
}

impl View for AssetInfo {
    type V = AssetInfoView;

    open spec fn view(&self) -> AssetInfoView {
        AssetInfoView {
            id: self.id,
            folder_id: self.folder_id,
            file_path: self.file_path@,
            file_name: self.file_name@,
            file_ext: self.file_ext@,
            file_size: self.file_size,
            width: self.width,
            height: self.height,
            thumb_path: self.thumb_path@,
            modified_at: self.modified_at,
        }
    }
}

/// A tag with the number of assets that carry it.
#[derive(Debug, Clone)]
pub struct TagInfo {
    pub id: i64,
    pub name: String,
    pub color: String,
    pub asset_count: i64,
}

pub struct TagInfoView {
    pub id: i64,
    pub name: Seq<char>,
    pub color: Seq<char>,
    pub asset_count: i64,
}

impl View for TagInfo {
    type V = TagInfoView;

    open spec fn view(&self) -> TagInfoView {
        TagInfoView { id: self.id, name: self.name@, color: self.color@, asset_count: self.asset_count }
    }
}

/// An asset together with its tags, rating and note.
#[derive(Debug, Clone)]
pub struct AssetDetail {
    pub asset: AssetInfo,
    pub tags: Vec<TagInfo>,
    pub rating: i32,
    pub note: String,
}

pub struct AssetDetailView {
    pub asset: AssetInfoView,
    pub tags: Seq<TagInfoView>,
    pub rating: i32,
    pub note: Seq<char>,
}

impl View for AssetDetail {
    type V = AssetDetailView;

    open spec fn view(&self) -> AssetDetailView {
        AssetDetailView {
            asset: self.asset@,
            tags: views(self.tags@),
            rating: self.rating,
            note: self.note@,
        }
    }
}

/// A saved filter over the index.
#[derive(Debug, Clone)]
pub struct SmartFolder {
    pub id: i64,
    pub name: String,
    pub icon: String,
    pub conditions: String,
    pub space_type: String,
}

pub struct SmartFolderView {
    pub id: i64,
    pub name: Seq<char>,
    pub icon: Seq<char>,
    pub conditions: Seq<char>,
    pub space_type: Seq<char>,
}

impl View for SmartFolder {
    type V = SmartFolderView;

    open spec fn view(&self) -> SmartFolderView {
        SmartFolderView {
            id: self.id,
            name: self.name@,
            icon: self.icon@,
            conditions: self.conditions@,
            space_type: self.space_type@,
        }
    }
}

/// Totals over the whole index.
#[derive(Debug, Clone)]
pub struct FolderStats {
    pub total_assets: i64,
    pub total_folders: i64,
    pub total_size: i64,
    pub format_counts: Vec<(String, i64)>,
}

pub struct FolderStatsView {
    pub total_assets: i64,
    pub total_folders: i64,
    pub total_size: i64,
    pub format_counts: Seq<(Seq<char>, i64)>,
}

impl View for FolderStats {
    type V = FolderStatsView;

    open spec fn view(&self) -> FolderStatsView {
        FolderStatsView {
            total_assets: self.total_assets,
            total_folders: self.total_folders,
            total_size: self.total_size,
            format_counts: views(self.format_counts@),
        }
    }
}

/// How far the scan of a folder has come.
#[derive(Debug, Clone)]
pub struct ScanProgress {
    pub folder_id: i64,
    pub current: u32,
    pub total: u32,
    pub file_name: String,
    /// One of `scanning`, `thumbnails` and `complete`.
    pub phase: String,
}

pub struct ScanProgressView {
    pub folder_id: i64,
    pub current: u32,
    pub total: u32,
    pub file_name: Seq<char>,
    pub phase: Seq<char>,
}

impl View for ScanProgress {
    type V = ScanProgressView;

    open spec fn view(&self) -> ScanProgressView {
        ScanProgressView {
            folder_id: self.folder_id,
            current: self.current,
            total: self.total,
            file_name: self.file_name@,
            phase: self.phase@,
        }
    }
}

/// The integer in column `i`, if the column exists and holds an integer.
pub open spec fn int_at(cells: Seq<CellView>, i: int) -> Option<i64> {
    if 0 <= i < cells.len() {
        match cells[i] {
            CellView::Integer(v) => Some(v),
            _ => None,
        }
    } else {
        None
    }
}

/// The integer in column `i`, if it also fits in 32 unsigned bits.
pub open spec fn u32_at(cells: Seq<CellView>, i: int) -> Option<u32> {
    match int_at(cells, i) {
        Some(v) => if 0 <= v <= u32::MAX {
            Some(v as u32)
        } else {
            None
        },
        None => None,
    }
}

/// The integer in column `i`, if it also fits in 32 signed bits.
pub open spec fn i32_at(cells: Seq<CellView>, i: int) -> Option<i32> {
    match int_at(cells, i) {
        Some(v) => if i32::MIN <= v <= i32::MAX {
            Some(v as i32)
        } else {
            None
        },
        None => None,
    }
}

/// The text in column `i`, if the column exists and holds well-formed text.
pub open spec fn text_at(cells: Seq<CellView>, i: int) -> Option<Seq<char>> {
    if 0 <= i < cells.len() {
        match cells[i] {
            CellView::Text(b) => if valid_utf8(b) {
                Some(decode_utf8(b))
            } else {
                None
            },
            _ => None,
        }
    } else {
        None
    }
}

/// A text result agrees with its specification.
pub open spec fn text_is(r: Option<String>, want: Option<Seq<char>>) -> bool {
    match r {
        Some(s) => want == Some(s@),
        None => want is None,
    }
}

pub fn cell_int(cells: &Vec<Cell>, i: usize) -> (r: Option<i64>)
    ensures
        r == int_at(cells_view(cells@), i as int),
{
    if i < cells.len() {
        match &cells[i] {
            Cell::Integer(v) => Some(*v),
            _ => None,
        }
    } else {
        None
    }
}

pub fn cell_u32(cells: &Vec<Cell>, i: usize) -> (r: Option<u32>)
    ensures
        r == u32_at(cells_view(cells@), i as int),
{
    match cell_int(cells, i) {
        Some(v) => if 0 <= v && v <= 0xffff_ffff {
            Some(v as u32)
        } else {
            None
        },
        None => None,
    }
}

pub fn cell_i32(cells: &Vec<Cell>, i: usize) -> (r: Option<i32>)
    ensures
        r == i32_at(cells_view(cells@), i as int),
{
    match cell_int(cells, i) {
        Some(v) => if -0x8000_0000 <= v && v <= 0x7fff_ffff {
            Some(v as i32)
        } else {
            None
        },
        None => None,
    }
}

pub fn cell_text(cells: &Vec<Cell>, i: usize) -> (r: Option<String>)
    ensures
        text_is(r, text_at(cells_view(cells@), i as int)),
{
    if i < cells.len() {
        match &cells[i] {
            Cell::Text(b) => text_from_utf8(b),
            _ => None,
        }
    } else {
        None
    }
}

/// The asset that a row of ten columns decodes to: identifiers, texts, size
/// and modification time must have their kind; a width or height that is
/// missing or out of range reads as zero.
pub open spec fn asset_of_cells(cells: Seq<CellView>) -> Option<AssetInfoView> {
    if int_at(cells, 0) is Some && int_at(cells, 1) is Some && text_at(cells, 2) is Some
        && text_at(cells, 3) is Some && text_at(cells, 4) is Some && int_at(cells, 5) is Some
        && text_at(cells, 8) is Some && int_at(cells, 9) is Some {
        Some(
            AssetInfoView {
                id: int_at(cells, 0)->0,
                folder_id: int_at(cells, 1)->0,
                file_path: text_at(cells, 2)->0,
                file_name: text_at(cells, 3)->0,
                file_ext: text_at(cells, 4)->0,
                file_size: int_at(cells, 5)->0,
                width: match u32_at(cells, 6) {
                    Some(w) => w,
                    None => 0,
                },
                height: match u32_at(cells, 7) {
                    Some(h) => h,
                    None => 0,
                },
                thumb_path: text_at(cells, 8)->0,
                modified_at: int_at(cells, 9)->0,
            },
        )
    } else {
        None
    }
}

/// Decodes one row of the asset listing.
pub fn decode_asset(cells: &Vec<Cell>) -> (r: Option<AssetInfo>)
    ensures
        decoded_is(r, asset_of_cells(cells_view(cells@))),
{
    let id = cell_int(cells, 0)?;
    let folder_id = cell_int(cells, 1)?;
    let file_path = cell_text(cells, 2)?;
    let file_name = cell_text(cells, 3)?;
    let file_ext = cell_text(cells, 4)?;
    let file_size = cell_int(cells, 5)?;
    let width = match cell_u32(cells, 6) {
        Some(w) => w,
        None => 0,
    };
    let height = match cell_u32(cells, 7) {
        Some(h) => h,
        None => 0,
    };
    let thumb_path = cell_text(cells, 8)?;
    let modified_at = cell_int(cells, 9)?;
    Some(
        AssetInfo {
            id,
            folder_id,
            file_path,
            file_name,
            file_ext,
            file_size,
            width,
            height,
            thumb_path,
            modified_at,
        },
    )
}

/// The folder that a row of five columns decodes to.
pub open spec fn folder_of_cells(cells: Seq<CellView>) -> Option<FolderInfoView> {
    if int_at(cells, 0) is Some && text_at(cells, 1) is Some && text_at(cells, 2) is Some
        && text_at(cells, 3) is Some && int_at(cells, 4) is Some {
        Some(
            FolderInfoView {
                id: int_at(cells, 0)->0,
                path: text_at(cells, 1)->0,
                name: text_at(cells, 2)->0,
                space_type: text_at(cells, 3)->0,
                asset_count: int_at(cells, 4)->0,
            },
        )
    } else {
        None
    }
}

/// Decodes one row of a folder listing.
pub fn decode_folder(cells: &Vec<Cell>) -> (r: Option<FolderInfo>)
    ensures
        decoded_is(r, folder_of_cells(cells_view(cells@))),
{
    let id = cell_int(cells, 0)?;
    let path = cell_text(cells, 1)?;
    let name = cell_text(cells, 2)?;
    let space_type = cell_text(cells, 3)?;
    let asset_count = cell_int(cells, 4)?;
    Some(FolderInfo { id, path, name, space_type, asset_count })
}

/// The tag that a row of four columns decodes to.
pub open spec fn tag_of_cells(cells: Seq<CellView>) -> Option<TagInfoView> {
    if int_at(cells, 0) is Some && text_at(cells, 1) is Some && text_at(cells, 2) is Some
        && int_at(cells, 3) is Some {
        Some(
            TagInfoView {
                id: int_at(cells, 0)->0,
                name: text_at(cells, 1)->0,
                color: text_at(cells, 2)->0,
                asset_count: int_at(cells, 3)->0,
            },
        )
    } else {
        None
    }
}

/// Decodes one row of a tag listing.
pub fn decode_tag(cells: &Vec<Cell>) -> (r: Option<TagInfo>)
    ensures
        decoded_is(r, tag_of_cells(cells_view(cells@))),
{
    let id = cell_int(cells, 0)?;
    let name = cell_text(cells, 1)?;
    let color = cell_text(cells, 2)?;
    let asset_count = cell_int(cells, 3)?;
    Some(TagInfo { id, name, color, asset_count })
}

/// The smart folder that a row of five columns decodes to.
pub open spec fn smart_folder_of_cells(cells: Seq<CellView>) -> Option<SmartFolderView> {
    if int_at(cells, 0) is Some && text_at(cells, 1) is Some && text_at(cells, 2) is Some
        && text_at(cells, 3) is Some && text_at(cells, 4) is Some {
        Some(
            SmartFolderView {
                id: int_at(cells, 0)->0,
                name: text_at(cells, 1)->0,
                icon: text_at(cells, 2)->0,
                conditions: text_at(cells, 3)->0,
                space_type: text_at(cells, 4)->0,
            },
        )
    } else {
        None
    }
}

/// Decodes one row of a smart-folder listing.
pub fn decode_smart_folder(cells: &Vec<Cell>) -> (r: Option<SmartFolder>)
    ensures
        decoded_is(r, smart_folder_of_cells(cells_view(cells@))),
{
    let id = cell_int(cells, 0)?;
    let name = cell_text(cells, 1)?;
    let icon = cell_text(cells, 2)?;
    let conditions = cell_text(cells, 3)?;
    let space_type = cell_text(cells, 4)?;
    Some(SmartFolder { id, name, icon, conditions, space_type })
}

/// The format count that a row of two columns decodes to.
pub open spec fn format_count_of_cells(cells: Seq<CellView>) -> Option<(Seq<char>, i64)> {
    if text_at(cells, 0) is Some && int_at(cells, 1) is Some {
        Some((text_at(cells, 0)->0, int_at(cells, 1)->0))
    } else {
        None
    }
}

/// Decodes one row of the per-format totals.
pub fn decode_format_count(cells: &Vec<Cell>) -> (r: Option<(String, i64)>)
    ensures
        decoded_is(r, format_count_of_cells(cells_view(cells@))),
{
    let format = cell_text(cells, 0)?;
    let count = cell_int(cells, 1)?;
    Some((format, count))
}

/// Decodes a row whose first column is a text.
pub fn decode_text(cells: &Vec<Cell>) -> (r: Option<String>)
    ensures
        decoded_is(r, text_at(cells_view(cells@), 0)),
{
    cell_text(cells, 0)
}

} // verus!
