use asset_hub::db::{
    assemble_query_result, decode_asset, decode_folder, decode_smart_folder, decode_tag,
    read_asset, read_first_text, read_folder, read_note, read_rating, read_total, Cell, DbError,
    RawRows,
};

fn text(s: &str) -> Cell {
    Cell::Text(s.as_bytes().to_vec())
}

fn asset_row(id: i64, name: &str) -> Vec<Cell> {
    vec![
        Cell::Integer(id),
        Cell::Integer(3),
        text("/art/x.png"),
        text(name),
        text("png"),
        Cell::Integer(1234),
        Cell::Integer(640),
        Cell::Integer(480),
        text("/thumbs/a.jpg"),
        Cell::Integer(99),
    ]
}

#[test]
fn asset_row_decodes_field_by_field() {
    let a = decode_asset(&asset_row(7, "x.png")).unwrap();
    assert_eq!(a.id, 7);
    assert_eq!(a.folder_id, 3);
    assert_eq!(a.file_path, "/art/x.png");
    assert_eq!(a.file_name, "x.png");
    assert_eq!(a.file_ext, "png");
    assert_eq!(a.file_size, 1234);
    assert_eq!((a.width, a.height), (640, 480));
    assert_eq!(a.thumb_path, "/thumbs/a.jpg");
    assert_eq!(a.modified_at, 99);
}

#[test]
fn asset_dimensions_out_of_range_read_as_zero() {
    let mut row = asset_row(1, "x.png");
    row[6] = Cell::Integer(-1);
    row[7] = Cell::Integer(u32::MAX as i64 + 1);
    let a = decode_asset(&row).unwrap();
    assert_eq!((a.width, a.height), (0, 0));
    row[6] = Cell::Null;
    row[7] = text("480");
    let b = decode_asset(&row).unwrap();
    assert_eq!((b.width, b.height), (0, 0));
    row[6] = Cell::Integer(u32::MAX as i64);
    row[7] = Cell::Integer(0);
    let c = decode_asset(&row).unwrap();
    assert_eq!((c.width, c.height), (u32::MAX, 0));
}

#[test]
fn asset_row_of_the_wrong_kind_does_not_decode() {
    let mut row = asset_row(1, "x.png");
    row[0] = text("1");
    assert!(decode_asset(&row).is_none());
    let mut row = asset_row(1, "x.png");
    row[3] = Cell::Integer(5);
    assert!(decode_asset(&row).is_none());
    let mut row = asset_row(1, "x.png");
    row[5] = Cell::Real;
    assert!(decode_asset(&row).is_none());
    let mut row = asset_row(1, "x.png");
    row[8] = Cell::Blob(b"/thumbs/a.jpg".to_vec());
    assert!(decode_asset(&row).is_none());
    let mut row = asset_row(1, "x.png");
    row[9] = Cell::Null;
    assert!(decode_asset(&row).is_none());
    let mut short = asset_row(1, "x.png");
    short.pop();
    assert!(decode_asset(&short).is_none());
    assert!(decode_asset(&Vec::new()).is_none());
}

#[test]
fn text_that_is_not_utf8_does_not_decode() {
    let mut row = asset_row(1, "x.png");
    row[3] = Cell::Text(vec![0x66, 0xff, 0x6f]);
    assert!(decode_asset(&row).is_none());
    row[3] = Cell::Text("名前.png".as_bytes().to_vec());
    assert_eq!(decode_asset(&row).unwrap().file_name, "名前.png");
    row[3] = Cell::Text(vec![0xe5, 0x90]);
    assert!(decode_asset(&row).is_none());
    row[3] = Cell::Text(Vec::new());
    assert_eq!(decode_asset(&row).unwrap().file_name, "");
}

#[test]
fn other_records_decode() {
    let f = decode_folder(&vec![
        Cell::Integer(1),
        text("/art"),
        text("art"),
        text("shared"),
        Cell::Integer(12),
    ])
    .unwrap();
    assert_eq!((f.id, f.asset_count), (1, 12));
    assert_eq!(f.space_type, "shared");
    assert!(decode_folder(&vec![Cell::Integer(1), text("/art"), text("art"), text("shared")])
        .is_none());
    let t = decode_tag(&vec![Cell::Integer(4), text("wip"), text("#fff"), Cell::Integer(0)])
        .unwrap();
    assert_eq!((t.id, t.asset_count), (4, 0));
    assert_eq!(t.color, "#fff");
    assert!(decode_tag(&vec![Cell::Integer(4), text("wip"), Cell::Null, Cell::Integer(0)])
        .is_none());
    let s = decode_smart_folder(&vec![
        Cell::Integer(9),
        text("Big"),
        text("folder"),
        text("{}"),
        text("personal"),
    ])
    .unwrap();
    assert_eq!(s.id, 9);
    assert_eq!(s.conditions, "{}");
    assert!(decode_smart_folder(&vec![Cell::Integer(9)]).is_none());
}

fn failed() -> rusqlite::Error {
    rusqlite::Error::InvalidQuery
}

#[test]
fn a_listing_takes_its_total_from_the_count() {
    let count: RawRows = vec![Ok(vec![Cell::Integer(501)])];
    let page: RawRows = vec![
        Ok(asset_row(1, "a.png")),
        Err(failed()),
        Ok(vec![Cell::Integer(2)]),
        Ok(asset_row(3, "c.png")),
    ];
    let r = assemble_query_result(&count, &page, 2, 50).unwrap();
    assert_eq!(r.total, 501);
    assert_eq!((r.page, r.page_size), (2, 50));
    let ids: Vec<i64> = r.assets.iter().map(|a| a.id).collect();
    assert_eq!(ids, vec![1, 3]);
    let none = assemble_query_result(&count, &Vec::new(), 1, 100).unwrap();
    assert_eq!(none.total, 501);
    assert!(none.assets.is_empty());
}

#[test]
fn a_listing_without_a_readable_count_fails() {
    let page: RawRows = vec![Ok(asset_row(1, "a.png"))];
    assert!(matches!(assemble_query_result(&Vec::new(), &page, 1, 1), Err(DbError::NotFound)));
    let broken: RawRows = vec![Err(failed())];
    assert!(matches!(assemble_query_result(&broken, &page, 1, 1), Err(DbError::Engine(_))));
    let odd: RawRows = vec![Ok(vec![text("501")])];
    assert!(matches!(assemble_query_result(&odd, &page, 1, 1), Err(DbError::Corrupt)));
    let empty_row: RawRows = vec![Ok(Vec::new())];
    assert!(matches!(assemble_query_result(&empty_row, &page, 1, 1), Err(DbError::Corrupt)));
}

#[test]
fn single_records_come_from_the_first_row() {
    let rows: RawRows = vec![Ok(asset_row(5, "e.png")), Ok(asset_row(6, "f.png"))];
    assert_eq!(read_asset(&rows).unwrap().id, 5);
    assert!(matches!(read_asset(&Vec::new()), Err(DbError::NotFound)));
    let bad: RawRows = vec![Ok(vec![Cell::Null]), Ok(asset_row(6, "f.png"))];
    assert!(matches!(read_asset(&bad), Err(DbError::Corrupt)));
    let failed_first: RawRows = vec![Err(failed()), Ok(asset_row(6, "f.png"))];
    assert!(matches!(read_asset(&failed_first), Err(DbError::Engine(_))));
    assert!(matches!(read_folder(&Vec::new()), Err(DbError::NotFound)));
}

#[test]
fn marks_default_when_they_cannot_be_read() {
    let rated: Result<RawRows, DbError> = Ok(vec![Ok(vec![Cell::Integer(4)])]);
    assert_eq!(read_rating(&rated), 4);
    assert_eq!(read_rating(&Ok(Vec::new())), 0);
    assert_eq!(read_rating(&Err(DbError::NotFound)), 0);
    assert_eq!(read_rating(&Ok(vec![Ok(vec![Cell::Integer(i32::MAX as i64 + 1)])])), 0);
    assert_eq!(read_rating(&Ok(vec![Ok(vec![Cell::Integer(-2)])])), -2);
    assert_eq!(read_rating(&Ok(vec![Ok(vec![text("4")])])), 0);
    assert_eq!(read_rating(&Ok(vec![Err(failed())])), 0);
    let noted: Result<RawRows, DbError> = Ok(vec![Ok(vec![text("keep")])]);
    assert_eq!(read_note(&noted), "keep");
    assert_eq!(read_note(&Ok(Vec::new())), "");
    assert_eq!(read_note(&Ok(vec![Ok(vec![Cell::Integer(1)])])), "");
    assert_eq!(read_note(&Err(DbError::Engine("x".to_string()))), "");
    assert_eq!(read_total(&Ok(vec![Ok(vec![Cell::Integer(17)])])), 17);
    assert_eq!(read_total(&Ok(vec![Ok(vec![Cell::Null])])), 0);
    assert_eq!(read_total(&Err(DbError::NotFound)), 0);
}

#[test]
fn a_single_text_comes_from_the_first_column_of_the_first_row() {
    let rows: RawRows = vec![Ok(vec![text("/art"), text("ignored")]), Ok(vec![text("/other")])];
    assert_eq!(read_first_text(&rows).unwrap(), "/art");
    assert!(matches!(read_first_text(&Vec::new()), Err(DbError::NotFound)));
    let wrong: RawRows = vec![Ok(vec![Cell::Integer(1)])];
    assert!(matches!(read_first_text(&wrong), Err(DbError::Corrupt)));
    let broken: RawRows = vec![Err(failed())];
    assert!(matches!(read_first_text(&broken), Err(DbError::Engine(_))));
    let not_text: RawRows = vec![Ok(vec![Cell::Text(vec![0xff])])];
    assert!(matches!(read_first_text(&not_text), Err(DbError::Corrupt)));
}
