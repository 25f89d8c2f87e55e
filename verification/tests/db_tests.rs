use asset_hub::db::{
    add_tag_to_asset, asset_by_id, batch_add_tag, batch_delete_assets, batch_set_rating,
    clear_folder_assets, create_smart_folder, create_tag, delete_smart_folder, delete_tag,
    folder_asset_paths, folder_path, get_all_tags, get_asset_detail, get_asset_tags, get_folders,
    get_note, get_rating, get_smart_folders, get_stats, index_over, insert_folder, open_index,
    plan_asset_query, query_assets, remove_folder, remove_tag_from_asset, set_note, set_rating,
    update_smart_folder, update_tag, upsert_asset, AssetQueryParams, Bind, DbError, Index,
};

fn memory_index() -> Index {
    open_index(":memory:").expect("an in-memory index opens")
}

fn no_filter() -> AssetQueryParams {
    AssetQueryParams {
        folder_id: None,
        search: None,
        extensions: None,
        min_width: None,
        max_width: None,
        sort_by: None,
        sort_order: None,
        page: None,
        page_size: None,
    }
}

fn add_asset(conn: &mut Index, folder: i64, name: &str, ext: &str, size: i64, width: u32) {
    let path = format!("/art/{}.{}", name, ext);
    let file = format!("{}.{}", name, ext);
    upsert_asset(conn, folder, &path, &file, ext, size, width, 10, "", 1000 + size).unwrap();
}

fn sample_index() -> (Index, i64) {
    let mut conn = memory_index();
    let folder = insert_folder(&mut conn, "/art", "art", "personal").unwrap();
    add_asset(&mut conn, folder.id, "hero", "png", 300, 64);
    add_asset(&mut conn, folder.id, "Boss", "jpg", 100, 256);
    add_asset(&mut conn, folder.id, "tree", "png", 200, 128);
    add_asset(&mut conn, folder.id, "intro", "mp4", 900, 0);
    (conn, folder.id)
}

fn names(conn: &mut Index, params: &AssetQueryParams) -> Vec<String> {
    query_assets(conn, params).unwrap().assets.into_iter().map(|a| a.file_name).collect()
}

#[test]
fn query_page_of_500_over_501_assets() {
    let mut conn = memory_index();
    let folder = insert_folder(&mut conn, "/big", "big", "personal").unwrap();
    for i in 0..501 {
        add_asset(&mut conn, folder.id, &format!("a{:04}", i), "png", i, 1);
    }
    let mut params = no_filter();
    params.page_size = Some(500);
    params.page = Some(1);
    let first = query_assets(&mut conn, &params).unwrap();
    assert_eq!(first.assets.len(), 500);
    assert_eq!(first.total, 501);
    assert_eq!(first.page, 1);
    assert_eq!(first.page_size, 500);
    params.page = Some(2);
    let second = query_assets(&mut conn, &params).unwrap();
    assert_eq!(second.assets.len(), 1);
    assert_eq!(second.total, 501);
    assert_eq!(second.assets[0].file_name, "a0500.png");
}

#[test]
fn query_extension_filter_ignores_case() {
    let (mut conn, _) = sample_index();
    let mut params = no_filter();
    params.extensions = Some(vec!["PNG".to_string()]);
    let found = query_assets(&mut conn, &params).unwrap();
    assert_eq!(found.total, 2);
    assert_eq!(names(&mut conn, &params), vec!["hero.png", "tree.png"]);
    params.extensions = Some(vec!["Jpg".to_string(), "MP4".to_string()]);
    assert_eq!(names(&mut conn, &params), vec!["Boss.jpg", "intro.mp4"]);
}

#[test]
fn query_page_size_is_clamped() {
    let (mut conn, _) = sample_index();
    let mut params = no_filter();
    params.page_size = Some(100_000);
    assert_eq!(query_assets(&mut conn, &params).unwrap().page_size, 500);
    params.page_size = Some(0);
    let one = query_assets(&mut conn, &params).unwrap();
    assert_eq!(one.page_size, 1);
    assert_eq!(one.assets.len(), 1);
    assert_eq!(one.total, 4);
    params.page_size = Some(-7);
    assert_eq!(query_assets(&mut conn, &params).unwrap().page_size, 1);
    params.page_size = None;
    assert_eq!(query_assets(&mut conn, &params).unwrap().page_size, 100);
}

#[test]
fn query_page_below_one_is_the_first() {
    let (mut conn, _) = sample_index();
    let mut params = no_filter();
    params.page = Some(0);
    assert_eq!(query_assets(&mut conn, &params).unwrap().page, 1);
    params.page = Some(-3);
    let r = query_assets(&mut conn, &params).unwrap();
    assert_eq!(r.page, 1);
    assert_eq!(r.assets.len(), 4);
}

#[test]
fn query_total_is_independent_of_the_page() {
    let (mut conn, _) = sample_index();
    let mut params = no_filter();
    params.page_size = Some(3);
    params.page = Some(2);
    let r = query_assets(&mut conn, &params).unwrap();
    assert_eq!(r.total, 4);
    assert_eq!(r.assets.len(), 1);
    params.page = Some(9);
    let beyond = query_assets(&mut conn, &params).unwrap();
    assert_eq!(beyond.total, 4);
    assert_eq!(beyond.assets.len(), 0);
}

#[test]
fn query_rejects_a_page_beyond_addressable_rows() {
    let (mut conn, _) = sample_index();
    let mut params = no_filter();
    params.page = Some(i64::MAX);
    params.page_size = Some(500);
    assert!(matches!(query_assets(&mut conn, &params), Err(DbError::Validation)));
    params.page_size = Some(1);
    let r = query_assets(&mut conn, &params).unwrap();
    assert_eq!(r.page, i64::MAX);
    assert_eq!(r.assets.len(), 0);
}

#[test]
fn query_sorts_by_each_key() {
    let (mut conn, _) = sample_index();
    let mut params = no_filter();
    assert_eq!(names(&mut conn, &params), vec!["Boss.jpg", "hero.png", "intro.mp4", "tree.png"]);
    params.sort_order = Some("desc".to_string());
    assert_eq!(names(&mut conn, &params), vec!["tree.png", "intro.mp4", "hero.png", "Boss.jpg"]);
    params.sort_order = Some("asc".to_string());
    params.sort_by = Some("size".to_string());
    assert_eq!(names(&mut conn, &params), vec!["Boss.jpg", "tree.png", "hero.png", "intro.mp4"]);
    params.sort_by = Some("modified".to_string());
    assert_eq!(names(&mut conn, &params), vec!["Boss.jpg", "tree.png", "hero.png", "intro.mp4"]);
    params.sort_by = Some("width".to_string());
    assert_eq!(names(&mut conn, &params), vec!["intro.mp4", "hero.png", "tree.png", "Boss.jpg"]);
    params.sort_by = Some("ext".to_string());
    params.sort_order = Some("desc".to_string());
    let exts: Vec<String> =
        query_assets(&mut conn, &params).unwrap().assets.into_iter().map(|a| a.file_ext).collect();
    assert_eq!(exts, vec!["png", "png", "mp4", "jpg"]);
}

#[test]
fn query_unknown_sort_key_sorts_by_name() {
    let (mut conn, _) = sample_index();
    let mut params = no_filter();
    params.sort_by = Some("file_size; DROP TABLE assets".to_string());
    params.sort_order = Some("sideways".to_string());
    assert_eq!(names(&mut conn, &params), vec!["Boss.jpg", "hero.png", "intro.mp4", "tree.png"]);
    assert_eq!(query_assets(&mut conn, &no_filter()).unwrap().total, 4);
}

#[test]
fn query_filters_combine() {
    let (mut conn, folder) = sample_index();
    let other = insert_folder(&mut conn, "/other", "other", "shared").unwrap();
    add_asset(&mut conn, other.id, "hero2", "png", 50, 64);
    let mut params = no_filter();
    params.folder_id = Some(folder);
    params.search = Some("e".to_string());
    params.extensions = Some(vec!["png".to_string(), "jpg".to_string()]);
    params.min_width = Some(64);
    params.max_width = Some(128);
    let r = query_assets(&mut conn, &params).unwrap();
    assert_eq!(r.total, 2);
    let got: Vec<String> = r.assets.into_iter().map(|a| a.file_name).collect();
    assert_eq!(got, vec!["hero.png", "tree.png"]);
    params.folder_id = Some(other.id);
    assert_eq!(names(&mut conn, &params), vec!["hero2.png"]);
}

#[test]
fn query_search_text_is_bound_not_spliced() {
    let (mut conn, _) = sample_index();
    let mut params = no_filter();
    params.search = Some("' OR 1=1 --".to_string());
    let r = query_assets(&mut conn, &params).unwrap();
    assert_eq!(r.total, 0);
    params.search = Some(String::new());
    assert_eq!(query_assets(&mut conn, &params).unwrap().total, 4);
    params.extensions = Some(Vec::new());
    assert_eq!(query_assets(&mut conn, &params).unwrap().total, 4);
}

#[test]
fn plan_has_the_stated_text_and_values() {
    let mut params = no_filter();
    params.folder_id = Some(7);
    params.search = Some("oak".to_string());
    params.min_width = Some(16);
    params.sort_by = Some("size".to_string());
    params.sort_order = Some("desc".to_string());
    params.page = Some(3);
    params.page_size = Some(25);
    let exts = vec!["png".to_string(), "jpg".to_string()];
    let plan = plan_asset_query(&params, &exts).unwrap();
    assert_eq!(
        plan.count.sql,
        "SELECT COUNT(*) FROM assets WHERE folder_id = ?1 AND file_name LIKE ?2 AND file_ext IN (?3,?4) AND width >= ?5"
    );
    assert_eq!(
        plan.rows.sql,
        "SELECT id, folder_id, file_path, file_name, file_ext, file_size, width, height, thumb_path, modified_at FROM assets WHERE folder_id = ?1 AND file_name LIKE ?2 AND file_ext IN (?3,?4) AND width >= ?5 ORDER BY file_size DESC LIMIT ?6 OFFSET ?7"
    );
    assert_eq!(plan.count.binds.len(), 5);
    assert_eq!(plan.rows.binds.len(), 7);
    assert!(matches!(&plan.rows.binds[0], Bind::Integer(7)));
    assert!(matches!(&plan.rows.binds[1], Bind::Text(t) if t == "%oak%"));
    assert!(matches!(&plan.rows.binds[2], Bind::Text(t) if t == "png"));
    assert!(matches!(&plan.rows.binds[3], Bind::Text(t) if t == "jpg"));
    assert!(matches!(&plan.rows.binds[4], Bind::Integer(16)));
    assert!(matches!(&plan.rows.binds[5], Bind::Integer(25)));
    assert!(matches!(&plan.rows.binds[6], Bind::Integer(50)));
    assert_eq!(plan.page, 3);
    assert_eq!(plan.page_size, 25);
    let bare = plan_asset_query(&no_filter(), &Vec::new()).unwrap();
    assert_eq!(bare.count.sql, "SELECT COUNT(*) FROM assets ");
    assert!(matches!(&bare.rows.binds[0], Bind::Integer(100)));
    assert!(matches!(&bare.rows.binds[1], Bind::Integer(0)));
}

#[test]
fn upsert_same_path_updates_in_place() {
    let mut conn = memory_index();
    let folder = insert_folder(&mut conn, "/art", "art", "personal").unwrap();
    upsert_asset(&mut conn, folder.id, "/art/hero.png", "hero.png", "png", 100, 10, 20, "", 5).unwrap();
    let before = query_assets(&mut conn, &no_filter()).unwrap();
    assert_eq!(before.total, 1);
    let id = before.assets[0].id;
    let tag = create_tag(&mut conn, "concept", "#ff0000").unwrap();
    add_tag_to_asset(&mut conn, id, tag.id, "alice").unwrap();
    set_rating(&mut conn, id, 4, "alice").unwrap();
    set_note(&mut conn, id, "keep", "alice").unwrap();
    upsert_asset(&mut conn, folder.id, "/art/hero.png", "hero.png", "png", 250, 30, 40, "t.jpg", 9)
        .unwrap();
    let after = query_assets(&mut conn, &no_filter()).unwrap();
    assert_eq!(after.total, 1);
    assert_eq!(after.assets.len(), 1);
    let asset = &after.assets[0];
    assert_eq!(asset.id, id);
    assert_eq!(asset.file_size, 250);
    assert_eq!(asset.width, 30);
    assert_eq!(asset.height, 40);
    assert_eq!(asset.thumb_path, "t.jpg");
    assert_eq!(asset.modified_at, 9);
    let tags = get_asset_tags(&mut conn, id).unwrap();
    assert_eq!(tags.len(), 1);
    assert_eq!(tags[0].name, "concept");
    assert_eq!(get_rating(&mut conn, id), 4);
    assert_eq!(get_note(&mut conn, id), "keep");
}

#[test]
fn folder_is_unique_on_path() {
    let mut conn = memory_index();
    let a = insert_folder(&mut conn, "/art", "art", "personal").unwrap();
    let b = insert_folder(&mut conn, "/art", "renamed", "shared").unwrap();
    assert_eq!(a.id, b.id);
    assert_eq!(b.name, "art");
    assert_eq!(b.space_type, "personal");
    assert_eq!(b.asset_count, 0);
    assert_eq!(get_folders(&mut conn, None).unwrap().len(), 1);
    assert_eq!(folder_path(&mut conn, a.id).unwrap(), "/art");
    assert!(matches!(folder_path(&mut conn, a.id + 1), Err(DbError::NotFound)));
}

#[test]
fn folders_list_by_space_with_counts() {
    let (mut conn, folder) = sample_index();
    insert_folder(&mut conn, "/team", "team", "shared").unwrap();
    let all = get_folders(&mut conn, None).unwrap();
    assert_eq!(all.len(), 2);
    assert_eq!(all[0].name, "art");
    assert_eq!(all[0].asset_count, 4);
    assert_eq!(all[1].name, "team");
    let shared = get_folders(&mut conn, Some("shared")).unwrap();
    assert_eq!(shared.len(), 1);
    assert_eq!(shared[0].path, "/team");
    let injected = get_folders(&mut conn, Some("x' OR '1'='1")).unwrap();
    assert_eq!(injected.len(), 0);
    let mut paths = folder_asset_paths(&mut conn, folder).unwrap();
    paths.sort();
    assert_eq!(paths, vec!["/art/Boss.jpg", "/art/hero.png", "/art/intro.mp4", "/art/tree.png"]);
}

#[test]
fn removing_a_folder_removes_its_assets_and_their_marks() {
    let (mut conn, folder) = sample_index();
    let hero = query_assets(&mut conn, &no_filter()).unwrap().assets[1].id;
    let tag = create_tag(&mut conn, "wip", "#000000").unwrap();
    add_tag_to_asset(&mut conn, hero, tag.id, "").unwrap();
    set_rating(&mut conn, hero, 5, "").unwrap();
    set_note(&mut conn, hero, "n", "").unwrap();
    remove_folder(&mut conn, folder).unwrap();
    assert_eq!(query_assets(&mut conn, &no_filter()).unwrap().total, 0);
    assert_eq!(get_folders(&mut conn, None).unwrap().len(), 0);
    assert_eq!(get_asset_tags(&mut conn, hero).unwrap().len(), 0);
    assert_eq!(get_rating(&mut conn, hero), 0);
    assert_eq!(get_note(&mut conn, hero), "");
    assert_eq!(get_all_tags(&mut conn).unwrap()[0].asset_count, 0);
}

#[test]
fn clearing_a_folder_keeps_the_folder() {
    let (mut conn, folder) = sample_index();
    clear_folder_assets(&mut conn, folder).unwrap();
    assert_eq!(query_assets(&mut conn, &no_filter()).unwrap().total, 0);
    let folders = get_folders(&mut conn, None).unwrap();
    assert_eq!(folders.len(), 1);
    assert_eq!(folders[0].asset_count, 0);
}

#[test]
fn stats_count_assets_folders_bytes_and_formats() {
    let (mut conn, _) = sample_index();
    let stats = get_stats(&mut conn).unwrap();
    assert_eq!(stats.total_assets, 4);
    assert_eq!(stats.total_folders, 1);
    assert_eq!(stats.total_size, 1500);
    assert_eq!(stats.format_counts[0], ("png".to_string(), 2));
    assert_eq!(stats.format_counts.len(), 3);
    let empty = get_stats(&mut memory_index()).unwrap();
    assert_eq!(empty.total_assets, 0);
    assert_eq!(empty.total_size, 0);
    assert_eq!(empty.format_counts.len(), 0);
}

#[test]
fn tag_names_are_unique_without_regard_to_case() {
    let mut conn = memory_index();
    let a = create_tag(&mut conn, "Concept", "#111111").unwrap();
    let b = create_tag(&mut conn, "concept", "#222222").unwrap();
    assert_eq!(a.id, b.id);
    assert_eq!(b.name, "Concept");
    assert_eq!(b.color, "#111111");
    update_tag(&mut conn, a.id, "final", "#333333").unwrap();
    let all = get_all_tags(&mut conn).unwrap();
    assert_eq!(all.len(), 1);
    assert_eq!(all[0].name, "final");
    assert_eq!(all[0].color, "#333333");
    delete_tag(&mut conn, a.id).unwrap();
    assert_eq!(get_all_tags(&mut conn).unwrap().len(), 0);
}

#[test]
fn tags_attach_once_and_detach() {
    let (mut conn, _) = sample_index();
    let assets = query_assets(&mut conn, &no_filter()).unwrap().assets;
    let wip = create_tag(&mut conn, "wip", "#000000").unwrap();
    let done = create_tag(&mut conn, "done", "#ffffff").unwrap();
    add_tag_to_asset(&mut conn, assets[0].id, wip.id, "alice").unwrap();
    add_tag_to_asset(&mut conn, assets[0].id, wip.id, "bob").unwrap();
    add_tag_to_asset(&mut conn, assets[0].id, done.id, "alice").unwrap();
    add_tag_to_asset(&mut conn, assets[1].id, wip.id, "alice").unwrap();
    let tags = get_asset_tags(&mut conn, assets[0].id).unwrap();
    assert_eq!(tags.len(), 2);
    assert_eq!(tags[0].name, "done");
    assert_eq!(tags[1].name, "wip");
    let all = get_all_tags(&mut conn).unwrap();
    assert_eq!(all[0].name, "wip");
    assert_eq!(all[0].asset_count, 2);
    assert_eq!(all[1].asset_count, 1);
    remove_tag_from_asset(&mut conn, assets[0].id, wip.id).unwrap();
    assert_eq!(get_asset_tags(&mut conn, assets[0].id).unwrap().len(), 1);
    delete_tag(&mut conn, wip.id).unwrap();
    assert_eq!(get_asset_tags(&mut conn, assets[1].id).unwrap().len(), 0);
}

#[test]
fn batch_tagging_skips_what_the_engine_refuses() {
    let (mut conn, _) = sample_index();
    let assets = query_assets(&mut conn, &no_filter()).unwrap().assets;
    let tag = create_tag(&mut conn, "batch", "#000000").unwrap();
    let ids = vec![assets[0].id, 9_999, assets[1].id];
    assert_eq!(batch_add_tag(&mut conn, &ids, tag.id, "alice").unwrap(), 2);
    assert_eq!(get_asset_tags(&mut conn, assets[0].id).unwrap().len(), 1);
    assert_eq!(get_asset_tags(&mut conn, assets[1].id).unwrap().len(), 1);
    assert_eq!(batch_add_tag(&mut conn, &[], tag.id, "alice").unwrap(), 0);
}

#[test]
fn batch_tagging_counts_only_the_rows_it_added() {
    let (mut conn, _) = sample_index();
    let assets = query_assets(&mut conn, &no_filter()).unwrap().assets;
    let tag = create_tag(&mut conn, "batch", "#000000").unwrap();
    add_tag_to_asset(&mut conn, assets[2].id, tag.id, "bob").unwrap();
    let ids = vec![assets[0].id, assets[2].id, 9_999, assets[1].id];
    assert_eq!(batch_add_tag(&mut conn, &ids, tag.id, "alice").unwrap(), 2);
    for a in [&assets[0], &assets[1], &assets[2]] {
        assert_eq!(get_asset_tags(&mut conn, a.id).unwrap().len(), 1);
    }
    assert_eq!(get_asset_tags(&mut conn, assets[3].id).unwrap().len(), 0);
    assert_eq!(batch_add_tag(&mut conn, &ids, tag.id, "alice").unwrap(), 0);
    assert_eq!(get_all_tags(&mut conn).unwrap()[0].asset_count, 3);
}

#[test]
fn rating_zero_removes_the_rating() {
    let (mut conn, _) = sample_index();
    let id = query_assets(&mut conn, &no_filter()).unwrap().assets[0].id;
    assert_eq!(get_rating(&mut conn, id), 0);
    set_rating(&mut conn, id, 3, "alice").unwrap();
    assert_eq!(get_rating(&mut conn, id), 3);
    set_rating(&mut conn, id, 5, "bob").unwrap();
    assert_eq!(get_rating(&mut conn, id), 5);
    set_rating(&mut conn, id, 0, "bob").unwrap();
    assert_eq!(get_rating(&mut conn, id), 0);
    assert_eq!(get_rating(&mut conn, 424_242), 0);
}

#[test]
fn batch_rating_counts_successes() {
    let (mut conn, _) = sample_index();
    let assets = query_assets(&mut conn, &no_filter()).unwrap().assets;
    let ids = vec![assets[0].id, assets[2].id, 77_777];
    assert_eq!(batch_set_rating(&mut conn, &ids, 2, "alice").unwrap(), 2);
    assert_eq!(get_rating(&mut conn, assets[0].id), 2);
    assert_eq!(get_rating(&mut conn, assets[1].id), 0);
    assert_eq!(get_rating(&mut conn, assets[2].id), 2);
    assert_eq!(batch_set_rating(&mut conn, &ids, 5, "bob").unwrap(), 2);
    assert_eq!(get_rating(&mut conn, assets[2].id), 5);
    assert_eq!(batch_set_rating(&mut conn, &ids, 0, "alice").unwrap(), 2);
    assert_eq!(batch_set_rating(&mut conn, &ids, 0, "alice").unwrap(), 0);
    assert_eq!(get_rating(&mut conn, assets[0].id), 0);
}

#[test]
fn empty_note_removes_the_note() {
    let (mut conn, _) = sample_index();
    let id = query_assets(&mut conn, &no_filter()).unwrap().assets[0].id;
    assert_eq!(get_note(&mut conn, id), "");
    set_note(&mut conn, id, "first", "alice").unwrap();
    set_note(&mut conn, id, "second", "bob").unwrap();
    assert_eq!(get_note(&mut conn, id), "second");
    set_note(&mut conn, id, "", "bob").unwrap();
    assert_eq!(get_note(&mut conn, id), "");
}

#[test]
fn detail_gathers_tags_rating_and_note() {
    let (mut conn, _) = sample_index();
    let id = query_assets(&mut conn, &no_filter()).unwrap().assets[1].id;
    let tag = create_tag(&mut conn, "hero", "#00ff00").unwrap();
    add_tag_to_asset(&mut conn, id, tag.id, "").unwrap();
    set_rating(&mut conn, id, 4, "").unwrap();
    set_note(&mut conn, id, "main character", "").unwrap();
    let detail = get_asset_detail(&mut conn, id).unwrap();
    assert_eq!(detail.asset.file_name, "hero.png");
    assert_eq!(detail.asset.width, 64);
    assert_eq!(detail.tags.len(), 1);
    assert_eq!(detail.tags[0].name, "hero");
    assert_eq!(detail.rating, 4);
    assert_eq!(detail.note, "main character");
    assert!(matches!(get_asset_detail(&mut conn, 31_337), Err(DbError::NotFound)));
    assert_eq!(asset_by_id(&mut conn, id).unwrap().file_path, "/art/hero.png");
}

#[test]
fn batch_delete_removes_rows() {
    let (mut conn, _) = sample_index();
    let assets = query_assets(&mut conn, &no_filter()).unwrap().assets;
    let ids = vec![assets[0].id, assets[3].id];
    assert_eq!(batch_delete_assets(&mut conn, &ids).unwrap(), 2);
    assert_eq!(batch_delete_assets(&mut conn, &ids).unwrap(), 0);
    assert_eq!(batch_delete_assets(&mut conn, &[assets[1].id, 55_555]).unwrap(), 1);
    assert_eq!(names(&mut conn, &no_filter()), vec!["intro.mp4"]);
}

#[test]
fn smart_folders_are_kept_as_given() {
    let mut conn = memory_index();
    let a = create_smart_folder(&mut conn, "Big", "{\"min_width\":1024}", "personal").unwrap();
    assert_eq!(a.name, "Big");
    assert_eq!(a.icon, "folder");
    assert_eq!(a.conditions, "{\"min_width\":1024}");
    assert_eq!(a.space_type, "personal");
    let b = create_smart_folder(&mut conn, "All", "{}", "shared").unwrap();
    assert!(b.id != a.id);
    let all = get_smart_folders(&mut conn, None).unwrap();
    assert_eq!(all.len(), 2);
    assert_eq!(all[0].name, "All");
    assert_eq!(all[1].id, a.id);
    update_smart_folder(&mut conn, a.id, "Huge", "{\"min_width\":4096}").unwrap();
    let personal = get_smart_folders(&mut conn, Some("personal")).unwrap();
    assert_eq!(personal.len(), 1);
    assert_eq!(personal[0].name, "Huge");
    assert_eq!(personal[0].conditions, "{\"min_width\":4096}");
    assert_eq!(get_smart_folders(&mut conn, Some("' OR ''='")).unwrap().len(), 0);
    delete_smart_folder(&mut conn, a.id).unwrap();
    assert_eq!(get_smart_folders(&mut conn, None).unwrap().len(), 1);
}

#[test]
fn engine_failure_is_reported_with_its_text() {
    let mut conn = index_over(rusqlite::Connection::open_in_memory().unwrap());
    match query_assets(&mut conn, &no_filter()) {
        Err(DbError::Engine(text)) => assert!(text.contains("assets")),
        other => panic!("expected an engine error, got {:?}", other.map(|r| r.total)),
    }
    assert!(matches!(insert_folder(&mut conn, "/a", "a", "personal"), Err(DbError::Engine(_))));
    assert_eq!(get_rating(&mut conn, 1), 0);
    assert_eq!(get_note(&mut conn, 1), "");
}
