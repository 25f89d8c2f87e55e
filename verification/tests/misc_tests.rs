use std::hash::{Hash, Hasher};

use asset_hub::commands::{
    export_candidate, scan_item, to_stored_number, write_batch, ScanBatcher, ScanItem,
    SCAN_BATCH_SIZE,
};
use asset_hub::db::{insert_folder, open_index, query_assets, AssetQueryParams};
use asset_hub::ffmpeg::FfmpegStatus;
use asset_hub::scanner::{
    all_supported_extensions, indexed_extension, is_supported_lowercase, keep_entry, sort_by_name,
    text_le, ScannedFile,
};
use asset_hub::thumbnail::{
    cached_thumbnail, can_generate_thumbnail, get_file_category, get_thumb_path, is_3d_model,
    is_audio, is_video, media_dimensions, needs_resize, path_hash, thumb_file_name,
    uses_layered_decoder, CacheStep, MediaStream, ThumbResult,
};

fn std_hash(s: &str) -> u64 {
    let mut h = std::collections::hash_map::DefaultHasher::new();
    s.hash(&mut h);
    h.finish()
}

#[test]
fn categories_by_extension() {
    assert_eq!(get_file_category("png"), "image");
    assert_eq!(get_file_category("PNG"), "image");
    assert_eq!(get_file_category("Psd"), "image");
    assert_eq!(get_file_category("exr"), "image");
    assert_eq!(get_file_category("mp4"), "video");
    assert_eq!(get_file_category("MPEG"), "video");
    assert_eq!(get_file_category("flac"), "audio");
    assert_eq!(get_file_category("Blend"), "3d");
    assert_eq!(get_file_category("atlas"), "spine");
    assert_eq!(get_file_category("txt"), "other");
    assert_eq!(get_file_category(""), "other");
    assert_eq!(get_file_category(".png"), "other");
    assert_eq!(get_file_category("dds"), "other");
}

#[test]
fn lower_case_follows_unicode() {
    assert_eq!(get_file_category("m\u{212A}v"), "video");
    assert!(is_video("M\u{212A}V"));
}

#[test]
fn thumbnails_only_for_images() {
    assert!(can_generate_thumbnail("jpg"));
    assert!(can_generate_thumbnail("JPEG"));
    assert!(can_generate_thumbnail("psd"));
    assert!(can_generate_thumbnail("TGA"));
    assert!(!can_generate_thumbnail("svg"));
    assert!(!can_generate_thumbnail("mp4"));
    assert!(!can_generate_thumbnail(""));
}

#[test]
fn kinds_of_media() {
    assert!(is_video("mkv") && is_video("WebM") && !is_video("gif"));
    assert!(is_audio("mp3") && is_audio("OPUS") && !is_audio("mp4"));
    assert!(is_3d_model("fbx") && is_3d_model("STL") && !is_3d_model("psd"));
    assert!(uses_layered_decoder("PSD") && !uses_layered_decoder("png"));
}

#[test]
fn thumbnail_names_are_hex_of_the_default_hash() {
    let path = "/art/hero.png";
    assert_eq!(path_hash(path), format!("{:016x}", std_hash(path)));
    assert_eq!(thumb_file_name(path), format!("{:016x}.jpg", std_hash(path)));
    assert_eq!(thumb_file_name(path), thumb_file_name(path));
    assert_ne!(thumb_file_name(path), thumb_file_name("/art/Hero.png"));
    assert_eq!(thumb_file_name("").len(), 20);
    let full = get_thumb_path(std::path::Path::new("/cache/thumbs"), path);
    assert_eq!(full, std::path::Path::new("/cache/thumbs").join(thumb_file_name(path)));
}

#[test]
fn cached_thumbnail_is_used_while_the_source_can_be_measured() {
    match cached_thumbnail("/cache/a.jpg", Some((640, 480))) {
        CacheStep::UseCached(t) => {
            assert_eq!(t.thumb_path, "/cache/a.jpg");
            assert_eq!((t.width, t.height), (640, 480));
        }
        CacheStep::Regenerate => panic!("expected the cached thumbnail to be used"),
    }
    assert!(matches!(cached_thumbnail("/cache/a.jpg", None), CacheStep::Regenerate));
    assert!(needs_resize(301, 300));
    assert!(!needs_resize(300, 300));
    assert!(!needs_resize(0, 300));
}

#[test]
fn media_dimensions_come_from_the_last_video_stream() {
    let stream = |kind: Option<&str>, w: Option<u64>, h: Option<u64>| MediaStream {
        codec_type: kind.map(|k| k.to_string()),
        width: w,
        height: h,
    };
    assert_eq!(media_dimensions(&Vec::new()), (0, 0));
    assert_eq!(media_dimensions(&vec![stream(Some("audio"), Some(1), Some(2))]), (0, 0));
    let streams = vec![
        stream(Some("video"), Some(1920), Some(1080)),
        stream(Some("audio"), None, None),
        stream(Some("video"), Some(640), None),
        stream(None, Some(5), Some(5)),
    ];
    assert_eq!(media_dimensions(&streams), (640, 0));
    let wide = vec![stream(Some("video"), Some((1u64 << 32) + 7), Some(u64::MAX))];
    assert_eq!(media_dimensions(&wide), (7, u32::MAX));
}

#[test]
fn supported_extensions_are_listed_in_order() {
    let all = all_supported_extensions();
    assert_eq!(all.len(), 31);
    assert_eq!(all[0], "png");
    assert_eq!(all[13], "svg");
    assert_eq!(all[14], "mp4");
    assert_eq!(all[20], "flv");
    assert_eq!(all[21], "psd");
    assert_eq!(all[30], "glb");
    assert!(is_supported_lowercase("dds"));
    assert!(!is_supported_lowercase("PNG"));
    assert!(!is_supported_lowercase("mp3"));
    assert_eq!(indexed_extension("PNG"), Some("png".to_string()));
    assert_eq!(indexed_extension("Gltf"), Some("gltf".to_string()));
    assert_eq!(indexed_extension("txt"), None);
    assert_eq!(indexed_extension(""), None);
}

#[test]
fn hidden_and_tool_directories_are_passed_over() {
    assert!(keep_entry("art"));
    assert!(keep_entry("hero.png"));
    assert!(keep_entry(""));
    assert!(keep_entry("node_modules2"));
    assert!(keep_entry("a.b"));
    assert!(!keep_entry(".git"));
    assert!(!keep_entry(".arthub"));
    assert!(!keep_entry("."));
    assert!(!keep_entry("node_modules"));
    assert!(!keep_entry("__pycache__"));
}

fn scanned(name: &str, size: u64) -> ScannedFile {
    ScannedFile {
        path: format!("/art/{}", name),
        name: name.to_string(),
        ext: "png".to_string(),
        size,
        modified: 1,
    }
}

#[test]
fn files_sort_by_name_without_regard_to_case() {
    let files = vec![
        scanned("tree.png", 1),
        scanned("Boss.png", 2),
        scanned("apple.png", 3),
        scanned("boss.png", 4),
        scanned("Zebra.png", 5),
        scanned("BOSS.png", 6),
        scanned("boss", 7),
    ];
    let sorted = sort_by_name(&files);
    let got: Vec<(&str, u64)> = sorted.iter().map(|f| (f.name.as_str(), f.size)).collect();
    assert_eq!(
        got,
        vec![
            ("apple.png", 3),
            ("boss", 7),
            ("Boss.png", 2),
            ("boss.png", 4),
            ("BOSS.png", 6),
            ("tree.png", 1),
            ("Zebra.png", 5),
        ]
    );
    let mut expected = files.clone();
    expected.sort_by(|a, b| a.name.to_lowercase().cmp(&b.name.to_lowercase()));
    let want: Vec<u64> = expected.iter().map(|f| f.size).collect();
    let have: Vec<u64> = sorted.iter().map(|f| f.size).collect();
    assert_eq!(have, want);
    assert_eq!(sort_by_name(&Vec::new()).len(), 0);
}

#[test]
fn byte_order_of_texts() {
    assert!(text_le("", ""));
    assert!(text_le("", "a"));
    assert!(!text_le("a", ""));
    assert!(text_le("abc", "abd"));
    assert!(!text_le("abd", "abc"));
    assert!(text_le("ab", "abc"));
    assert!(!text_le("abc", "ab"));
    assert!(text_le("Z", "a"));
    assert!(text_le("z", "é"));
    for (a, b) in [("x", "y"), ("é", "z"), ("same", "same"), ("日本", "日本語")] {
        assert_eq!(text_le(a, b), a <= b);
        assert_eq!(text_le(b, a), b <= a);
    }
}

#[test]
fn export_names_count_up() {
    assert_eq!(export_candidate("hero.png", "hero", "png", 0), "hero.png");
    assert_eq!(export_candidate("hero.png", "hero", "png", 1), "hero_1.png");
    assert_eq!(export_candidate("hero.png", "hero", "png", 12), "hero_12.png");
    assert_eq!(export_candidate("README", "README", "", 1), "README_1");
    assert_eq!(export_candidate("README", "README", "", 0), "README");
    assert_eq!(export_candidate("a.tar.gz", "a.tar", "gz", u32::MAX), "a.tar_4294967295.gz");
}

#[test]
fn stored_numbers_saturate() {
    assert_eq!(to_stored_number(0), 0);
    assert_eq!(to_stored_number(123), 123);
    assert_eq!(to_stored_number(i64::MAX as u64), i64::MAX);
    assert_eq!(to_stored_number(i64::MAX as u64 + 1), i64::MAX);
    assert_eq!(to_stored_number(u64::MAX), i64::MAX);
}

fn item(n: u32) -> ScanItem {
    scan_item(scanned(&format!("f{:03}.png", n), n as u64), None)
}

#[test]
fn scan_item_takes_the_thumbnail_or_nothing() {
    let with = scan_item(
        scanned("a.png", 1),
        Some(ThumbResult { thumb_path: "/t/a.jpg".to_string(), width: 8, height: 9 }),
    );
    assert_eq!(with.thumb_path, "/t/a.jpg");
    assert_eq!((with.width, with.height), (8, 9));
    assert_eq!(with.file.name, "a.png");
    let without = scan_item(scanned("b.png", 1), None);
    assert_eq!(without.thumb_path, "");
    assert_eq!((without.width, without.height), (0, 0));
}

#[test]
fn batches_of_twenty_and_a_remainder() {
    assert_eq!(SCAN_BATCH_SIZE, 20);
    let mut batcher = ScanBatcher::new(7, 45);
    let start = batcher.started();
    assert_eq!((start.folder_id, start.current, start.total), (7, 0, 45));
    assert_eq!(start.phase, "scanning");
    assert_eq!(start.file_name, "");
    let mut flushed = Vec::new();
    let mut reports = Vec::new();
    for n in 0..45u32 {
        if let Some((batch, report)) = batcher.push(item(n)) {
            assert_eq!(batch.len(), 20);
            flushed.extend(batch);
            reports.push(report);
        }
    }
    assert_eq!(reports.len(), 2);
    assert_eq!(reports[0].current, 20);
    assert_eq!(reports[0].file_name, "f019.png");
    assert_eq!(reports[0].phase, "thumbnails");
    assert_eq!(reports[1].current, 40);
    assert_eq!(reports[1].file_name, "f039.png");
    assert_eq!(reports[1].total, 45);
    let (rest, done) = batcher.finish();
    assert_eq!(rest.len(), 5);
    flushed.extend(rest);
    assert_eq!(done.current, 45);
    assert_eq!(done.total, 45);
    assert_eq!(done.phase, "complete");
    assert_eq!(done.file_name, "");
    let names: Vec<String> = flushed.iter().map(|i| i.file.name.clone()).collect();
    let want: Vec<String> = (0..45).map(|n| format!("f{:03}.png", n)).collect();
    assert_eq!(names, want);
}

#[test]
fn a_scan_of_exactly_one_batch_ends_with_nothing_waiting() {
    let mut batcher = ScanBatcher::new(1, 20);
    let mut seen = 0;
    for n in 0..20u32 {
        if let Some((batch, report)) = batcher.push(item(n)) {
            seen += batch.len();
            assert_eq!(report.current, 20);
        }
    }
    assert_eq!(seen, 20);
    let (rest, done) = batcher.finish();
    assert!(rest.is_empty());
    assert_eq!(done.current, 20);
    let (none, empty) = ScanBatcher::new(1, 0).finish();
    assert!(none.is_empty());
    assert_eq!(empty.current, 0);
}

#[test]
fn a_batch_reaches_the_index() {
    let mut conn = open_index(":memory:").unwrap();
    let folder = insert_folder(&mut conn, "/art", "art", "personal").unwrap();
    let batch: Vec<ScanItem> = (0..3).map(item).collect();
    assert_eq!(write_batch(&mut conn, folder.id, &batch), 3);
    assert_eq!(write_batch(&mut conn, folder.id, &batch), 3);
    let params = AssetQueryParams {
        folder_id: Some(folder.id),
        search: None,
        extensions: None,
        min_width: None,
        max_width: None,
        sort_by: None,
        sort_order: None,
        page: None,
        page_size: None,
    };
    let found = query_assets(&mut conn, &params).unwrap();
    assert_eq!(found.total, 3);
    assert_eq!(found.assets[2].file_path, "/art/f002.png");
    assert_eq!(found.assets[2].file_size, 2);
    assert_eq!(write_batch(&mut conn, folder.id, &Vec::new()), 0);
}

#[test]
fn ffmpeg_status_found_or_missing() {
    let none = FfmpegStatus::missing();
    assert!(!none.installed);
    assert_eq!(none.path, None);
    assert_eq!(none.version, None);
    let some = FfmpegStatus::found("ffmpeg", "ffmpeg version 6.1");
    assert!(some.installed);
    assert_eq!(some.path.as_deref(), Some("ffmpeg"));
    assert_eq!(some.version.as_deref(), Some("ffmpeg version 6.1"));
}
