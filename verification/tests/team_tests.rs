use std::collections::HashMap;

use asset_hub::team::{
    acquire_lock, append_action, check_lock, create_version, file_hash, get_all_locks,
    get_user_role, hist_path, lock_fp, perm_path, read_actions_since, refresh_heartbeat,
    release_lock, restore_version, set_user_permission, snapshot_file_name, user_log_path, ver_dir,
    Acquire, ActionLog, FileHistory, FileLock, LockError, LockFile, Permission, PermissionsConfig,
    ProjectPermission, Release, VersionError, LOCK_TIMEOUT_SECS,
};

fn carry_out(file: LockFile, answer: &Acquire) -> LockFile {
    match answer {
        Acquire::Taken(l) | Acquire::Refreshed(l) => LockFile::Held(l.clone()),
        Acquire::Denied => file,
    }
}

fn lock(user: &str, machine: &str, at: u64, heartbeat: u64) -> FileLock {
    FileLock {
        file_path: "art/hero.png".to_string(),
        locked_by: user.to_string(),
        machine: machine.to_string(),
        locked_at: at,
        heartbeat,
    }
}

#[test]
fn lock_timeout_is_five_minutes() {
    assert_eq!(LOCK_TIMEOUT_SECS, 300);
}

#[test]
fn scenario_alice_locks_bob_waits_alice_releases_bob_locks() {
    let mut file = LockFile::Absent;
    let a = acquire_lock(&file, "art/hero.png", "alice", "laptop1", 1_000);
    assert!(a.granted());
    file = carry_out(file, &a);
    let b = acquire_lock(&file, "art/hero.png", "bob", "desktop1", 1_001);
    assert!(!b.granted());
    assert!(matches!(b, Acquire::Denied));
    file = carry_out(file, &b);
    assert_eq!(release_lock(&file, "alice"), Ok(Release::Remove));
    file = LockFile::Absent;
    let b2 = acquire_lock(&file, "art/hero.png", "bob", "desktop1", 1_002);
    assert!(b2.granted());
    match b2 {
        Acquire::Taken(l) => {
            assert_eq!(l.locked_by, "bob");
            assert_eq!(l.machine, "desktop1");
            assert_eq!(l.file_path, "art/hero.png");
            assert_eq!(l.locked_at, 1_002);
            assert_eq!(l.heartbeat, 1_002);
        }
        other => panic!("expected the lock to be taken, got {:?}", other),
    }
}

#[test]
fn second_acquirer_is_denied_and_check_names_the_first() {
    let first = acquire_lock(&LockFile::Absent, "p", "u1", "m1", 50);
    let file = carry_out(LockFile::Absent, &first);
    let second = acquire_lock(&file, "p", "u2", "m2", 50);
    assert!(matches!(second, Acquire::Denied));
    let file = carry_out(file, &second);
    let status = check_lock(&file, 349);
    assert!(status.is_locked);
    assert!(!status.is_stale);
    assert_eq!(status.locked_by.as_deref(), Some("u1"));
    assert_eq!(status.machine.as_deref(), Some("m1"));
    assert_eq!(status.locked_at, Some(50));
}

#[test]
fn same_user_on_another_machine_is_denied() {
    let file = LockFile::Held(lock("alice", "laptop1", 10, 10));
    assert!(matches!(acquire_lock(&file, "art/hero.png", "alice", "desktop9", 20), Acquire::Denied));
}

#[test]
fn reacquire_by_the_holder_refreshes_the_heartbeat() {
    let file = LockFile::Held(lock("alice", "laptop1", 10, 10));
    match acquire_lock(&file, "other/path.png", "alice", "laptop1", 200) {
        Acquire::Refreshed(l) => {
            assert_eq!(l.heartbeat, 200);
            assert_eq!(l.locked_at, 10);
            assert_eq!(l.file_path, "art/hero.png");
        }
        other => panic!("expected a refresh, got {:?}", other),
    }
}

#[test]
fn stale_lock_is_reported_and_reclaimed() {
    let file = LockFile::Held(lock("alice", "laptop1", 100, 100));
    let live = check_lock(&file, 399);
    assert!(live.is_locked && !live.is_stale);
    let stale = check_lock(&file, 400);
    assert!(!stale.is_locked && stale.is_stale);
    assert_eq!(stale.locked_by.as_deref(), Some("alice"));
    assert!(matches!(acquire_lock(&file, "art/hero.png", "bob", "desktop1", 399), Acquire::Denied));
    match acquire_lock(&file, "art/hero.png", "bob", "desktop1", 400) {
        Acquire::Taken(l) => {
            assert_eq!(l.locked_by, "bob");
            assert_eq!(l.locked_at, 400);
        }
        other => panic!("expected the stale lock to be taken, got {:?}", other),
    }
}

#[test]
fn heartbeat_ahead_of_the_clock_counts_as_live() {
    let file = LockFile::Held(lock("alice", "laptop1", 1_000, 1_000));
    let status = check_lock(&file, 10);
    assert!(status.is_locked && !status.is_stale);
    assert!(matches!(acquire_lock(&file, "p", "bob", "m", 10), Acquire::Denied));
    let far = LockFile::Held(lock("alice", "laptop1", u64::MAX, u64::MAX));
    assert!(check_lock(&far, 0).is_locked);
}

#[test]
fn check_of_missing_and_unreadable_records() {
    let none = check_lock(&LockFile::Absent, 5);
    assert!(!none.is_locked && !none.is_stale);
    assert_eq!(none.locked_by, None);
    assert_eq!(none.machine, None);
    assert_eq!(none.locked_at, None);
    let bad = check_lock(&LockFile::Unreadable, 5);
    assert!(!bad.is_locked && bad.is_stale);
    assert_eq!(bad.locked_by, None);
    assert!(matches!(acquire_lock(&LockFile::Unreadable, "p", "bob", "m", 5), Acquire::Taken(_)));
}

#[test]
fn release_by_owner_non_owner_and_nobody() {
    let file = LockFile::Held(lock("alice", "laptop1", 10, 10));
    assert_eq!(release_lock(&file, "bob"), Err(LockError::Conflict));
    assert_eq!(release_lock(&file, "alice"), Ok(Release::Remove));
    assert_eq!(release_lock(&LockFile::Absent, "alice"), Ok(Release::NothingHeld));
    assert_eq!(release_lock(&LockFile::Absent, "bob"), Ok(Release::NothingHeld));
    assert_eq!(release_lock(&LockFile::Unreadable, "bob"), Ok(Release::Remove));
    let stale = LockFile::Held(lock("alice", "laptop1", 0, 0));
    assert_eq!(release_lock(&stale, "bob"), Err(LockError::Conflict));
}

#[test]
fn heartbeat_only_for_the_owner() {
    let file = LockFile::Held(lock("alice", "laptop1", 10, 10));
    let beat = refresh_heartbeat(&file, "alice", 77).unwrap();
    assert_eq!(beat.heartbeat, 77);
    assert_eq!(beat.locked_at, 10);
    assert_eq!(beat.machine, "laptop1");
    assert!(refresh_heartbeat(&file, "bob", 77).is_none());
    assert!(refresh_heartbeat(&LockFile::Absent, "alice", 77).is_none());
    assert!(refresh_heartbeat(&LockFile::Unreadable, "alice", 77).is_none());
    let stale = LockFile::Held(lock("alice", "laptop1", 0, 0));
    assert_eq!(refresh_heartbeat(&stale, "alice", 9_000).unwrap().heartbeat, 9_000);
}

#[test]
fn sweep_reports_live_and_marks_stale() {
    let entries = vec![
        LockFile::Held(lock("alice", "m1", 900, 900)),
        LockFile::Held(lock("bob", "m2", 100, 100)),
        LockFile::Unreadable,
        LockFile::Held(lock("carol", "m3", 700, 701)),
        LockFile::Held(lock("dave", "m4", 700, 700)),
    ];
    let sweep = get_all_locks(&entries, 1_000);
    let live: Vec<&str> = sweep.live.iter().map(|l| l.locked_by.as_str()).collect();
    assert_eq!(live, vec!["alice", "carol"]);
    assert_eq!(sweep.stale, vec![1, 4]);
    let none = get_all_locks(&Vec::new(), 1_000);
    assert!(none.live.is_empty() && none.stale.is_empty());
}

#[test]
fn path_ids_are_sixteen_hex_digits_of_the_rolling_hash() {
    assert_eq!(file_hash(""), "0000000000000000");
    assert_eq!(file_hash("a"), "0000000000000061");
    assert_eq!(file_hash("art/hero.png"), "238b1a78fd09c461");
    assert_eq!(file_hash("Art/Hero.png"), "18427dab0aaf7ca1");
    assert_eq!(file_hash("art\\hero.png"), "238b3d610d11478e");
    assert_eq!(file_hash(&"x".repeat(40)), "a53ea8b23280ac00");
}

#[test]
fn records_have_their_places_under_the_shared_root() {
    assert_eq!(lock_fp("art/hero.png"), ".arthub/locks/238b1a78fd09c461.lock");
    assert_eq!(ver_dir("art/hero.png"), ".arthub/versions/238b1a78fd09c461");
    assert_eq!(hist_path("art/hero.png"), ".arthub/versions/238b1a78fd09c461/history.json");
    assert_eq!(user_log_path("alice"), ".arthub/users/alice/actions.jsonl");
    assert_eq!(perm_path(), ".arthub/permissions.json");
}

struct VersionDir {
    history: Option<FileHistory>,
    snapshots: HashMap<String, Vec<u8>>,
}

fn capture(dir: &mut VersionDir, bytes: &[u8], comment: &str, now: u64) -> u32 {
    let (history, version) = create_version(
        dir.history.take(),
        "art/hero.png",
        Some("png"),
        "alice",
        comment,
        now,
        bytes.len() as u64,
    )
    .unwrap();
    assert!(!dir.snapshots.contains_key(&version.snapshot_name));
    dir.snapshots.insert(version.snapshot_name.clone(), bytes.to_vec());
    dir.history = Some(history);
    version.version
}

fn restore(dir: &VersionDir, ver: u32) -> Result<Vec<u8>, VersionError> {
    let name = restore_version(dir.history.as_ref(), ver)?;
    Ok(dir.snapshots[&name].clone())
}

#[test]
fn scenario_three_versions_restore_the_second() {
    let mut dir = VersionDir { history: None, snapshots: HashMap::new() };
    assert_eq!(capture(&mut dir, b"first bytes", "v1", 100), 1);
    assert_eq!(capture(&mut dir, b"second bytes", "v2", 100), 2);
    assert_eq!(capture(&mut dir, b"third bytes", "v3", 100), 3);
    assert_eq!(restore(&dir, 2).unwrap(), b"second bytes");
    let history = dir.history.as_ref().unwrap();
    assert_eq!(history.versions.len(), 3);
    assert_eq!(history.current_version, 3);
    assert_eq!(history.versions[1].comment, "v2");
}

#[test]
fn versions_count_up_from_one_and_each_restores_its_own_bytes() {
    let mut dir = VersionDir { history: None, snapshots: HashMap::new() };
    for n in 1..=25u32 {
        let bytes = vec![n as u8; n as usize];
        assert_eq!(capture(&mut dir, &bytes, "c", 1_000), n);
        let history = dir.history.as_ref().unwrap();
        assert_eq!(history.current_version, n);
        assert_eq!(history.versions.len(), n as usize);
    }
    let history = dir.history.as_ref().unwrap();
    for (i, v) in history.versions.iter().enumerate() {
        assert_eq!(v.version as usize, i + 1);
    }
    for k in 1..=25u32 {
        assert_eq!(restore(&dir, k).unwrap(), vec![k as u8; k as usize]);
    }
    assert_eq!(dir.snapshots.len(), 25);
}

#[test]
fn first_version_starts_the_history() {
    let (history, v) =
        create_version(None, "art/hero.png", Some("png"), "alice", "initial", 1_700_000_000, 42)
            .unwrap();
    assert_eq!(history.file_path, "art/hero.png");
    assert_eq!(history.current_version, 1);
    assert_eq!(history.versions.len(), 1);
    assert_eq!(v.version, 1);
    assert_eq!(v.author, "alice");
    assert_eq!(v.comment, "initial");
    assert_eq!(v.timestamp, 1_700_000_000);
    assert_eq!(v.file_size, 42);
    assert_eq!(v.snapshot_name, "v1_1700000000.png");
    assert_eq!(history.versions[0].snapshot_name, "v1_1700000000.png");
}

#[test]
fn snapshot_names_follow_number_time_and_extension() {
    assert_eq!(snapshot_file_name(1, 0, None), "v1_0.bin");
    assert_eq!(snapshot_file_name(12, 345, Some("psd")), "v12_345.psd");
    assert_eq!(
        snapshot_file_name(u32::MAX, u64::MAX, Some("tar.gz")),
        "v4294967295_18446744073709551615.tar.gz"
    );
}

#[test]
fn version_number_follows_the_recorded_latest() {
    let stored = FileHistory {
        file_path: "kept/path.png".to_string(),
        current_version: 7,
        versions: Vec::new(),
    };
    let (history, v) =
        create_version(Some(stored), "art/hero.png", None, "bob", "", 5, 0).unwrap();
    assert_eq!(v.version, 8);
    assert_eq!(v.snapshot_name, "v8_5.bin");
    assert_eq!(history.file_path, "kept/path.png");
    assert_eq!(history.current_version, 8);
    assert_eq!(history.versions.len(), 1);
}

#[test]
fn version_errors() {
    assert_eq!(restore_version(None, 1), Err(VersionError::NoHistory));
    let (history, _) = create_version(None, "p", None, "a", "c", 1, 1).unwrap();
    assert_eq!(restore_version(Some(&history), 0), Err(VersionError::VersionNotFound));
    assert_eq!(restore_version(Some(&history), 2), Err(VersionError::VersionNotFound));
    assert_eq!(restore_version(Some(&history), 1), Ok("v1_1.bin".to_string()));
    let full = FileHistory { file_path: "p".to_string(), current_version: u32::MAX, versions: Vec::new() };
    assert!(matches!(
        create_version(Some(full), "p", None, "a", "c", 1, 1),
        Err(VersionError::TooManyVersions)
    ));
}

#[test]
fn restore_does_not_touch_the_history() {
    let (history, _) = create_version(None, "p", Some("png"), "a", "c", 1, 1).unwrap();
    let (history, _) = create_version(Some(history), "p", Some("png"), "a", "d", 2, 1).unwrap();
    let before = format!("{:?}", history);
    assert_eq!(restore_version(Some(&history), 1), Ok("v1_1.png".to_string()));
    assert_eq!(format!("{:?}", history), before);
}

fn perm(user: &str, role: &str) -> Permission {
    Permission { user: user.to_string(), role: role.to_string() }
}

fn sample_permissions() -> PermissionsConfig {
    PermissionsConfig {
        global: vec![perm("alice", "admin"), perm("bob", "editor")],
        projects: vec![
            ProjectPermission {
                project_path: "games/rpg".to_string(),
                permissions: vec![perm("alice", "viewer"), perm("carol", "editor")],
            },
            ProjectPermission { project_path: "games/fps".to_string(), permissions: vec![] },
        ],
    }
}

#[test]
fn role_resolution_project_then_global_then_viewer() {
    let cfg = sample_permissions();
    assert_eq!(get_user_role(&cfg, "alice", Some("games/rpg")), "viewer");
    assert_eq!(get_user_role(&cfg, "alice", Some("games/fps")), "admin");
    assert_eq!(get_user_role(&cfg, "alice", Some("games/unknown")), "admin");
    assert_eq!(get_user_role(&cfg, "alice", None), "admin");
    assert_eq!(get_user_role(&cfg, "bob", Some("games/rpg")), "editor");
    assert_eq!(get_user_role(&cfg, "carol", Some("games/rpg")), "editor");
    assert_eq!(get_user_role(&cfg, "carol", Some("games/fps")), "viewer");
    assert_eq!(get_user_role(&cfg, "carol", None), "viewer");
    assert_eq!(get_user_role(&cfg, "dave", Some("games/rpg")), "viewer");
    assert_eq!(get_user_role(&PermissionsConfig::new(), "alice", None), "viewer");
}

#[test]
fn project_path_must_match_exactly() {
    let cfg = sample_permissions();
    assert_eq!(get_user_role(&cfg, "carol", Some("games/RPG")), "viewer");
    assert_eq!(get_user_role(&cfg, "carol", Some("games/rpg/")), "viewer");
    assert_eq!(get_user_role(&cfg, "Carol", Some("games/rpg")), "viewer");
}

#[test]
fn setting_a_role_upserts_within_the_scope() {
    let mut cfg = sample_permissions();
    set_user_permission(&mut cfg, "bob", "admin", None);
    assert_eq!(cfg.global.len(), 2);
    assert_eq!(cfg.global[1].role, "admin");
    set_user_permission(&mut cfg, "dave", "editor", None);
    assert_eq!(cfg.global.len(), 3);
    assert_eq!(cfg.global[2].user, "dave");
    set_user_permission(&mut cfg, "alice", "editor", Some("games/rpg"));
    assert_eq!(cfg.projects[0].permissions.len(), 2);
    assert_eq!(cfg.projects[0].permissions[0].role, "editor");
    assert_eq!(cfg.global[0].role, "admin");
    set_user_permission(&mut cfg, "bob", "viewer", Some("games/fps"));
    assert_eq!(cfg.projects[1].permissions.len(), 1);
    set_user_permission(&mut cfg, "bob", "lead", Some("games/new"));
    assert_eq!(cfg.projects.len(), 3);
    assert_eq!(cfg.projects[2].project_path, "games/new");
    assert_eq!(cfg.projects[2].permissions.len(), 1);
    assert_eq!(get_user_role(&cfg, "bob", Some("games/new")), "lead");
    assert_eq!(get_user_role(&cfg, "bob", Some("games/fps")), "viewer");
    assert_eq!(get_user_role(&cfg, "bob", None), "admin");
    assert_eq!(get_user_role(&cfg, "alice", Some("games/rpg")), "editor");
}

#[test]
fn a_role_that_was_set_is_read_back() {
    for project in [None, Some("p1"), Some("games/rpg")] {
        let mut cfg = sample_permissions();
        set_user_permission(&mut cfg, "zed", "r1", project);
        assert_eq!(get_user_role(&cfg, "zed", project), "r1");
        set_user_permission(&mut cfg, "zed", "r2", project);
        assert_eq!(get_user_role(&cfg, "zed", project), "r2");
    }
}

fn entry(ts: u64, user: &str, data: &str) -> ActionLog {
    ActionLog {
        timestamp: ts,
        user: user.to_string(),
        machine: "m".to_string(),
        action: "edit".to_string(),
        target_path: "art/hero.png".to_string(),
        data: data.to_string(),
    }
}

fn brief(list: &[ActionLog]) -> Vec<(u64, String)> {
    list.iter().map(|a| (a.timestamp, a.data.clone())).collect()
}

#[test]
fn new_entry_holds_what_was_given() {
    let e = append_action("alice", "laptop1", "lock", "art/hero.png", "{\"k\":1}", 1234);
    assert_eq!(e.timestamp, 1234);
    assert_eq!(e.user, "alice");
    assert_eq!(e.machine, "laptop1");
    assert_eq!(e.action, "lock");
    assert_eq!(e.target_path, "art/hero.png");
    assert_eq!(e.data, "{\"k\":1}");
}

#[test]
fn reading_from_zero_returns_everything_in_time_order() {
    let gathered = vec![
        entry(30, "alice", "a3"),
        entry(10, "alice", "a1"),
        entry(20, "bob", "b2"),
        entry(10, "bob", "b1"),
        entry(0, "carol", "c0"),
    ];
    let all = read_actions_since(&gathered, 0);
    assert_eq!(
        brief(&all),
        vec![
            (0, "c0".to_string()),
            (10, "a1".to_string()),
            (10, "b1".to_string()),
            (20, "b2".to_string()),
            (30, "a3".to_string()),
        ]
    );
    assert_eq!(all[1].user, "alice");
}

#[test]
fn reading_since_a_time_leaves_out_what_is_earlier() {
    let gathered = vec![
        entry(30, "alice", "a3"),
        entry(10, "alice", "a1"),
        entry(20, "bob", "b2"),
        entry(19, "bob", "b1"),
    ];
    assert_eq!(
        brief(&read_actions_since(&gathered, 20)),
        vec![(20, "b2".to_string()), (30, "a3".to_string())]
    );
    assert_eq!(read_actions_since(&gathered, 31).len(), 0);
    assert_eq!(read_actions_since(&gathered, u64::MAX).len(), 0);
    assert_eq!(read_actions_since(&Vec::new(), 0).len(), 0);
    assert_eq!(gathered.len(), 4);
}
