//! Coordination over a shared root directory: soft locks, version
//! histories, permissions and the activity log.
//!
//! Nothing here touches the file system. Every operation takes what the
//! caller read from the shared root, with the current time where it
//! matters, and answers with what to report and what to write or remove.

pub mod actions;
pub mod layout;
pub mod locks;
pub mod permissions;
pub mod versions;

pub use layout::{file_hash, hist_path, lock_fp, perm_path, user_log_path, ver_dir};
pub use locks::{
    acquire_lock, check_lock, get_all_locks, refresh_heartbeat, release_lock, Acquire, FileLock,
    FileLockView, LockError, LockFile, LockFileView, LockStatus, LockStatusView, LockSweep, Release,
    LOCK_TIMEOUT_SECS,
};
pub use permissions::{
    get_user_role, set_role, set_user_permission, Permission, PermissionView,
    PermissionsConfig, PermissionsConfigView, ProjectPermission, ProjectPermissionView,
};
pub use versions::{
    create_version, restore_version, snapshot_file_name, FileHistory, FileHistoryView, FileVersion,
    FileVersionView, VersionError,
};
pub use actions::{append_action, read_actions_since, ActionLog, ActionLogView};
