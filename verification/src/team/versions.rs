//! Version histories: an append-only list of numbered snapshots per logical
//! path.
//!
//! The history record and the snapshot files live side by side in one
//! directory. Creating a version decides the next number and the name of
//! the snapshot file; the caller copies the bytes under that name and
//! stores the extended history. Restoring looks a number up and names the
//! snapshot to copy back; it never changes the history.

use vstd::prelude::*;
use crate::text::{decimal, is_digit, lemma_decimal_digits, lemma_decimal_injective, push_decimal};

verus! {

/// One recorded version.
#[derive(Debug, Clone)]
pub struct FileVersion {
    pub version: u32,
    pub author: String,
    pub timestamp: u64,
    pub comment: String,
    pub snapshot_name: String,
    pub file_size: u64,
}

pub struct FileVersionView {
    pub version: u32,
    pub author: Seq<char>,
    pub timestamp: u64,
    pub comment: Seq<char>,
    pub snapshot_name: Seq<char>,
    pub file_size: u64,
}

impl View for FileVersion {
    type V = FileVersionView;

    open spec fn view(&self) -> FileVersionView {
        FileVersionView {
            version: self.version,
            author: self.author@,
            timestamp: self.timestamp,
            comment: self.comment@,
            snapshot_name: self.snapshot_name@,
            file_size: self.file_size,
        }
    }
}

/// The views of a list of versions.
pub open spec fn versions_view(list: Seq<FileVersion>) -> Seq<FileVersionView> {
    list.map_values(|v: FileVersion| v@)
}

/// The history of one logical path.
#[derive(Debug, Clone)]
pub struct FileHistory {
    pub file_path: String,
    pub current_version: u32,
    pub versions: Vec<FileVersion>,
}

pub struct FileHistoryView {
    pub file_path: Seq<char>,
    pub current_version: u32,
    pub versions: Seq<FileVersionView>,
}

impl View for FileHistory {
    type V = FileHistoryView;

    open spec fn view(&self) -> FileHistoryView {
        FileHistoryView {
            file_path: self.file_path@,
            current_version: self.current_version,
            versions: versions_view(self.versions@),
        }
    }
}

/// The view of a history that may not exist yet.
pub open spec fn history_view(h: Option<FileHistory>) -> Option<FileHistoryView> {
    match h {
        Some(h) => Some(h@),
        None => None,
    }
}

/// Why a version operation was refused.
#[derive(Debug, Clone, Copy, PartialEq, Eq, Structural)]
pub enum VersionError {
    /// The path has no history.
    NoHistory,
    /// The history has no version of that number.
    VersionNotFound,
    /// The history has reached the largest version number.
    TooManyVersions,
}

/// The extension of a snapshot: that of the logical path, or `bin` if it
/// has none.
pub open spec fn snapshot_extension(ext: Option<Seq<char>>) -> Seq<char> {
    match ext {
        Some(e) => e,
        None => "bin"@,
    }
}

/// What every snapshot name of version `n` begins with.
pub open spec fn version_prefix(n: nat) -> Seq<char> {
    "v"@ + decimal(n) + "_"@
}

/// The name of the snapshot of version `version`, taken at `now`.
pub open spec fn snapshot_name(version: u32, now: u64, ext: Option<Seq<char>>) -> Seq<char> {
    version_prefix(version as nat) + decimal(now as nat) + "."@ + snapshot_extension(ext)
}

/// The number of the latest version of a history; zero before the first.
pub open spec fn latest_version(history: Option<FileHistoryView>) -> u32 {
    match history {
        Some(h) => h.current_version,
        None => 0,
    }
}

/// The version that a request creates: one past the latest. Nothing when
/// the latest is the largest number there is.
pub open spec fn next_version(
    history: Option<FileHistoryView>,
    ext: Option<Seq<char>>,
    author: Seq<char>,
    comment: Seq<char>,
    now: u64,
    file_size: u64,
) -> Option<FileVersionView> {
    if latest_version(history) == u32::MAX {
        None
    } else {
        let n = (latest_version(history) + 1) as u32;
        Some(
            FileVersionView {
                version: n,
                author,
                timestamp: now,
                comment,
                snapshot_name: snapshot_name(n, now, ext),
                file_size,
            },
        )
    }
}

/// The history with one more version at its end. A path without a history
/// gets one.
pub open spec fn with_version(
    history: Option<FileHistoryView>,
    fp: Seq<char>,
    v: FileVersionView,
) -> FileHistoryView {
    match history {
        Some(h) => FileHistoryView {
            file_path: h.file_path,
            current_version: v.version,
            versions: h.versions.push(v),
        },
        None => FileHistoryView { file_path: fp, current_version: v.version, versions: seq![v] },
    }
}

/// Builds the name of a snapshot.
pub fn snapshot_file_name(version: u32, now: u64, ext: Option<&str>) -> (r: String)
    ensures
        r@ == snapshot_name(
            version,
            now,
            match ext {
                Some(e) => Some(e@),
                None => None,
            },
        ),
{
    let mut name = String::from_str("v");
    push_decimal(&mut name, version as u128);
    name.append("_");
    push_decimal(&mut name, now as u128);
    name.append(".");
    match ext {
        Some(e) => {
            name.append(e);
        },
        None => {
            name.append("bin");
        },
    }
    name
}

/// Records a new version of `fp`.
///
/// `history` is the history as stored, if there is one; `ext` is the
/// extension of the logical path; `file_size` is the size of the file being
/// captured. The answer is the extended history, to be stored once the
/// file has been copied under the snapshot name of the new version, and
/// the new version itself. Earlier versions are never touched.
pub fn create_version(
    history: Option<FileHistory>,
    fp: &str,
    ext: Option<&str>,
    author: &str,
    comment: &str,
    now: u64,
    file_size: u64,
) -> (r: Result<(FileHistory, FileVersion), VersionError>)
    ensures
        match r {
            Ok((h, v)) => {
                &&& next_version(
                    history_view(history),
                    match ext {
                        Some(e) => Some(e@),
                        None => None,
                    },
                    author@,
                    comment@,
                    now,
                    file_size,
                ) == Some(v@)
                &&& h@ == with_version(history_view(history), fp@, v@)
            },
            Err(e) => {
                &&& e == VersionError::TooManyVersions
                &&& latest_version(history_view(history)) == u32::MAX
            },
        },
{
    let latest: u32 = match &history {
        Some(h) => h.current_version,
        None => 0,
    };
    if latest == u32::MAX {
        return Err(VersionError::TooManyVersions);
    }
    let n: u32 = latest + 1;
    let name = snapshot_file_name(n, now, ext);
    let recorded = FileVersion {
        version: n,
        author: String::from_str(author),
        timestamp: now,
        comment: String::from_str(comment),
        snapshot_name: name.clone(),
        file_size,
    };
    let returned = FileVersion {
        version: n,
        author: String::from_str(author),
        timestamp: now,
        comment: String::from_str(comment),
        snapshot_name: name,
        file_size,
    };
    match history {
        Some(h) => {
            let mut versions = h.versions;
            proof {
                assert(versions_view(versions@.push(recorded)) =~= versions_view(versions@).push(
                    recorded@,
                ));
            }
            versions.push(recorded);
            Ok((FileHistory { file_path: h.file_path, current_version: n, versions }, returned))
        },
        None => {
            let mut versions: Vec<FileVersion> = Vec::new();
            versions.push(recorded);
            assert(versions_view(versions@) =~= seq![recorded@]);
            Ok((FileHistory { file_path: String::from_str(fp), current_version: n, versions }, returned))
        },
    }
}

/// The position of the first version numbered `ver`, or the length of the
/// list if there is none.
pub open spec fn version_position(versions: Seq<FileVersionView>, ver: u32) -> int
    decreases versions.len(),
{
    if versions.len() == 0 {
        0
    } else if versions[0].version == ver {
        0
    } else {
        1 + version_position(versions.drop_first(), ver)
    }
}

/// The snapshot to copy back for version `ver`.
pub open spec fn restore_outcome(history: Option<FileHistoryView>, ver: u32) -> Result<
    Seq<char>,
    VersionError,
> {
    match history {
        None => Err(VersionError::NoHistory),
        Some(h) => {
            let k = version_position(h.versions, ver);
            if k < h.versions.len() {
                Ok(h.versions[k].snapshot_name)
            } else {
                Err(VersionError::VersionNotFound)
            }
        },
    }
}

proof fn lemma_version_position_is(versions: Seq<FileVersionView>, ver: u32, k: int)
    requires
        0 <= k <= versions.len(),
        forall|j: int| 0 <= j < k ==> (#[trigger] versions[j]).version != ver,
        k < versions.len() ==> versions[k].version == ver,
    ensures
        version_position(versions, ver) == k,
    decreases versions.len(),
{
    if versions.len() > 0 && k > 0 {
        let rest = versions.drop_first();
        assert(versions[0].version != ver);
        assert forall|j: int| 0 <= j < k - 1 implies (#[trigger] rest[j]).version != ver by {
            assert(rest[j] == versions[j + 1]);
        }
        lemma_version_position_is(rest, ver, k - 1);
    }
}

/// Names the snapshot that holds version `ver`. The history is only read.
pub fn restore_version(history: Option<&FileHistory>, ver: u32) -> (r: Result<String, VersionError>)
    ensures
        match r {
            Ok(name) => restore_outcome(
                match history {
                    Some(h) => Some(h@),
                    None => None,
                },
                ver,
            ) == Ok::<Seq<char>, VersionError>(name@),
            Err(e) => restore_outcome(
                match history {
                    Some(h) => Some(h@),
                    None => None,
                },
                ver,
            ) == Err::<Seq<char>, VersionError>(e),
        },
{
    let h = match history {
        Some(h) => h,
        None => {
            return Err(VersionError::NoHistory);
        },
    };
    let mut i: usize = 0;
    while i < h.versions.len()
        invariant
            i <= h.versions@.len(),
            history == Some(h),
            forall|j: int| 0 <= j < i ==> (#[trigger] versions_view(h.versions@)[j]).version != ver,
        decreases h.versions@.len() - i,
    {
        if h.versions[i].version == ver {
            proof {
                lemma_version_position_is(versions_view(h.versions@), ver, i as int);
                assert(versions_view(h.versions@)[i as int] == h.versions@[i as int]@);
            }
            return Ok(h.versions[i].snapshot_name.clone());
        }
        i += 1;
    }
    proof {
        lemma_version_position_is(versions_view(h.versions@), ver, i as int);
    }
    Err(VersionError::VersionNotFound)
}

/// Whether `s` begins with `prefix`.
pub open spec fn starts_with(s: Seq<char>, prefix: Seq<char>) -> bool {
    prefix.len() <= s.len() && s.subrange(0, prefix.len() as int) == prefix
}

/// A name begins with the prefix of one version number at most.
proof fn lemma_prefix_fixes_version(name: Seq<char>, a: nat, b: nat)
    requires
        starts_with(name, version_prefix(a)),
        starts_with(name, version_prefix(b)),
    ensures
        a == b,
{
    reveal_strlit("v");
    reveal_strlit("_");
    lemma_decimal_digits(a);
    lemma_decimal_digits(b);
    let da = decimal(a);
    let db = decimal(b);
    let pa = version_prefix(a);
    let pb = version_prefix(b);
    let la = da.len() as int;
    let lb = db.len() as int;
    assert(pa.len() == la + 2);
    assert(pb.len() == lb + 2);
    assert forall|i: int| 0 <= i < pa.len() implies name[i] == pa[i] by {
        assert(name.subrange(0, pa.len() as int)[i] == name[i]);
    }
    assert forall|i: int| 0 <= i < pb.len() implies name[i] == pb[i] by {
        assert(name.subrange(0, pb.len() as int)[i] == name[i]);
    }
    assert(pa[1 + la] == '_');
    assert(pb[1 + lb] == '_');
    if la < lb {
        assert(pb[1 + la] == db[la]);
        assert(is_digit(db[la]));
        assert(name[1 + la] == '_');
        assert(false);
    }
    if lb < la {
        assert(pa[1 + lb] == da[lb]);
        assert(is_digit(da[lb]));
        assert(name[1 + lb] == '_');
        assert(false);
    }
    assert forall|i: int| 0 <= i < da.len() implies da[i] == db[i] by {
        assert(pa[1 + i] == da[i]);
        assert(pb[1 + i] == db[i]);
    }
    assert(da =~= db);
    lemma_decimal_injective(a, b);
}

proof fn lemma_snapshot_name_prefix(version: u32, now: u64, ext: Option<Seq<char>>)
    ensures
        starts_with(snapshot_name(version, now, ext), version_prefix(version as nat)),
{
    let p = version_prefix(version as nat);
    let name = snapshot_name(version, now, ext);
    assert(name.subrange(0, p.len() as int) =~= p);
}

/// What holds of every history that this module has built: the versions
/// are numbered from one without a gap, the latest number is the number of
/// versions, and each snapshot name begins with its own version's prefix.
pub open spec fn well_formed(h: FileHistoryView) -> bool {
    &&& h.current_version == h.versions.len()
    &&& forall|i: int| 0 <= i < h.versions.len() ==> (#[trigger] h.versions[i]).version == i + 1
    &&& forall|i: int|
        0 <= i < h.versions.len() ==> starts_with(
            (#[trigger] h.versions[i]).snapshot_name,
            version_prefix((i + 1) as nat),
        )
}

/// Creating a version keeps a history well formed and only appends: the
/// earlier versions stand as they stood, the new one is last, and its
/// number is the new length.
pub proof fn law_create_appends(
    history: Option<FileHistoryView>,
    fp: Seq<char>,
    ext: Option<Seq<char>>,
    author: Seq<char>,
    comment: Seq<char>,
    now: u64,
    file_size: u64,
)
    requires
        history is Some ==> well_formed(history->0),
        next_version(history, ext, author, comment, now, file_size) is Some,
    ensures
        ({
            let v = next_version(history, ext, author, comment, now, file_size)->0;
            let after = with_version(history, fp, v);
            let before = match history {
                Some(h) => h.versions,
                None => Seq::empty(),
            };
            &&& well_formed(after)
            &&& after.versions == before.push(v)
            &&& after.current_version == before.len() + 1
            &&& v.version == before.len() + 1
        }),
{
    let v = next_version(history, ext, author, comment, now, file_size)->0;
    let after = with_version(history, fp, v);
    lemma_snapshot_name_prefix(v.version, now, ext);
    match history {
        Some(h) => {
            assert forall|i: int| 0 <= i < after.versions.len() implies (
            #[trigger] after.versions[i]).version == i + 1 by {
                if i < h.versions.len() {
                    assert(after.versions[i] == h.versions[i]);
                }
            }
            assert forall|i: int| 0 <= i < after.versions.len() implies starts_with(
                (#[trigger] after.versions[i]).snapshot_name,
                version_prefix((i + 1) as nat),
            ) by {
                if i < h.versions.len() {
                    assert(after.versions[i] == h.versions[i]);
                }
            }
        },
        None => {
            assert(after.versions =~= Seq::<FileVersionView>::empty().push(v));
        },
    }
}

/// No snapshot name is used twice within a well-formed history.
pub proof fn law_snapshot_names_distinct(h: FileHistoryView, i: int, j: int)
    requires
        well_formed(h),
        0 <= i < h.versions.len(),
        0 <= j < h.versions.len(),
        i != j,
    ensures
        h.versions[i].snapshot_name != h.versions[j].snapshot_name,
{
    if h.versions[i].snapshot_name == h.versions[j].snapshot_name {
        lemma_prefix_fixes_version(h.versions[i].snapshot_name, (i + 1) as nat, (j + 1) as nat);
    }
}

/// In a well-formed history every number from one to the latest can be
/// restored, and names the snapshot of the version at that place.
pub proof fn law_restore_finds_each_version(h: FileHistoryView, ver: u32)
    requires
        well_formed(h),
        1 <= ver <= h.current_version,
    ensures
        restore_outcome(Some(h), ver) == Ok::<Seq<char>, VersionError>(
            h.versions[ver - 1].snapshot_name,
        ),
{
    assert forall|j: int| 0 <= j < ver - 1 implies (#[trigger] h.versions[j]).version != ver by {}
    lemma_version_position_is(h.versions, ver, ver - 1);
}

/// One request to record a version, with the bytes of the file at that
/// moment.
pub struct Capture {
    pub ext: Option<Seq<char>>,
    pub author: Seq<char>,
    pub comment: Seq<char>,
    pub now: u64,
    pub file_size: u64,
    pub bytes: Seq<u8>,
}

/// The version directory of one logical path: its history record and its
/// snapshot files by name.
pub struct VersionDir {
    pub history: Option<FileHistoryView>,
    pub snapshots: Map<Seq<char>, Seq<u8>>,
}

/// The directory after a capture has been carried out: the bytes stand
/// under the new snapshot name and the extended history is stored. A
/// capture that is refused changes nothing.
pub open spec fn after_capture(dir: VersionDir, fp: Seq<char>, c: Capture) -> VersionDir {
    match next_version(dir.history, c.ext, c.author, c.comment, c.now, c.file_size) {
        Some(v) => VersionDir {
            history: Some(with_version(dir.history, fp, v)),
            snapshots: dir.snapshots.insert(v.snapshot_name, c.bytes),
        },
        None => dir,
    }
}

/// The directory after a series of captures, starting from nothing.
pub open spec fn after_captures(fp: Seq<char>, captures: Seq<Capture>) -> VersionDir
    decreases captures.len(),
{
    if captures.len() == 0 {
        VersionDir { history: None, snapshots: Map::empty() }
    } else {
        after_capture(after_captures(fp, captures.drop_last()), fp, captures.last())
    }
}

/// The bytes that restoring version `ver` copies back, if it succeeds.
pub open spec fn restored_bytes(dir: VersionDir, ver: u32) -> Option<Seq<u8>> {
    match restore_outcome(dir.history, ver) {
        Ok(name) => if dir.snapshots.dom().contains(name) {
            Some(dir.snapshots[name])
        } else {
            None
        },
        Err(_) => None,
    }
}

/// What a series of captures leaves behind.
spec fn captured(dir: VersionDir, captures: Seq<Capture>) -> bool {
    &&& captures.len() == 0 ==> dir.history is None
    &&& captures.len() > 0 ==> dir.history is Some
    &&& dir.history is Some ==> {
        let h = dir.history->0;
        &&& well_formed(h)
        &&& h.versions.len() == captures.len()
        &&& forall|i: int|
            0 <= i < h.versions.len() ==> dir.snapshots.dom().contains(
                (#[trigger] h.versions[i]).snapshot_name,
            ) && dir.snapshots[h.versions[i].snapshot_name] == captures[i].bytes
    }
}

proof fn lemma_captures(fp: Seq<char>, captures: Seq<Capture>)
    requires
        captures.len() <= u32::MAX,
    ensures
        captured(after_captures(fp, captures), captures),
    decreases captures.len(),
{
    if captures.len() > 0 {
        let earlier = captures.drop_last();
        let c = captures.last();
        lemma_captures(fp, earlier);
        let dir = after_captures(fp, earlier);
        assert(latest_version(dir.history) == earlier.len());
        let v = next_version(dir.history, c.ext, c.author, c.comment, c.now, c.file_size)->0;
        law_create_appends(dir.history, fp, c.ext, c.author, c.comment, c.now, c.file_size);
        let after = after_capture(dir, fp, c);
        let h = after.history->0;
        assert forall|i: int| 0 <= i < h.versions.len() implies after.snapshots.dom().contains(
            (#[trigger] h.versions[i]).snapshot_name,
        ) && after.snapshots[h.versions[i].snapshot_name] == captures[i].bytes by {
            if i < earlier.len() {
                law_snapshot_names_distinct(h, i, earlier.len() as int);
                assert(h.versions[i] == dir.history->0.versions[i]);
                assert(earlier[i] == captures[i]);
            }
        }
    }
}

/// After `n` captures of a path that had no history, the history counts `n`
/// versions numbered `1, 2, ..., n`, and restoring any of them copies back
/// exactly the bytes that were captured when that version was made.
pub proof fn law_captures_are_kept(fp: Seq<char>, captures: Seq<Capture>, ver: u32)
    requires
        0 < captures.len() <= u32::MAX,
        1 <= ver <= captures.len(),
    ensures
        ({
            let dir = after_captures(fp, captures);
            &&& dir.history is Some
            &&& dir.history->0.current_version == captures.len()
            &&& dir.history->0.versions.len() == captures.len()
            &&& forall|i: int|
                0 <= i < captures.len() ==> (#[trigger] dir.history->0.versions[i]).version == i
                    + 1
            &&& restored_bytes(dir, ver) == Some(captures[ver - 1].bytes)
        }),
{
    lemma_captures(fp, captures);
    let dir = after_captures(fp, captures);
    law_restore_finds_each_version(dir.history->0, ver);
}

} // verus!
