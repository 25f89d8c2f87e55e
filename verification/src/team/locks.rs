//! Soft locks: advisory, kept alive by heartbeats, reclaimable once stale.
//!
//! A lock is one record per logical path. Whoever wants the file reads the
//! record, asks here what follows from it, and writes or removes the record
//! as told. A holder that stops sending heartbeats loses the lock without
//! any cleanup: after [`LOCK_TIMEOUT_SECS`] its record no longer counts.

use vstd::prelude::*;
use crate::text::text_eq;

verus! {

/// Seconds without a heartbeat after which a lock no longer counts.
pub const LOCK_TIMEOUT_SECS: u64 = 300;

/// A lock record.
#[derive(Debug, Clone)]
pub struct FileLock {
    pub file_path: String,
    pub locked_by: String,
    pub machine: String,
    pub locked_at: u64,
    pub heartbeat: u64,
}

pub struct FileLockView {
    pub file_path: Seq<char>,
    pub locked_by: Seq<char>,
    pub machine: Seq<char>,
    pub locked_at: u64,
    pub heartbeat: u64,
}

impl View for FileLock {
    type V = FileLockView;

    open spec fn view(&self) -> FileLockView {
        FileLockView {
            file_path: self.file_path@,
            locked_by: self.locked_by@,
            machine: self.machine@,
            locked_at: self.locked_at,
            heartbeat: self.heartbeat,
        }
    }
}

/// What a reader learns about a lock.
#[derive(Debug, Clone)]
pub struct LockStatus {
    pub is_locked: bool,
    pub locked_by: Option<String>,
    pub machine: Option<String>,
    pub locked_at: Option<u64>,
    pub is_stale: bool,
}

pub struct LockStatusView {
    pub is_locked: bool,
    pub locked_by: Option<Seq<char>>,
    pub machine: Option<Seq<char>>,
    pub locked_at: Option<u64>,
    pub is_stale: bool,
}

impl View for LockStatus {
    type V = LockStatusView;

    open spec fn view(&self) -> LockStatusView {
        LockStatusView {
            is_locked: self.is_locked,
            locked_by: match self.locked_by {
                Some(s) => Some(s@),
                None => None,
            },
            machine: match self.machine {
                Some(s) => Some(s@),
                None => None,
            },
            locked_at: self.locked_at,
            is_stale: self.is_stale,
        }
    }
}

/// What stands at the location of a lock record.
#[derive(Debug, Clone)]
pub enum LockFile {
    /// No record.
    Absent,
    /// A record that cannot be read as a lock.
    Unreadable,
    /// A lock record.
    Held(FileLock),
}

pub enum LockFileView {
    Absent,
    Unreadable,
    Held(FileLockView),
}

impl View for LockFile {
    type V = LockFileView;

    open spec fn view(&self) -> LockFileView {
        match self {
            LockFile::Absent => LockFileView::Absent,
            LockFile::Unreadable => LockFileView::Unreadable,
            LockFile::Held(l) => LockFileView::Held(l@),
        }
    }
}

/// A lock is live while less than the timeout has passed since its last
/// heartbeat. A heartbeat that lies ahead of the reader's clock is live.
pub open spec fn is_live(l: FileLockView, now: u64) -> bool {
    now - l.heartbeat < LOCK_TIMEOUT_SECS
}

/// A live lock at this location, if there is one.
pub open spec fn live_holder(file: LockFileView, now: u64) -> Option<FileLockView> {
    match file {
        LockFileView::Held(l) => if is_live(l, now) {
            Some(l)
        } else {
            None
        },
        _ => None,
    }
}

impl FileLock {
    /// Whether the lock is live at `now`.
    pub fn live_at(&self, now: u64) -> (r: bool)
        ensures
            r == is_live(self@, now),
    {
        now < self.heartbeat || now - self.heartbeat < LOCK_TIMEOUT_SECS
    }

    /// The same lock with its heartbeat set to `now`.
    pub fn beat(&self, now: u64) -> (r: FileLock)
        ensures
            r@ == (FileLockView { heartbeat: now, ..self@ }),
    {
        FileLock {
            file_path: self.file_path.clone(),
            locked_by: self.locked_by.clone(),
            machine: self.machine.clone(),
            locked_at: self.locked_at,
            heartbeat: now,
        }
    }
}

/// What a reader learns from a record at time `now`.
pub open spec fn status_of(file: LockFileView, now: u64) -> LockStatusView {
    match file {
        LockFileView::Absent => LockStatusView {
            is_locked: false,
            locked_by: None,
            machine: None,
            locked_at: None,
            is_stale: false,
        },
        LockFileView::Unreadable => LockStatusView {
            is_locked: false,
            locked_by: None,
            machine: None,
            locked_at: None,
            is_stale: true,
        },
        LockFileView::Held(l) => LockStatusView {
            is_locked: is_live(l, now),
            locked_by: Some(l.locked_by),
            machine: Some(l.machine),
            locked_at: Some(l.locked_at),
            is_stale: !is_live(l, now),
        },
    }
}

/// Reports on a lock without changing anything.
pub fn check_lock(file: &LockFile, now: u64) -> (r: LockStatus)
    ensures
        r@ == status_of(file@, now),
{
    match file {
        LockFile::Absent => LockStatus {
            is_locked: false,
            locked_by: None,
            machine: None,
            locked_at: None,
            is_stale: false,
        },
        LockFile::Unreadable => LockStatus {
            is_locked: false,
            locked_by: None,
            machine: None,
            locked_at: None,
            is_stale: true,
        },
        LockFile::Held(l) => {
            let live = l.live_at(now);
            LockStatus {
                is_locked: live,
                locked_by: Some(l.locked_by.clone()),
                machine: Some(l.machine.clone()),
                locked_at: Some(l.locked_at),
                is_stale: !live,
            }
        },
    }
}

/// The answer to a request for a lock.
#[derive(Debug, Clone)]
pub enum Acquire {
    /// The lock is free or stale: it goes to the requester, and this record
    /// must be written.
    Taken(FileLock),
    /// The requester holds the lock already: this record, with a fresh
    /// heartbeat, should be written, and the request stands even if the
    /// write does not go through.
    Refreshed(FileLock),
    /// Someone else holds the lock: nothing is written.
    Denied,
}

pub enum AcquireView {
    Taken(FileLockView),
    Refreshed(FileLockView),
    Denied,
}

impl View for Acquire {
    type V = AcquireView;

    open spec fn view(&self) -> AcquireView {
        match self {
            Acquire::Taken(l) => AcquireView::Taken(l@),
            Acquire::Refreshed(l) => AcquireView::Refreshed(l@),
            Acquire::Denied => AcquireView::Denied,
        }
    }
}

impl AcquireView {
    /// Whether the requester has the lock.
    pub open spec fn granted(self) -> bool {
        !(self is Denied)
    }
}

impl Acquire {
    /// Whether the requester has the lock.
    pub fn granted(&self) -> (r: bool)
        ensures
            r == self@.granted(),
    {
        match self {
            Acquire::Denied => false,
            _ => true,
        }
    }
}

/// The answer to `user` on `machine` asking at `now` for the lock on `fp`.
pub open spec fn acquire_outcome(
    file: LockFileView,
    fp: Seq<char>,
    user: Seq<char>,
    machine: Seq<char>,
    now: u64,
) -> AcquireView {
    match live_holder(file, now) {
        Some(l) => if l.locked_by == user && l.machine == machine {
            AcquireView::Refreshed(FileLockView { heartbeat: now, ..l })
        } else {
            AcquireView::Denied
        },
        None => AcquireView::Taken(
            FileLockView { file_path: fp, locked_by: user, machine, locked_at: now, heartbeat: now },
        ),
    }
}

/// The record after the answer has been carried out.
pub open spec fn after_acquire(file: LockFileView, answer: AcquireView) -> LockFileView {
    match answer {
        AcquireView::Taken(l) => LockFileView::Held(l),
        AcquireView::Refreshed(l) => LockFileView::Held(l),
        AcquireView::Denied => file,
    }
}

/// Decides a request for the lock on `fp`. A single attempt: the answer is
/// immediate, and a denied requester may ask again later.
pub fn acquire_lock(file: &LockFile, fp: &str, user: &str, machine: &str, now: u64) -> (r: Acquire)
    ensures
        r@ == acquire_outcome(file@, fp@, user@, machine@, now),
{
    match file {
        LockFile::Held(l) => {
            if l.live_at(now) {
                if text_eq(l.locked_by.as_str(), user) && text_eq(l.machine.as_str(), machine) {
                    return Acquire::Refreshed(l.beat(now));
                }
                return Acquire::Denied;
            }
        },
        _ => {},
    }
    Acquire::Taken(
        FileLock {
            file_path: String::from_str(fp),
            locked_by: String::from_str(user),
            machine: String::from_str(machine),
            locked_at: now,
            heartbeat: now,
        },
    )
}

/// What a granted release asks of the caller.
#[derive(Debug, Clone, Copy, PartialEq, Eq, Structural)]
pub enum Release {
    /// There was no record: nothing to do.
    NothingHeld,
    /// The record must be removed.
    Remove,
}

/// Why a lock operation was refused.
#[derive(Debug, Clone, Copy, PartialEq, Eq, Structural)]
pub enum LockError {
    /// The lock belongs to another user.
    Conflict,
}

/// The answer to `user` giving up the lock. Only the owner may release a
/// readable record; a record that cannot be read is anyone's to remove.
pub open spec fn release_outcome(file: LockFileView, user: Seq<char>) -> Result<Release, LockError> {
    match file {
        LockFileView::Absent => Ok(Release::NothingHeld),
        LockFileView::Unreadable => Ok(Release::Remove),
        LockFileView::Held(l) => if l.locked_by == user {
            Ok(Release::Remove)
        } else {
            Err(LockError::Conflict)
        },
    }
}

/// The record after the answer has been carried out.
pub open spec fn after_release(file: LockFileView, answer: Result<Release, LockError>) -> LockFileView {
    match answer {
        Ok(Release::Remove) => LockFileView::Absent,
        _ => file,
    }
}

/// Decides a release.
pub fn release_lock(file: &LockFile, user: &str) -> (r: Result<Release, LockError>)
    ensures
        r == release_outcome(file@, user@),
{
    match file {
        LockFile::Absent => Ok(Release::NothingHeld),
        LockFile::Unreadable => Ok(Release::Remove),
        LockFile::Held(l) => {
            if text_eq(l.locked_by.as_str(), user) {
                Ok(Release::Remove)
            } else {
                Err(LockError::Conflict)
            }
        },
    }
}

/// The record to write when `user` sends a heartbeat, if the lock is theirs.
pub open spec fn refresh_outcome(file: LockFileView, user: Seq<char>, now: u64) -> Option<
    FileLockView,
> {
    match file {
        LockFileView::Held(l) => if l.locked_by == user {
            Some(FileLockView { heartbeat: now, ..l })
        } else {
            None
        },
        _ => None,
    }
}

/// Decides a heartbeat: the record to write, or nothing when there is no
/// readable record or it belongs to someone else.
pub fn refresh_heartbeat(file: &LockFile, user: &str, now: u64) -> (r: Option<FileLock>)
    ensures
        match r {
            Some(l) => refresh_outcome(file@, user@, now) == Some(l@),
            None => refresh_outcome(file@, user@, now) is None,
        },
{
    match file {
        LockFile::Held(l) => {
            if text_eq(l.locked_by.as_str(), user) {
                Some(l.beat(now))
            } else {
                None
            }
        },
        _ => None,
    }
}

/// The live locks among the records, in their order.
pub open spec fn live_locks(entries: Seq<LockFileView>, now: u64) -> Seq<FileLockView>
    decreases entries.len(),
{
    if entries.len() == 0 {
        Seq::empty()
    } else {
        let before = live_locks(entries.drop_last(), now);
        match live_holder(entries.last(), now) {
            Some(l) => before.push(l),
            None => before,
        }
    }
}

/// Whether a record is a readable lock that is no longer live.
pub open spec fn is_stale_lock(file: LockFileView, now: u64) -> bool {
    file is Held && !is_live(file->Held_0, now)
}

/// The positions of the stale locks among the records, ascending.
pub open spec fn stale_positions(entries: Seq<LockFileView>, now: u64) -> Seq<int>
    decreases entries.len(),
{
    if entries.len() == 0 {
        Seq::empty()
    } else {
        let before = stale_positions(entries.drop_last(), now);
        if is_stale_lock(entries.last(), now) {
            before.push(entries.len() - 1)
        } else {
            before
        }
    }
}

/// A list of positions as mathematical integers.
pub open spec fn positions(list: Seq<usize>) -> Seq<int> {
    list.map_values(|p: usize| p as int)
}

/// The result of going through all lock records.
#[derive(Debug, Clone)]
pub struct LockSweep {
    /// The locks that are live.
    pub live: Vec<FileLock>,
    /// The positions, in the list that was given, of the records to remove.
    pub stale: Vec<usize>,
}

/// The views of a list of lock records.
pub open spec fn lock_files_view(entries: Seq<LockFile>) -> Seq<LockFileView> {
    entries.map_values(|f: LockFile| f@)
}

/// The views of a list of locks.
pub open spec fn locks_view(locks: Seq<FileLock>) -> Seq<FileLockView> {
    locks.map_values(|l: FileLock| l@)
}

/// Goes through all lock records: the live locks are reported, the stale
/// ones are marked for removal, and records that cannot be read are left
/// alone.
pub fn get_all_locks(entries: &Vec<LockFile>, now: u64) -> (r: LockSweep)
    ensures
        locks_view(r.live@) == live_locks(lock_files_view(entries@), now),
        positions(r.stale@) == stale_positions(lock_files_view(entries@), now),
{
    let mut live: Vec<FileLock> = Vec::new();
    let mut stale: Vec<usize> = Vec::new();
    let mut i: usize = 0;
    while i < entries.len()
        invariant
            i <= entries.len(),
            locks_view(live@) == live_locks(lock_files_view(entries@).take(i as int), now),
            positions(stale@) == stale_positions(lock_files_view(entries@).take(i as int), now),
        decreases entries.len() - i,
    {
        proof {
            let all = lock_files_view(entries@);
            assert(all.take(i + 1).drop_last() =~= all.take(i as int));
            assert(all.take(i + 1).last() == entries@[i as int]@);
        }
        match &entries[i] {
            LockFile::Held(l) => {
                if l.live_at(now) {
                    let copy = l.beat(l.heartbeat);
                    proof {
                        assert(copy@ == l@);
                        assert(locks_view(live@.push(copy)) =~= locks_view(live@).push(copy@));
                    }
                    live.push(copy);
                } else {
                    proof {
                        assert(positions(stale@.push(i)) =~= positions(stale@).push(i as int));
                    }
                    stale.push(i);
                }
            },
            _ => {},
        }
        i += 1;
    }
    proof {
        let all = lock_files_view(entries@);
        assert(all.take(entries@.len() as int) =~= all);
    }
    LockSweep { live, stale }
}

/// A live lock keeps everyone but its holder out: a request by another
/// user is denied and leaves the record as it was.
pub proof fn law_live_lock_excludes_others(
    file: LockFileView,
    fp: Seq<char>,
    user: Seq<char>,
    machine: Seq<char>,
    now: u64,
)
    requires
        file is Held,
        is_live(file->Held_0, now),
        file->Held_0.locked_by != user,
    ensures
        acquire_outcome(file, fp, user, machine, now) is Denied,
        after_acquire(file, acquire_outcome(file, fp, user, machine, now)) == file,
{
}

/// Mutual exclusion: when a request by one user is granted, a request by
/// another user that follows within the timeout is denied and changes
/// nothing, and a reader within the timeout sees the lock held by the
/// first user.
pub proof fn law_second_acquirer_is_denied(
    file: LockFileView,
    fp: Seq<char>,
    user1: Seq<char>,
    machine1: Seq<char>,
    user2: Seq<char>,
    machine2: Seq<char>,
    t1: u64,
    t2: u64,
    t3: u64,
)
    requires
        user1 != user2,
        t1 <= t2 <= t3,
        t3 - t1 < LOCK_TIMEOUT_SECS,
        acquire_outcome(file, fp, user1, machine1, t1).granted(),
    ensures
        ({
            let held = after_acquire(file, acquire_outcome(file, fp, user1, machine1, t1));
            let second = acquire_outcome(held, fp, user2, machine2, t2);
            let status = status_of(after_acquire(held, second), t3);
            &&& second is Denied
            &&& after_acquire(held, second) == held
            &&& status.is_locked
            &&& !status.is_stale
            &&& status.locked_by == Some(user1)
        }),
{
}

/// A granted request leaves a live lock in the requester's name, on the
/// requester's machine, with its heartbeat at the time of the request.
pub proof fn law_granted_lock_belongs_to_requester(
    file: LockFileView,
    fp: Seq<char>,
    user: Seq<char>,
    machine: Seq<char>,
    now: u64,
)
    requires
        acquire_outcome(file, fp, user, machine, now).granted(),
    ensures
        ({
            let held = after_acquire(file, acquire_outcome(file, fp, user, machine, now));
            &&& held is Held
            &&& held->Held_0.locked_by == user
            &&& held->Held_0.machine == machine
            &&& held->Held_0.heartbeat == now
            &&& is_live(held->Held_0, now)
        }),
{
}

/// Asking again for a lock one holds is granted and only moves the
/// heartbeat.
pub proof fn law_reacquire_refreshes(
    file: LockFileView,
    user: Seq<char>,
    machine: Seq<char>,
    fp: Seq<char>,
    now: u64,
)
    requires
        file is Held,
        is_live(file->Held_0, now),
        file->Held_0.locked_by == user,
        file->Held_0.machine == machine,
    ensures
        acquire_outcome(file, fp, user, machine, now) == AcquireView::Refreshed(
            FileLockView { heartbeat: now, ..file->Held_0 },
        ),
{
}

/// Staleness recovery: a lock whose last heartbeat is at least the timeout
/// old reads as stale and not locked, and from then on a request by anyone
/// takes it.
pub proof fn law_stale_lock_is_reclaimed(
    file: LockFileView,
    fp: Seq<char>,
    user: Seq<char>,
    machine: Seq<char>,
    now: u64,
    later: u64,
)
    requires
        file is Held,
        now - file->Held_0.heartbeat >= LOCK_TIMEOUT_SECS,
        now <= later,
    ensures
        status_of(file, now).is_stale,
        !status_of(file, now).is_locked,
        acquire_outcome(file, fp, user, machine, later) == AcquireView::Taken(
            FileLockView {
                file_path: fp,
                locked_by: user,
                machine,
                locked_at: later,
                heartbeat: later,
            },
        ),
{
}

/// Release: refused to anyone but the owner of a readable lock, granted to
/// the owner and where there is no lock, and idempotent: after a granted
/// release the record is gone, and releasing again is granted with nothing
/// to do.
pub proof fn law_release(file: LockFileView, user: Seq<char>)
    ensures
        (file is Held && file->Held_0.locked_by != user) ==> release_outcome(file, user) == Err::<
            Release,
            LockError,
        >(LockError::Conflict),
        (file is Held && file->Held_0.locked_by == user) ==> release_outcome(file, user) == Ok::<
            Release,
            LockError,
        >(Release::Remove),
        file is Absent ==> release_outcome(file, user) == Ok::<Release, LockError>(
            Release::NothingHeld,
        ),
        release_outcome(file, user) is Ok ==> after_release(file, release_outcome(file, user))
            is Absent,
        release_outcome(file, user) is Ok ==> release_outcome(
            after_release(file, release_outcome(file, user)),
            user,
        ) == Ok::<Release, LockError>(Release::NothingHeld),
        release_outcome(file, user) is Err ==> after_release(file, release_outcome(file, user))
            == file,
{
}

/// What a sweep reports is live, and what it marks is stale: every reported
/// lock is live, and every marked position holds a readable lock that is
/// not.
pub proof fn law_sweep_separates(entries: Seq<LockFileView>, now: u64)
    ensures
        forall|k: int|
            0 <= k < live_locks(entries, now).len() ==> is_live(
                #[trigger] live_locks(entries, now)[k],
                now,
            ),
        forall|k: int|
            0 <= k < stale_positions(entries, now).len() ==> {
                let p = #[trigger] stale_positions(entries, now)[k];
                0 <= p < entries.len() && is_stale_lock(entries[p], now)
            },
    decreases entries.len(),
{
    if entries.len() > 0 {
        let rest = entries.drop_last();
        law_sweep_separates(rest, now);
        assert forall|k: int| 0 <= k < live_locks(entries, now).len() implies is_live(
            #[trigger] live_locks(entries, now)[k],
            now,
        ) by {
            if k < live_locks(rest, now).len() {
                assert(live_locks(entries, now)[k] == live_locks(rest, now)[k]);
            }
        }
        assert forall|k: int| 0 <= k < stale_positions(entries, now).len() implies {
            let p = #[trigger] stale_positions(entries, now)[k];
            0 <= p < entries.len() && is_stale_lock(entries[p], now)
        } by {
            if k < stale_positions(rest, now).len() {
                let p = stale_positions(rest, now)[k];
                assert(stale_positions(entries, now)[k] == p);
                assert(rest[p] == entries[p]);
            }
        }
    }
}

} // verus!
