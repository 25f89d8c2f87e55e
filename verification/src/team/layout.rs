//! Where each record lives under the shared root.
//!
//! Locations are given relative to the shared root, with `/` between the
//! components. A logical path is turned into a fixed-width identifier by a
//! hash of its bytes, so that the name of a record never depends on path
//! separators or on how a file system treats letter case.

use vstd::prelude::*;
use vstd::string::*;
use crate::text::{hex16, hex16_string};

verus! {

/// The multiplicative rolling hash of a byte string: starting from zero,
/// each byte takes the hash to `hash * 31 + byte`, in 64 bits with
/// wrap-around.
pub open spec fn rolling_hash(bytes: Seq<u8>) -> u64
    decreases bytes.len(),
{
    if bytes.len() == 0 {
        0
    } else {
        ((rolling_hash(bytes.drop_last()) * 31 + bytes.last()) % 0x1_0000_0000_0000_0000) as u64
    }
}

/// The identifier of a logical path: sixteen hexadecimal digits of the
/// rolling hash of its UTF-8 bytes.
pub open spec fn path_id(fp: Seq<char>) -> Seq<char> {
    hex16(rolling_hash(vstd::utf8::encode_utf8(fp)))
}

/// Computes the rolling hash of a text's bytes.
pub fn hash_path(fp: &str) -> (r: u64)
    ensures
        r == rolling_hash(fp.spec_bytes()),
{
    let bytes = fp.as_bytes();
    let mut h: u64 = 0;
    let mut i: usize = 0;
    while i < bytes.len()
        invariant
            i <= bytes@.len(),
            h == rolling_hash(bytes@.take(i as int)),
        decreases bytes@.len() - i,
    {
        proof {
            assert(bytes@.take(i + 1).drop_last() =~= bytes@.take(i as int));
            assert(bytes@.take(i + 1).last() == bytes@[i as int]);
        }
        h = h.wrapping_mul(31).wrapping_add(bytes[i] as u64);
        i += 1;
    }
    assert(bytes@.take(bytes@.len() as int) =~= bytes@);
    h
}

/// The identifier of a logical path.
pub fn file_hash(fp: &str) -> (r: String)
    ensures
        r@ == path_id(fp@),
{
    hex16_string(hash_path(fp))
}

/// The location of the lock record of a logical path.
pub open spec fn lock_location(fp: Seq<char>) -> Seq<char> {
    ".arthub/locks/"@ + path_id(fp) + ".lock"@
}

/// The directory that holds the history and snapshots of a logical path.
pub open spec fn version_dir(fp: Seq<char>) -> Seq<char> {
    ".arthub/versions/"@ + path_id(fp)
}

/// The location of the history record of a logical path.
pub open spec fn history_location(fp: Seq<char>) -> Seq<char> {
    version_dir(fp) + "/history.json"@
}

/// The location of a user's journal.
pub open spec fn journal_location(user: Seq<char>) -> Seq<char> {
    ".arthub/users/"@ + user + "/actions.jsonl"@
}

pub fn lock_fp(fp: &str) -> (r: String)
    ensures
        r@ == lock_location(fp@),
{
    let mut out = String::from_str(".arthub/locks/");
    out.append(file_hash(fp).as_str());
    out.append(".lock");
    out
}

pub fn ver_dir(fp: &str) -> (r: String)
    ensures
        r@ == version_dir(fp@),
{
    let mut out = String::from_str(".arthub/versions/");
    out.append(file_hash(fp).as_str());
    out
}

pub fn hist_path(fp: &str) -> (r: String)
    ensures
        r@ == history_location(fp@),
{
    let mut out = ver_dir(fp);
    out.append("/history.json");
    out
}

/// The location of the permissions document.
pub fn perm_path() -> (r: &'static str)
    ensures
        r@ == ".arthub/permissions.json"@,
{
    ".arthub/permissions.json"
}

pub fn user_log_path(user: &str) -> (r: String)
    ensures
        r@ == journal_location(user@),
{
    let mut out = String::from_str(".arthub/users/");
    out.append(user);
    out.append("/actions.jsonl");
    out
}

/// The directory of all lock records.
pub fn locks_dir() -> (r: &'static str)
    ensures
        r@ == ".arthub/locks"@,
{
    ".arthub/locks"
}

/// The directory of all users' journals.
pub fn users_dir() -> (r: &'static str)
    ensures
        r@ == ".arthub/users"@,
{
    ".arthub/users"
}

} // verus!
