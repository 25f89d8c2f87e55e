//! What a scan of a folder takes in: which entries are walked, which files
//! are indexed, and what is recorded of each.

use vstd::prelude::*;
use vstd::seq_lib::*;
use vstd::string::*;
use vstd::utf8::encode_utf8;
use crate::text::{list_has, lowercase, lowercase_of, strs, text_eq};

verus! {

/// The image formats that are indexed.
pub open spec fn image_extensions() -> Seq<Seq<char>> {
    seq![
        "png"@,
        "jpg"@,
        "jpeg"@,
        "gif"@,
        "bmp"@,
        "webp"@,
        "tiff"@,
        "tif"@,
        "ico"@,
        "tga"@,
        "dds"@,
        "hdr"@,
        "exr"@,
        "svg"@,
    ]
}

/// The video formats that are indexed.
pub open spec fn video_extensions() -> Seq<Seq<char>> {
    seq!["mp4"@, "mov"@, "avi"@, "mkv"@, "wmv"@, "webm"@, "flv"@]
}

/// The formats of authoring tools that are indexed.
pub open spec fn pro_extensions() -> Seq<Seq<char>> {
    seq!["psd"@, "psb"@, "ai"@, "eps"@, "spine"@, "skel"@, "fbx"@, "obj"@, "gltf"@, "glb"@]
}

/// Every format that is indexed: images, then videos, then the formats of
/// authoring tools.
pub open spec fn supported_extensions() -> Seq<Seq<char>> {
    image_extensions() + video_extensions() + pro_extensions()
}

/// The extensions of the files that a scan indexes, in lower case.
pub fn all_supported_extensions() -> (r: Vec<&'static str>)
    ensures
        strs(r@) == supported_extensions(),
{
    let r = vec![
        "png",
        "jpg",
        "jpeg",
        "gif",
        "bmp",
        "webp",
        "tiff",
        "tif",
        "ico",
        "tga",
        "dds",
        "hdr",
        "exr",
        "svg",
        "mp4",
        "mov",
        "avi",
        "mkv",
        "wmv",
        "webm",
        "flv",
        "psd",
        "psb",
        "ai",
        "eps",
        "spine",
        "skel",
        "fbx",
        "obj",
        "gltf",
        "glb",
    ];
    assert(strs(r@) =~= supported_extensions());
    r
}

/// What a scan records of one file.
#[derive(Debug, Clone)]
pub struct ScannedFile {
    pub path: String,
    pub name: String,
    pub ext: String,
    pub size: u64,
    pub modified: u64,
}

pub struct ScannedFileView {
    pub path: Seq<char>,
    pub name: Seq<char>,
    pub ext: Seq<char>,
    pub size: u64,
    pub modified: u64,
}

impl View for ScannedFile {
    type V = ScannedFileView;

    open spec fn view(&self) -> ScannedFileView {
        ScannedFileView {
            path: self.path@,
            name: self.name@,
            ext: self.ext@,
            size: self.size,
            modified: self.modified,
        }
    }
}

/// The names that a scan passes over, with everything beneath them: hidden
/// entries, whose name begins with a dot, and two directories of tools.
pub open spec fn is_skipped_name(name: Seq<char>) -> bool {
    (name.len() > 0 && name[0] == '.') || name == "node_modules"@ || name == "__pycache__"@
}

/// Whether a scan walks the entry of this name.
pub fn keep_entry(name: &str) -> (r: bool)
    ensures
        r == !is_skipped_name(name@),
{
    if !name.is_empty() && name.get_char(0) == '.' {
        return false;
    }
    !text_eq(name, "node_modules") && !text_eq(name, "__pycache__")
}

/// Whether files of this lower-case extension are indexed.
pub fn is_supported_lowercase(e: &str) -> (r: bool)
    ensures
        r == supported_extensions().contains(e@),
{
    list_has(&all_supported_extensions(), e)
}

/// The extension under which a file is indexed: its own in lower case, if
/// that is a supported one, and nothing otherwise.
pub fn indexed_extension(ext: &str) -> (r: Option<String>)
    ensures
        match r {
            Some(e) => e@ == lowercase_of(ext@) && supported_extensions().contains(e@),
            None => !supported_extensions().contains(lowercase_of(ext@)),
        },
{
    let e = lowercase(ext);
    if is_supported_lowercase(e.as_str()) {
        Some(e)
    } else {
        None
    }
}

/// Whether `a` comes no later than `b` when byte strings are ordered like
/// words in a dictionary: by the first byte in which they differ, and a
/// string before every longer string that begins with it.
pub open spec fn bytes_le(a: Seq<u8>, b: Seq<u8>) -> bool
    decreases a.len(),
{
    if a.len() == 0 {
        true
    } else if b.len() == 0 {
        false
    } else if a[0] != b[0] {
        a[0] < b[0]
    } else {
        bytes_le(a.drop_first(), b.drop_first())
    }
}

/// The key by which scanned files are ordered: the bytes of the file name
/// in lower case.
pub open spec fn name_key(f: ScannedFileView) -> Seq<u8> {
    encode_utf8(lowercase_of(f.name))
}

proof fn lemma_bytes_le_total(a: Seq<u8>, b: Seq<u8>)
    ensures
        bytes_le(a, b) || bytes_le(b, a),
    decreases a.len(),
{
    if a.len() > 0 && b.len() > 0 && a[0] == b[0] {
        lemma_bytes_le_total(a.drop_first(), b.drop_first());
    }
}

proof fn lemma_bytes_le_transitive(a: Seq<u8>, b: Seq<u8>, c: Seq<u8>)
    requires
        bytes_le(a, b),
        bytes_le(b, c),
    ensures
        bytes_le(a, c),
    decreases a.len(),
{
    if a.len() > 0 && b.len() > 0 && c.len() > 0 && a[0] == b[0] && b[0] == c[0] {
        lemma_bytes_le_transitive(a.drop_first(), b.drop_first(), c.drop_first());
    }
}

/// Whether the text `a` comes no later than the text `b` in byte order.
pub fn text_le(a: &str, b: &str) -> (r: bool)
    ensures
        r == bytes_le(a.spec_bytes(), b.spec_bytes()),
{
    let x = a.as_bytes();
    let y = b.as_bytes();
    let mut i: usize = 0;
    assert(x@.skip(0) =~= x@);
    assert(y@.skip(0) =~= y@);
    while i < x.len() && i < y.len()
        invariant
            x@ == a.spec_bytes(),
            y@ == b.spec_bytes(),
            i <= x@.len(),
            i <= y@.len(),
            bytes_le(x@, y@) == bytes_le(x@.skip(i as int), y@.skip(i as int)),
        decreases x@.len() - i,
    {
        proof {
            assert(x@.skip(i as int)[0] == x@[i as int]);
            assert(y@.skip(i as int)[0] == y@[i as int]);
            assert(x@.skip(i as int).drop_first() =~= x@.skip(i + 1));
            assert(y@.skip(i as int).drop_first() =~= y@.skip(i + 1));
        }
        if x[i] != y[i] {
            return x[i] < y[i];
        }
        i += 1;
    }
    i == x.len()
}

/// Where a file of key `key` goes into a list ordered by key: behind every
/// file whose key is not later than it.
pub open spec fn name_position(sorted: Seq<ScannedFileView>, key: Seq<u8>) -> int
    decreases sorted.len(),
{
    if sorted.len() == 0 {
        0
    } else if !bytes_le(name_key(sorted[0]), key) {
        0
    } else {
        1 + name_position(sorted.drop_first(), key)
    }
}

/// The files ordered by name without regard to letter case; files whose
/// names differ in case only stay in the order given.
pub open spec fn sorted_by_name(files: Seq<ScannedFileView>) -> Seq<ScannedFileView>
    decreases files.len(),
{
    if files.len() == 0 {
        Seq::empty()
    } else {
        let before = sorted_by_name(files.drop_last());
        before.insert(name_position(before, name_key(files.last())), files.last())
    }
}

/// Whether a list is in ascending order of name key.
pub open spec fn name_ordered(s: Seq<ScannedFileView>) -> bool {
    forall|i: int, j: int|
        0 <= i <= j < s.len() ==> bytes_le(name_key(#[trigger] s[i]), name_key(#[trigger] s[j]))
}

/// The views of a list of scanned files.
pub open spec fn files_view(files: Seq<ScannedFile>) -> Seq<ScannedFileView> {
    files.map_values(|f: ScannedFile| f@)
}

proof fn lemma_name_position_is(sorted: Seq<ScannedFileView>, key: Seq<u8>, k: int)
    requires
        0 <= k <= sorted.len(),
        forall|j: int| 0 <= j < k ==> bytes_le(name_key(#[trigger] sorted[j]), key),
        k < sorted.len() ==> !bytes_le(name_key(sorted[k]), key),
    ensures
        name_position(sorted, key) == k,
    decreases sorted.len(),
{
    if sorted.len() > 0 && k > 0 {
        let rest = sorted.drop_first();
        assert(bytes_le(name_key(sorted[0]), key));
        assert forall|j: int| 0 <= j < k - 1 implies bytes_le(name_key(#[trigger] rest[j]), key) by {
            assert(rest[j] == sorted[j + 1]);
        }
        lemma_name_position_is(rest, key, k - 1);
    }
}

proof fn lemma_name_position_bounds(sorted: Seq<ScannedFileView>, key: Seq<u8>)
    ensures
        0 <= name_position(sorted, key) <= sorted.len(),
        forall|j: int|
            0 <= j < name_position(sorted, key) ==> bytes_le(name_key(#[trigger] sorted[j]), key),
        name_position(sorted, key) < sorted.len() ==> !bytes_le(
            name_key(sorted[name_position(sorted, key)]),
            key,
        ),
    decreases sorted.len(),
{
    if sorted.len() > 0 && bytes_le(name_key(sorted[0]), key) {
        let rest = sorted.drop_first();
        lemma_name_position_bounds(rest, key);
        assert forall|j: int| 0 <= j < name_position(sorted, key) implies bytes_le(
            name_key(#[trigger] sorted[j]),
            key,
        ) by {
            if j > 0 {
                assert(sorted[j] == rest[j - 1]);
            }
        }
        if name_position(sorted, key) < sorted.len() {
            assert(sorted[name_position(sorted, key)] == rest[name_position(rest, key)]);
        }
    }
}

impl ScannedFile {
    /// A copy of the record.
    pub fn duplicate(&self) -> (r: ScannedFile)
        ensures
            r@ == self@,
    {
        ScannedFile {
            path: self.path.clone(),
            name: self.name.clone(),
            ext: self.ext.clone(),
            size: self.size,
            modified: self.modified,
        }
    }
}

/// Orders the files of a scan by name without regard to letter case, so
/// that two scans of the same files list them alike.
pub fn sort_by_name(files: &Vec<ScannedFile>) -> (r: Vec<ScannedFile>)
    ensures
        files_view(r@) == sorted_by_name(files_view(files@)),
{
    let mut out: Vec<ScannedFile> = Vec::new();
    let mut keys: Vec<String> = Vec::new();
    let mut i: usize = 0;
    while i < files.len()
        invariant
            i <= files@.len(),
            keys@.len() == out@.len(),
            forall|j: int|
                0 <= j < out@.len() ==> (#[trigger] keys@[j])@ == lowercase_of(out@[j].name@),
            files_view(out@) == sorted_by_name(files_view(files@).take(i as int)),
        decreases files@.len() - i,
    {
        let ghost all = files_view(files@);
        proof {
            assert(all.take(i + 1).drop_last() =~= all.take(i as int));
            assert(all.take(i + 1).last() == files@[i as int]@);
        }
        let f = &files[i];
        let key = lowercase(f.name.as_str());
        let mut k: usize = 0;
        while k < out.len() && text_le(keys[k].as_str(), key.as_str())
            invariant
                k <= out@.len(),
                keys@.len() == out@.len(),
                key@ == lowercase_of(f.name@),
                forall|j: int|
                    0 <= j < out@.len() ==> (#[trigger] keys@[j])@ == lowercase_of(out@[j].name@),
                forall|j: int|
                    0 <= j < k ==> bytes_le(
                        name_key(#[trigger] files_view(out@)[j]),
                        encode_utf8(key@),
                    ),
            decreases out@.len() - k,
        {
            proof {
                assert(files_view(out@)[k as int] == out@[k as int]@);
            }
            k += 1;
        }
        proof {
            if k < out@.len() {
                assert(files_view(out@)[k as int] == out@[k as int]@);
            }
            lemma_name_position_is(files_view(out@), encode_utf8(key@), k as int);
        }
        let ghost before = files_view(out@);
        let ghost old_out = out@;
        let ghost old_keys = keys@;
        out.insert(k, f.duplicate());
        keys.insert(k, key);
        proof {
            assert(files_view(out@) =~= before.insert(k as int, f@));
            assert forall|j: int| 0 <= j < out@.len() implies (#[trigger] keys@[j])@
                == lowercase_of(out@[j].name@) by {
                if j < k {
                    assert(keys@[j] == old_keys[j]);
                    assert(out@[j] == old_out[j]);
                } else if j > k {
                    assert(keys@[j] == old_keys[j - 1]);
                    assert(out@[j] == old_out[j - 1]);
                }
            }
        }
        i += 1;
    }
    assert(files_view(files@).take(files@.len() as int) =~= files_view(files@));
    out
}

/// The sorted list is in ascending order of name, letter case aside.
pub proof fn law_sorted_names_ascend(files: Seq<ScannedFileView>)
    ensures
        name_ordered(sorted_by_name(files)),
    decreases files.len(),
{
    if files.len() > 0 {
        let before = sorted_by_name(files.drop_last());
        let f = files.last();
        let key = name_key(f);
        law_sorted_names_ascend(files.drop_last());
        lemma_name_position_bounds(before, key);
        let p = name_position(before, key);
        let after = before.insert(p, f);
        assert forall|i: int, j: int| 0 <= i <= j < after.len() implies bytes_le(
            name_key(#[trigger] after[i]),
            name_key(#[trigger] after[j]),
        ) by {
            if i == j {
                lemma_bytes_le_total(name_key(after[i]), name_key(after[i]));
            } else if i < p && j < p {
                assert(after[i] == before[i]);
                assert(after[j] == before[j]);
            } else if i < p && j == p {
                assert(after[i] == before[i]);
            } else if i < p && j > p {
                assert(after[i] == before[i]);
                assert(after[j] == before[j - 1]);
            } else if i == p && j > p {
                assert(after[j] == before[j - 1]);
                assert(bytes_le(name_key(before[p]), name_key(before[j - 1])));
                lemma_bytes_le_total(name_key(before[p]), key);
                lemma_bytes_le_transitive(key, name_key(before[p]), name_key(before[j - 1]));
            } else {
                assert(after[i] == before[i - 1]);
                assert(after[j] == before[j - 1]);
            }
        }
    }
}

/// Sorting loses no file and invents none.
pub proof fn law_sorted_names_permute(files: Seq<ScannedFileView>)
    ensures
        sorted_by_name(files).to_multiset() == files.to_multiset(),
    decreases files.len(),
{
    broadcast use vstd::multiset::group_multiset_axioms;

    if files.len() == 0 {
        assert(sorted_by_name(files) =~= files);
    } else {
        let earlier = files.drop_last();
        let before = sorted_by_name(earlier);
        let f = files.last();
        law_sorted_names_permute(earlier);
        lemma_name_position_bounds(before, name_key(f));
        let p = name_position(before, name_key(f));
        let after = before.insert(p, f);
        assert(after.remove(p) =~= before);
        assert(after[p] == f);
        to_multiset_remove(after, p);
        to_multiset_build(earlier, f);
        assert(earlier.push(f) =~= files);
        assert(after.to_multiset().count(f) > 0) by {
            after.to_multiset_ensures();
            assert(after.contains(f));
        }
        assert(after.to_multiset() =~= before.to_multiset().insert(f));
    }
}

} // verus!
