//! File kinds by extension, and where the thumbnail of a file is cached.
//!
//! Extensions are compared in lower case. Producing a thumbnail is not
//! this module's business; it only says which files can have one and under
//! which name the thumbnail is kept.

use vstd::prelude::*;
use crate::text::{hex16, hex16_string, list_has, lowercase, lowercase_of, strs, text_eq};

verus! {

/// The image formats that can be decoded, and so can have a thumbnail.
pub open spec fn decodable_extensions() -> Seq<Seq<char>> {
    seq![
        "png"@,
        "jpg"@,
        "jpeg"@,
        "gif"@,
        "bmp"@,
        "webp"@,
        "tiff"@,
        "tif"@,
        "ico"@,
        "tga"@,
        "hdr"@,
        "exr"@,
    ]
}

/// The layered image formats, which are flattened for their thumbnail.
pub open spec fn layered_extensions() -> Seq<Seq<char>> {
    seq!["psd"@]
}

pub open spec fn video_extensions() -> Seq<Seq<char>> {
    seq!["mp4"@, "avi"@, "mov"@, "mkv"@, "wmv"@, "flv"@, "webm"@, "m4v"@, "mpg"@, "mpeg"@]
}

pub open spec fn audio_extensions() -> Seq<Seq<char>> {
    seq!["mp3"@, "wav"@, "ogg"@, "flac"@, "aac"@, "wma"@, "m4a"@, "opus"@]
}

pub open spec fn model_extensions() -> Seq<Seq<char>> {
    seq!["fbx"@, "obj"@, "gltf"@, "glb"@, "blend"@, "3ds"@, "dae"@, "stl"@]
}

pub open spec fn spine_extensions() -> Seq<Seq<char>> {
    seq!["spine"@, "skel"@, "atlas"@]
}

fn decodable_list() -> (r: Vec<&'static str>)
    ensures
        strs(r@) == decodable_extensions(),
{
    let r = vec![
        "png",
        "jpg",
        "jpeg",
        "gif",
        "bmp",
        "webp",
        "tiff",
        "tif",
        "ico",
        "tga",
        "hdr",
        "exr",
    ];
    assert(strs(r@) =~= decodable_extensions());
    r
}

fn layered_list() -> (r: Vec<&'static str>)
    ensures
        strs(r@) == layered_extensions(),
{
    let r = vec!["psd"];
    assert(strs(r@) =~= layered_extensions());
    r
}

fn video_list() -> (r: Vec<&'static str>)
    ensures
        strs(r@) == video_extensions(),
{
    let r = vec!["mp4", "avi", "mov", "mkv", "wmv", "flv", "webm", "m4v", "mpg", "mpeg"];
    assert(strs(r@) =~= video_extensions());
    r
}

fn audio_list() -> (r: Vec<&'static str>)
    ensures
        strs(r@) == audio_extensions(),
{
    let r = vec!["mp3", "wav", "ogg", "flac", "aac", "wma", "m4a", "opus"];
    assert(strs(r@) =~= audio_extensions());
    r
}

fn model_list() -> (r: Vec<&'static str>)
    ensures
        strs(r@) == model_extensions(),
{
    let r = vec!["fbx", "obj", "gltf", "glb", "blend", "3ds", "dae", "stl"];
    assert(strs(r@) =~= model_extensions());
    r
}

fn spine_list() -> (r: Vec<&'static str>)
    ensures
        strs(r@) == spine_extensions(),
{
    let r = vec!["spine", "skel", "atlas"];
    assert(strs(r@) =~= spine_extensions());
    r
}

/// Whether a lower-case extension is that of an image, flat or layered.
pub open spec fn is_image_extension(e: Seq<char>) -> bool {
    decodable_extensions().contains(e) || layered_extensions().contains(e)
}

/// The kind of file that a lower-case extension stands for.
pub open spec fn category_of(e: Seq<char>) -> Seq<char> {
    if is_image_extension(e) {
        "image"@
    } else if video_extensions().contains(e) {
        "video"@
    } else if audio_extensions().contains(e) {
        "audio"@
    } else if model_extensions().contains(e) {
        "3d"@
    } else if spine_extensions().contains(e) {
        "spine"@
    } else {
        "other"@
    }
}

/// Whether a thumbnail can be made for a lower-case extension.
pub fn can_thumbnail_lowercase(e: &str) -> (r: bool)
    ensures
        r == is_image_extension(e@),
{
    list_has(&decodable_list(), e) || list_has(&layered_list(), e)
}

/// The kind of file that a lower-case extension stands for.
pub fn category_of_lowercase(e: &str) -> (r: &'static str)
    ensures
        r@ == category_of(e@),
{
    if can_thumbnail_lowercase(e) {
        "image"
    } else if list_has(&video_list(), e) {
        "video"
    } else if list_has(&audio_list(), e) {
        "audio"
    } else if list_has(&model_list(), e) {
        "3d"
    } else if list_has(&spine_list(), e) {
        "spine"
    } else {
        "other"
    }
}

/// Whether a lower-case extension is that of a video.
pub fn is_video_lowercase(e: &str) -> (r: bool)
    ensures
        r == video_extensions().contains(e@),
{
    list_has(&video_list(), e)
}

/// Whether a lower-case extension is that of a sound file.
pub fn is_audio_lowercase(e: &str) -> (r: bool)
    ensures
        r == audio_extensions().contains(e@),
{
    list_has(&audio_list(), e)
}

/// Whether a lower-case extension is that of a 3D model.
pub fn is_model_lowercase(e: &str) -> (r: bool)
    ensures
        r == model_extensions().contains(e@),
{
    list_has(&model_list(), e)
}

/// Whether a thumbnail can be made for files of this extension, in any
/// letter case.
pub fn can_generate_thumbnail(ext: &str) -> (r: bool)
    ensures
        r == is_image_extension(lowercase_of(ext@)),
{
    let e = lowercase(ext);
    can_thumbnail_lowercase(e.as_str())
}

/// The kind of file that an extension stands for, in any letter case: one
/// of `image`, `video`, `audio`, `3d`, `spine` and `other`.
pub fn get_file_category(ext: &str) -> (r: &'static str)
    ensures
        r@ == category_of(lowercase_of(ext@)),
{
    let e = lowercase(ext);
    category_of_lowercase(e.as_str())
}

/// Whether the extension is that of a video, in any letter case.
pub fn is_video(ext: &str) -> (r: bool)
    ensures
        r == video_extensions().contains(lowercase_of(ext@)),
{
    let e = lowercase(ext);
    is_video_lowercase(e.as_str())
}

/// Whether the extension is that of a sound file, in any letter case.
pub fn is_audio(ext: &str) -> (r: bool)
    ensures
        r == audio_extensions().contains(lowercase_of(ext@)),
{
    let e = lowercase(ext);
    is_audio_lowercase(e.as_str())
}

/// Whether the extension is that of a 3D model, in any letter case.
pub fn is_3d_model(ext: &str) -> (r: bool)
    ensures
        r == model_extensions().contains(lowercase_of(ext@)),
{
    let e = lowercase(ext);
    is_model_lowercase(e.as_str())
}

/// What making a thumbnail yields: where it is kept, and the size of the
/// image it was made from.
#[derive(Debug, Clone)]
pub struct ThumbResult {
    pub thumb_path: String,
    pub width: u32,
    pub height: u32,
}

pub struct ThumbResultView {
    pub thumb_path: Seq<char>,
    pub width: u32,
    pub height: u32,
}

impl View for ThumbResult {
    type V = ThumbResultView;

    open spec fn view(&self) -> ThumbResultView {
        ThumbResultView { thumb_path: self.thumb_path@, width: self.width, height: self.height }
    }
}

/// The hash of a text under the standard library's default hasher with its
/// fixed initial state.
pub uninterp spec fn default_hash_of(s: Seq<char>) -> u64;

/// Feeds `s` to a `std::collections::hash_map::DefaultHasher` made by
/// `DefaultHasher::new` and calls `finish`. The hasher starts from a fixed
/// state, so the result depends on the text alone.
#[verifier::external_body]
fn default_hash(s: &str) -> (r: u64)
    ensures
        r == default_hash_of(s@),
{
    let mut hasher = std::collections::hash_map::DefaultHasher::new();
    std::hash::Hash::hash(s, &mut hasher);
    std::hash::Hasher::finish(&hasher)
}

/// The identifier under which the thumbnail of a file is cached: sixteen
/// hexadecimal digits of the default hash of its path.
pub fn path_hash(path: &str) -> (r: String)
    ensures
        r@ == hex16(default_hash_of(path@)),
{
    hex16_string(default_hash(path))
}

/// The name of the cached thumbnail of a file, within the thumbnail
/// directory. One file, one name: the thumbnail is found again without
/// being made again.
pub fn thumb_file_name(file_path: &str) -> (r: String)
    ensures
        r@ == thumb_name(file_path@),
{
    let mut name = path_hash(file_path);
    name.append(".jpg");
    name
}

/// What to do about a thumbnail that is already in the cache.
#[derive(Debug, Clone)]
pub enum CacheStep {
    /// The cached thumbnail stands: this is the result.
    UseCached(ThumbResult),
    /// The source can no longer be measured: the cached thumbnail is to be
    /// removed and made again.
    Regenerate,
}

pub enum CacheStepView {
    UseCached(ThumbResultView),
    Regenerate,
}

impl View for CacheStep {
    type V = CacheStepView;

    open spec fn view(&self) -> CacheStepView {
        match self {
            CacheStep::UseCached(t) => CacheStepView::UseCached(t@),
            CacheStep::Regenerate => CacheStepView::Regenerate,
        }
    }
}

/// Decides about a cached thumbnail at `thumb_path`, given the dimensions
/// of the source image if they could be read. Making a thumbnail is
/// idempotent: while the source can be measured, the cached one is used.
pub fn cached_thumbnail(thumb_path: &str, source_size: Option<(u32, u32)>) -> (r: CacheStep)
    ensures
        r@ == match source_size {
            Some(size) => CacheStepView::UseCached(
                ThumbResultView { thumb_path: thumb_path@, width: size.0, height: size.1 },
            ),
            None => CacheStepView::Regenerate,
        },
{
    match source_size {
        Some(size) => CacheStep::UseCached(
            ThumbResult { thumb_path: String::from_str(thumb_path), width: size.0, height: size.1 },
        ),
        None => CacheStep::Regenerate,
    }
}

/// Whether files of this extension, in any letter case, are flattened from
/// layers rather than decoded directly.
pub fn uses_layered_decoder(ext: &str) -> (r: bool)
    ensures
        r == layered_extensions().contains(lowercase_of(ext@)),
{
    let e = lowercase(ext);
    list_has(&layered_list(), e.as_str())
}

/// Whether an image of the given width must be scaled down to fit a
/// thumbnail of at most `max_width`.
pub fn needs_resize(width: u32, max_width: u32) -> (r: bool)
    ensures
        r == (width > max_width),
{
    width > max_width
}

/// One stream of a media file, as a probe reports it.
#[derive(Debug, Clone)]
pub struct MediaStream {
    pub codec_type: Option<String>,
    pub width: Option<u64>,
    pub height: Option<u64>,
}

pub struct MediaStreamView {
    pub is_video: bool,
    pub width: Option<u64>,
    pub height: Option<u64>,
}

impl View for MediaStream {
    type V = MediaStreamView;

    open spec fn view(&self) -> MediaStreamView {
        MediaStreamView {
            is_video: self.codec_type is Some && self.codec_type->0@ == "video"@,
            width: self.width,
            height: self.height,
        }
    }
}

/// The views of a list of streams.
pub open spec fn streams_view(s: Seq<MediaStream>) -> Seq<MediaStreamView> {
    s.map_values(|m: MediaStream| m@)
}

/// A reported dimension as it is recorded: its low 32 bits, and zero if
/// none was reported.
pub open spec fn recorded_dimension(d: Option<u64>) -> u32 {
    match d {
        Some(v) => (v % 0x1_0000_0000) as u32,
        None => 0,
    }
}

/// The dimensions of a media file: those of its last video stream, and
/// zero by zero if it has none.
pub open spec fn dimensions_of(streams: Seq<MediaStreamView>) -> (u32, u32)
    decreases streams.len(),
{
    if streams.len() == 0 {
        (0, 0)
    } else if streams.last().is_video {
        (recorded_dimension(streams.last().width), recorded_dimension(streams.last().height))
    } else {
        dimensions_of(streams.drop_last())
    }
}

fn record_dimension(d: Option<u64>) -> (r: u32)
    ensures
        r == recorded_dimension(d),
{
    match d {
        Some(v) => (v % 0x1_0000_0000) as u32,
        None => 0,
    }
}

/// Reads the dimensions of a media file off its streams.
pub fn media_dimensions(streams: &Vec<MediaStream>) -> (r: (u32, u32))
    ensures
        r == dimensions_of(streams_view(streams@)),
{
    let mut width: u32 = 0;
    let mut height: u32 = 0;
    let mut i: usize = 0;
    while i < streams.len()
        invariant
            i <= streams@.len(),
            (width, height) == dimensions_of(streams_view(streams@).take(i as int)),
        decreases streams@.len() - i,
    {
        let ghost all = streams_view(streams@);
        proof {
            assert(all.take(i + 1).drop_last() =~= all.take(i as int));
            assert(all.take(i + 1).last() == streams@[i as int]@);
        }
        let s = &streams[i];
        let video = match &s.codec_type {
            Some(kind) => text_eq(kind.as_str(), "video"),
            None => false,
        };
        if video {
            width = record_dimension(s.width);
            height = record_dimension(s.height);
        }
        i += 1;
    }
    assert(streams_view(streams@).take(streams@.len() as int) =~= streams_view(streams@));
    (width, height)
}

/// A borrowed file-system path of the standard library.
#[verifier::external_type_specification]
#[verifier::external_body]
pub struct ExPath(std::path::Path);

/// An owned file-system path of the standard library.
#[verifier::external_type_specification]
#[verifier::external_body]
pub struct ExPathBuf(std::path::PathBuf);

/// The path that the standard library makes of a directory and a name
/// joined to it. It depends on the two alone; no file is looked at.
pub uninterp spec fn joined_path(dir: &std::path::Path, name: Seq<char>) -> std::path::PathBuf;

/// Calls `std::path::Path::join`, which adjoins `name` to `dir` without
/// touching the file system.
#[verifier::external_body]
fn join_path(dir: &std::path::Path, name: &str) -> (r: std::path::PathBuf)
    ensures
        r == joined_path(dir, name@),
{
    dir.join(name)
}

/// The name of the cached thumbnail of a file: sixteen hexadecimal digits of
/// the default hash of its path, and the extension of the thumbnail format.
pub open spec fn thumb_name(file_path: Seq<char>) -> Seq<char> {
    hex16(default_hash_of(file_path)) + ".jpg"@
}

/// Where the thumbnail of a file is cached: the file of the name given by
/// [`thumb_file_name`], joined to `thumb_dir`. The result depends on the
/// directory and the path of the file alone, so the thumbnail of a file is
/// always looked for, written and removed at one and the same place.
pub fn get_thumb_path(thumb_dir: &std::path::Path, file_path: &str) -> (r: std::path::PathBuf)
    ensures
        r == joined_path(thumb_dir, thumb_name(file_path@)),
{
    let name = thumb_file_name(file_path);
    join_path(thumb_dir, name.as_str())
}

} // verus!
