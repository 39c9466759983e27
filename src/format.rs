//! Format support: which files the audio output plays as they are, and
//! which must first be converted.

use vstd::prelude::*;
use vstd::string::*;

verus! {

/// Where a conversion writes its result. Only one conversion result exists
/// at a time; each conversion overwrites it.
pub const CONVERTED_TRACK: &'static str = "temp.flac";

/// The extension of `path`, as `std::path::Path::extension` reads it.
pub uninterp spec fn extension_of(path: Seq<char>) -> Option<Seq<char>>;

/// Relies on `std::path::Path::extension`: the text after the final `.` of
/// the path's last component, or nothing. Text taken from a `&str` is valid
/// UTF-8, so the lossy conversion is exact.
#[verifier::external_body]
pub(crate) fn path_extension(path: &str) -> (r: Option<String>)
    ensures
        match r {
            Some(e) => extension_of(path@) == Some(e@),
            None => extension_of(path@) is None,
        },
{
    match std::path::Path::new(path).extension() {
        Some(x) => Some(x.to_string_lossy().into_owned()),
        None => None,
    }
}

/// Container formats that the audio output decodes itself.
pub open spec fn rodio_format(ext: Seq<char>) -> bool {
    ||| ext == "flac"@
    ||| ext == "mp3"@
    ||| ext == "ogg"@
    ||| ext == "wav"@
}

/// Every format that is taken for an audio file when a folder is queued.
pub open spec fn audio_format(ext: Seq<char>) -> bool {
    ||| rodio_format(ext)
    ||| ext == "opus"@
    ||| ext == "oga"@
    ||| ext == "pcm"@
    ||| ext == "aiff"@
    ||| ext == "aac"@
    ||| ext == "wma"@
    ||| ext == "alac"@
}

/// Whether `path` has an extension of an audio format.
pub open spec fn has_audio_extension(path: Seq<char>) -> bool {
    extension_of(path) matches Some(e) && audio_format(e)
}

/// Why support for a path could not be judged.
#[derive(Debug, Clone, Copy, PartialEq, Eq, Structural)]
pub enum FormatError {
    /// The path does not name a regular file.
    NotAFile,
    /// The file name has no extension.
    NoExtension,
}

/// Whether the output plays `path` as it is, which is a regular file when `is_file`.
pub open spec fn support_spec(path: Seq<char>, is_file: bool) -> Result<bool, FormatError> {
    if !is_file {
        Err(FormatError::NotAFile)
    } else {
        match extension_of(path) {
            Some(e) => Ok(rodio_format(e)),
            None => Err(FormatError::NoExtension),
        }
    }
}

/// Whether a track must be converted before it is played: whenever the output
/// does not plainly accept it.
pub open spec fn needs_conversion(path: Seq<char>, is_file: bool) -> bool {
    support_spec(path, is_file) != Ok::<bool, FormatError>(true)
}

/// Whether two texts are the same.
pub fn same_text(a: &str, b: &str) -> (r: bool)
    ensures
        r == (a@ == b@),
{
    let n = a.unicode_len();
    if n != b.unicode_len() {
        return false;
    }
    let mut i: usize = 0;
    while i < n
        invariant
            n == a@.len(),
            n == b@.len(),
            i <= n,
            a@.subrange(0, i as int) == b@.subrange(0, i as int),
        decreases n - i,
    {
        if a.get_char(i) != b.get_char(i) {
            assert(a@[i as int] != b@[i as int]);
            return false;
        }
        assert(a@.subrange(0, i + 1) == a@.subrange(0, i as int).push(a@[i as int]));
        assert(b@.subrange(0, i + 1) == b@.subrange(0, i as int).push(b@[i as int]));
        i = i + 1;
    }
    assert(a@ == a@.subrange(0, n as int));
    assert(b@ == b@.subrange(0, n as int));
    true
}

/// Whether the audio output decodes files with extension `ext` itself.
pub fn is_rodio_format(ext: &str) -> (r: bool)
    ensures
        r == rodio_format(ext@),
{
    same_text(ext, "flac") || same_text(ext, "mp3") || same_text(ext, "ogg") || same_text(ext, "wav")
}

/// Whether files with extension `ext` are taken for audio files.
pub fn is_audio_format(ext: &str) -> (r: bool)
    ensures
        r == audio_format(ext@),
{
    is_rodio_format(ext) || same_text(ext, "opus") || same_text(ext, "oga") || same_text(ext, "pcm")
        || same_text(ext, "aiff") || same_text(ext, "aac") || same_text(ext, "wma") || same_text(
        ext,
        "alac",
    )
}

/// Whether the audio output plays the file at `path` as it is.
///
/// `is_file` tells whether `path` names a regular file. A path that is not a
/// file, or whose name has no extension, cannot be judged and is an error;
/// callers route it through conversion as they do an unsupported format.
pub fn is_rodio_supported(path: &str, is_file: bool) -> (r: Result<bool, FormatError>)
    ensures
        r == support_spec(path@, is_file),
{
    if !is_file {
        return Err(FormatError::NotAFile);
    }
    match path_extension(path) {
        Some(ext) => Ok(is_rodio_format(ext.as_str())),
        None => Err(FormatError::NoExtension),
    }
}

/// How a track is brought to the audio output.
#[derive(Debug, PartialEq, Eq)]
pub struct LoadPlan {
    /// The track as the user named it.
    pub track: String,
    /// The file that the output decodes: the track itself, or the
    /// conversion result.
    pub playable: String,
    /// Whether the track must be converted into `CONVERTED_TRACK` before
    /// the output opens `playable`.
    pub convert: bool,
}

/// A [`LoadPlan`] with its texts as sequences of characters.
pub struct LoadPlanView {
    pub track: Seq<char>,
    pub playable: Seq<char>,
    pub convert: bool,
}

impl View for LoadPlan {
    type V = LoadPlanView;

    open spec fn view(&self) -> LoadPlanView {
        LoadPlanView { track: self.track@, playable: self.playable@, convert: self.convert }
    }
}

/// How to load `track`, which is a regular file when `is_file`.
pub open spec fn plan_spec(track: Seq<char>, is_file: bool) -> LoadPlanView {
    let convert = needs_conversion(track, is_file);
    LoadPlanView {
        track,
        playable: if convert {
            CONVERTED_TRACK@
        } else {
            track
        },
        convert,
    }
}

/// How to load `track`, which is a regular file when `is_file`: played as
/// it is where the output supports it, otherwise converted first and the
/// conversion result played.
pub fn plan_load(track: &str, is_file: bool) -> (r: LoadPlan)
    ensures
        r.track@ == track@,
        r.convert == needs_conversion(track@, is_file),
        r.playable@ == (if r.convert { CONVERTED_TRACK@ } else { track@ }),
        r@ == plan_spec(track@, is_file),
{
    let convert = match is_rodio_supported(track, is_file) {
        Ok(supported) => !supported,
        Err(_) => true,
    };
    let playable = if convert {
        CONVERTED_TRACK.to_owned()
    } else {
        track.to_owned()
    };
    LoadPlan { track: track.to_owned(), playable, convert }
}

} // verus!
