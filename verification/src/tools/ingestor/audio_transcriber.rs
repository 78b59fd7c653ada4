//! Audio files: which formats are recognised.

use vstd::prelude::*;
use crate::tools::ingestor::paths::path_extension;

verus! {

/// The supported audio extensions.
pub open spec fn audio_extensions() -> Seq<Seq<char>> {
    seq!["mp3"@, "wav"@, "m4a"@, "flac"@, "ogg"@, "aac"@, "wma"@, "opus"@]
}

/// The views of a list of string slices.
pub open spec fn str_views(s: Seq<&str>) -> Seq<Seq<char>> {
    Seq::new(s.len(), |i: int| s[i]@)
}

/// The supported audio extensions, lowercase.
pub fn get_supported_extensions() -> (r: Vec<&'static str>)
    ensures
        str_views(r@) == audio_extensions(),
{
    let r = vec!["mp3", "wav", "m4a", "flac", "ogg", "aac", "wma", "opus"];
    assert(str_views(r@) =~= audio_extensions());
    r
}

/// Whether an extension, ignoring case, is a supported audio format.
pub fn is_audio_extension(ext: &str) -> (r: bool)
    ensures
        r == audio_extensions().contains(crate::text::spec_to_lowercase(ext@)),
{
    let lower = crate::text::to_lowercase(ext);
    let exts = get_supported_extensions();
    let mut i: usize = 0;
    while i < exts.len()
        invariant
            i <= exts@.len(),
            str_views(exts@) == audio_extensions(),
            lower@ == crate::text::spec_to_lowercase(ext@),
            forall|j: int| 0 <= j < i ==> audio_extensions()[j] != lower@,
        decreases exts@.len() - i,
    {
        if crate::text::str_eq(exts[i], lower.as_str()) {
            assert(audio_extensions()[i as int] == lower@);
            return true;
        }
        i += 1;
    }
    false
}

/// Check if a file is a supported audio format by its extension; see
/// `is_audio_extension`. For a plain path the extension is the one std
/// documents; for other paths it comes from the platform's path rules, and
/// only its kind is stated.
pub fn is_audio_file(path: &str) -> (r: bool)
    ensures
        r ==> exists|e: Seq<char>| audio_extensions().contains(crate::text::spec_to_lowercase(e)),
        crate::tools::ingestor::paths::plain_path(path@) ==> r == match crate::tools::ingestor::paths::plain_extension(path@) {
            Some(e) => audio_extensions().contains(crate::text::spec_to_lowercase(e)),
            None => false,
        },
{
    match path_extension(path) {
        Some(e) => is_audio_extension(e.as_str()),
        None => false,
    }
}


/// How an audio file can be read, by its extension.
#[derive(Debug, Clone, Copy, PartialEq, Eq, Structural)]
pub enum AudioSource {
    /// WAV: decoded directly.
    Wav,
    /// A compressed format that must first be converted to WAV.
    Compressed,
    /// Not an audio format that is handled.
    Unsupported,
}

/// How a (lowercased) extension's audio can be read.
pub open spec fn audio_source_of(ext: Seq<char>) -> AudioSource {
    if ext == "wav"@ {
        AudioSource::Wav
    } else if ext == "mp3"@ || ext == "m4a"@ || ext == "aac"@ || ext == "ogg"@ || ext == "flac"@
        || ext == "opus"@ || ext == "wma"@ {
        AudioSource::Compressed
    } else {
        AudioSource::Unsupported
    }
}

/// How audio with this extension can be read, ignoring case; see
/// `audio_source_of`.
pub fn audio_source(extension: &str) -> (r: AudioSource)
    ensures
        r == audio_source_of(crate::text::spec_to_lowercase(extension@)),
{
    let lower = crate::text::to_lowercase(extension);
    let e = lower.as_str();
    let eq = |a: &str, b: &str| -> (r: bool)
        ensures
            r == (a@ == b@),
        { crate::text::str_eq(a, b) };
    if eq(e, "wav") {
        AudioSource::Wav
    } else if eq(e, "mp3") || eq(e, "m4a") || eq(e, "aac") || eq(e, "ogg") || eq(e, "flac") || eq(
        e,
        "opus",
    ) || eq(e, "wma") {
        AudioSource::Compressed
    } else {
        AudioSource::Unsupported
    }
}

/// The error for a compressed format: how to convert the file at `path`
/// to 16 kHz mono WAV with ffmpeg.
pub fn compressed_audio_message(extension: &str, path: &str) -> (r: String)
    ensures
        r@ == "Compressed audio format '"@ + extension@
            + "' requires conversion to WAV.\n\nTo convert using ffmpeg:\n\nffmpeg -i \""@ + path@
            + "\" -ar 16000 -ac 1 -acodec pcm_s16le output.wav\n\nThen transcribe 'output.wav' instead."@,
{
    let mut v = crate::text::to_chars("Compressed audio format '");
    crate::text::append_chars(&mut v, crate::text::to_chars(extension).as_slice());
    crate::text::append_chars(
        &mut v,
        crate::text::to_chars("' requires conversion to WAV.\n\nTo convert using ffmpeg:\n\nffmpeg -i \"").as_slice(),
    );
    crate::text::append_chars(&mut v, crate::text::to_chars(path).as_slice());
    crate::text::append_chars(
        &mut v,
        crate::text::to_chars("\" -ar 16000 -ac 1 -acodec pcm_s16le output.wav\n\nThen transcribe 'output.wav' instead.").as_slice(),
    );
    crate::text::from_chars(v.as_slice())
}

/// The error for an extension that is not an audio format.
pub fn unsupported_audio_message(extension: &str) -> (r: String)
    ensures
        r@ == "Unsupported audio format: "@ + extension@
            + ". Supported: mp3, wav, m4a, flac, ogg, aac, wma, opus"@,
{
    let mut v = crate::text::to_chars("Unsupported audio format: ");
    crate::text::append_chars(&mut v, crate::text::to_chars(extension).as_slice());
    crate::text::append_chars(
        &mut v,
        crate::text::to_chars(". Supported: mp3, wav, m4a, flac, ogg, aac, wma, opus").as_slice(),
    );
    crate::text::from_chars(v.as_slice())
}

} // verus!
