//! Audio devices as the capture side names them.
use vstd::prelude::*;
use vstd::string::StrSliceExecFns;

use crate::asr::{is_blank, text_is_blank, trim_text, trimmed};
use crate::error::AudioError;
use crate::text::join3;

verus! {

/// What `str::to_lowercase` makes of `s`.
pub uninterp spec fn lower_of(s: Seq<char>) -> Seq<char>;

/// Relies on `str::to_lowercase`: the lower-case form of the text, a function of its
/// characters alone.
#[verifier::external_body]
fn lowercase(s: &str) -> (r: String)
    ensures
        r@ == lower_of(s@),
{
    s.to_lowercase()
}

/// Which way a device carries audio.
#[derive(Clone, Copy, Debug, PartialEq, Eq, Hash, Structural)]
pub enum DeviceType {
    Input,
    Output,
}

/// A capture device.
#[derive(Clone, Debug, PartialEq, Eq, Hash)]
pub struct AudioDevice {
    pub name: String,
    pub device_type: DeviceType,
}

/// Run state of a capture device.
#[derive(Clone, Copy, Debug)]
pub struct DeviceControl {
    pub is_running: bool,
    pub is_paused: bool,
}

/// The recognizers the application knows.
#[derive(Clone, Copy, Debug, PartialEq, Eq, Structural)]
pub enum AudioTranscriptionEngine {
    Deepgram,
    WhisperTiny,
    WhisperDistilLargeV3,
    WhisperLargeV3Turbo,
    WhisperLargeV3,
}

impl AudioTranscriptionEngine {
    pub open spec fn label_spec(&self) -> Seq<char> {
        match self {
            AudioTranscriptionEngine::Deepgram => "Deepgram"@,
            AudioTranscriptionEngine::WhisperTiny => "WhisperTiny"@,
            AudioTranscriptionEngine::WhisperDistilLargeV3 => "WhisperLarge"@,
            AudioTranscriptionEngine::WhisperLargeV3Turbo => "WhisperLargeV3Turbo"@,
            AudioTranscriptionEngine::WhisperLargeV3 => "WhisperLargeV3"@,
        }
    }

    /// The engine's display name.
    pub fn label(&self) -> (r: String)
        ensures
            r@ == self.label_spec(),
    {
        let s = match self {
            AudioTranscriptionEngine::Deepgram => "Deepgram",
            AudioTranscriptionEngine::WhisperTiny => "WhisperTiny",
            AudioTranscriptionEngine::WhisperDistilLargeV3 => "WhisperLarge",
            AudioTranscriptionEngine::WhisperLargeV3Turbo => "WhisperLargeV3Turbo",
            AudioTranscriptionEngine::WhisperLargeV3 => "WhisperLargeV3",
        };
        String::from_str(s)
    }
}

impl Default for AudioTranscriptionEngine {
    fn default() -> (r: AudioTranscriptionEngine)
        ensures
            r == AudioTranscriptionEngine::WhisperLargeV3Turbo,
    {
        AudioTranscriptionEngine::WhisperLargeV3Turbo
    }
}

/// `s` ends with `suffix`.
pub open spec fn ends_with(s: Seq<char>, suffix: Seq<char>) -> bool {
    s.len() >= suffix.len() && s.subrange(s.len() - suffix.len(), s.len() as int) == suffix
}

/// `s` with every trailing repetition of `suffix` removed, as `str::trim_end_matches` does.
pub open spec fn strip_suffixes(s: Seq<char>, suffix: Seq<char>) -> Seq<char>
    decreases s.len(),
{
    if suffix.len() > 0 && ends_with(s, suffix) {
        strip_suffixes(s.subrange(0, s.len() - suffix.len()), suffix)
    } else {
        s
    }
}

fn has_suffix(s: &str, suffix: &str) -> (r: bool)
    ensures
        r == ends_with(s@, suffix@),
{
    let n = s.unicode_len();
    let k = suffix.unicode_len();
    if n < k {
        return false;
    }
    let mut i: usize = 0;
    while i < k
        invariant
            n == s@.len(),
            k == suffix@.len(),
            k <= n,
            i <= k,
            forall|j: int| 0 <= j < i ==> s@[n - k + j] == suffix@[j],
        decreases k - i,
    {
        if s.get_char(n - k + i) != suffix.get_char(i) {
            proof {
                assert(s@.subrange(n - k, n as int)[i as int] != suffix@[i as int]);
            }
            return false;
        }
        i = i + 1;
    }
    proof {
        assert(s@.subrange(n - k, n as int) =~= suffix@);
    }
    true
}

fn strip_all(s: &str, suffix: &str) -> (r: String)
    ensures
        r@ == strip_suffixes(s@, suffix@),
{
    let mut cur = String::from_str(s);
    let k = suffix.unicode_len();
    if k == 0 {
        return cur;
    }
    while has_suffix(cur.as_str(), suffix)
        invariant
            k == suffix@.len(),
            k > 0,
            strip_suffixes(s@, suffix@) == strip_suffixes(cur@, suffix@),
        decreases cur@.len(),
    {
        let n = cur.as_str().unicode_len();
        let shorter = String::from_str(cur.as_str().substring_char(0, n - k));
        cur = shorter;
    }
    cur
}

/// The device that a name such as `"Mic (input)"` denotes, given `lower`, the name in
/// lower case. A blank name, or one whose lower-case form ends in neither `(input)` nor
/// `(output)`, is refused. Otherwise the marker is removed from the end of the name and
/// the rest trimmed.
pub fn classify_device_name(name: &str, lower: &str) -> (r: Result<AudioDevice, AudioError>)
    ensures
        is_blank(trimmed(name@)) ==> r is Err,
        !is_blank(trimmed(name@)) && ends_with(lower@, "(input)"@) ==> (r matches Ok(d)
            && d.device_type == DeviceType::Input && d.name@ == trimmed(
            strip_suffixes(name@, "(input)"@),
        )),
        !is_blank(trimmed(name@)) && !ends_with(lower@, "(input)"@) && ends_with(
            lower@,
            "(output)"@,
        ) ==> (r matches Ok(d) && d.device_type == DeviceType::Output && d.name@ == trimmed(
            strip_suffixes(name@, "(output)"@),
        )),
        !ends_with(lower@, "(input)"@) && !ends_with(lower@, "(output)"@) ==> r is Err,
{
    let t = trim_text(name);
    if text_is_blank(t.as_str()) {
        return Err(
            AudioError::Configuration {
                message: String::from_str("Device name cannot be empty"),
                field: String::from_str("device_name"),
            },
        );
    }
    if has_suffix(lower, "(input)") {
        let stripped = strip_all(name, "(input)");
        Ok(AudioDevice { name: trim_text(stripped.as_str()), device_type: DeviceType::Input })
    } else if has_suffix(lower, "(output)") {
        let stripped = strip_all(name, "(output)");
        Ok(AudioDevice { name: trim_text(stripped.as_str()), device_type: DeviceType::Output })
    } else {
        Err(
            AudioError::Configuration {
                message: String::from_str("Device type (input/output) not specified in the name"),
                field: String::from_str("device_name"),
            },
        )
    }
}

impl AudioDevice {
    pub fn new(name: String, device_type: DeviceType) -> (r: AudioDevice)
        ensures
            r.name == name,
            r.device_type == device_type,
    {
        AudioDevice { name, device_type }
    }

    /// Parses `"<name> (input)"` or `"<name> (output)"`; the marker is matched without
    /// regard to case.
    pub fn from_name(name: &str) -> (r: Result<AudioDevice, AudioError>)
        ensures
            is_blank(trimmed(name@)) ==> r is Err,
            !ends_with(lower_of(name@), "(input)"@) && !ends_with(lower_of(name@), "(output)"@)
                ==> r is Err,
            !is_blank(trimmed(name@)) && ends_with(lower_of(name@), "(input)"@) ==> (r matches Ok(
                d,
            ) && d.device_type == DeviceType::Input && d.name@ == trimmed(
                strip_suffixes(name@, "(input)"@),
            )),
            !is_blank(trimmed(name@)) && !ends_with(lower_of(name@), "(input)"@) && ends_with(
                lower_of(name@),
                "(output)"@,
            ) ==> (r matches Ok(d) && d.device_type == DeviceType::Output && d.name@ == trimmed(
                strip_suffixes(name@, "(output)"@),
            )),
    {
        let lower = lowercase(name);
        classify_device_name(name, lower.as_str())
    }

    /// `"<name> (input)"` or `"<name> (output)"`.
    pub fn display_name(&self) -> (r: String)
        ensures
            r@ == self.name@ + " ("@ + (if self.device_type == DeviceType::Input {
                "input"@
            } else {
                "output"@
            }) + ")"@,
    {
        let kind = match self.device_type {
            DeviceType::Input => "input",
            DeviceType::Output => "output",
        };
        let s = join3(self.name.as_str(), " (", kind);
        s.concat(")")
    }
}

/// The same as `AudioDevice::from_name`.
pub fn parse_audio_device(name: &str) -> (r: Result<AudioDevice, AudioError>)
    ensures
        is_blank(trimmed(name@)) ==> r is Err,
        !ends_with(lower_of(name@), "(input)"@) && !ends_with(lower_of(name@), "(output)"@)
            ==> r is Err,
        !is_blank(trimmed(name@)) && ends_with(lower_of(name@), "(input)"@) ==> (r matches Ok(d)
            && d.device_type == DeviceType::Input && d.name@ == trimmed(
            strip_suffixes(name@, "(input)"@),
        )),
        !is_blank(trimmed(name@)) && !ends_with(lower_of(name@), "(input)"@) && ends_with(
            lower_of(name@),
            "(output)"@,
        ) ==> (r matches Ok(d) && d.device_type == DeviceType::Output && d.name@ == trimmed(
            strip_suffixes(name@, "(output)"@),
        )),
{
    AudioDevice::from_name(name)
}

/// Screen-recording permission, which only macOS asks for: granted here.
pub fn request_screen_recording_permission() -> (r: Result<(), AudioError>)
    ensures
        r is Ok,
{
    Ok(())
}

/// The system-output tap exists on macOS only, so this always fails here.
pub fn create_coreaudio_system_device() -> (r: Result<AudioDevice, AudioError>)
    ensures
        r matches Err(AudioError::Configuration { message, .. }) && message@
            == "CoreAudio Process Tap is only supported on macOS"@,
{
    Err(
        AudioError::Configuration {
            message: String::from_str("CoreAudio Process Tap is only supported on macOS"),
            field: String::from_str("system_audio"),
        },
    )
}

} // verus!
