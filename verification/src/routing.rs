//! Which player a file goes to, decided from its extension, and how audio is routed between
//! the presenter and direct local output.

use vstd::prelude::*;
use crate::config::Config;
use crate::error::ErrorKind;

verus! {

/// The extension `std::path::Path::extension` finds in `path`, as text.
pub uninterp spec fn path_extension(path: Seq<char>) -> Option<Seq<char>>;

/// The extension of `path`, as `std::path::Path::extension` finds it.
#[verifier::external_body]
fn extension_of(path: &str) -> (extension: Option<String>)
    ensures
        match extension {
            Some(text) => path_extension(path@) == Some(text@),
            None => path_extension(path@) is None,
        },
{
    std::path::Path::new(path).extension().and_then(|value| value.to_str()).map(|value| value.to_owned())
}

/// `c` with ASCII upper case mapped to lower case.
pub open spec fn ascii_lower(c: char) -> char {
    if 'A' <= c <= 'Z' { ((c as u32) + 32) as char } else { c }
}

/// `text` with ASCII upper case mapped to lower case, as `str::to_ascii_lowercase` does.
pub open spec fn ascii_lowercase(text: Seq<char>) -> Seq<char> {
    text.map_values(|c: char| ascii_lower(c))
}

/// Extensions of the video containers Vivi plays, in lower case.
pub open spec fn is_video_extension(lowered: Seq<char>) -> bool {
    ||| lowered == "mp4"@
    ||| lowered == "mkv"@
    ||| lowered == "avi"@
    ||| lowered == "mov"@
    ||| lowered == "webm"@
    ||| lowered == "flv"@
    ||| lowered == "wmv"@
    ||| lowered == "m4v"@
    ||| lowered == "mpg"@
    ||| lowered == "mpeg"@
    ||| lowered == "3gp"@
}

/// Extensions of the audio files Vivi plays, in lower case.
pub open spec fn is_audio_extension(lowered: Seq<char>) -> bool {
    ||| lowered == "mp3"@
    ||| lowered == "m4a"@
    ||| lowered == "wav"@
    ||| lowered == "flac"@
    ||| lowered == "ogg"@
    ||| lowered == "opus"@
}

/// The path's extension, compared without regard to ASCII case, names a video container.
pub open spec fn spec_looks_like_video(path: Seq<char>) -> bool {
    match path_extension(path) {
        Some(extension) => is_video_extension(ascii_lowercase(extension)),
        None => false,
    }
}

/// The path's extension, compared without regard to ASCII case, names an audio file.
pub open spec fn spec_looks_like_audio(path: Seq<char>) -> bool {
    match path_extension(path) {
        Some(extension) => is_audio_extension(ascii_lowercase(extension)),
        None => false,
    }
}

/// Whether `text` lowered to ASCII lower case equals `lowered`.
fn lowercase_equals(text: &str, lowered: &str) -> (equal: bool)
    ensures
        equal == (ascii_lowercase(text@) == lowered@),
{
    let length = text.unicode_len();
    if length != lowered.unicode_len() {
        return false;
    }
    let mut index: usize = 0;
    while index < length
        invariant
            length == text@.len() == lowered@.len(),
            index <= length,
            forall|i: int| 0 <= i < index ==> ascii_lower(#[trigger] text@[i]) == lowered@[i],
        decreases length - index,
    {
        let c = text.get_char(index);
        let l = lowered.get_char(index);
        let matches = if 'A' <= c && c <= 'Z' { (c as u32) + 32 == l as u32 } else { c == l };
        proof {
            if 'A' <= c <= 'Z' {
                assert(matches == (((c as u32) + 32) as char == l));
            }
        }
        if !matches {
            assert(ascii_lowercase(text@)[index as int] != lowered@[index as int]);
            return false;
        }
        index = index + 1;
    }
    assert(ascii_lowercase(text@) =~= lowered@);
    true
}

/// Whether an extension names a video container, ignoring ASCII case.
pub fn extension_is_video(extension: &str) -> (video: bool)
    ensures
        video == is_video_extension(ascii_lowercase(extension@)),
{
    lowercase_equals(extension, "mp4") || lowercase_equals(extension, "mkv") || lowercase_equals(extension, "avi")
        || lowercase_equals(extension, "mov") || lowercase_equals(extension, "webm") || lowercase_equals(
        extension,
        "flv",
    ) || lowercase_equals(extension, "wmv") || lowercase_equals(extension, "m4v") || lowercase_equals(
        extension,
        "mpg",
    ) || lowercase_equals(extension, "mpeg") || lowercase_equals(extension, "3gp")
}

/// Whether an extension names an audio file, ignoring ASCII case.
pub fn extension_is_audio(extension: &str) -> (audio: bool)
    ensures
        audio == is_audio_extension(ascii_lowercase(extension@)),
{
    lowercase_equals(extension, "mp3") || lowercase_equals(extension, "m4a") || lowercase_equals(extension, "wav")
        || lowercase_equals(extension, "flac") || lowercase_equals(extension, "ogg") || lowercase_equals(
        extension,
        "opus",
    )
}

/// Whether the file at `path` is a video, judged by its extension.
pub fn looks_like_video(path: &str) -> (video: bool)
    ensures
        video == spec_looks_like_video(path@),
{
    match extension_of(path) {
        Some(extension) => extension_is_video(extension.as_str()),
        None => false,
    }
}

/// Whether the file at `path` is audio, judged by its extension.
pub fn looks_like_audio(path: &str) -> (audio: bool)
    ensures
        audio == spec_looks_like_audio(path@),
{
    match extension_of(path) {
        Some(extension) => extension_is_audio(extension.as_str()),
        None => false,
    }
}

/// The player a file is first offered to.
#[derive(Debug, Clone, Copy, PartialEq, Eq, Structural)]
pub enum MediaHint {
    Video,
    Audio,
    Unknown,
}

/// Video extensions are recognised first, then audio ones; anything else is unknown and is
/// tried as an image, then a video, then audio.
pub open spec fn spec_media_hint(path: Seq<char>) -> MediaHint {
    if spec_looks_like_video(path) {
        MediaHint::Video
    } else if spec_looks_like_audio(path) {
        MediaHint::Audio
    } else {
        MediaHint::Unknown
    }
}

/// The player a file is first offered to.
pub fn media_hint(path: &str) -> (hint: MediaHint)
    ensures
        hint == spec_media_hint(path@),
{
    if looks_like_video(path) {
        MediaHint::Video
    } else if looks_like_audio(path) {
        MediaHint::Audio
    } else {
        MediaHint::Unknown
    }
}

/// A player a file can be handed to.
#[derive(Debug, Clone, Copy, PartialEq, Eq, Structural)]
pub enum Player {
    Image,
    Video,
    Audio,
}

/// The players a file is offered to, in order, until one accepts it: the hinted player
/// alone, or, for a file of unknown kind, the image viewer, then the video player, then audio.
pub open spec fn spec_playback_attempts(hint: MediaHint) -> Seq<Player> {
    match hint {
        MediaHint::Video => seq![Player::Video],
        MediaHint::Audio => seq![Player::Audio],
        MediaHint::Unknown => seq![Player::Image, Player::Video, Player::Audio],
    }
}

/// The players a file with media hint `hint` is offered to, in order.
pub fn playback_attempts(hint: MediaHint) -> (players: Vec<Player>)
    ensures
        players@ == spec_playback_attempts(hint),
{
    match hint {
        MediaHint::Video => vec![Player::Video],
        MediaHint::Audio => vec![Player::Audio],
        MediaHint::Unknown => vec![Player::Image, Player::Video, Player::Audio],
    }
}

/// No extension is both a video and an audio extension, so the order in which the two are
/// checked never changes a file's route.
pub proof fn law_video_and_audio_extensions_are_disjoint(lowered: Seq<char>)
    ensures
        !(is_video_extension(lowered) && is_audio_extension(lowered)),
{
    reveal_strlit("mp4");
    reveal_strlit("mkv");
    reveal_strlit("avi");
    reveal_strlit("mov");
    reveal_strlit("webm");
    reveal_strlit("flv");
    reveal_strlit("wmv");
    reveal_strlit("m4v");
    reveal_strlit("mpg");
    reveal_strlit("mpeg");
    reveal_strlit("3gp");
    reveal_strlit("mp3");
    reveal_strlit("m4a");
    reveal_strlit("wav");
    reveal_strlit("flac");
    reveal_strlit("ogg");
    reveal_strlit("opus");
    assert("mp4"@ =~= seq!['m', 'p', '4']);
    assert("mkv"@ =~= seq!['m', 'k', 'v']);
    assert("avi"@ =~= seq!['a', 'v', 'i']);
    assert("mov"@ =~= seq!['m', 'o', 'v']);
    assert("webm"@ =~= seq!['w', 'e', 'b', 'm']);
    assert("flv"@ =~= seq!['f', 'l', 'v']);
    assert("wmv"@ =~= seq!['w', 'm', 'v']);
    assert("m4v"@ =~= seq!['m', '4', 'v']);
    assert("mpg"@ =~= seq!['m', 'p', 'g']);
    assert("mpeg"@ =~= seq!['m', 'p', 'e', 'g']);
    assert("3gp"@ =~= seq!['3', 'g', 'p']);
    assert("mp3"@ =~= seq!['m', 'p', '3']);
    assert("m4a"@ =~= seq!['m', '4', 'a']);
    assert("wav"@ =~= seq!['w', 'a', 'v']);
    assert("flac"@ =~= seq!['f', 'l', 'a', 'c']);
    assert("ogg"@ =~= seq!['o', 'g', 'g']);
    assert("opus"@ =~= seq!['o', 'p', 'u', 's']);
    if is_video_extension(lowered) && is_audio_extension(lowered) {
        if lowered == "mp3"@ {
            assert("mp4"@[2] != "mp3"@[2]);
            assert("mkv"@[1] != "mp3"@[1]);
            assert("avi"@[0] != "mp3"@[0]);
            assert("mov"@[1] != "mp3"@[1]);
            assert("webm"@.len() != "mp3"@.len());
            assert("flv"@[0] != "mp3"@[0]);
            assert("wmv"@[0] != "mp3"@[0]);
            assert("m4v"@[1] != "mp3"@[1]);
            assert("mpg"@[2] != "mp3"@[2]);
            assert("mpeg"@.len() != "mp3"@.len());
            assert("3gp"@[0] != "mp3"@[0]);
        }
        if lowered == "m4a"@ {
            assert("mp4"@[1] != "m4a"@[1]);
            assert("mkv"@[1] != "m4a"@[1]);
            assert("avi"@[0] != "m4a"@[0]);
            assert("mov"@[1] != "m4a"@[1]);
            assert("webm"@.len() != "m4a"@.len());
            assert("flv"@[0] != "m4a"@[0]);
            assert("wmv"@[0] != "m4a"@[0]);
            assert("m4v"@[2] != "m4a"@[2]);
            assert("mpg"@[1] != "m4a"@[1]);
            assert("mpeg"@.len() != "m4a"@.len());
            assert("3gp"@[0] != "m4a"@[0]);
        }
        if lowered == "wav"@ {
            assert("mp4"@[0] != "wav"@[0]);
            assert("mkv"@[0] != "wav"@[0]);
            assert("avi"@[0] != "wav"@[0]);
            assert("mov"@[0] != "wav"@[0]);
            assert("webm"@.len() != "wav"@.len());
            assert("flv"@[0] != "wav"@[0]);
            assert("wmv"@[1] != "wav"@[1]);
            assert("m4v"@[0] != "wav"@[0]);
            assert("mpg"@[0] != "wav"@[0]);
            assert("mpeg"@.len() != "wav"@.len());
            assert("3gp"@[0] != "wav"@[0]);
        }
        if lowered == "flac"@ {
            assert("mp4"@.len() != "flac"@.len());
            assert("mkv"@.len() != "flac"@.len());
            assert("avi"@.len() != "flac"@.len());
            assert("mov"@.len() != "flac"@.len());
            assert("webm"@[0] != "flac"@[0]);
            assert("flv"@.len() != "flac"@.len());
            assert("wmv"@.len() != "flac"@.len());
            assert("m4v"@.len() != "flac"@.len());
            assert("mpg"@.len() != "flac"@.len());
            assert("mpeg"@[0] != "flac"@[0]);
            assert("3gp"@.len() != "flac"@.len());
        }
        if lowered == "ogg"@ {
            assert("mp4"@[0] != "ogg"@[0]);
            assert("mkv"@[0] != "ogg"@[0]);
            assert("avi"@[0] != "ogg"@[0]);
            assert("mov"@[0] != "ogg"@[0]);
            assert("webm"@.len() != "ogg"@.len());
            assert("flv"@[0] != "ogg"@[0]);
            assert("wmv"@[0] != "ogg"@[0]);
            assert("m4v"@[0] != "ogg"@[0]);
            assert("mpg"@[0] != "ogg"@[0]);
            assert("mpeg"@.len() != "ogg"@.len());
            assert("3gp"@[0] != "ogg"@[0]);
        }
        if lowered == "opus"@ {
            assert("mp4"@.len() != "opus"@.len());
            assert("mkv"@.len() != "opus"@.len());
            assert("avi"@.len() != "opus"@.len());
            assert("mov"@.len() != "opus"@.len());
            assert("webm"@[0] != "opus"@[0]);
            assert("flv"@.len() != "opus"@.len());
            assert("wmv"@.len() != "opus"@.len());
            assert("m4v"@.len() != "opus"@.len());
            assert("mpg"@.len() != "opus"@.len());
            assert("mpeg"@[0] != "opus"@[0]);
            assert("3gp"@.len() != "opus"@.len());
        }
    }
}

/// Reasons an audio route is refused.
#[derive(Debug, Clone, Copy, PartialEq, Eq, Structural)]
pub enum AudioModeError {
    /// `--no-wait` would exit before local audio finishes.
    NoWaitAudioOnly,
    /// A remote session can only play audio through a presenter that accepts it.
    RemoteNeedsPresenterAudio,
    /// A dry run never opens the local output device, so it can only play audio through a
    /// presenter that accepts it.
    DryRunNeedsPresenterAudio,
}

impl AudioModeError {
    /// The I/O error kind under which the error is reported.
    pub open spec fn spec_kind(self) -> ErrorKind {
        match self {
            AudioModeError::NoWaitAudioOnly => ErrorKind::InvalidInput,
            AudioModeError::RemoteNeedsPresenterAudio | AudioModeError::DryRunNeedsPresenterAudio => ErrorKind::Unsupported,
        }
    }

    /// The I/O error kind under which the error is reported.
    pub fn kind(&self) -> (kind: ErrorKind)
        ensures
            kind == self.spec_kind(),
    {
        match self {
            AudioModeError::NoWaitAudioOnly => ErrorKind::InvalidInput,
            AudioModeError::RemoteNeedsPresenterAudio | AudioModeError::DryRunNeedsPresenterAudio => ErrorKind::Unsupported,
        }
    }
}

/// An audio-only file cannot be played with `--no-wait`: its output is local and would stop
/// when Vivi exits.
pub fn validate_audio_mode(config: &Config) -> (result: Result<(), AudioModeError>)
    ensures
        result == if config.no_wait { Err(AudioModeError::NoWaitAudioOnly) } else { Ok::<(), AudioModeError>(()) },
{
    if config.no_wait {
        return Err(AudioModeError::NoWaitAudioOnly);
    }
    Ok(())
}

/// What follows when the presenter could not play an audio-only file.
#[derive(Debug, Clone, Copy, PartialEq, Eq, Structural)]
pub enum PresenterAudioFailure {
    /// Report the failure as a remote negotiation failure.
    FailRemote,
    /// Report the failure as it is.
    Fail,
    /// Warn and play through the local output device instead.
    UseDirectOutput,
}

/// What follows a presenter audio failure: a remote session cannot fall back to a local
/// device, and a dry run must not open one.
pub open spec fn spec_presenter_audio_failure(remote: bool, dry_run: bool) -> PresenterAudioFailure {
    if remote {
        PresenterAudioFailure::FailRemote
    } else if dry_run {
        PresenterAudioFailure::Fail
    } else {
        PresenterAudioFailure::UseDirectOutput
    }
}

/// Decides what follows when the presenter could not play an audio-only file.
pub fn presenter_audio_failure(remote: bool, dry_run: bool) -> (next: PresenterAudioFailure)
    ensures
        next == spec_presenter_audio_failure(remote, dry_run),
{
    if remote {
        PresenterAudioFailure::FailRemote
    } else if dry_run {
        PresenterAudioFailure::Fail
    } else {
        PresenterAudioFailure::UseDirectOutput
    }
}

/// Direct local output is refused in a remote session, where the device would be on the remote
/// host, and in a dry run, which never opens a device.
pub open spec fn spec_direct_audio_permitted(remote: bool, dry_run: bool) -> Result<(), AudioModeError> {
    if remote {
        Err(AudioModeError::RemoteNeedsPresenterAudio)
    } else if dry_run {
        Err(AudioModeError::DryRunNeedsPresenterAudio)
    } else {
        Ok(())
    }
}

/// Checks that direct local output may be used.
pub fn direct_audio_permitted(remote: bool, dry_run: bool) -> (result: Result<(), AudioModeError>)
    ensures
        result == spec_direct_audio_permitted(remote, dry_run),
{
    if remote {
        return Err(AudioModeError::RemoteNeedsPresenterAudio);
    }
    if dry_run {
        return Err(AudioModeError::DryRunNeedsPresenterAudio);
    }
    Ok(())
}

/// How the sound of a video is played.
#[derive(Debug, Clone, Copy, PartialEq, Eq, Structural)]
pub struct VideoAudioPlan {
    /// Send the audio stream to the presenter, linked to the video.
    pub linked: bool,
    /// Play the audio through the local output device.
    pub direct: bool,
    /// If linking the audio fails, try the local output device instead.
    pub direct_on_link_failure: bool,
    /// Warn that the presenter cannot play this remote session's audio.
    pub warn_no_remote_audio: bool,
}

/// The audio plan for a video: audio is linked to the presenter when the file has a usable
/// audio stream, the presenter accepts audio and Vivi waits for playback; otherwise audio is
/// played locally, except in dry runs, remote sessions and `--no-wait`.
pub open spec fn spec_video_audio_plan(
    has_audio_stream: bool,
    audio_described: bool,
    presenter_audio: bool,
    no_wait: bool,
    dry_run: bool,
    remote: bool,
) -> VideoAudioPlan {
    let linked = audio_described && presenter_audio && !no_wait;
    VideoAudioPlan {
        linked,
        direct: has_audio_stream && !linked && !no_wait && !dry_run && !remote,
        direct_on_link_failure: !remote && !dry_run,
        warn_no_remote_audio: !linked && has_audio_stream && remote && !no_wait,
    }
}

/// Decides how the sound of a video is played.
pub fn video_audio_plan(
    has_audio_stream: bool,
    audio_described: bool,
    presenter_audio: bool,
    no_wait: bool,
    dry_run: bool,
    remote: bool,
) -> (plan: VideoAudioPlan)
    ensures
        plan == spec_video_audio_plan(has_audio_stream, audio_described, presenter_audio, no_wait, dry_run, remote),
{
    let linked = audio_described && presenter_audio && !no_wait;
    VideoAudioPlan {
        linked,
        direct: has_audio_stream && !linked && !no_wait && !dry_run && !remote,
        direct_on_link_failure: !remote && !dry_run,
        warn_no_remote_audio: !linked && has_audio_stream && remote && !no_wait,
    }
}

/// A video's sound never goes both to the presenter and to the local device, and a remote
/// session or dry run never opens the local device.
pub proof fn law_video_audio_has_one_route(
    has_audio_stream: bool,
    audio_described: bool,
    presenter_audio: bool,
    no_wait: bool,
    dry_run: bool,
    remote: bool,
)
    ensures
        ({
            let plan = spec_video_audio_plan(has_audio_stream, audio_described, presenter_audio, no_wait, dry_run, remote);
            &&& !(plan.linked && plan.direct)
            &&& (remote || dry_run) ==> !plan.direct && !plan.direct_on_link_failure
        }),
{
}

/// No route opens the local audio device in a remote session or a dry run: neither an
/// audio-only file, whether its presenter audio failed or the presenter takes no audio, nor a
/// video's sound, first or after a failed link. With `--no-wait`, a video's sound is neither linked nor played locally.
pub proof fn law_remote_and_dry_runs_never_open_a_device(
    has_audio_stream: bool,
    audio_described: bool,
    presenter_audio: bool,
    no_wait: bool,
    dry_run: bool,
    remote: bool,
)
    ensures
        (remote || dry_run) ==> spec_presenter_audio_failure(remote, dry_run) != PresenterAudioFailure::UseDirectOutput,
        (remote || dry_run) ==> spec_direct_audio_permitted(remote, dry_run) is Err,
        ({
            let plan = spec_video_audio_plan(has_audio_stream, audio_described, presenter_audio, no_wait, dry_run, remote);
            &&& (remote || dry_run) ==> !plan.direct && !plan.direct_on_link_failure
            &&& no_wait ==> !plan.linked && !plan.direct
        }),
{
}

/// A video's sound is played somewhere whenever it can be: it is linked to the presenter
/// exactly when the stream is described, the presenter takes audio and Vivi waits; a local,
/// waiting, non-dry session plays an audio stream that is not linked on the local device; and
/// the local device is used only for a stream that exists and is not linked.
pub proof fn law_video_sound_is_not_dropped(
    has_audio_stream: bool,
    audio_described: bool,
    presenter_audio: bool,
    no_wait: bool,
    dry_run: bool,
    remote: bool,
)
    ensures
        ({
            let plan = spec_video_audio_plan(has_audio_stream, audio_described, presenter_audio, no_wait, dry_run, remote);
            &&& plan.linked == (audio_described && presenter_audio && !no_wait)
            &&& has_audio_stream && !plan.linked && !no_wait && !dry_run && !remote ==> plan.direct
            &&& plan.direct ==> has_audio_stream && !plan.linked
        }),
{
}

} // verus!
