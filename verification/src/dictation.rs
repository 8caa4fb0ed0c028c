//! Dictation: the microphone capture command line, reading the audio tools' output, the
//! transcript that whisper prints, and the cloud transcription request and reply.
use vstd::prelude::*;

use crate::cleanup::{cleaned, cleanup_transcript};
use crate::config::{join_path, join_path_str, opt_view, AppSettings, ProviderMode};
use crate::insertion::string_views;
use crate::text::{
    decimal, decimal_string, occurs_at, split_from, chars_of, contains, contains_chars, copy_string, index_of, index_of_char, join, join_chars,
    lines, push_all, replace_all, replace_chars, split_chars, split_lines, split_on, starts_with,
    starts_with_chars, str_concat, str_concat3, string_of, strip_char, strip_char_chars,
    strip_char_end, tail_chars, trim, trim_chars, views,
};

verus! {

/// A microphone the sound server offers.
#[derive(Debug, Clone)]
pub struct AudioInputDevice {
    pub id: String,
    pub label: String,
}

/// What was heard, as transcribed and as cleaned up.
#[derive(Debug, Clone)]
pub struct TranscriptResult {
    pub raw_text: String,
    pub cleaned_text: String,
}

/// The failures of dictation that the user is told about in their own words.
#[derive(Debug, Clone, Copy, PartialEq, Eq, Structural)]
pub enum DictationError {
    WhisperCliNotFound,
    NoLocalModel,
    NoAudioCaptured,
    MissingRuntimeDir,
}

/// The full description of a dictation error.
pub open spec fn dictation_error_text(e: DictationError) -> Seq<char> {
    match e {
        DictationError::WhisperCliNotFound => "whisper.cpp CLI not found. Install the bundled runtime before starting dictation."@,
        DictationError::NoLocalModel => "No local model found. Finish setup in SayWrite before dictating."@,
        DictationError::NoAudioCaptured => "Microphone recording produced no audio."@,
        DictationError::MissingRuntimeDir => "XDG_RUNTIME_DIR is not set. SayWrite needs a private runtime directory for recordings."@,
    }
}

impl DictationError {
    /// The full description of the error.
    pub fn message(&self) -> (r: String)
        ensures
            r@ == dictation_error_text(*self),
    {
        match self {
            DictationError::WhisperCliNotFound => copy_string(
                "whisper.cpp CLI not found. Install the bundled runtime before starting dictation.",
            ),
            DictationError::NoLocalModel => copy_string(
                "No local model found. Finish setup in SayWrite before dictating.",
            ),
            DictationError::NoAudioCaptured => copy_string(
                "Microphone recording produced no audio.",
            ),
            DictationError::MissingRuntimeDir => copy_string(
                "XDG_RUNTIME_DIR is not set. SayWrite needs a private runtime directory for recordings.",
            ),
        }
    }
}

/// What was heard, with its cleaned form.
pub fn transcript_result(raw_text: String) -> (r: TranscriptResult)
    ensures
        r.raw_text@ == raw_text@,
        r.cleaned_text@ == cleaned(raw_text@),
{
    let cleaned_text = cleanup_transcript(raw_text.as_str());
    TranscriptResult { raw_text, cleaned_text }
}

// ---------------------------------------------------------------------------
// Live sessions
// ---------------------------------------------------------------------------

/// Why a live dictation could not be started or stopped.
#[derive(Debug, Clone, Copy, PartialEq, Eq, Structural)]
pub enum SessionError {
    /// One of the failures the user is told about in their own words.
    Dictation(DictationError),
    /// A session is already recording.
    AlreadyRunning,
    /// No session is recording.
    NotRunning,
}

pub open spec fn session_error_text(e: SessionError) -> Seq<char> {
    match e {
        SessionError::Dictation(d) => dictation_error_text(d),
        SessionError::AlreadyRunning => "A dictation session is already running."@,
        SessionError::NotRunning => "No dictation session is running."@,
    }
}

impl SessionError {
    /// The description of the error.
    pub fn message(&self) -> (r: String)
        ensures
            r@ == session_error_text(*self),
    {
        match self {
            SessionError::Dictation(d) => d.message(),
            SessionError::AlreadyRunning => copy_string("A dictation session is already running."),
            SessionError::NotRunning => copy_string("No dictation session is running."),
        }
    }
}

/// What a started session answers.
pub open spec fn listening_text() -> Seq<char> {
    "Listening..."@
}

/// Whether a live dictation may start. Local transcription needs the whisper command
/// (`whisper_cli_found`), and only one session records at a time (`session_running`). When it
/// may start, the answer says whether to mute playback while recording.
pub fn start_live_check(settings: &AppSettings, whisper_cli_found: bool, session_running: bool) -> (r:
    Result<bool, SessionError>)
    ensures
        settings.provider_mode == ProviderMode::Local && !whisper_cli_found ==> r == Err::<
            bool,
            SessionError,
        >(SessionError::Dictation(DictationError::WhisperCliNotFound)),
        !(settings.provider_mode == ProviderMode::Local && !whisper_cli_found) && session_running
            ==> r == Err::<bool, SessionError>(SessionError::AlreadyRunning),
        !(settings.provider_mode == ProviderMode::Local && !whisper_cli_found) && !session_running
            ==> r == Ok::<bool, SessionError>(settings.pause_audio_during_dictation),
{
    let local = match settings.provider_mode {
        ProviderMode::Local => true,
        ProviderMode::Cloud => false,
    };
    if local && !whisper_cli_found {
        return Err(SessionError::Dictation(DictationError::WhisperCliNotFound));
    }
    if session_running {
        return Err(SessionError::AlreadyRunning);
    }
    Ok(settings.pause_audio_during_dictation)
}

/// The directory recordings go to under the runtime directory `runtime_dir`.
pub open spec fn recording_dir_for(runtime_dir: Seq<char>) -> Seq<char> {
    join_path(runtime_dir, "saywrite"@)
}

/// The recording file for a session started `millis` milliseconds after the epoch.
pub open spec fn recording_file_for(runtime_dir: Seq<char>, millis: u64) -> Seq<char> {
    join_path(recording_dir_for(runtime_dir), "dictation-"@ + decimal(millis as nat) + ".wav"@)
}

/// Where a session started `millis` milliseconds after the epoch records, as the directory
/// to create and the file in it, under the private runtime directory (`XDG_RUNTIME_DIR`, `None`
/// when it is not set).
pub fn recording_location(runtime_dir: Option<String>, millis: u64) -> (r: Result<
    (String, String),
    SessionError,
>)
    ensures
        runtime_dir is None ==> r == Err::<(String, String), SessionError>(
            SessionError::Dictation(DictationError::MissingRuntimeDir),
        ),
        runtime_dir matches Some(d) ==> (r matches Ok(p) && p.0@ == recording_dir_for(d@) && p.1@
            == recording_file_for(d@, millis)),
{
    match runtime_dir {
        None => Err(SessionError::Dictation(DictationError::MissingRuntimeDir)),
        Some(d) => {
            let dir = join_path_str(d.as_str(), "saywrite");
            let n = decimal_string(millis);
            let name = str_concat3("dictation-", n.as_str(), ".wav");
            let file = join_path_str(dir.as_str(), name.as_str());
            Ok((dir, file))
        },
    }
}

/// Whether a live dictation may stop: a session must be recording. When it may stop, the
/// answer says whether to unmute playback.
pub fn stop_live_check(settings: &AppSettings, session_running: bool) -> (r: Result<bool, SessionError>)
    ensures
        !session_running ==> r == Err::<bool, SessionError>(SessionError::NotRunning),
        session_running ==> r == Ok::<bool, SessionError>(settings.pause_audio_during_dictation),
{
    if !session_running {
        return Err(SessionError::NotRunning);
    }
    Ok(settings.pause_audio_during_dictation)
}

/// Who transcribes a finished recording.
#[derive(Debug, Clone)]
pub enum Transcriber {
    /// The cloud service in the settings.
    Cloud,
    /// whisper.cpp with the model at this path.
    Local { model_path: String },
}

/// Who transcribes a finished recording: the cloud service in cloud mode; otherwise whisper.cpp
/// with the model at `model_path` (the settings' preferred model), which must exist
/// (`model_exists`).
pub fn choose_transcriber(settings: &AppSettings, model_path: String, model_exists: bool) -> (r:
    Result<Transcriber, DictationError>)
    ensures
        settings.provider_mode == ProviderMode::Cloud ==> r matches Ok(Transcriber::Cloud),
        settings.provider_mode == ProviderMode::Local && !model_exists ==> r == Err::<
            Transcriber,
            DictationError,
        >(DictationError::NoLocalModel),
        settings.provider_mode == ProviderMode::Local && model_exists ==> (r matches Ok(
            Transcriber::Local { model_path: p },
        ) && p@ == model_path@),
{
    match settings.provider_mode {
        ProviderMode::Cloud => Ok(Transcriber::Cloud),
        ProviderMode::Local => {
            if !model_exists {
                Err(DictationError::NoLocalModel)
            } else {
                Ok(Transcriber::Local { model_path })
            }
        },
    }
}

/// Where whisper.cpp's command line tool is looked for, in order: the Flatpak location, then a
/// build in the source checkout at `manifest_dir`.
pub open spec fn whisper_cli_candidates_for(manifest_dir: Seq<char>) -> Seq<Seq<char>> {
    seq![
        "/app/bin/whisper-cli"@,
        join_path(manifest_dir, "vendor/whisper.cpp/build/bin/whisper-cli"@),
        join_path(manifest_dir, "vendor/whisper.cpp/build/bin/main"@),
    ]
}

/// Where whisper.cpp's command line tool is looked for.
pub fn whisper_cli_candidates(manifest_dir: &str) -> (r: Vec<String>)
    ensures
        string_views(r@) == whisper_cli_candidates_for(manifest_dir@),
{
    let mut v: Vec<String> = Vec::new();
    v.push(copy_string("/app/bin/whisper-cli"));
    v.push(join_path_str(manifest_dir, "vendor/whisper.cpp/build/bin/whisper-cli"));
    v.push(join_path_str(manifest_dir, "vendor/whisper.cpp/build/bin/main"));
    proof {
        assert(string_views(v@) =~= whisper_cli_candidates_for(manifest_dir@));
    }
    v
}

/// The whisper.cpp tool to run: the one named by `SAYWRITE_WHISPER_CLI` (`env_override`) when
/// set, else the first candidate that exists (`exists[i]` for `candidates[i]`), else the one on
/// the `PATH`.
pub fn choose_whisper_cli(env_override: Option<String>, candidates: &Vec<String>, exists: &Vec<bool>) -> (r:
    String)
    requires
        exists@.len() == candidates@.len(),
    ensures
        env_override matches Some(p) ==> r@ == p@,
        env_override is None ==> {
            ||| exists|i: int|
                0 <= i < candidates@.len() && exists@[i] && r@ == candidates@[i]@ && forall|j: int|
                    0 <= j < i ==> !exists@[j]
            ||| (forall|j: int| 0 <= j < candidates@.len() ==> !exists@[j]) && r@ == "whisper-cli"@
        },
{
    if let Some(p) = env_override {
        return p;
    }
    let mut i: usize = 0;
    while i < candidates.len()
        invariant
            i <= candidates@.len(),
            exists@.len() == candidates@.len(),
            env_override is None,
            forall|j: int| 0 <= j < i ==> !exists@[j],
        decreases candidates@.len() - i,
    {
        if exists[i] {
            return copy_string(candidates[i].as_str());
        }
        i = i + 1;
    }
    copy_string("whisper-cli")
}

/// The `wpctl` arguments that mute (or unmute) the default output while recording.
pub fn mute_args(mute: bool) -> (r: Vec<String>)
    ensures
        string_views(r@) == seq!["set-mute"@, "@DEFAULT_AUDIO_SINK@"@, if mute {
            "1"@
        } else {
            "0"@
        }],
{
    let mut v: Vec<String> = Vec::new();
    v.push(copy_string("set-mute"));
    v.push(copy_string("@DEFAULT_AUDIO_SINK@"));
    v.push(if mute {
        copy_string("1")
    } else {
        copy_string("0")
    });
    proof {
        assert(string_views(v@) =~= seq!["set-mute"@, "@DEFAULT_AUDIO_SINK@"@, if mute {
            "1"@
        } else {
            "0"@
        }]);
    }
    v
}

/// The arguments for `whisper-cli` that transcribe `audio_path` with the model at `model_path`.
pub open spec fn whisper_args_for(audio_path: Seq<char>, model_path: Seq<char>) -> Seq<Seq<char>> {
    seq!["--file"@, audio_path, "--model"@, model_path, "--language"@, "en"@, "--no-timestamps"@]
}

/// The arguments for `whisper-cli` that transcribe `audio_path` with the model at
/// `model_path`.
pub fn whisper_args(audio_path: &str, model_path: &str) -> (r: Vec<String>)
    ensures
        string_views(r@) == whisper_args_for(audio_path@, model_path@),
{
    let mut args: Vec<String> = Vec::new();
    args.push(copy_string("--file"));
    args.push(copy_string(audio_path));
    args.push(copy_string("--model"));
    args.push(copy_string(model_path));
    args.push(copy_string("--language"));
    args.push(copy_string("en"));
    args.push(copy_string("--no-timestamps"));
    proof {
        assert(string_views(args@) =~= whisper_args_for(audio_path@, model_path@));
    }
    args
}

// ---------------------------------------------------------------------------
// Capture command line
// ---------------------------------------------------------------------------

/// The device the user chose, trimmed, unless the choice is blank.
pub open spec fn chosen_device(device_override: Option<Seq<char>>) -> Option<Seq<char>> {
    match device_override {
        Some(d) => if trim(d).len() > 0 {
            Some(trim(d))
        } else {
            None
        },
        None => None,
    }
}

/// The device the user chose for capture, if the choice is not blank.
pub fn capture_override(device_override: Option<&str>) -> (r: Option<String>)
    ensures
        opt_view(r) == chosen_device(match device_override {
            Some(d) => Some(d@),
            None => None,
        }),
{
    match device_override {
        Some(d) => {
            let c = chars_of(d);
            let t = trim_chars(&c);
            if t.len() > 0 {
                Some(string_of(&t))
            } else {
                None
            }
        },
        None => None,
    }
}

/// The part of the capture pipeline that follows the source element.
pub open spec fn pipeline_tail() -> Seq<Seq<char>> {
    seq![
        "!"@,
        "audioconvert"@,
        "!"@,
        "audioresample"@,
        "!"@,
        "audio/x-raw,rate=16000,channels=1"@,
        "!"@,
        "wavenc"@,
        "!"@,
        "filesink"@,
    ]
}

/// The `gst-launch-1.0` arguments that record the microphone `device` (the server's default
/// source when `None`) into `location`.
pub open spec fn capture_args_for(location: Seq<char>, device: Option<Seq<char>>) -> Seq<Seq<char>> {
    seq!["-q"@, "-e"@, "pulsesrc"@] + (match device {
        Some(d) => seq!["device="@ + d],
        None => Seq::empty(),
    }) + pipeline_tail() + seq!["location="@ + location]
}

/// The `gst-launch-1.0` arguments that record into `location`: from the device the user
/// chose when that is not blank, otherwise from `default_source` (what the sound server names
/// as its default source, `None` when it names none).
pub fn build_capture_args(
    location: &str,
    device_override: Option<&str>,
    default_source: Option<String>,
) -> (r: Vec<String>)
    ensures
        string_views(r@) == capture_args_for(
            location@,
            match chosen_device(
                match device_override {
                    Some(d) => Some(d@),
                    None => None,
                },
            ) {
                Some(d) => Some(d),
                None => opt_view(default_source),
            },
        ),
{
    let device = match capture_override(device_override) {
        Some(d) => Some(d),
        None => default_source,
    };
    let ghost dev = opt_view(device);
    let mut args: Vec<String> = Vec::new();
    args.push(copy_string("-q"));
    args.push(copy_string("-e"));
    args.push(copy_string("pulsesrc"));
    let ghost head = string_views(args@);
    if let Some(name) = device {
        args.push(str_concat("device=", name.as_str()));
    }
    let ghost with_device = string_views(args@);
    args.push(copy_string("!"));
    args.push(copy_string("audioconvert"));
    args.push(copy_string("!"));
    args.push(copy_string("audioresample"));
    args.push(copy_string("!"));
    args.push(copy_string("audio/x-raw,rate=16000,channels=1"));
    args.push(copy_string("!"));
    args.push(copy_string("wavenc"));
    args.push(copy_string("!"));
    args.push(copy_string("filesink"));
    args.push(str_concat("location=", location));
    proof {
        assert(head =~= seq!["-q"@, "-e"@, "pulsesrc"@]);
        assert(with_device =~= head + (match dev {
            Some(d) => seq!["device="@ + d],
            None => Seq::empty(),
        }));
        assert(string_views(args@) =~= capture_args_for(location@, dev));
    }
    args
}

// ---------------------------------------------------------------------------
// Reading the audio tools' output
// ---------------------------------------------------------------------------

/// The source named on one line of `wpctl inspect` output: a trimmed line starting with
/// `node.name`, its text after the first `=` up to any next `=`, trimmed and without
/// surrounding double quotes, unless that names a monitor.
pub open spec fn source_in_line(line: Seq<char>) -> Option<Seq<char>> {
    let l = trim(line);
    if starts_with(l, "node.name"@) {
        let pieces = split_on(l, "="@);
        if pieces.len() >= 2 {
            let name = strip_char(trim(pieces[1]), '"');
            if !contains(name, "monitor"@) {
                Some(name)
            } else {
                None
            }
        } else {
            None
        }
    } else {
        None
    }
}

/// The first source named among `ls`.
pub open spec fn first_source(ls: Seq<Seq<char>>) -> Option<Seq<char>>
    decreases ls.len(),
{
    if ls.len() == 0 {
        None
    } else {
        match source_in_line(ls[0]) {
            Some(n) => Some(n),
            None => first_source(ls.drop_first()),
        }
    }
}

/// The default source is the one named on the first line that names one, and it is never a
/// monitor: when line `i` names a source and no line before it does, that source is the
/// answer; when no line names one, there is none.
pub proof fn lemma_first_named_source_wins(ls: Seq<Seq<char>>, i: int)
    requires
        0 <= i <= ls.len(),
        forall|j: int| 0 <= j < i ==> source_in_line(#[trigger] ls[j]) is None,
    ensures
        i < ls.len() && source_in_line(ls[i]) is Some ==> first_source(ls) == source_in_line(ls[i]),
        i == ls.len() ==> first_source(ls) is None,
        first_source(ls) matches Some(n) ==> !contains(n, "monitor"@),
    decreases i,
{
    if ls.len() > 0 {
        let d = ls.drop_first();
        if i > 0 {
            assert(source_in_line(ls[0]) is None);
            assert forall|j: int| 0 <= j < i - 1 implies source_in_line(#[trigger] d[j]) is None by {
                assert(d[j] == ls[j + 1]);
            }
            lemma_first_named_source_wins(d, i - 1);
            if i < ls.len() {
                assert(d[i - 1] == ls[i]);
            }
        }
    }
    lemma_no_monitor_source(ls);
}

proof fn lemma_no_monitor_source(ls: Seq<Seq<char>>)
    ensures
        first_source(ls) matches Some(n) ==> !contains(n, "monitor"@),
    decreases ls.len(),
{
    if ls.len() > 0 {
        lemma_no_monitor_source(ls.drop_first());
    }
}

/// The recording command records the microphone the user chose when the choice is not blank
/// (trimmed), otherwise the sound server's default source when it names one, otherwise the
/// server's own default; it always writes to `location`.
pub proof fn lemma_capture_uses_chosen_device(
    location: Seq<char>,
    device_override: Option<Seq<char>>,
    default_source: Option<Seq<char>>,
)
    ensures
        ({
            let args = capture_args_for(
                location,
                match chosen_device(device_override) {
                    Some(d) => Some(d),
                    None => default_source,
                },
            );
            &&& args.len() > 3
            &&& args[0] == "-q"@ && args[1] == "-e"@ && args[2] == "pulsesrc"@
            &&& args.last() == "location="@ + location
            &&& match device_override {
                Some(d) if trim(d).len() > 0 => args[3] == "device="@ + trim(d),
                _ => match default_source {
                    Some(s) => args[3] == "device="@ + s,
                    None => args[3] == "!"@,
                },
            }
        }),
{
}

/// The default source that `wpctl inspect @DEFAULT_AUDIO_SOURCE@` printed.
pub open spec fn default_source_in(stdout: Seq<char>) -> Option<Seq<char>> {
    first_source(lines(stdout))
}

/// The source named on one line, if any.
fn source_from_line(line: &Vec<char>) -> (r: Option<String>)
    ensures
        opt_view(r) == source_in_line(line@),
{
    let l = trim_chars(line);
    let prefix = chars_of("node.name");
    if !starts_with_chars(&l, &prefix) {
        return None;
    }
    let eq = chars_of("=");
    proof {
        reveal_strlit("=");
    }
    let pieces = split_chars(&l, &eq);
    if pieces.len() < 2 {
        return None;
    }
    let value = trim_chars(&pieces[1]);
    let name = strip_char_chars(&value, '"');
    let monitor = chars_of("monitor");
    if contains_chars(&name, &monitor) {
        None
    } else {
        Some(string_of(&name))
    }
}

/// The default source named in `wpctl inspect` output, if any.
pub fn parse_default_source(stdout: &str) -> (r: Option<String>)
    ensures
        opt_view(r) == default_source_in(stdout@),
{
    let s = chars_of(stdout);
    let ls = split_lines(&s);
    let ghost all = views(ls@);
    let mut i: usize = 0;
    assert(all.skip(0) =~= all);
    while i < ls.len()
        invariant
            i <= ls@.len(),
            all == views(ls@),
            all == lines(stdout@),
            first_source(all) == first_source(all.skip(i as int)),
        decreases ls@.len() - i,
    {
        let found = source_from_line(&ls[i]);
        proof {
            assert(all.skip(i as int)[0] == ls@[i as int]@);
            assert(all.skip(i as int).drop_first() =~= all.skip(i + 1));
        }
        if found.is_some() {
            return found;
        }
        i = i + 1;
    }
    None
}

/// `s` with every `_` and `.` turned into a space.
pub open spec fn spaced(s: Seq<char>) -> Seq<char> {
    s.map_values(|c: char| if c == '_' || c == '.' { ' ' } else { c })
}

/// The label shown for the source `id`: without `alsa_input.`, separators turned into spaces.
pub open spec fn device_label_of(id: Seq<char>) -> Seq<char> {
    spaced(replace_all(id, "alsa_input."@, Seq::empty()))
}

/// The device on one line of `pactl list short sources` output: its second tab-separated
/// field, unless that names a monitor.
pub open spec fn device_in_line(line: Seq<char>) -> Option<(Seq<char>, Seq<char>)> {
    let parts = split_on(line, "\t"@);
    if parts.len() >= 2 {
        let id = parts[1];
        if contains(id, ".monitor"@) {
            None
        } else {
            Some((id, device_label_of(id)))
        }
    } else {
        None
    }
}

/// The devices named among `ls`, in order.
pub open spec fn devices_in(ls: Seq<Seq<char>>) -> Seq<(Seq<char>, Seq<char>)>
    decreases ls.len(),
{
    if ls.len() == 0 {
        Seq::empty()
    } else {
        devices_in(ls.drop_last()) + match device_in_line(ls.last()) {
            Some(d) => seq![d],
            None => Seq::empty(),
        }
    }
}

/// Reading tab-separated fields: from position `i`, a run `x` without tabs that ends at a tab
/// or at the end of `s` closes the current piece as `cur` followed by `x`.
proof fn lemma_split_tab_field(s: Seq<char>, i: int, cur: Seq<char>, x: Seq<char>)
    requires
        0 <= i,
        i + x.len() <= s.len(),
        forall|k: int| 0 <= k < x.len() ==> s[i + k] == x[k] && x[k] != '\t',
        i + x.len() == s.len() || s[i + x.len()] == '\t',
    ensures
        i + x.len() == s.len() ==> split_from(s, "\t"@, i, cur) == seq![cur + x],
        i + x.len() < s.len() ==> split_from(s, "\t"@, i, cur) == seq![cur + x] + split_from(
            s,
            "\t"@,
            i + x.len() + 1,
            Seq::empty(),
        ),
    decreases x.len(),
{
    reveal_strlit("\t");
    let tab: Seq<char> = "\t"@;
    if x.len() == 0 {
        assert(cur + x =~= cur);
        if i < s.len() {
            assert(s[i + 0] == tab[0]);
            assert(occurs_at(s, tab, i, false));
        }
    } else {
        assert(s[i + 0] == x[0]);
        assert(!occurs_at(s, tab, i, false));
        let x2 = x.drop_first();
        assert forall|k: int| 0 <= k < x2.len() implies s[i + 1 + k] == x2[k] && x2[k] != '\t' by {
            assert(s[i + (k + 1)] == x[k + 1]);
        }
        lemma_split_tab_field(s, i + 1, cur.push(x[0]), x2);
        assert(cur.push(x[0]) + x2 =~= cur + x);
    }
}

/// A source line names the source in its second tab-separated field: for a line made of an
/// index, a tab, an id and then nothing or a tab and more fields, the device is that id with
/// its label, unless the id names a monitor, which gives no device.
pub proof fn lemma_device_line_fields(index: Seq<char>, id: Seq<char>, tail: Seq<char>)
    requires
        forall|k: int| 0 <= k < index.len() ==> index[k] != '\t',
        forall|k: int| 0 <= k < id.len() ==> id[k] != '\t',
        tail.len() == 0 || tail[0] == '\t',
    ensures
        device_in_line(index + seq!['\t'] + id + tail) == if contains(id, ".monitor"@) {
            None
        } else {
            Some((id, device_label_of(id)))
        },
{
    reveal_strlit("\t");
    let line = index + seq!['\t'] + id + tail;
    let j: int = index.len() as int + 1;
    assert forall|k: int| 0 <= k < index.len() implies line[0 + k] == index[k] && index[k] != '\t' by {
    }
    assert(line[index.len() as int] == '\t');
    lemma_split_tab_field(line, 0, Seq::empty(), index);
    assert(Seq::<char>::empty() + index =~= index);
    assert forall|k: int| 0 <= k < id.len() implies line[j + k] == id[k] && id[k] != '\t' by {
    }
    if tail.len() > 0 {
        assert(line[j + id.len() as int] == tail[0]);
    }
    lemma_split_tab_field(line, j, Seq::empty(), id);
    assert(Seq::<char>::empty() + id =~= id);
    let parts = split_on(line, "\t"@);
    assert(parts[0] == index);
    assert(parts.len() >= 2 && parts[1] == id);
}

/// The devices of the lines of `a` followed by those of `b` are the devices of `a` followed by
/// those of `b`: each line is read on its own, and no line is skipped or merged.
pub proof fn lemma_devices_in_concat(a: Seq<Seq<char>>, b: Seq<Seq<char>>)
    ensures
        devices_in(a + b) == devices_in(a) + devices_in(b),
    decreases b.len(),
{
    if b.len() == 0 {
        assert(a + b =~= a);
        assert(devices_in(a) + devices_in(b) =~= devices_in(a));
    } else {
        lemma_devices_in_concat(a, b.drop_last());
        assert((a + b).drop_last() =~= a + b.drop_last());
        assert((a + b).last() == b.last());
        let tail = match device_in_line(b.last()) {
            Some(d) => seq![d],
            None => Seq::<(Seq<char>, Seq<char>)>::empty(),
        };
        assert(devices_in(a) + devices_in(b.drop_last()) + tail =~= devices_in(a) + (devices_in(
            b.drop_last(),
        ) + tail));
    }
}

/// One line gives the device it names, or none.
pub proof fn lemma_devices_in_one_line(line: Seq<char>)
    ensures
        devices_in(seq![line]) == match device_in_line(line) {
            Some(d) => seq![d],
            None => Seq::<(Seq<char>, Seq<char>)>::empty(),
        },
{
    assert(seq![line].drop_last() =~= Seq::<Seq<char>>::empty());
    assert(devices_in(Seq::<Seq<char>>::empty()) + match device_in_line(line) {
        Some(d) => seq![d],
        None => Seq::<(Seq<char>, Seq<char>)>::empty(),
    } =~= match device_in_line(line) {
        Some(d) => seq![d],
        None => Seq::<(Seq<char>, Seq<char>)>::empty(),
    });
}

/// Every line that names a device gives it: the device of line `i` is listed, after the devices
/// of the lines before it, however many of those there are.
pub proof fn lemma_every_device_line_listed(ls: Seq<Seq<char>>, i: int)
    requires
        0 <= i < ls.len(),
        device_in_line(ls[i]) is Some,
    ensures
        devices_in(ls).len() > devices_in(ls.take(i)).len(),
        devices_in(ls)[devices_in(ls.take(i)).len() as int] == device_in_line(ls[i])->0,
{
    let before = ls.take(i);
    let rest = ls.skip(i + 1);
    assert(ls =~= before + seq![ls[i]] + rest);
    lemma_devices_in_concat(before, seq![ls[i]]);
    lemma_devices_in_concat(before + seq![ls[i]], rest);
    lemma_devices_in_one_line(ls[i]);
}

pub open spec fn device_views(v: Seq<AudioInputDevice>) -> Seq<(Seq<char>, Seq<char>)> {
    Seq::new(v.len(), |i: int| (v[i].id@, v[i].label@))
}

/// `s` with every `_` and `.` turned into a space.
fn spaced_chars(s: &Vec<char>) -> (r: Vec<char>)
    ensures
        r@ == spaced(s@),
{
    let mut r: Vec<char> = Vec::new();
    let mut i: usize = 0;
    while i < s.len()
        invariant
            i <= s@.len(),
            r@ =~= spaced(s@.take(i as int)),
        decreases s@.len() - i,
    {
        let c = s[i];
        if c == '_' || c == '.' {
            r.push(' ');
        } else {
            r.push(c);
        }
        i = i + 1;
        assert(s@.take(i as int) =~= s@.take(i - 1).push(c));
    }
    assert(s@.take(s@.len() as int) =~= s@);
    r
}

/// The device named on one line, if any.
fn device_from_line(line: &Vec<char>) -> (r: Option<AudioInputDevice>)
    ensures
        match r {
            Some(d) => device_in_line(line@) == Some((d.id@, d.label@)),
            None => device_in_line(line@) is None,
        },
{
    let tab = chars_of("\t");
    proof {
        reveal_strlit("\t");
    }
    let parts = split_chars(line, &tab);
    if parts.len() < 2 {
        return None;
    }
    let id = &parts[1];
    let monitor = chars_of(".monitor");
    if contains_chars(id, &monitor) {
        return None;
    }
    let prefix = chars_of("alsa_input.");
    proof {
        reveal_strlit("alsa_input.");
    }
    let empty: Vec<char> = Vec::new();
    let stripped = replace_chars(id, &prefix, &empty);
    let label = spaced_chars(&stripped);
    Some(AudioInputDevice { id: string_of(id), label: string_of(&label) })
}

/// The capture devices listed in `pactl list short sources` output, monitors left out.
pub fn parse_input_devices(stdout: &str) -> (r: Vec<AudioInputDevice>)
    ensures
        device_views(r@) == devices_in(lines(stdout@)),
{
    let s = chars_of(stdout);
    let ls = split_lines(&s);
    let ghost all = views(ls@);
    let mut devices: Vec<AudioInputDevice> = Vec::new();
    let mut i: usize = 0;
    assert(all.take(0) =~= Seq::<Seq<char>>::empty());
    while i < ls.len()
        invariant
            i <= ls@.len(),
            all == views(ls@),
            device_views(devices@) =~= devices_in(all.take(i as int)),
        decreases ls@.len() - i,
    {
        proof {
            assert(all.take(i + 1).drop_last() =~= all.take(i as int));
            assert(all.take(i + 1).last() == ls@[i as int]@);
        }
        let ghost before = devices@;
        match device_from_line(&ls[i]) {
            Some(d) => {
                devices.push(d);
                assert(device_views(devices@) =~= device_views(before).push((d.id@, d.label@)));
            },
            None => {},
        }
        i = i + 1;
    }
    assert(all.take(ls@.len() as int) =~= all);
    devices
}

// ---------------------------------------------------------------------------
// The transcript whisper prints
// ---------------------------------------------------------------------------

/// What one line of whisper's output contributes to the transcript: nothing for blank lines
/// and for its own log lines (`whisper_...`, `system_info:...`, `main:...`); for a line that
/// starts with `[` and holds a `]`, the trimmed text after the first `]` unless that is empty;
/// otherwise the trimmed line.
pub open spec fn transcript_piece(raw_line: Seq<char>) -> Option<Seq<char>> {
    let line = trim(raw_line);
    if line.len() == 0 {
        None
    } else if starts_with(line, "whisper_"@) || starts_with(line, "system_info:"@) || starts_with(
        line,
        "main:"@,
    ) {
        None
    } else if line[0] == '[' && index_of(line, ']') is Some {
        let content = trim(line.skip(index_of(line, ']')->0 + 1));
        if content.len() > 0 {
            Some(content)
        } else {
            None
        }
    } else {
        Some(line)
    }
}

/// The pieces the lines `ls` contribute, in order.
pub open spec fn transcript_pieces(ls: Seq<Seq<char>>) -> Seq<Seq<char>>
    decreases ls.len(),
{
    if ls.len() == 0 {
        Seq::empty()
    } else {
        transcript_pieces(ls.drop_last()) + match transcript_piece(ls.last()) {
            Some(p) => seq![p],
            None => Seq::empty(),
        }
    }
}

/// The transcript in whisper's output: the pieces joined with spaces, trimmed.
pub open spec fn transcript_in(stdout: Seq<char>) -> Seq<char> {
    trim(join(transcript_pieces(lines(stdout)), " "@))
}

/// What one line contributes to the transcript.
fn piece_from_line(raw_line: &Vec<char>) -> (r: Option<Vec<char>>)
    ensures
        match r {
            Some(p) => transcript_piece(raw_line@) == Some(p@),
            None => transcript_piece(raw_line@) is None,
        },
{
    let line = trim_chars(raw_line);
    if line.len() == 0 {
        return None;
    }
    let whisper = chars_of("whisper_");
    let system = chars_of("system_info:");
    let main = chars_of("main:");
    if starts_with_chars(&line, &whisper) || starts_with_chars(&line, &system) || starts_with_chars(
        &line,
        &main,
    ) {
        return None;
    }
    if line[0] == '[' {
        match index_of_char(&line, ']') {
            Some(i) => {
                let after = tail_chars(&line, i + 1);
                let content = trim_chars(&after);
                if content.len() > 0 {
                    return Some(content);
                } else {
                    return None;
                }
            },
            None => {},
        }
    }
    Some(line)
}

/// The transcript in whisper's output.
pub fn extract_transcript(stdout: &str) -> (r: String)
    ensures
        r@ == transcript_in(stdout@),
{
    let s = chars_of(stdout);
    let ls = split_lines(&s);
    let ghost all = views(ls@);
    let mut pieces: Vec<Vec<char>> = Vec::new();
    let mut i: usize = 0;
    assert(all.take(0) =~= Seq::<Seq<char>>::empty());
    while i < ls.len()
        invariant
            i <= ls@.len(),
            all == views(ls@),
            views(pieces@) =~= transcript_pieces(all.take(i as int)),
        decreases ls@.len() - i,
    {
        proof {
            assert(all.take(i + 1).drop_last() =~= all.take(i as int));
            assert(all.take(i + 1).last() == ls@[i as int]@);
        }
        let ghost before = pieces@;
        match piece_from_line(&ls[i]) {
            Some(p) => {
                let ghost pv = p@;
                pieces.push(p);
                assert(views(pieces@) =~= views(before).push(pv));
            },
            None => {},
        }
        i = i + 1;
    }
    assert(all.take(ls@.len() as int) =~= all);
    let space = chars_of(" ");
    let joined = join_chars(&pieces, &space);
    let t = trim_chars(&joined);
    string_of(&t)
}

// ---------------------------------------------------------------------------
// Cloud transcription
// ---------------------------------------------------------------------------

/// What can go wrong around a cloud transcription request.
#[derive(Debug, Clone, Copy, PartialEq, Eq, Structural)]
pub enum CloudError {
    MissingApiKey,
    InvalidResponse,
    MissingText,
}

pub open spec fn cloud_error_text(e: CloudError) -> Seq<char> {
    match e {
        CloudError::MissingApiKey => "Cloud API key is not set. Configure it in Settings."@,
        CloudError::InvalidResponse => "failed to parse cloud transcription response"@,
        CloudError::MissingText => "Cloud response missing 'text' field"@,
    }
}

impl CloudError {
    pub fn message(&self) -> (r: String)
        ensures
            r@ == cloud_error_text(*self),
    {
        match self {
            CloudError::MissingApiKey => copy_string(
                "Cloud API key is not set. Configure it in Settings.",
            ),
            CloudError::InvalidResponse => copy_string(
                "failed to parse cloud transcription response",
            ),
            CloudError::MissingText => copy_string("Cloud response missing 'text' field"),
        }
    }
}

/// The headers and address of a cloud transcription request.
#[derive(Debug, Clone)]
pub struct CloudRequest {
    pub url: String,
    pub authorization: String,
    pub content_type: String,
}

/// The transcription endpoint under the API base `api_base`, trailing slashes dropped.
pub open spec fn transcription_url_of(api_base: Seq<char>) -> Seq<char> {
    strip_char_end(api_base, '/') + "/audio/transcriptions"@
}

/// The request to send for the settings' cloud account with multipart boundary `boundary`;
/// refused when no API key is set.
pub fn cloud_request(settings: &AppSettings, boundary: &str) -> (r: Result<CloudRequest, CloudError>)
    ensures
        settings.cloud_api_key@.len() == 0 <==> r is Err,
        r matches Err(e) ==> e == CloudError::MissingApiKey,
        r matches Ok(q) ==> {
            &&& q.url@ == transcription_url_of(settings.cloud_api_base@)
            &&& q.authorization@ == "Bearer "@ + settings.cloud_api_key@
            &&& q.content_type@ == "multipart/form-data; boundary="@ + boundary@
        },
{
    let key = chars_of(settings.cloud_api_key.as_str());
    if key.len() == 0 {
        return Err(CloudError::MissingApiKey);
    }
    let base = chars_of(settings.cloud_api_base.as_str());
    let mut j: usize = base.len();
    assert(base@.take(j as int) =~= base@);
    while j > 0 && base[j - 1] == '/'
        invariant
            j <= base@.len(),
            strip_char_end(base@, '/') == strip_char_end(base@.take(j as int), '/'),
        decreases j,
    {
        assert(base@.take(j as int).drop_last() =~= base@.take(j - 1));
        j = j - 1;
    }
    let mut url: Vec<char> = Vec::new();
    crate::text::push_range(&mut url, &base, 0, j);
    assert(url@ =~= base@.take(j as int));
    let suffix = chars_of("/audio/transcriptions");
    push_all(&mut url, &suffix);
    Ok(CloudRequest {
        url: string_of(&url),
        authorization: str_concat("Bearer ", settings.cloud_api_key.as_str()),
        content_type: str_concat("multipart/form-data; boundary=", boundary),
    })
}

/// The multipart boundary for an upload made `millis` milliseconds after the epoch.
pub fn multipart_boundary(millis: u64) -> (r: String)
    ensures
        r@ == "----SayWrite"@ + decimal(millis as nat),
{
    let n = decimal_string(millis);
    str_concat("----SayWrite", n.as_str())
}

/// The text of the multipart body before the audio.
pub open spec fn multipart_head_of(boundary: Seq<char>) -> Seq<char> {
    "--"@ + boundary
        + "\r\nContent-Disposition: form-data; name=\"file\"; filename=\"audio.wav\"\r\nContent-Type: audio/wav\r\n\r\n"@
}

/// The text of the multipart body after the audio: the model and language fields and the
/// closing boundary.
pub open spec fn multipart_tail_of(boundary: Seq<char>) -> Seq<char> {
    "\r\n"@ + "--"@ + boundary
        + "\r\nContent-Disposition: form-data; name=\"model\"\r\n\r\nwhisper-1\r\n"@ + "--"@
        + boundary + "\r\nContent-Disposition: form-data; name=\"language\"\r\n\r\nen\r\n"@
        + "--"@ + boundary + "--\r\n"@
}

/// Appends the UTF-8 encoding of `s` to `out`.
fn push_utf8(out: &mut Vec<u8>, s: &str)
    ensures
        final(out)@ == old(out)@ + vstd::utf8::encode_utf8(s@),
{
    let bytes = s.as_bytes();
    let mut i: usize = 0;
    while i < bytes.len()
        invariant
            i <= bytes@.len(),
            bytes@ == vstd::utf8::encode_utf8(s@),
            out@ =~= old(out)@ + bytes@.take(i as int),
        decreases bytes@.len() - i,
    {
        out.push(bytes[i]);
        i = i + 1;
        assert(bytes@.take(i as int) =~= bytes@.take(i - 1).push(bytes@[i - 1]));
    }
    assert(bytes@.take(bytes@.len() as int) =~= bytes@);
}

/// The multipart body that uploads `audio` with the model and language fields.
pub fn multipart_body(boundary: &str, audio: &[u8]) -> (r: Vec<u8>)
    ensures
        r@ == vstd::utf8::encode_utf8(multipart_head_of(boundary@)) + audio@
            + vstd::utf8::encode_utf8(multipart_tail_of(boundary@)),
{
    let mut body: Vec<u8> = Vec::new();
    let head = str_concat3(
        "--",
        boundary,
        "\r\nContent-Disposition: form-data; name=\"file\"; filename=\"audio.wav\"\r\nContent-Type: audio/wav\r\n\r\n",
    );
    push_utf8(&mut body, head.as_str());
    let ghost after_head = body@;
    let mut i: usize = 0;
    while i < audio.len()
        invariant
            i <= audio@.len(),
            body@ =~= after_head + audio@.take(i as int),
        decreases audio@.len() - i,
    {
        body.push(audio[i]);
        i = i + 1;
        assert(audio@.take(i as int) =~= audio@.take(i - 1).push(audio@[i - 1]));
    }
    assert(audio@.take(audio@.len() as int) =~= audio@);
    let model = str_concat3(
        "\r\n--",
        boundary,
        "\r\nContent-Disposition: form-data; name=\"model\"\r\n\r\nwhisper-1\r\n",
    );
    let language = str_concat3(
        "--",
        boundary,
        "\r\nContent-Disposition: form-data; name=\"language\"\r\n\r\nen\r\n",
    );
    let closing = str_concat3("--", boundary, "--\r\n");
    let mut tail_text = chars_of(model.as_str());
    let l = chars_of(language.as_str());
    let c = chars_of(closing.as_str());
    push_all(&mut tail_text, &l);
    push_all(&mut tail_text, &c);
    let tail = string_of(&tail_text);
    proof {
        reveal_strlit("\r\n--");
        reveal_strlit("\r\n");
        reveal_strlit("--");
        assert(tail@ =~= multipart_tail_of(boundary@));
    }
    push_utf8(&mut body, tail.as_str());
    body
}

/// A JSON document in serde_json's reading: `None` when the text is not JSON, otherwise the
/// string held by its top-level field `key`, if it holds one.
pub uninterp spec fn json_string_field(text: Seq<char>, key: Seq<char>) -> Option<Option<Seq<char>>>;

#[verifier::external_type_specification]
#[verifier::external_body]
pub struct ExJsonError(serde_json::Error);

/// Calls `serde_json::from_str` for a `serde_json::Value` and then reads its field `key` with
/// `Value::index` and `Value::as_str`. The reading is named, not stated: the answer is an
/// error exactly where serde_json does not accept the text, and otherwise the string in the
/// field `key` where there is one.
#[verifier::external_body]
fn read_string_field(text: &str, key: &str) -> (r: Result<Option<String>, serde_json::Error>)
    ensures
        r is Err <==> json_string_field(text@, key@) is None,
        r matches Ok(v) ==> json_string_field(text@, key@) == Some(opt_view(v)),
{
    match serde_json::from_str::<serde_json::Value>(text) {
        Ok(value) => Ok(value[key].as_str().map(|s| s.to_string())),
        Err(e) => Err(e),
    }
}

/// The field of a cloud transcription reply that holds the transcript.
pub const TRANSCRIPT_FIELD: &'static str = "text";

/// The transcript in a cloud transcription reply: the reply must be JSON and hold a string
/// `text` field.
pub fn parse_cloud_response(response_text: &str) -> (r: Result<String, CloudError>)
    ensures
        match json_string_field(response_text@, TRANSCRIPT_FIELD@) {
            None => r == Err::<String, CloudError>(CloudError::InvalidResponse),
            Some(None) => r == Err::<String, CloudError>(CloudError::MissingText),
            Some(Some(t)) => r matches Ok(s) && s@ == t,
        },
{
    match read_string_field(response_text, TRANSCRIPT_FIELD) {
        Err(_) => Err(CloudError::InvalidResponse),
        Ok(None) => Err(CloudError::MissingText),
        Ok(Some(t)) => Ok(t),
    }
}

/// The transcript for a cloud reply whose text field reading is `field` (`None` when the reply
/// is not JSON): exactly what `parse_cloud_response` answers for a reply read that way.
pub fn cloud_transcript_from(field: Option<Option<String>>) -> (r: Result<String, CloudError>)
    ensures
        match field {
            None => r == Err::<String, CloudError>(CloudError::InvalidResponse),
            Some(None) => r == Err::<String, CloudError>(CloudError::MissingText),
            Some(Some(t)) => r matches Ok(s) && s@ == t@,
        },
{
    match field {
        None => Err(CloudError::InvalidResponse),
        Some(None) => Err(CloudError::MissingText),
        Some(Some(t)) => Ok(t),
    }
}

} // verus!
