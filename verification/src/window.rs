//! The main window's presentation: what it shows after each step of a dictation, which setup
//! step it asks for, and the small texts around the transcript. The window applies a
//! `WindowView` to its widgets; the decisions are made here.
use vstd::prelude::*;

use crate::config::{model_label, AppSettings, ModelSize, ProviderMode};
use crate::integration_api::{
    result_label_of, types_directly, insertion_result_label, supports_direct_typing,
    INSERTION_CAPABILITY_CLIPBOARD_ONLY, INSERTION_CAPABILITY_NOTIFICATION_ONLY,
    INSERTION_CAPABILITY_TYPING, STATE_DONE, STATE_IDLE, STATE_LISTENING, STATE_PROCESSING,
};
use crate::shortcut_capture::{KEY_C, KEY_ESCAPE, KEY_KP_ENTER, KEY_RETURN};
use crate::text::{
    chars_of, contains, contains_chars, copy_string, decimal, decimal_string, split_words,
    str_concat, str_concat3, str_eq, trim, trim_chars, words,
};

verus! {

/// What the setup panel offers besides its text.
#[derive(Debug, Clone, Copy, PartialEq, Eq, Structural)]
pub enum SetupAction {
    /// A button that downloads the model of this size.
    DownloadModel(ModelSize),
    /// A field for the cloud API key.
    EnterApiKey,
    /// A button that opens the settings.
    OpenSettings,
}

/// The setup step the window asks for.
#[derive(Debug, Clone)]
pub struct SetupRequest {
    pub state_label: String,
    pub title: String,
    pub detail: String,
    pub action: SetupAction,
    /// Whether dictation cannot start until the step is done.
    pub blocks_dictation: bool,
}

/// The contents of the setup panel.
#[derive(Debug, Clone)]
pub struct SetupPanel {
    pub title: String,
    pub detail: String,
    pub action: SetupAction,
}

/// What the main window shows.
#[derive(Debug, Clone)]
pub struct WindowView {
    /// A dictation is recording.
    pub listening: bool,
    pub spinner_running: bool,
    pub waveform_active: bool,
    /// The activity area shows the waveform rather than the spinner.
    pub waveform_shown: bool,
    pub activity_shown: bool,
    pub state_label: String,
    /// The setup panel, when it is shown.
    pub setup: Option<SetupPanel>,
    pub transcript_shown: bool,
    pub transcript_text: String,
    pub actions_shown: bool,
    pub copy_sensitive: bool,
    /// The text the copy button and Ctrl+C copy.
    pub last_cleaned: String,
    pub dictate_label: String,
    pub dictate_sensitive: bool,
    /// The dictation button is styled as the button that stops a dictation.
    pub dictate_stops: bool,
}

/// The dictation button's label while no dictation records.
pub open spec fn start_label() -> Seq<char> {
    "  Press Hotkey or Click to Start  "@
}

/// The state label while nothing happens.
pub open spec fn prompt_label() -> Seq<char> {
    "Press your hotkey to start dictation"@
}

/// The view's text fields, as plain text.
pub open spec fn texts(v: WindowView) -> (Seq<char>, Seq<char>, Seq<char>, Seq<char>) {
    (v.state_label@, v.transcript_text@, v.last_cleaned@, v.dictate_label@)
}

/// The setup panel as plain text.
pub open spec fn panel_view(p: Option<SetupPanel>) -> Option<(Seq<char>, Seq<char>, SetupAction)> {
    match p {
        Some(p) => Some((p.title@, p.detail@, p.action)),
        None => None,
    }
}

/// The view after `old` stopped showing any activity and returned to the start button, with
/// `label` as its state label: everything else but `sensitive`, the button's sensitivity,
/// stays.
pub open spec fn at_rest(v: WindowView, old: WindowView, label: Seq<char>, sensitive: bool) -> bool {
    &&& !v.listening
    &&& !v.spinner_running
    &&& !v.waveform_active
    &&& !v.activity_shown
    &&& v.state_label@ == label
    &&& !v.dictate_stops
    &&& v.dictate_label@ == start_label()
    &&& v.dictate_sensitive == sensitive
    &&& v.waveform_shown == old.waveform_shown
    &&& panel_view(v.setup) == panel_view(old.setup)
    &&& v.transcript_shown == old.transcript_shown
    &&& v.transcript_text@ == old.transcript_text@
    &&& v.actions_shown == old.actions_shown
    &&& v.copy_sensitive == old.copy_sensitive
    &&& v.last_cleaned@ == old.last_cleaned@
}

/// The message shown for an error reported by the integration: a few known errors in friendlier
/// words, any other as it is.
pub open spec fn friendly_text(error: Seq<char>) -> Seq<char> {
    if contains(error, "unexpected error"@) {
        "Something went wrong while handling direct typing."@
    } else if contains(error, "native integration is not running"@) {
        "Direct typing is not available right now."@
    } else if contains(error, "No dictation session is running"@) {
        "There is no active dictation to stop."@
    } else if contains(error, "private runtime directory"@) {
        "SayWrite could not access a private recording directory."@
    } else {
        error
    }
}

fn str_contains(s: &str, p: &str) -> (r: bool)
    ensures
        r == contains(s@, p@),
{
    let a = chars_of(s);
    let b = chars_of(p);
    contains_chars(&a, &b)
}

/// The message shown for an error reported by the integration.
pub fn friendly_error_message(error: &str) -> (r: String)
    ensures
        r@ == friendly_text(error@),
{
    if str_contains(error, "unexpected error") {
        copy_string("Something went wrong while handling direct typing.")
    } else if str_contains(error, "native integration is not running") {
        copy_string("Direct typing is not available right now.")
    } else if str_contains(error, "No dictation session is running") {
        copy_string("There is no active dictation to stop.")
    } else if str_contains(error, "private runtime directory") {
        copy_string("SayWrite could not access a private recording directory.")
    } else {
        copy_string(error)
    }
}

/// The setup step for the window's state, checked in order: the integration is not up yet; local
/// dictation lacks whisper.cpp or a model; cloud dictation lacks an API key; the desktop cannot
/// type directly. `None` when nothing is missing.
pub open spec fn setup_request_for(
    capability: Option<Seq<char>>,
    integration_running: bool,
    mode: ProviderMode,
    size: ModelSize,
    api_key: Seq<char>,
    whisper_cli_found: bool,
    local_model_present: bool,
    size_model_installed: bool,
) -> Option<(Seq<char>, Seq<char>, Seq<char>, SetupAction, bool)> {
    if capability is None {
        Some(
            (
                "Starting direct typing support"@,
                "Clipboard Mode is active"@,
                if integration_running {
                    "SayWrite is still starting direct typing support. Open Settings for diagnostics if it does not recover."@
                } else {
                    "SayWrite is still bringing up direct typing support. Clipboard Mode still works while it starts."@
                },
                SetupAction::OpenSettings,
                true,
            ),
        )
    } else if mode == ProviderMode::Local && !whisper_cli_found {
        Some(
            (
                "Local dictation is not ready yet"@,
                "whisper.cpp is missing"@,
                "Open Settings to check diagnostics and finish the local runtime setup."@,
                SetupAction::OpenSettings,
                true,
            ),
        )
    } else if mode == ProviderMode::Local && !local_model_present && !size_model_installed {
        Some(
            (
                "Local dictation is not ready yet"@,
                "Download a local model"@,
                "SayWrite can fetch the selected local model now, or open Settings for more control."@,
                SetupAction::DownloadModel(size),
                true,
            ),
        )
    } else if mode == ProviderMode::Cloud && trim(api_key).len() == 0 {
        Some(
            (
                "Cloud dictation is not ready yet"@,
                "Add your API key"@,
                "Paste an OpenAI-compatible API key here so SayWrite can send audio to your configured cloud endpoint."@,
                SetupAction::EnterApiKey,
                true,
            ),
        )
    } else if !types_directly(capability->0) {
        let c = capability->0;
        Some(
            (
                if c == INSERTION_CAPABILITY_CLIPBOARD_ONLY@ {
                    "Clipboard Mode is active"@
                } else {
                    "Direct Typing is unavailable here"@
                },
                "Direct Typing is unavailable here"@,
                if c == INSERTION_CAPABILITY_CLIPBOARD_ONLY@ {
                    "Clipboard Mode is active on this desktop. Open Settings for Direct Typing status and setup."@
                } else if c == INSERTION_CAPABILITY_NOTIFICATION_ONLY@ {
                    "This desktop can only show the result instead of typing it directly. Open Settings for details."@
                } else {
                    "Direct Typing is unavailable on this desktop. Open Settings for setup details."@
                },
                SetupAction::OpenSettings,
                false,
            ),
        )
    } else {
        None
    }
}

/// The setup request as plain text.
pub open spec fn request_view(r: Option<SetupRequest>) -> Option<
    (Seq<char>, Seq<char>, Seq<char>, SetupAction, bool),
> {
    match r {
        Some(q) => Some((q.state_label@, q.title@, q.detail@, q.action, q.blocks_dictation)),
        None => None,
    }
}

fn request(
    state_label: &str,
    title: &str,
    detail: &str,
    action: SetupAction,
    blocks_dictation: bool,
) -> (r: Option<SetupRequest>)
    ensures
        request_view(r) == Some((state_label@, title@, detail@, action, blocks_dictation)),
{
    Some(
        SetupRequest {
            state_label: copy_string(state_label),
            title: copy_string(title),
            detail: copy_string(detail),
            action,
            blocks_dictation,
        },
    )
}

/// The setup step the window asks for, given the insertion capability the integration reports
/// (`None` while it is not up), whether its service runs, the settings, and what the runtime
/// probe found: whisper.cpp, a local model, and the model of the selected size.
pub fn setup_request(
    capability: Option<&str>,
    integration_running: bool,
    settings: &AppSettings,
    whisper_cli_found: bool,
    local_model_present: bool,
    size_model_installed: bool,
) -> (r: Option<SetupRequest>)
    ensures
        request_view(r) == setup_request_for(
            match capability {
                Some(c) => Some(c@),
                None => None,
            },
            integration_running,
            settings.provider_mode,
            settings.model_size,
            settings.cloud_api_key@,
            whisper_cli_found,
            local_model_present,
            size_model_installed,
        ),
{
    let cap = match capability {
        None => {
            if integration_running {
                return request(
                    "Starting direct typing support",
                    "Clipboard Mode is active",
                    "SayWrite is still starting direct typing support. Open Settings for diagnostics if it does not recover.",
                    SetupAction::OpenSettings,
                    true,
                );
            }
            return request(
                "Starting direct typing support",
                "Clipboard Mode is active",
                "SayWrite is still bringing up direct typing support. Clipboard Mode still works while it starts.",
                SetupAction::OpenSettings,
                true,
            );
        },
        Some(c) => c,
    };
    match settings.provider_mode {
        ProviderMode::Local => {
            if !whisper_cli_found {
                return request(
                    "Local dictation is not ready yet",
                    "whisper.cpp is missing",
                    "Open Settings to check diagnostics and finish the local runtime setup.",
                    SetupAction::OpenSettings,
                    true,
                );
            }
            if !local_model_present && !size_model_installed {
                return request(
                    "Local dictation is not ready yet",
                    "Download a local model",
                    "SayWrite can fetch the selected local model now, or open Settings for more control.",
                    SetupAction::DownloadModel(settings.model_size),
                    true,
                );
            }
        },
        ProviderMode::Cloud => {
            let key = chars_of(settings.cloud_api_key.as_str());
            let trimmed = trim_chars(&key);
            if trimmed.len() == 0 {
                return request(
                    "Cloud dictation is not ready yet",
                    "Add your API key",
                    "Paste an OpenAI-compatible API key here so SayWrite can send audio to your configured cloud endpoint.",
                    SetupAction::EnterApiKey,
                    true,
                );
            }
        },
    }
    if !supports_direct_typing(cap) {
        if str_eq(cap, INSERTION_CAPABILITY_CLIPBOARD_ONLY) {
            return request(
                "Clipboard Mode is active",
                "Direct Typing is unavailable here",
                "Clipboard Mode is active on this desktop. Open Settings for Direct Typing status and setup.",
                SetupAction::OpenSettings,
                false,
            );
        }
        if str_eq(cap, INSERTION_CAPABILITY_NOTIFICATION_ONLY) {
            return request(
                "Direct Typing is unavailable here",
                "Direct Typing is unavailable here",
                "This desktop can only show the result instead of typing it directly. Open Settings for details.",
                SetupAction::OpenSettings,
                false,
            );
        }
        return request(
            "Direct Typing is unavailable here",
            "Direct Typing is unavailable here",
            "Direct Typing is unavailable on this desktop. Open Settings for setup details.",
            SetupAction::OpenSettings,
            false,
        );
    }
    None
}

/// The label of the button that downloads the model of size `size`.
pub fn download_button_label(size: ModelSize) -> (r: String)
    ensures
        r@ == "Download "@ + model_label(size),
{
    str_concat("Download ", size.label())
}

/// The icon and label of the insertion chip for the insertion capability the integration
/// reports (`None` while it is not up).
pub open spec fn insertion_chip_of(capability: Option<Seq<char>>) -> (Seq<char>, Seq<char>) {
    match capability {
        None => ("network-offline-symbolic"@, "Offline"@),
        Some(c) => if c == INSERTION_CAPABILITY_TYPING@ {
            ("input-keyboard-symbolic"@, "Direct Typing"@)
        } else if c == INSERTION_CAPABILITY_CLIPBOARD_ONLY@ {
            ("edit-copy-symbolic"@, "Clipboard"@)
        } else if c == INSERTION_CAPABILITY_NOTIFICATION_ONLY@ {
            ("notification-symbolic"@, "Notification"@)
        } else {
            ("help-browser-symbolic"@, "Unknown"@)
        },
    }
}

/// The icon and label of the insertion chip.
pub fn insertion_chip(capability: Option<&str>) -> (r: (&'static str, &'static str))
    ensures
        (r.0@, r.1@) == insertion_chip_of(
            match capability {
                Some(c) => Some(c@),
                None => None,
            },
        ),
{
    match capability {
        None => ("network-offline-symbolic", "Offline"),
        Some(c) => {
            if str_eq(c, INSERTION_CAPABILITY_TYPING) {
                ("input-keyboard-symbolic", "Direct Typing")
            } else if str_eq(c, INSERTION_CAPABILITY_CLIPBOARD_ONLY) {
                ("edit-copy-symbolic", "Clipboard")
            } else if str_eq(c, INSERTION_CAPABILITY_NOTIFICATION_ONLY) {
                ("notification-symbolic", "Notification")
            } else {
                ("help-browser-symbolic", "Unknown")
            }
        },
    }
}

/// The icon and label of the mode chip.
pub fn mode_chip(mode: ProviderMode) -> (r: (&'static str, &'static str))
    ensures
        mode == ProviderMode::Cloud ==> r.0@ == "network-wireless-symbolic"@ && r.1@ == "Cloud"@,
        mode == ProviderMode::Local ==> r.0@ == "drive-harddisk-symbolic"@ && r.1@ == "Local"@,
{
    match mode {
        ProviderMode::Cloud => ("network-wireless-symbolic", "Cloud"),
        ProviderMode::Local => ("drive-harddisk-symbolic", "Local"),
    }
}

/// The word and character counts shown under the transcript.
pub fn transcript_counts(text: &str) -> (r: (String, String))
    ensures
        r.0@ == decimal(words(text@).len()) + " words"@,
        r.1@ == decimal(text@.len()) + " chars"@,
{
    let c = chars_of(text);
    let ws = split_words(&c);
    let nw = ws.len() as u64;
    let nc = c.len() as u64;
    let a = decimal_string(nw);
    let b = decimal_string(nc);
    (str_concat(a.as_str(), " words"), str_concat(b.as_str(), " chars"))
}

/// What a key press in the main window does.
#[derive(Debug, Clone, Copy, PartialEq, Eq, Structural)]
pub enum WindowKey {
    /// Return or keypad Enter.
    Enter,
    Escape,
    /// C with Ctrl held.
    CtrlC,
    Other,
}

/// What the window does for a key press.
#[derive(Debug, Clone, Copy, PartialEq, Eq, Structural)]
pub enum KeyAction {
    /// Click the dictation button.
    ToggleDictation,
    /// Hide the transcript.
    Dismiss,
    /// Copy the last transcript.
    Copy,
    /// Nothing, but the key is taken.
    Nothing,
    /// Nothing, and the key goes on to the focused widget.
    PassOn,
}

/// The window's reading of a key press with keysym `keyval`, with or without Ctrl held.
pub fn window_key(keyval: u32, ctrl: bool) -> (r: WindowKey)
    ensures
        r == (if keyval == KEY_RETURN || keyval == KEY_KP_ENTER {
            WindowKey::Enter
        } else if keyval == KEY_ESCAPE {
            WindowKey::Escape
        } else if keyval == KEY_C && ctrl {
            WindowKey::CtrlC
        } else {
            WindowKey::Other
        }),
{
    if keyval == KEY_RETURN || keyval == KEY_KP_ENTER {
        WindowKey::Enter
    } else if keyval == KEY_ESCAPE {
        WindowKey::Escape
    } else if keyval == KEY_C && ctrl {
        WindowKey::CtrlC
    } else {
        WindowKey::Other
    }
}

impl WindowView {
    /// The window as it opens.
    pub fn new() -> (r: WindowView)
        ensures
            !r.listening && !r.spinner_running && !r.waveform_active && !r.waveform_shown,
            !r.activity_shown,
            r.state_label@ == prompt_label(),
            r.setup is None,
            !r.transcript_shown && r.transcript_text@.len() == 0,
            !r.actions_shown && r.copy_sensitive && r.last_cleaned@.len() == 0,
            r.dictate_label@ == start_label() && !r.dictate_sensitive && !r.dictate_stops,
    {
        WindowView {
            listening: false,
            spinner_running: false,
            waveform_active: false,
            waveform_shown: false,
            activity_shown: false,
            state_label: copy_string("Press your hotkey to start dictation"),
            setup: None,
            transcript_shown: false,
            transcript_text: String::new(),
            actions_shown: false,
            copy_sensitive: true,
            last_cleaned: String::new(),
            dictate_label: copy_string("  Press Hotkey or Click to Start  "),
            dictate_sensitive: false,
            dictate_stops: false,
        }
    }

    /// A toggle from the window has been sent: the window waits with the spinner.
    pub fn begin_toggle(&mut self, starting: bool)
        ensures
            !final(self).dictate_sensitive,
            final(self).activity_shown && final(self).spinner_running,
            !final(self).waveform_active,
            final(self).setup is None,
            final(self).state_label@ == (if starting {
                "Starting…"@
            } else {
                "Processing…"@
            }),
            !final(self).transcript_shown && !final(self).actions_shown,
            final(self).listening == old(self).listening,
            final(self).waveform_shown == old(self).waveform_shown,
            final(self).transcript_text@ == old(self).transcript_text@,
            final(self).copy_sensitive == old(self).copy_sensitive,
            final(self).last_cleaned@ == old(self).last_cleaned@,
            final(self).dictate_label@ == old(self).dictate_label@,
            final(self).dictate_stops == old(self).dictate_stops,
    {
        self.dictate_sensitive = false;
        self.activity_shown = true;
        self.waveform_active = false;
        self.spinner_running = true;
        self.setup = None;
        self.state_label = if starting {
            copy_string("Starting…")
        } else {
            copy_string("Processing…")
        };
        self.transcript_shown = false;
        self.actions_shown = false;
    }

    /// Shows a setup step; dictation stays possible only while a dictation records and the
    /// step does not block it.
    pub fn set_setup_state(&mut self, request: SetupRequest)
        ensures
            final(self).state_label@ == request.state_label@,
            panel_view(final(self).setup) == Some((request.title@, request.detail@, request.action)),
            final(self).dictate_sensitive == (!request.blocks_dictation && old(self).listening),
            final(self).listening == old(self).listening,
            final(self).spinner_running == old(self).spinner_running,
            final(self).waveform_active == old(self).waveform_active,
            final(self).waveform_shown == old(self).waveform_shown,
            final(self).activity_shown == old(self).activity_shown,
            final(self).transcript_shown == old(self).transcript_shown,
            final(self).transcript_text@ == old(self).transcript_text@,
            final(self).actions_shown == old(self).actions_shown,
            final(self).copy_sensitive == old(self).copy_sensitive,
            final(self).last_cleaned@ == old(self).last_cleaned@,
            final(self).dictate_label@ == old(self).dictate_label@,
            final(self).dictate_stops == old(self).dictate_stops,
    {
        self.state_label = request.state_label;
        self.setup = Some(
            SetupPanel { title: request.title, detail: request.detail, action: request.action },
        );
        self.dictate_sensitive = !request.blocks_dictation && self.listening;
    }

    /// Hides the setup panel; when no dictation records, the dictation button is offered.
    pub fn clear_setup_state(&mut self)
        ensures
            final(self).setup is None,
            !old(self).listening ==> final(self).dictate_label@ == start_label()
                && final(self).dictate_sensitive,
            old(self).listening ==> final(self).dictate_label@ == old(self).dictate_label@
                && final(self).dictate_sensitive == old(self).dictate_sensitive,
            final(self).listening == old(self).listening,
            final(self).state_label@ == old(self).state_label@,
            final(self).spinner_running == old(self).spinner_running,
            final(self).waveform_active == old(self).waveform_active,
            final(self).waveform_shown == old(self).waveform_shown,
            final(self).activity_shown == old(self).activity_shown,
            final(self).transcript_shown == old(self).transcript_shown,
            final(self).transcript_text@ == old(self).transcript_text@,
            final(self).actions_shown == old(self).actions_shown,
            final(self).copy_sensitive == old(self).copy_sensitive,
            final(self).last_cleaned@ == old(self).last_cleaned@,
            final(self).dictate_stops == old(self).dictate_stops,
    {
        self.setup = None;
        if !self.listening {
            self.dictate_label = copy_string("  Press Hotkey or Click to Start  ");
            self.dictate_sensitive = true;
        }
    }

    /// Re-evaluates the setup step: shows it, or hides the panel and, when no dictation records
    /// and no transcript is shown, says the window is ready.
    pub fn refresh(&mut self, request: Option<SetupRequest>)
        ensures
            request_view(request) matches Some(q) ==> {
                &&& final(self).state_label@ == q.0
                &&& panel_view(final(self).setup) == Some((q.1, q.2, q.3))
                &&& final(self).dictate_sensitive == (!q.4 && old(self).listening)
                &&& final(self).dictate_label@ == old(self).dictate_label@
            },
            request is None ==> {
                &&& final(self).setup is None
                &&& !old(self).listening ==> final(self).dictate_label@ == start_label()
                    && final(self).dictate_sensitive
                &&& old(self).listening ==> final(self).dictate_label@ == old(self).dictate_label@
                    && final(self).dictate_sensitive == old(self).dictate_sensitive
                &&& final(self).state_label@ == (if !old(self).listening
                    && !old(self).transcript_shown {
                    "Ready"@
                } else {
                    old(self).state_label@
                })
            },
            final(self).listening == old(self).listening,
            final(self).spinner_running == old(self).spinner_running,
            final(self).waveform_active == old(self).waveform_active,
            final(self).waveform_shown == old(self).waveform_shown,
            final(self).activity_shown == old(self).activity_shown,
            final(self).transcript_shown == old(self).transcript_shown,
            final(self).transcript_text@ == old(self).transcript_text@,
            final(self).actions_shown == old(self).actions_shown,
            final(self).copy_sensitive == old(self).copy_sensitive,
            final(self).last_cleaned@ == old(self).last_cleaned@,
            final(self).dictate_stops == old(self).dictate_stops,
    {
        match request {
            Some(q) => self.set_setup_state(q),
            None => {
                self.clear_setup_state();
                if !self.listening && !self.transcript_shown {
                    self.state_label = copy_string("Ready");
                }
            },
        }
    }

    /// A toggle from the window went through: it now records (`starting`) or shows that the
    /// transcript is ready.
    pub fn apply_toggle_success(&mut self, starting: bool)
        ensures
            !final(self).spinner_running,
            final(self).listening == starting,
            final(self).waveform_active == starting,
            final(self).activity_shown == starting,
            final(self).state_label@ == (if starting {
                "Listening…"@
            } else {
                "Transcript ready"@
            }),
            final(self).dictate_stops == starting,
            starting ==> final(self).dictate_label@ == "  Stop Dictation  "@,
            !starting ==> final(self).dictate_label@ == start_label(),
            final(self).dictate_sensitive,
            final(self).waveform_shown == old(self).waveform_shown,
            panel_view(final(self).setup) == panel_view(old(self).setup),
            final(self).transcript_shown == old(self).transcript_shown,
            final(self).transcript_text@ == old(self).transcript_text@,
            final(self).actions_shown == old(self).actions_shown,
            final(self).copy_sensitive == old(self).copy_sensitive,
            final(self).last_cleaned@ == old(self).last_cleaned@,
    {
        self.spinner_running = false;
        if starting {
            self.listening = true;
            self.waveform_active = true;
            self.activity_shown = true;
            self.state_label = copy_string("Listening…");
            self.dictate_label = copy_string("  Stop Dictation  ");
            self.dictate_stops = true;
        } else {
            self.listening = false;
            self.waveform_active = false;
            self.activity_shown = false;
            self.state_label = copy_string("Transcript ready");
            self.dictate_stops = false;
            self.dictate_label = copy_string("  Press Hotkey or Click to Start  ");
        }
        self.dictate_sensitive = true;
    }

    /// A toggle from the window failed with `error`: back at rest, with the error in friendlier
    /// words.
    pub fn apply_toggle_error(&mut self, error: &str)
        ensures
            at_rest(*final(self), *old(self), friendly_text(error@), true),
    {
        self.listening = false;
        self.spinner_running = false;
        self.waveform_active = false;
        self.activity_shown = false;
        self.state_label = friendly_error_message(error);
        self.dictate_stops = false;
        self.dictate_label = copy_string("  Press Hotkey or Click to Start  ");
        self.dictate_sensitive = true;
    }

    /// The integration went away: back at rest, and dictation cannot start.
    pub fn apply_integration_disconnect(&mut self)
        ensures
            at_rest(*final(self), *old(self), "Direct Typing unavailable"@, false),
    {
        self.listening = false;
        self.spinner_running = false;
        self.waveform_active = false;
        self.activity_shown = false;
        self.state_label = copy_string("Direct Typing unavailable");
        self.dictate_stops = false;
        self.dictate_label = copy_string("  Press Hotkey or Click to Start  ");
        self.dictate_sensitive = false;
    }

    /// The integration reported a new dictation state: recording, processing, done or idle; any
    /// other state changes nothing but which activity indicator is shown.
    pub fn apply_integration_state(&mut self, state: &str)
        ensures
            final(self).waveform_shown == (state@ == STATE_LISTENING@),
            state@ == STATE_LISTENING@ ==> {
                &&& final(self).listening && !final(self).spinner_running
                &&& final(self).waveform_active && final(self).activity_shown
                &&& final(self).state_label@ == "Listening…"@
                &&& final(self).dictate_label@ == "  Stop Dictating  "@
                &&& final(self).dictate_stops && final(self).dictate_sensitive
            },
            state@ == STATE_PROCESSING@ ==> {
                &&& !final(self).waveform_active && final(self).activity_shown
                &&& final(self).spinner_running
                &&& final(self).state_label@ == "Processing your transcript…"@
                &&& !final(self).dictate_sensitive
                &&& final(self).listening == old(self).listening
                &&& final(self).dictate_label@ == old(self).dictate_label@
                &&& final(self).dictate_stops == old(self).dictate_stops
            },
            state@ == STATE_DONE@ || state@ == STATE_IDLE@ ==> {
                &&& !final(self).listening && !final(self).spinner_running
                &&& !final(self).waveform_active && !final(self).activity_shown
                &&& !final(self).dictate_stops && final(self).dictate_sensitive
                &&& final(self).dictate_label@ == start_label()
                &&& final(self).state_label@ == (if state@ == STATE_DONE@ {
                    "Transcript ready"@
                } else {
                    prompt_label()
                })
            },
            !(state@ == STATE_LISTENING@ || state@ == STATE_PROCESSING@ || state@ == STATE_DONE@
                || state@ == STATE_IDLE@) ==> {
                &&& final(self).listening == old(self).listening
                &&& final(self).spinner_running == old(self).spinner_running
                &&& final(self).waveform_active == old(self).waveform_active
                &&& final(self).activity_shown == old(self).activity_shown
                &&& final(self).state_label@ == old(self).state_label@
                &&& final(self).dictate_label@ == old(self).dictate_label@
                &&& final(self).dictate_sensitive == old(self).dictate_sensitive
                &&& final(self).dictate_stops == old(self).dictate_stops
            },
            panel_view(final(self).setup) == panel_view(old(self).setup),
            final(self).transcript_shown == old(self).transcript_shown,
            final(self).transcript_text@ == old(self).transcript_text@,
            final(self).actions_shown == old(self).actions_shown,
            final(self).copy_sensitive == old(self).copy_sensitive,
            final(self).last_cleaned@ == old(self).last_cleaned@,
    {
        proof {
            reveal_strlit("listening");
            reveal_strlit("processing");
            reveal_strlit("done");
            reveal_strlit("idle");
            assert(STATE_PROCESSING@[0] != STATE_LISTENING@[0]);
            assert(STATE_DONE@[0] != STATE_LISTENING@[0]);
            assert(STATE_IDLE@[0] != STATE_LISTENING@[0]);
            assert(STATE_IDLE@[0] != STATE_PROCESSING@[0]);
            assert(STATE_DONE@[0] != STATE_PROCESSING@[0]);
        }
        self.waveform_shown = str_eq(state, STATE_LISTENING);
        if str_eq(state, STATE_LISTENING) {
            self.listening = true;
            self.spinner_running = false;
            self.waveform_active = true;
            self.activity_shown = true;
            self.state_label = copy_string("Listening…");
            self.dictate_label = copy_string("  Stop Dictating  ");
            self.dictate_stops = true;
            self.dictate_sensitive = true;
        } else if str_eq(state, STATE_PROCESSING) {
            self.waveform_active = false;
            self.activity_shown = true;
            self.spinner_running = true;
            self.state_label = copy_string("Processing your transcript…");
            self.dictate_sensitive = false;
        } else if str_eq(state, STATE_DONE) || str_eq(state, STATE_IDLE) {
            let done = str_eq(state, STATE_DONE);
            self.listening = false;
            self.spinner_running = false;
            self.waveform_active = false;
            self.activity_shown = false;
            self.dictate_stops = false;
            self.dictate_label = copy_string("  Press Hotkey or Click to Start  ");
            self.dictate_sensitive = true;
            self.state_label = if done {
                copy_string("Transcript ready")
            } else {
                copy_string("Press your hotkey to start dictation")
            };
        }
    }

    /// Shows a transcript: the cleaned text, or the raw text when cleaning left nothing; a
    /// placeholder when there is no text at all, which also hides the actions.
    pub fn show_transcript(&mut self, cleaned: &str, raw_text: &str)
        ensures
            final(self).last_cleaned@ == (if cleaned@.len() == 0 {
                raw_text@
            } else {
                cleaned@
            }),
            final(self).transcript_text@ == (if final(self).last_cleaned@.len() == 0 {
                "Nothing captured."@
            } else {
                final(self).last_cleaned@
            }),
            final(self).transcript_shown,
            final(self).copy_sensitive == (final(self).last_cleaned@.len() > 0),
            final(self).actions_shown == (final(self).last_cleaned@.len() > 0),
            final(self).listening == old(self).listening,
            final(self).spinner_running == old(self).spinner_running,
            final(self).waveform_active == old(self).waveform_active,
            final(self).waveform_shown == old(self).waveform_shown,
            final(self).activity_shown == old(self).activity_shown,
            final(self).state_label@ == old(self).state_label@,
            panel_view(final(self).setup) == panel_view(old(self).setup),
            final(self).dictate_label@ == old(self).dictate_label@,
            final(self).dictate_sensitive == old(self).dictate_sensitive,
            final(self).dictate_stops == old(self).dictate_stops,
    {
        let final_text = if cleaned.unicode_len() == 0 {
            copy_string(raw_text)
        } else {
            copy_string(cleaned)
        };
        let has_text = final_text.as_str().unicode_len() > 0;
        self.transcript_text = if has_text {
            copy_string(final_text.as_str())
        } else {
            copy_string("Nothing captured.")
        };
        self.transcript_shown = true;
        self.last_cleaned = final_text;
        self.copy_sensitive = has_text;
        self.actions_shown = has_text;
    }

    /// Shows how an insertion went.
    pub fn apply_insertion_result(&mut self, ok: bool, result_kind: &str, message: &str)
        ensures
            ok ==> final(self).state_label@ == result_label_of(result_kind@) + ": "@ + message@,
            !ok ==> final(self).state_label@ == "Insertion failed: "@ + message@,
            final(self).listening == old(self).listening,
            final(self).spinner_running == old(self).spinner_running,
            final(self).waveform_active == old(self).waveform_active,
            final(self).waveform_shown == old(self).waveform_shown,
            final(self).activity_shown == old(self).activity_shown,
            panel_view(final(self).setup) == panel_view(old(self).setup),
            final(self).transcript_shown == old(self).transcript_shown,
            final(self).transcript_text@ == old(self).transcript_text@,
            final(self).actions_shown == old(self).actions_shown,
            final(self).copy_sensitive == old(self).copy_sensitive,
            final(self).last_cleaned@ == old(self).last_cleaned@,
            final(self).dictate_label@ == old(self).dictate_label@,
            final(self).dictate_sensitive == old(self).dictate_sensitive,
            final(self).dictate_stops == old(self).dictate_stops,
    {
        self.state_label = if ok {
            str_concat3(insertion_result_label(result_kind), ": ", message)
        } else {
            str_concat("Insertion failed: ", message)
        };
    }

    /// The last transcript was copied to the clipboard.
    pub fn copied(&mut self)
        ensures
            final(self).state_label@ == "Copied to clipboard"@,
            *final(self) == (WindowView { state_label: final(self).state_label, ..*old(self) }),
    {
        self.state_label = copy_string("Copied to clipboard");
    }

    /// Hides the transcript; when no dictation records, the prompt comes back.
    pub fn dismiss_transcript(&mut self)
        ensures
            !final(self).transcript_shown && !final(self).actions_shown,
            final(self).state_label@ == (if old(self).listening {
                old(self).state_label@
            } else {
                prompt_label()
            }),
            final(self).listening == old(self).listening,
            final(self).spinner_running == old(self).spinner_running,
            final(self).waveform_active == old(self).waveform_active,
            final(self).waveform_shown == old(self).waveform_shown,
            final(self).activity_shown == old(self).activity_shown,
            panel_view(final(self).setup) == panel_view(old(self).setup),
            final(self).transcript_text@ == old(self).transcript_text@,
            final(self).copy_sensitive == old(self).copy_sensitive,
            final(self).last_cleaned@ == old(self).last_cleaned@,
            final(self).dictate_label@ == old(self).dictate_label@,
            final(self).dictate_sensitive == old(self).dictate_sensitive,
            final(self).dictate_stops == old(self).dictate_stops,
    {
        self.transcript_shown = false;
        self.actions_shown = false;
        if !self.listening {
            self.state_label = copy_string("Press your hotkey to start dictation");
        }
    }

    /// What a key press does: Enter clicks the dictation button when it can be clicked; Escape
    /// stops a dictation the same way, or else hides a shown transcript; Ctrl+C copies a shown
    /// transcript when no dictation records (and there is text to copy). Enter and Escape are
    /// always taken; Ctrl+C is passed on when there is no transcript to copy from.
    pub fn key_action(&self, key: WindowKey) -> (r: KeyAction)
        ensures
            key == WindowKey::Enter ==> r == (if self.dictate_sensitive {
                KeyAction::ToggleDictation
            } else {
                KeyAction::Nothing
            }),
            key == WindowKey::Escape ==> r == (if self.listening {
                if self.dictate_sensitive {
                    KeyAction::ToggleDictation
                } else {
                    KeyAction::Nothing
                }
            } else if self.transcript_shown {
                KeyAction::Dismiss
            } else {
                KeyAction::Nothing
            }),
            key == WindowKey::CtrlC ==> r == (if !self.listening && self.transcript_shown {
                if self.last_cleaned@.len() > 0 {
                    KeyAction::Copy
                } else {
                    KeyAction::Nothing
                }
            } else {
                KeyAction::PassOn
            }),
            key == WindowKey::Other ==> r == KeyAction::PassOn,
    {
        match key {
            WindowKey::Enter => {
                if self.dictate_sensitive {
                    KeyAction::ToggleDictation
                } else {
                    KeyAction::Nothing
                }
            },
            WindowKey::Escape => {
                if self.listening {
                    if self.dictate_sensitive {
                        KeyAction::ToggleDictation
                    } else {
                        KeyAction::Nothing
                    }
                } else if self.transcript_shown {
                    KeyAction::Dismiss
                } else {
                    KeyAction::Nothing
                }
            },
            WindowKey::CtrlC => {
                if !self.listening && self.transcript_shown {
                    if self.last_cleaned.as_str().unicode_len() > 0 {
                        KeyAction::Copy
                    } else {
                        KeyAction::Nothing
                    }
                } else {
                    KeyAction::PassOn
                }
            },
            WindowKey::Other => KeyAction::PassOn,
        }
    }
}

/// The API key typed into the setup panel, trimmed, or what to tell the user when it is blank.
pub fn entered_api_key(text: &str) -> (r: Result<String, String>)
    ensures
        trim(text@).len() == 0 ==> (r matches Err(m) && m@ == "Add an API key to use Cloud mode"@),
        trim(text@).len() > 0 ==> (r matches Ok(k) && k@ == trim(text@)),
{
    let c = chars_of(text);
    let t = trim_chars(&c);
    if t.len() == 0 {
        Err(copy_string("Add an API key to use Cloud mode"))
    } else {
        Ok(crate::text::string_of(&t))
    }
}

} // verus!
