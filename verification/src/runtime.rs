//! The runtime overview shown in settings: where the model and the whisper runtime are,
//! which acceleration applies, and how dictation and insertion are wired up.
use vstd::prelude::*;

use crate::config::{opt_view, AppSettings, ProviderMode};
use crate::integration_api::{capability_label_of, insertion_capability_label, IntegrationStatus};
use crate::text::{
    chars_of, contains, contains_chars, copy_string, index_of, index_of_char, lines, lower_all,
    lower_chars, split_lines, str_concat, str_concat3, string_of, tail_chars, trim, trim_chars,
    views,
};

verus! {

/// What the settings page shows about the runtime.
#[derive(Debug, Clone)]
pub struct RuntimeProbe {
    pub local_model_present: bool,
    pub local_model_display: String,
    pub whisper_cli_found: bool,
    pub whisper_cli_display: String,
    pub acceleration_label: String,
    pub insertion_label: String,
    pub dictation_label: String,
    pub provider_label: String,
}

/// What was found out on this machine for the runtime overview.
#[derive(Debug, Clone)]
pub struct RuntimeFacts {
    /// The model the settings point at.
    pub model_path: String,
    /// Whether that model exists on disk.
    pub model_present: bool,
    /// The whisper command line tool that would be run.
    pub whisper_cli: String,
    /// Whether that tool exists on disk.
    pub whisper_found: bool,
    /// `SAYWRITE_ACCELERATION_HINT`, when set.
    pub acceleration_hint: Option<String>,
    /// The graphics adapter `lspci` names, if any.
    pub gpu_name: Option<String>,
    /// The integration status, when the integration is running.
    pub status: Option<IntegrationStatus>,
}

/// `path` relative to `base` as `Path::strip_prefix` gives it (comparing whole path
/// components), or `None` when `base` is not a prefix of `path`.
pub uninterp spec fn path_relative_to(path: Seq<char>, base: Seq<char>) -> Option<Seq<char>>;

/// Calls `Path::strip_prefix`, which compares whole path components; the result is named,
/// not restated. Both paths are UTF-8, so the remainder converts to a string unchanged.
#[verifier::external_body]
fn strip_path_prefix(path: &str, base: &str) -> (r: Option<String>)
    ensures
        opt_view(r) == path_relative_to(path@, base@),
{
    std::path::Path::new(path).strip_prefix(base).ok().map(|p| p.to_string_lossy().into_owned())
}

/// Calls `dirs::home_dir`, which reads the environment (`HOME`); nothing is stated of the answer.
#[verifier::external_body]
fn user_home() -> (r: Option<String>) {
    dirs::home_dir().map(|p| p.to_string_lossy().into_owned())
}

/// How a path is shown: under the home directory `home`, as `~/` and the rest.
pub open spec fn shortened(path: Seq<char>, home: Option<Seq<char>>) -> Seq<char> {
    match home {
        Some(h) => match path_relative_to(path, h) {
            Some(rest) => "~/"@ + rest,
            None => path,
        },
        None => path,
    }
}

/// How a path is shown, given the home directory.
pub fn shorten_path_in(path: &str, home: Option<String>) -> (r: String)
    ensures
        r@ == shortened(path@, opt_view(home)),
{
    match home {
        Some(h) => match strip_path_prefix(path, h.as_str()) {
            Some(rest) => str_concat("~/", rest.as_str()),
            None => copy_string(path),
        },
        None => copy_string(path),
    }
}

/// How a path is shown, under the user's home directory if there is one.
pub fn shorten_path(path: &str) -> (r: String)
    ensures
        exists|h: Option<Seq<char>>| r@ == shortened(path@, h),
{
    let home = user_home();
    shorten_path_in(path, home)
}

/// The graphics adapter named on one line of `lspci` output: a VGA, 3D or display controller
/// line, the trimmed text after its first colon, unless that is empty.
pub open spec fn gpu_in_line(line: Seq<char>) -> Option<Seq<char>> {
    let lower = lower_all(line);
    if !(contains(lower, "vga compatible controller"@) || contains(lower, "3d controller"@)
        || contains(lower, "display controller"@)) {
        None
    } else {
        match index_of(line, ':') {
            None => None,
            Some(i) => {
                let name = trim(line.skip(i + 1));
                if name.len() > 0 {
                    Some(name)
                } else {
                    None
                }
            },
        }
    }
}

/// The first graphics adapter named among `ls`.
pub open spec fn first_gpu(ls: Seq<Seq<char>>) -> Option<Seq<char>>
    decreases ls.len(),
{
    if ls.len() == 0 {
        None
    } else {
        match gpu_in_line(ls[0]) {
            Some(n) => Some(n),
            None => first_gpu(ls.drop_first()),
        }
    }
}

fn gpu_from_line(line: &Vec<char>) -> (r: Option<String>)
    ensures
        opt_view(r) == gpu_in_line(line@),
{
    let lower = lower_chars(line);
    let vga = chars_of("vga compatible controller");
    let three_d = chars_of("3d controller");
    let display = chars_of("display controller");
    if !(contains_chars(&lower, &vga) || contains_chars(&lower, &three_d) || contains_chars(
        &lower,
        &display,
    )) {
        return None;
    }
    match index_of_char(line, ':') {
        None => None,
        Some(i) => {
            let ll = line.len();
            assert(i < ll);
            let after = tail_chars(line, i + 1);
            let name = trim_chars(&after);
            if name.len() > 0 {
                Some(string_of(&name))
            } else {
                None
            }
        },
    }
}

/// The first graphics adapter named in `lspci` output.
pub fn parse_gpu_name(stdout: &str) -> (r: Option<String>)
    ensures
        opt_view(r) == first_gpu(lines(stdout@)),
{
    let s = chars_of(stdout);
    let ls = split_lines(&s);
    let ghost all = views(ls@);
    let mut i: usize = 0;
    assert(all.skip(0) =~= all);
    while i < ls.len()
        invariant
            i <= ls@.len(),
            all == views(ls@),
            all == lines(stdout@),
            first_gpu(all) == first_gpu(all.skip(i as int)),
        decreases ls@.len() - i,
    {
        let found = gpu_from_line(&ls[i]);
        proof {
            assert(all.skip(i as int)[0] == ls@[i as int]@);
            assert(all.skip(i as int).drop_first() =~= all.skip(i + 1));
        }
        if found.is_some() {
            return found;
        }
        i = i + 1;
    }
    None
}

/// The acceleration line: the user's hint when set, otherwise whether a GPU was detected.
pub open spec fn acceleration_text(hint: Option<Seq<char>>, gpu: Option<Seq<char>>) -> Seq<char> {
    match hint {
        Some(h) => h,
        None => match gpu {
            Some(g) => "GPU detected ("@ + g
                + "). whisper.cpp decides CPU vs GPU at transcription time."@,
            None => "No GPU details detected. whisper.cpp will decide CPU or GPU at transcription time."@,
        },
    }
}

/// The acceleration line.
pub fn detect_acceleration(hint: Option<String>, gpu: Option<String>) -> (r: String)
    ensures
        r@ == acceleration_text(opt_view(hint), opt_view(gpu)),
{
    match hint {
        Some(h) => h,
        None => match gpu {
            Some(g) => str_concat3(
                "GPU detected (",
                g.as_str(),
                "). whisper.cpp decides CPU vs GPU at transcription time.",
            ),
            None => copy_string(
                "No GPU details detected. whisper.cpp will decide CPU or GPU at transcription time.",
            ),
        },
    }
}

/// The insertion line: the capability and backend the integration reports, or the clipboard
/// fallback when it is not running.
pub open spec fn insertion_text(status: Option<IntegrationStatus>) -> Seq<char> {
    match status {
        Some(s) => capability_label_of(s.insertion_capability@) + " via "@
            + s.insertion_backend@,
        None => "Clipboard fallback until host integration is running"@,
    }
}

/// The dictation line: whether the integration runs and the shortcut is armed.
pub open spec fn dictation_text(status: Option<IntegrationStatus>) -> Seq<char> {
    match status {
        Some(s) => if s.hotkey_active {
            "Host daemon ready for hotkey dictation"@
        } else {
            "Host daemon running, but the global shortcut is not active yet"@
        },
        None => "Install host companion for global hotkey dictation"@,
    }
}

/// The runtime overview for `settings` from what was found out on this machine.
pub fn probe_runtime(settings: &AppSettings, facts: &RuntimeFacts) -> (r: RuntimeProbe)
    ensures
        r.local_model_present == facts.model_present,
        exists|h: Option<Seq<char>>| r.local_model_display@ == shortened(facts.model_path@, h),
        r.whisper_cli_found == facts.whisper_found,
        exists|h: Option<Seq<char>>| r.whisper_cli_display@ == shortened(facts.whisper_cli@, h),
        r.acceleration_label@ == acceleration_text(
            opt_view(facts.acceleration_hint),
            opt_view(facts.gpu_name),
        ),
        r.insertion_label@ == insertion_text(facts.status),
        r.dictation_label@ == dictation_text(facts.status),
        r.provider_label@ == (match settings.provider_mode {
            ProviderMode::Cloud => "Cloud"@,
            ProviderMode::Local => "Local"@,
        }),
{
    let provider_label = match settings.provider_mode {
        ProviderMode::Cloud => copy_string("Cloud"),
        ProviderMode::Local => copy_string("Local"),
    };
    let hint = match &facts.acceleration_hint {
        Some(h) => Some(copy_string(h.as_str())),
        None => None,
    };
    let gpu = match &facts.gpu_name {
        Some(g) => Some(copy_string(g.as_str())),
        None => None,
    };
    let insertion_label = match &facts.status {
        Some(status) => str_concat3(
            insertion_capability_label(status.insertion_capability.as_str()),
            " via ",
            status.insertion_backend.as_str(),
        ),
        None => copy_string("Clipboard fallback until host integration is running"),
    };
    let dictation_label = match &facts.status {
        Some(status) => if status.hotkey_active {
            copy_string("Host daemon ready for hotkey dictation")
        } else {
            copy_string("Host daemon running, but the global shortcut is not active yet")
        },
        None => copy_string("Install host companion for global hotkey dictation"),
    };
    RuntimeProbe {
        local_model_present: facts.model_present,
        local_model_display: shorten_path(facts.model_path.as_str()),
        whisper_cli_found: facts.whisper_found,
        whisper_cli_display: shorten_path(facts.whisper_cli.as_str()),
        acceleration_label: detect_acceleration(hint, gpu),
        insertion_label,
        dictation_label,
        provider_label,
    }
}

} // verus!
