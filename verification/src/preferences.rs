//! The settings and first-run screens' decisions: how choices in the form map to settings and
//! back, what the runtime rows say, and what the first-run screens do next.
use vstd::prelude::*;

use crate::config::{model_filename, opt_view, ModelSize, ProviderMode};
use crate::dictation::AudioInputDevice;
use crate::insertion::string_views;
use crate::integration_api::HostStatus;
use crate::runtime::RuntimeProbe;
use crate::text::{
    chars_of, contains, contains_chars, copy_string, str_concat, str_eq, string_of, trim, trim_chars,
};

verus! {

// ---------------------------------------------------------------------------
// The settings form
// ---------------------------------------------------------------------------

/// The row of the transcription mode list that shows `mode`.
pub open spec fn mode_row(mode: ProviderMode) -> u32 {
    match mode {
        ProviderMode::Local => 0,
        ProviderMode::Cloud => 1,
    }
}

/// The mode the row `row` of the transcription mode list stands for: the second row is cloud,
/// every other row local.
pub open spec fn mode_at_row(row: u32) -> ProviderMode {
    if row == 1 {
        ProviderMode::Cloud
    } else {
        ProviderMode::Local
    }
}

/// The row of the transcription mode list that shows `mode`.
pub fn provider_mode_index(mode: ProviderMode) -> (r: u32)
    ensures
        r == mode_row(mode),
{
    match mode {
        ProviderMode::Local => 0,
        ProviderMode::Cloud => 1,
    }
}

/// The mode the row `row` of the transcription mode list stands for.
pub fn provider_mode_from_index(row: u32) -> (r: ProviderMode)
    ensures
        r == mode_at_row(row),
{
    if row == 1 {
        ProviderMode::Cloud
    } else {
        ProviderMode::Local
    }
}

/// Selecting the row that shows a mode gives that mode back.
pub proof fn lemma_mode_row_round_trip(mode: ProviderMode)
    ensures
        mode_at_row(mode_row(mode)) == mode,
{
}

/// The model path typed into the form: trimmed, and no path at all when that leaves nothing.
pub fn model_path_from_entry(text: &str) -> (r: Option<String>)
    ensures
        trim(text@).len() == 0 ==> r is None,
        trim(text@).len() > 0 ==> (r matches Some(p) && p@ == trim(text@)),
{
    let c = chars_of(text);
    let t = trim_chars(&c);
    if t.len() == 0 {
        None
    } else {
        Some(string_of(&t))
    }
}

/// The subtitle of the model download row.
pub fn install_subtitle(size: ModelSize, installed: bool) -> (r: String)
    ensures
        r@ == model_filename(size) + (if installed {
            " — installed"@
        } else {
            " — not installed"@
        }),
{
    if installed {
        str_concat(size.filename(), " — installed")
    } else {
        str_concat(size.filename(), " — not installed")
    }
}

/// The ids of `devices`, in order.
pub open spec fn device_ids(devices: Seq<AudioInputDevice>) -> Seq<Seq<char>> {
    Seq::new(devices.len(), |i: int| devices[i].id@)
}

/// The labels of the input device list: the system default first, then each device.
pub open spec fn device_labels_of(devices: Seq<AudioInputDevice>) -> Seq<Seq<char>> {
    seq!["System default"@] + Seq::new(devices.len(), |i: int| devices[i].label@)
}

/// The labels of the input device list.
pub fn device_labels(devices: &Vec<AudioInputDevice>) -> (r: Vec<String>)
    ensures
        string_views(r@) == device_labels_of(devices@),
{
    let mut r: Vec<String> = Vec::new();
    r.push(copy_string("System default"));
    let mut i: usize = 0;
    while i < devices.len()
        invariant
            i <= devices@.len(),
            r@.len() == i + 1,
            r@[0]@ == "System default"@,
            forall|k: int| 0 <= k < i ==> #[trigger] r@[k + 1]@ == devices@[k].label@,
        decreases devices@.len() - i,
    {
        r.push(copy_string(devices[i].label.as_str()));
        i = i + 1;
    }
    proof {
        assert(string_views(r@) =~= device_labels_of(devices@)) by {
            assert forall|k: int| 0 <= k < r@.len() implies #[trigger] string_views(r@)[k]
                == device_labels_of(devices@)[k] by {
                if k > 0 {
                    assert(r@[(k - 1) + 1]@ == devices@[k - 1].label@);
                }
            }
        }
    }
    r
}

/// Whether `row` is the row of the input device list that shows the device with id `selected`:
/// the row after the system default of the first device with that id, or the system default
/// when none is selected or no device has that id.
pub open spec fn shows_device(devices: Seq<AudioInputDevice>, selected: Option<Seq<char>>, row: u32) -> bool {
    &&& row == 0 <==> (selected is None || forall|i: int|
        0 <= i < devices.len() ==> devices[i].id@ != selected->0)
    &&& row > 0 ==> {
        &&& row - 1 < devices.len()
        &&& devices[row - 1].id@ == selected->0
        &&& forall|j: int| 0 <= j < row - 1 ==> devices[j].id@ != selected->0
    }
}

/// The device the row `row` of the input device list stands for: none for the system default
/// or a row past the list.
pub open spec fn device_at_row(devices: Seq<AudioInputDevice>, row: u32) -> Option<Seq<char>> {
    if row > 0 && row - 1 < devices.len() {
        Some(devices[row - 1].id@)
    } else {
        None
    }
}

/// The row of the input device list that shows the selected device.
pub fn device_choice_index(devices: &Vec<AudioInputDevice>, selected: Option<&str>) -> (r: u32)
    requires
        devices@.len() < u32::MAX,
    ensures
        shows_device(
            devices@,
            match selected {
                Some(s) => Some(s@),
                None => None,
            },
            r,
        ),
{
    let id = match selected {
        None => {
            return 0;
        },
        Some(id) => id,
    };
    let mut i: usize = 0;
    while i < devices.len()
        invariant
            i <= devices@.len(),
            devices@.len() < u32::MAX,
            selected is Some && selected->0@ == id@,
            forall|j: int| 0 <= j < i ==> devices@[j].id@ != id@,
        decreases devices@.len() - i,
    {
        if str_eq(devices[i].id.as_str(), id) {
            let row: usize = i + 1;
            return row as u32;
        }
        i = i + 1;
    }
    0
}

/// The device the row `row` of the input device list stands for.
pub fn device_for_choice(devices: &Vec<AudioInputDevice>, row: u32) -> (r: Option<String>)
    ensures
        opt_view(r) == device_at_row(devices@, row),
{
    if row == 0 {
        return None;
    }
    let k: usize = (row - 1) as usize;
    if k < devices.len() {
        Some(copy_string(devices[k].id.as_str()))
    } else {
        None
    }
}

/// Reading back the input device row that shows the selected device gives the selected device,
/// or the system default when no device in the list has its id.
pub proof fn lemma_device_choice_round_trip(
    devices: Seq<AudioInputDevice>,
    selected: Option<Seq<char>>,
    row: u32,
)
    requires
        shows_device(devices, selected, row),
    ensures
        device_at_row(devices, row) == (if selected matches Some(id) && exists|i: int|
            0 <= i < devices.len() && devices[i].id@ == id {
            selected
        } else {
            None
        }),
{
    if selected is Some {
        let id = selected->0;
        if exists|i: int| 0 <= i < devices.len() && devices[i].id@ == id {
            let i = choose|i: int| 0 <= i < devices.len() && devices[i].id@ == id;
            assert(devices[i].id@ == selected->0);
        }
    }
}

// ---------------------------------------------------------------------------
// Runtime and status rows
// ---------------------------------------------------------------------------

/// The runtime rows of the diagnostics page, as title and value.
pub fn runtime_rows(probe: &RuntimeProbe) -> (r: Vec<(String, String)>)
    ensures
        r@.len() == 6,
        r@[0].0@ == "Provider"@ && r@[0].1@ == probe.provider_label@,
        r@[1].0@ == "Dictation"@ && r@[1].1@ == probe.dictation_label@,
        r@[2].0@ == "Acceleration"@ && r@[2].1@ == probe.acceleration_label@,
        r@[3].0@ == "whisper.cpp"@ && r@[3].1@ == (if probe.whisper_cli_found {
            "Found at "@ + probe.whisper_cli_display@
        } else {
            "Not found yet"@
        }),
        r@[4].0@ == "Model"@ && r@[4].1@ == (if probe.local_model_present {
            probe.local_model_display@
        } else {
            "No local model downloaded yet"@
        }),
        r@[5].0@ == "Insertion"@ && r@[5].1@ == probe.insertion_label@,
{
    let mut r: Vec<(String, String)> = Vec::new();
    r.push((copy_string("Provider"), copy_string(probe.provider_label.as_str())));
    r.push((copy_string("Dictation"), copy_string(probe.dictation_label.as_str())));
    r.push((copy_string("Acceleration"), copy_string(probe.acceleration_label.as_str())));
    let whisper = if probe.whisper_cli_found {
        str_concat("Found at ", probe.whisper_cli_display.as_str())
    } else {
        copy_string("Not found yet")
    };
    r.push((copy_string("whisper.cpp"), whisper));
    let model = if probe.local_model_present {
        copy_string(probe.local_model_display.as_str())
    } else {
        copy_string("No local model downloaded yet")
    };
    r.push((copy_string("Model"), model));
    r.push((copy_string("Insertion"), copy_string(probe.insertion_label.as_str())));
    r
}

/// The status row of the diagnostics page: the host companion's status, or that it does not
/// run.
pub fn host_status_subtitle(status: &Option<HostStatus>) -> (r: String)
    ensures
        status matches Some(s) ==> r@ == s.status@,
        status is None ==> r@
            == "Not running — global hotkey dictation is unavailable until the host companion is installed."@,
{
    match status {
        Some(s) => copy_string(s.status.as_str()),
        None => copy_string(
            "Not running — global hotkey dictation is unavailable until the host companion is installed.",
        ),
    }
}

// ---------------------------------------------------------------------------
// First run
// ---------------------------------------------------------------------------

/// A microphone test sample larger than this many bytes holds audio.
pub const MIC_TEST_MIN_BYTES: u64 = 100;

/// The exit code `timeout` reports when it stopped the recorder, as the test intends.
pub const TIMEOUT_EXIT_CODE: i32 = 124;

/// The verdict of the microphone test: audio was captured when the sample file holds more
/// than a few bytes (`sample_len`, `None` when there is no file); otherwise the recorder
/// failing (an exit other than success and the stop by `timeout`) is an error, and anything
/// else means silence.
pub fn mic_test_verdict(sample_len: Option<u64>, exit_success: bool, exit_code: Option<i32>) -> (r:
    Result<bool, String>)
    ensures
        (sample_len matches Some(n) && n > MIC_TEST_MIN_BYTES) ==> r == Ok::<bool, String>(true),
        !(sample_len matches Some(n) && n > MIC_TEST_MIN_BYTES) && !exit_success && exit_code
            != Some(TIMEOUT_EXIT_CODE) ==> (r matches Err(m) && m@
            == "GStreamer could not access the microphone."@),
        !(sample_len matches Some(n) && n > MIC_TEST_MIN_BYTES) && (exit_success || exit_code
            == Some(TIMEOUT_EXIT_CODE)) ==> r == Ok::<bool, String>(false),
{
    let file_ok = match sample_len {
        Some(n) => n > MIC_TEST_MIN_BYTES,
        None => false,
    };
    if file_ok {
        Ok(true)
    } else if !exit_success && !(match exit_code {
        Some(c) => c == TIMEOUT_EXIT_CODE,
        None => false,
    }) {
        Err(copy_string("GStreamer could not access the microphone."))
    } else {
        Ok(false)
    }
}

/// What the microphone test shows: the status and the recording label, and whether the user
/// may go on.
pub fn mic_test_labels(result: &Result<bool, String>) -> (r: (String, String, bool))
    ensures
        result matches Ok(true) ==> r.0@ == "Microphone is working!"@ && r.1@ == "Done!"@ && r.2,
        !(result matches Ok(true)) ==> r.0@ == "Could not detect audio. Check your mic and try again."@
            && r.1@ == "No usable audio detected"@ && !r.2,
{
    match result {
        Ok(true) => (copy_string("Microphone is working!"), copy_string("Done!"), true),
        _ => (
            copy_string("Could not detect audio. Check your mic and try again."),
            copy_string("No usable audio detected"),
            false,
        ),
    }
}

/// What finishing the first run does next.
#[derive(Debug, Clone, Copy, PartialEq, Eq, Structural)]
pub enum FinishStep {
    /// Open the app.
    Complete,
    /// Download the default model first.
    DownloadModel,
}

/// What finishing the first run does next: cloud mode needs no model, and local mode needs
/// the default model to be installed.
pub fn finish_step(mode: ProviderMode, default_model_installed: bool) -> (r: FinishStep)
    ensures
        r == (if mode == ProviderMode::Cloud || default_model_installed {
            FinishStep::Complete
        } else {
            FinishStep::DownloadModel
        }),
{
    match mode {
        ProviderMode::Cloud => FinishStep::Complete,
        ProviderMode::Local => {
            if default_model_installed {
                FinishStep::Complete
            } else {
                FinishStep::DownloadModel
            }
        },
    }
}

/// What the first run shows when the model download ended with `error`.
pub fn download_failure_label(error: &str) -> (r: String)
    ensures
        contains(error@, "download canceled"@) ==> r@ == "Download canceled"@,
        !contains(error@, "download canceled"@) ==> r@ == "Download failed: "@ + error@,
{
    let e = chars_of(error);
    let marker = chars_of("download canceled");
    if contains_chars(&e, &marker) {
        copy_string("Download canceled")
    } else {
        str_concat("Download failed: ", error)
    }
}

} // verus!
