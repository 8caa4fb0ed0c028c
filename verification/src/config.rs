//! User settings, the model sizes on offer and the places on disk where settings and
//! models are kept.
use vstd::prelude::*;

use crate::text::{
    chars_of, copy_string, eq_ignore_case, eq_ignore_case_chars, string_of, trim, trim_chars,
};

verus! {

/// How transcription is done.
#[derive(Debug, Clone, Copy, PartialEq, Eq, Structural)]
pub enum ProviderMode {
    Local,
    Cloud,
}

/// The sizes of whisper model the app offers.
#[derive(Debug, Clone, Copy, PartialEq, Eq, Structural)]
pub enum ModelSize {
    Tiny,
    Base,
    Small,
}

/// The file name of the model of size `size`.
pub open spec fn model_filename(size: ModelSize) -> Seq<char> {
    match size {
        ModelSize::Tiny => "ggml-tiny.en.bin"@,
        ModelSize::Base => "ggml-base.en.bin"@,
        ModelSize::Small => "ggml-small.en.bin"@,
    }
}

/// The label under which the model of size `size` is offered.
pub open spec fn model_label(size: ModelSize) -> Seq<char> {
    match size {
        ModelSize::Tiny => "tiny.en (~75 MB)"@,
        ModelSize::Base => "base.en (~142 MB)"@,
        ModelSize::Small => "small.en (~466 MB)"@,
    }
}

/// The position of `size` in the list of model sizes.
pub open spec fn model_index(size: ModelSize) -> u32 {
    match size {
        ModelSize::Tiny => 0,
        ModelSize::Base => 1,
        ModelSize::Small => 2,
    }
}

/// The model size at position `index`; positions past the list give the base model.
pub open spec fn model_at(index: u32) -> ModelSize {
    if index == 0 {
        ModelSize::Tiny
    } else if index == 2 {
        ModelSize::Small
    } else {
        ModelSize::Base
    }
}

impl ModelSize {
    pub fn filename(self) -> (r: &'static str)
        ensures
            r@ == model_filename(self),
    {
        match self {
            ModelSize::Tiny => "ggml-tiny.en.bin",
            ModelSize::Base => "ggml-base.en.bin",
            ModelSize::Small => "ggml-small.en.bin",
        }
    }

    pub fn label(self) -> (r: &'static str)
        ensures
            r@ == model_label(self),
    {
        match self {
            ModelSize::Tiny => "tiny.en (~75 MB)",
            ModelSize::Base => "base.en (~142 MB)",
            ModelSize::Small => "small.en (~466 MB)",
        }
    }

    pub fn from_index(index: u32) -> (r: ModelSize)
        ensures
            r == model_at(index),
    {
        match index {
            0 => ModelSize::Tiny,
            1 => ModelSize::Base,
            2 => ModelSize::Small,
            _ => ModelSize::Base,
        }
    }

    pub fn to_index(self) -> (r: u32)
        ensures
            r == model_index(self),
    {
        match self {
            ModelSize::Tiny => 0,
            ModelSize::Base => 1,
            ModelSize::Small => 2,
        }
    }
}

impl Default for ModelSize {
    fn default() -> (r: ModelSize)
        ensures
            r == ModelSize::Base,
    {
        ModelSize::Base
    }
}

/// A model size survives the trip to its list position and back.
pub proof fn lemma_model_index_round_trip(size: ModelSize)
    ensures
        model_at(model_index(size)) == size,
        model_index(size) < 3,
{
}

/// Every list position below three names a different size and comes back unchanged.
pub proof fn lemma_model_position_round_trip(index: u32)
    requires
        index < 3,
    ensures
        model_index(model_at(index)) == index,
{
}

/// The user's settings.
#[derive(Debug, Clone)]
pub struct AppSettings {
    pub provider_mode: ProviderMode,
    pub onboarding_complete: bool,
    pub local_model_path: Option<String>,
    pub cloud_api_base: String,
    pub cloud_api_key: String,
    pub auto_copy_cleaned_text: bool,
    pub auto_type_into_focused_app: bool,
    pub global_shortcut_label: String,
    pub model_size: ModelSize,
    pub input_device_name: Option<String>,
    pub pause_audio_during_dictation: bool,
}

/// The API endpoint used for cloud transcription unless the user sets another.
pub open spec fn default_cloud_api_base_text() -> Seq<char> {
    "https://api.openai.com/v1"@
}

/// The dictation shortcut unless the user sets another.
pub open spec fn default_shortcut_text() -> Seq<char> {
    "Super+Alt+D"@
}

/// The shortcut that earlier versions used, which is replaced on load.
pub open spec fn legacy_shortcut_text() -> Seq<char> {
    "F8"@
}

pub open spec fn opt_view(o: Option<String>) -> Option<Seq<char>> {
    match o {
        Some(s) => Some(s@),
        None => None,
    }
}

/// The transcription mode of fresh settings, and of a file that names none.
pub fn default_provider_mode() -> (r: ProviderMode)
    ensures
        r == ProviderMode::Local,
{
    ProviderMode::Local
}

/// The cloud API endpoint of fresh settings, and of a file that names none.
pub fn default_cloud_api_base() -> (r: String)
    ensures
        r@ == default_cloud_api_base_text(),
{
    copy_string("https://api.openai.com/v1")
}

/// Whether cleaned text is copied, in fresh settings and for a file that does not say.
pub fn default_auto_copy() -> (r: bool)
    ensures
        r,
{
    true
}

/// Whether cleaned text is typed, in fresh settings and for a file that does not say.
pub fn default_auto_type() -> (r: bool)
    ensures
        r,
{
    true
}

/// The dictation shortcut of fresh settings, and of a file that names none.
pub fn default_shortcut() -> (r: String)
    ensures
        r@ == default_shortcut_text(),
{
    copy_string("Super+Alt+D")
}

impl AppSettings {
    /// The settings a first launch starts with; the default model is preselected when it is
    /// already on disk (`default_model_exists`).
    pub fn initial(default_model: String, default_model_exists: bool) -> (r: AppSettings)
        ensures
            r.provider_mode == ProviderMode::Local,
            !r.onboarding_complete,
            r.local_model_path == (if default_model_exists {
                Some(default_model)
            } else {
                None
            }),
            r.cloud_api_base@ == default_cloud_api_base_text(),
            r.cloud_api_key@ == Seq::<char>::empty(),
            r.auto_copy_cleaned_text,
            r.auto_type_into_focused_app,
            r.global_shortcut_label@ == default_shortcut_text(),
            r.model_size == ModelSize::Base,
            r.input_device_name is None,
            !r.pause_audio_during_dictation,
    {
        AppSettings {
            provider_mode: default_provider_mode(),
            onboarding_complete: false,
            local_model_path: if default_model_exists {
                Some(default_model)
            } else {
                None
            },
            cloud_api_base: default_cloud_api_base(),
            cloud_api_key: String::new(),
            auto_copy_cleaned_text: default_auto_copy(),
            auto_type_into_focused_app: default_auto_type(),
            global_shortcut_label: default_shortcut(),
            model_size: ModelSize::Base,
            input_device_name: None,
            pause_audio_during_dictation: false,
        }
    }

    pub fn mark_onboarded(&mut self)
        ensures
            final(self).onboarding_complete,
            final(self).provider_mode == old(self).provider_mode,
            final(self).local_model_path == old(self).local_model_path,
            final(self).cloud_api_base == old(self).cloud_api_base,
            final(self).cloud_api_key == old(self).cloud_api_key,
            final(self).auto_copy_cleaned_text == old(self).auto_copy_cleaned_text,
            final(self).auto_type_into_focused_app == old(self).auto_type_into_focused_app,
            final(self).global_shortcut_label == old(self).global_shortcut_label,
            final(self).model_size == old(self).model_size,
            final(self).input_device_name == old(self).input_device_name,
            final(self).pause_audio_during_dictation == old(self).pause_audio_during_dictation,
    {
        self.onboarding_complete = true;
    }

    /// The repairs applied to settings read from disk: a model path that no longer exists is
    /// replaced by the default model when that exists, and the legacy shortcut is replaced by
    /// the default one. The answer tells whether anything changed, that is whether the settings
    /// are to be written back. `current_model_exists` tells whether the configured model path
    /// exists on disk.
    pub fn repair_loaded(
        &mut self,
        default_model: &str,
        default_model_exists: bool,
        current_model_exists: bool,
    ) -> (changed: bool)
        ensures
            repair_outcome(
                old(self).local_model_path,
                default_model@,
                default_model_exists,
                current_model_exists,
                opt_view(final(self).local_model_path),
            ),
            eq_ignore_case(trim(old(self).global_shortcut_label@), legacy_shortcut_text())
                ==> final(self).global_shortcut_label@ == default_shortcut_text(),
            !eq_ignore_case(trim(old(self).global_shortcut_label@), legacy_shortcut_text())
                ==> final(self).global_shortcut_label == old(self).global_shortcut_label,
            changed == (repair_changes(
                old(self).local_model_path,
                default_model_exists,
                current_model_exists,
            ) || eq_ignore_case(trim(old(self).global_shortcut_label@), legacy_shortcut_text())),
            final(self).provider_mode == old(self).provider_mode,
            final(self).onboarding_complete == old(self).onboarding_complete,
            final(self).cloud_api_base == old(self).cloud_api_base,
            final(self).cloud_api_key == old(self).cloud_api_key,
            final(self).auto_copy_cleaned_text == old(self).auto_copy_cleaned_text,
            final(self).auto_type_into_focused_app == old(self).auto_type_into_focused_app,
            final(self).model_size == old(self).model_size,
            final(self).input_device_name == old(self).input_device_name,
            final(self).pause_audio_during_dictation == old(self).pause_audio_during_dictation,
    {
        let mut changed = repair_missing_model_path(
            &mut self.local_model_path,
            default_model,
            default_model_exists,
            current_model_exists,
        );
        let label = chars_of(self.global_shortcut_label.as_str());
        let trimmed = trim_chars(&label);
        let legacy = chars_of("F8");
        if eq_ignore_case_chars(&trimmed, &legacy) {
            self.global_shortcut_label = default_shortcut();
            changed = true;
        }
        changed
    }
}

/// Whether repairing the model path changes it: the default model exists and the configured
/// path is missing or does not exist.
pub open spec fn repair_changes(
    path: Option<String>,
    default_model_exists: bool,
    current_model_exists: bool,
) -> bool {
    default_model_exists && (path is None || !current_model_exists)
}

/// What the model path is after the repair: the default model where the repair changes it,
/// otherwise what it was.
pub open spec fn repair_outcome(
    path: Option<String>,
    default_model: Seq<char>,
    default_model_exists: bool,
    current_model_exists: bool,
    after: Option<Seq<char>>,
) -> bool {
    if repair_changes(path, default_model_exists, current_model_exists) {
        after == Some(default_model)
    } else {
        after == opt_view(path)
    }
}

/// Repairing settles at once: repeating the repair on its outcome changes nothing, since the
/// path it sets is the default model, which exists, and a path it keeps is kept again.
pub proof fn lemma_repair_settles(
    path: Option<String>,
    default_model: Seq<char>,
    default_model_exists: bool,
    current_model_exists: bool,
    after: Option<String>,
)
    requires
        repair_outcome(path, default_model, default_model_exists, current_model_exists, opt_view(after)),
    ensures
        !repair_changes(
            after,
            default_model_exists,
            if repair_changes(path, default_model_exists, current_model_exists) {
                default_model_exists
            } else {
                current_model_exists
            },
        ),
{
}

/// Points a missing model path at the default model when that exists. `current_model_exists`
/// tells whether the configured path (if any) exists on disk; the answer tells whether the
/// path was changed.
pub fn repair_missing_model_path(
    local_model_path: &mut Option<String>,
    default_model: &str,
    default_model_exists: bool,
    current_model_exists: bool,
) -> (changed: bool)
    ensures
        changed == repair_changes(*old(local_model_path), default_model_exists, current_model_exists),
        repair_outcome(
            *old(local_model_path),
            default_model@,
            default_model_exists,
            current_model_exists,
            opt_view(*final(local_model_path)),
        ),
{
    if !default_model_exists {
        return false;
    }
    match local_model_path {
        Some(_) if current_model_exists => false,
        _ => {
            *local_model_path = Some(copy_string(default_model));
            true
        },
    }
}

// ---------------------------------------------------------------------------
// Places on disk
// ---------------------------------------------------------------------------

/// The name of the directory the app keeps its files in.
pub open spec fn app_dir_name() -> Seq<char> {
    "saywrite"@
}

/// `base` with the relative or absolute path `rel` pushed onto it, as `PathBuf::push` does on
/// Unix: an absolute `rel` replaces `base`; otherwise a separator is put between them unless
/// `base` is empty or already ends with one.
pub open spec fn join_path(base: Seq<char>, rel: Seq<char>) -> Seq<char> {
    if rel.len() > 0 && rel[0] == '/' {
        rel
    } else if base.len() == 0 {
        rel
    } else if base.last() == '/' {
        base + rel
    } else {
        base + seq!['/'] + rel
    }
}

/// `base` with `rel` pushed onto it.
pub fn join_path_str(base: &str, rel: &str) -> (r: String)
    ensures
        r@ == join_path(base@, rel@),
{
    let b = chars_of(base);
    let r = chars_of(rel);
    if r.len() > 0 && r[0] == '/' {
        return string_of(&r);
    }
    if b.len() == 0 {
        return string_of(&r);
    }
    let mut out = b;
    if out[out.len() - 1] != '/' {
        out.push('/');
    }
    crate::text::push_all(&mut out, &r);
    string_of(&out)
}

/// The app's configuration directory, given the user's configuration directory if there is one.
pub open spec fn config_dir_for(base: Option<Seq<char>>) -> Seq<char> {
    join_path(
        match base {
            Some(b) => b,
            None => ".config"@,
        },
        app_dir_name(),
    )
}

/// The app's data directory, given the user's data directory if there is one.
pub open spec fn data_dir_for(base: Option<Seq<char>>) -> Seq<char> {
    join_path(
        match base {
            Some(b) => b,
            None => ".local/share"@,
        },
        app_dir_name(),
    )
}

/// The directory models are kept in, given the user's data directory if there is one.
pub open spec fn models_dir_for(base: Option<Seq<char>>) -> Seq<char> {
    join_path(data_dir_for(base), "models"@)
}

/// Where the model of size `size` is kept, given the user's data directory if there is one.
pub open spec fn model_path_for(base: Option<Seq<char>>, size: ModelSize) -> Seq<char> {
    join_path(models_dir_for(base), model_filename(size))
}

/// Joining a directory with either of two relative names gives the same path only when the
/// names are the same.
proof fn lemma_join_path_injective(base: Seq<char>, a: Seq<char>, b: Seq<char>)
    requires
        a.len() > 0 && a[0] != '/',
        b.len() > 0 && b[0] != '/',
        join_path(base, a) == join_path(base, b),
    ensures
        a == b,
{
    let prefix = if base.len() == 0 {
        Seq::<char>::empty()
    } else if base.last() == '/' {
        base
    } else {
        base + seq!['/']
    };
    assert(join_path(base, a) =~= prefix + a);
    assert(join_path(base, b) =~= prefix + b);
    assert((prefix + a).skip(prefix.len() as int) =~= a);
    assert((prefix + b).skip(prefix.len() as int) =~= b);
}

/// Models of different sizes are kept at different paths, whatever the data directory.
pub proof fn lemma_model_paths_distinct(base: Option<Seq<char>>, s1: ModelSize, s2: ModelSize)
    requires
        s1 != s2,
    ensures
        model_path_for(base, s1) != model_path_for(base, s2),
{
    reveal_strlit("ggml-tiny.en.bin");
    reveal_strlit("ggml-base.en.bin");
    reveal_strlit("ggml-small.en.bin");
    let a = model_filename(s1);
    let b = model_filename(s2);
    assert(a[0] == 'g' && b[0] == 'g');
    assert(a[5] != b[5]);
    if model_path_for(base, s1) == model_path_for(base, s2) {
        lemma_join_path_injective(models_dir_for(base), a, b);
    }
}

/// Where the default model is kept, given the user's data directory if there is one.
pub open spec fn default_model_path_for(base: Option<Seq<char>>) -> Seq<char> {
    join_path(models_dir_for(base), "ggml-base.en.bin"@)
}

/// Where the settings file is kept, given the user's configuration directory if there is one.
pub open spec fn settings_path_for(base: Option<Seq<char>>) -> Seq<char> {
    join_path(config_dir_for(base), "settings.json"@)
}

/// Calls `dirs::config_dir`, which reads the environment (`XDG_CONFIG_HOME`, `HOME`), and
/// turns the path into a string (lossily, where it is not UTF-8). Nothing is stated of the
/// answer: it depends on the environment.
#[verifier::external_body]
fn user_config_base() -> (r: Option<String>) {
    dirs::config_dir().map(|p| p.to_string_lossy().into_owned())
}

/// Calls `dirs::data_dir`, which reads the environment (`XDG_DATA_HOME`, `HOME`), and turns
/// the path into a string (lossily, where it is not UTF-8). Nothing is stated of the answer:
/// it depends on the environment.
#[verifier::external_body]
fn user_data_base() -> (r: Option<String>) {
    dirs::data_dir().map(|p| p.to_string_lossy().into_owned())
}

/// The app's configuration directory under the user's configuration directory `base`, or
/// under `.config` when there is none.
pub fn config_dir_in(base: Option<String>) -> (r: String)
    ensures
        r@ == config_dir_for(opt_view(base)),
{
    match base {
        Some(b) => join_path_str(b.as_str(), "saywrite"),
        None => join_path_str(".config", "saywrite"),
    }
}

/// The app's data directory under the user's data directory `base`, or under `.local/share`
/// when there is none.
pub fn data_dir_in(base: Option<String>) -> (r: String)
    ensures
        r@ == data_dir_for(opt_view(base)),
{
    match base {
        Some(b) => join_path_str(b.as_str(), "saywrite"),
        None => join_path_str(".local/share", "saywrite"),
    }
}

/// The models directory under the user's data directory `base`.
pub fn models_dir_in(base: Option<String>) -> (r: String)
    ensures
        r@ == models_dir_for(opt_view(base)),
{
    let data = data_dir_in(base);
    join_path_str(data.as_str(), "models")
}

/// Where the model of size `size` is kept under the user's data directory `base`.
pub fn model_path_in(base: Option<String>, size: ModelSize) -> (r: String)
    ensures
        r@ == model_path_for(opt_view(base), size),
{
    let dir = models_dir_in(base);
    join_path_str(dir.as_str(), size.filename())
}

pub fn config_dir() -> (r: String)
    ensures
        exists|b: Option<Seq<char>>| r@ == config_dir_for(b),
{
    let base = user_config_base();
    config_dir_in(base)
}

pub fn data_dir() -> (r: String)
    ensures
        exists|b: Option<Seq<char>>| r@ == data_dir_for(b),
{
    let base = user_data_base();
    data_dir_in(base)
}

pub fn settings_path() -> (r: String)
    ensures
        exists|b: Option<Seq<char>>| r@ == settings_path_for(b),
{
    let base = user_config_base();
    let ghost b = opt_view(base);
    let dir = config_dir_in(base);
    let r = join_path_str(dir.as_str(), "settings.json");
    assert(r@ == settings_path_for(b));
    r
}

pub fn local_models_dir() -> (r: String)
    ensures
        exists|b: Option<Seq<char>>| r@ == models_dir_for(b),
{
    let base = user_data_base();
    models_dir_in(base)
}

pub fn default_model_path() -> (r: String)
    ensures
        exists|b: Option<Seq<char>>| r@ == default_model_path_for(b),
{
    let base = user_data_base();
    let ghost b = opt_view(base);
    let dir = models_dir_in(base);
    let r = join_path_str(dir.as_str(), "ggml-base.en.bin");
    assert(r@ == default_model_path_for(b));
    r
}

pub fn model_path_for_size(size: ModelSize) -> (r: String)
    ensures
        exists|b: Option<Seq<char>>| r@ == model_path_for(b, size),
{
    let base = user_data_base();
    let ghost b = opt_view(base);
    let r = model_path_in(base, size);
    assert(r@ == model_path_for(b, size));
    r
}

/// The model the settings point at: the configured path, or else the default model.
pub fn preferred_model_path(settings: &AppSettings) -> (r: String)
    ensures
        settings.local_model_path matches Some(p) ==> r@ == p@,
        settings.local_model_path is None ==> exists|b: Option<Seq<char>>|
            r@ == default_model_path_for(b),
{
    match &settings.local_model_path {
        Some(path) => copy_string(path.as_str()),
        None => default_model_path(),
    }
}

/// The default model is the base-size model.
pub proof fn lemma_default_model_is_base(base: Option<Seq<char>>)
    ensures
        default_model_path_for(base) == model_path_for(base, ModelSize::Base),
{
}

} // verus!
