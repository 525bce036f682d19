//! Configuration: hotkey, profiles, speech-to-text, injection, audio and
//! feedback settings, with their defaults and the rules that pick the active
//! profile, the API key, the config file's location and the loaded config.
use vstd::prelude::*;

verus! {

broadcast use vstd::string::group_string_axioms;

/// A usage profile: what is typed after a transcription.
#[derive(Debug, Clone)]
pub struct Profile {
    pub name: String,
    /// Inject template with placeholders `{text}` and `{filename}`,
    /// e.g. `"{text}  /bio:voice {filename}"` or just `"{text}"`.
    pub template: String,
    pub press_enter: bool,
}

/// Speech-to-text settings.
#[derive(Debug, Clone)]
pub struct Stt {
    pub provider: String,
    pub model: String,
    pub language: String,
    pub api_key_env: String,
    pub api_key: String,
    pub endpoint: String,
    pub timeout_secs: u64,
}

/// Text-injection settings shared by all profiles.
#[derive(Debug, Clone)]
pub struct Inject {
    pub method: String,
    pub restore_clipboard: bool,
}

/// Audio capture and storage settings.
#[derive(Debug, Clone)]
pub struct Audio {
    pub inbox_dir: String,
    pub sample_rate: u32,
    pub format: String,
    pub max_seconds: u64,
}

/// Feedback settings.
#[derive(Debug, Clone)]
pub struct Feedback {
    pub overlay: bool,
    pub toast: bool,
    pub sound: bool,
}

/// The whole configuration.
#[derive(Debug, Clone)]
pub struct Config {
    pub hotkey: String,
    pub mode: String,
    pub active_profile: String,
    pub profiles: Vec<Profile>,
    pub stt: Stt,
    pub inject: Inject,
    pub audio: Audio,
    pub feedback: Feedback,
}

/// Mathematical model of a `Profile`.
pub struct ProfileView {
    pub name: Seq<char>,
    pub template: Seq<char>,
    pub press_enter: bool,
}

/// Mathematical model of `Stt`.
pub struct SttView {
    pub provider: Seq<char>,
    pub model: Seq<char>,
    pub language: Seq<char>,
    pub api_key_env: Seq<char>,
    pub api_key: Seq<char>,
    pub endpoint: Seq<char>,
    pub timeout_secs: u64,
}

/// Mathematical model of `Inject`.
pub struct InjectView {
    pub method: Seq<char>,
    pub restore_clipboard: bool,
}

/// Mathematical model of `Audio`.
pub struct AudioView {
    pub inbox_dir: Seq<char>,
    pub sample_rate: u32,
    pub format: Seq<char>,
    pub max_seconds: u64,
}

/// Mathematical model of `Config`.
pub struct ConfigView {
    pub hotkey: Seq<char>,
    pub mode: Seq<char>,
    pub active_profile: Seq<char>,
    pub profiles: Seq<ProfileView>,
    pub stt: SttView,
    pub inject: InjectView,
    pub audio: AudioView,
    pub feedback: Feedback,
}

impl View for Profile {
    type V = ProfileView;

    open spec fn view(&self) -> ProfileView {
        ProfileView { name: self.name@, template: self.template@, press_enter: self.press_enter }
    }
}

impl View for Stt {
    type V = SttView;

    open spec fn view(&self) -> SttView {
        SttView {
            provider: self.provider@,
            model: self.model@,
            language: self.language@,
            api_key_env: self.api_key_env@,
            api_key: self.api_key@,
            endpoint: self.endpoint@,
            timeout_secs: self.timeout_secs,
        }
    }
}

impl View for Inject {
    type V = InjectView;

    open spec fn view(&self) -> InjectView {
        InjectView { method: self.method@, restore_clipboard: self.restore_clipboard }
    }
}

impl View for Audio {
    type V = AudioView;

    open spec fn view(&self) -> AudioView {
        AudioView {
            inbox_dir: self.inbox_dir@,
            sample_rate: self.sample_rate,
            format: self.format@,
            max_seconds: self.max_seconds,
        }
    }
}

impl View for Config {
    type V = ConfigView;

    open spec fn view(&self) -> ConfigView {
        ConfigView {
            hotkey: self.hotkey@,
            mode: self.mode@,
            active_profile: self.active_profile@,
            profiles: self.profiles@.map_values(|p: Profile| p@),
            stt: self.stt@,
            inject: self.inject@,
            audio: self.audio@,
            feedback: self.feedback,
        }
    }
}

/// The default profile: no name, types just the transcript, no Enter.
pub open spec fn default_profile() -> ProfileView {
    ProfileView { name: Seq::empty(), template: "{text}"@, press_enter: false }
}

/// The built-in capture profile that appends `/bio:voice <file>` and submits.
pub open spec fn biograph_profile() -> ProfileView {
    ProfileView {
        name: "biograph"@,
        template: "{text}  /bio:voice {filename}"@,
        press_enter: true,
    }
}

/// The built-in plain dictation profile.
pub open spec fn plain_profile() -> ProfileView {
    ProfileView { name: "plain"@, template: "{text}"@, press_enter: false }
}

/// Default speech-to-text settings.
pub open spec fn default_stt() -> SttView {
    SttView {
        provider: "openrouter"@,
        model: "openai/gpt-4o-transcribe"@,
        language: "layout"@,
        api_key_env: "OPENROUTER_API_KEY"@,
        api_key: Seq::empty(),
        endpoint: "https://openrouter.ai/api/v1/audio/transcriptions"@,
        timeout_secs: 60,
    }
}

/// Default injection settings.
pub open spec fn default_inject() -> InjectView {
    InjectView { method: "type"@, restore_clipboard: true }
}

/// Default audio settings.
pub open spec fn default_audio() -> AudioView {
    AudioView {
        inbox_dir: "recordings"@,
        sample_rate: 16000,
        format: "wav"@,
        max_seconds: 300,
    }
}

/// Default feedback settings: everything on.
pub open spec fn default_feedback() -> Feedback {
    Feedback { overlay: true, toast: true, sound: true }
}

/// The default configuration.
pub open spec fn default_config() -> ConfigView {
    ConfigView {
        hotkey: "Super+Alt+Space"@,
        mode: "enter_to_stop"@,
        active_profile: "biograph"@,
        profiles: seq![biograph_profile(), plain_profile()],
        stt: default_stt(),
        inject: default_inject(),
        audio: default_audio(),
        feedback: default_feedback(),
    }
}

impl Default for Profile {
    fn default() -> (p: Self)
        ensures
            p@ == default_profile(),
    {
        Profile { name: String::new(), template: "{text}".to_owned(), press_enter: false }
    }
}

impl Default for Stt {
    fn default() -> (s: Self)
        ensures
            s@ == default_stt(),
    {
        Stt {
            provider: "openrouter".to_owned(),
            model: "openai/gpt-4o-transcribe".to_owned(),
            language: "layout".to_owned(),
            api_key_env: "OPENROUTER_API_KEY".to_owned(),
            api_key: String::new(),
            endpoint: "https://openrouter.ai/api/v1/audio/transcriptions".to_owned(),
            timeout_secs: 60,
        }
    }
}

impl Default for Inject {
    fn default() -> (i: Self)
        ensures
            i@ == default_inject(),
    {
        Inject { method: "type".to_owned(), restore_clipboard: true }
    }
}

impl Default for Audio {
    fn default() -> (a: Self)
        ensures
            a@ == default_audio(),
    {
        Audio {
            inbox_dir: "recordings".to_owned(),
            sample_rate: 16000,
            format: "wav".to_owned(),
            max_seconds: 300,
        }
    }
}

impl Default for Feedback {
    fn default() -> (f: Self)
        ensures
            f == default_feedback(),
    {
        Feedback { overlay: true, toast: true, sound: true }
    }
}

impl Default for Config {
    fn default() -> (c: Self)
        ensures
            c@ == default_config(),
    {
        let biograph = Profile {
            name: "biograph".to_owned(),
            template: "{text}  /bio:voice {filename}".to_owned(),
            press_enter: true,
        };
        let plain = Profile { name: "plain".to_owned(), template: "{text}".to_owned(), press_enter: false };
        let mut profiles: Vec<Profile> = Vec::new();
        profiles.push(biograph);
        profiles.push(plain);
        let c = Config {
            hotkey: "Super+Alt+Space".to_owned(),
            mode: "enter_to_stop".to_owned(),
            active_profile: "biograph".to_owned(),
            profiles,
            stt: Stt::default(),
            inject: Inject::default(),
            audio: Audio::default(),
            feedback: Feedback::default(),
        };
        assert(c@.profiles =~= seq![biograph_profile(), plain_profile()]);
        c
    }
}


/// The first profile in `ps` whose name is `name`, if any.
pub open spec fn find_profile(ps: Seq<ProfileView>, name: Seq<char>) -> Option<ProfileView>
    decreases ps.len(),
{
    if ps.len() == 0 {
        None
    } else if ps[0].name == name {
        Some(ps[0])
    } else {
        find_profile(ps.drop_first(), name)
    }
}

/// The profile that `active_profile` names (the first one so named), or the
/// default profile where none has that name.
pub open spec fn active_profile_of(c: ConfigView) -> ProfileView {
    match find_profile(c.profiles, c.active_profile) {
        Some(p) => p,
        None => default_profile(),
    }
}

/// The API key in use: `stt.api_key` where it is not empty, else the value
/// of the environment variable that `stt.api_key_env` names, where that is
/// set and not empty.
pub open spec fn resolved_api_key(c: ConfigView, env_value: Option<Seq<char>>) -> Option<Seq<char>> {
    if c.stt.api_key.len() != 0 {
        Some(c.stt.api_key)
    } else {
        match env_value {
            Some(v) => if v.len() != 0 {
                Some(v)
            } else {
                None
            },
            None => None,
        }
    }
}

/// The view of an optional string.
pub open spec fn opt_view(o: Option<String>) -> Option<Seq<char>> {
    match o {
        Some(s) => Some(s@),
        None => None,
    }
}

impl Profile {
    /// A field-by-field copy of this profile.
    pub fn duplicate(&self) -> (p: Profile)
        ensures
            p@ == self@,
    {
        Profile {
            name: self.name.clone(),
            template: self.template.clone(),
            press_enter: self.press_enter,
        }
    }
}

impl Config {
    /// Key resolution: explicit `stt.api_key`, else `env_value`, the value of
    /// the environment variable named by `stt.api_key_env` (`None` where it is
    /// not set); an empty value counts as no key.
    pub fn resolve_api_key(&self, env_value: Option<String>) -> (key: Option<String>)
        ensures
            opt_view(key) == resolved_api_key(self@, opt_view(env_value)),
    {
        if !self.stt.api_key.as_str().is_empty() {
            return Some(self.stt.api_key.clone());
        }
        match env_value {
            Some(v) => {
                if v.as_str().is_empty() {
                    None
                } else {
                    Some(v)
                }
            },
            None => None,
        }
    }

    /// The active profile: the first profile whose name equals
    /// `active_profile`, or `Profile::default()` where there is none.
    pub fn active_profile(&self) -> (p: Profile)
        ensures
            p@ == active_profile_of(self@),
    {
        let ghost ps = self@.profiles;
        let n = self.profiles.len();
        let mut i: usize = 0;
        assert(ps.skip(0) =~= ps);
        while i < n
            invariant
                n == self.profiles@.len(),
                ps == self@.profiles,
                ps.len() == n,
                i <= n,
                find_profile(ps, self@.active_profile) == find_profile(
                    ps.skip(i as int),
                    self@.active_profile,
                ),
            decreases n - i,
        {
            assert(ps[i as int] == self.profiles@[i as int]@);
            if self.profiles[i].name == self.active_profile {
                return self.profiles[i].duplicate();
            }
            assert(ps.skip(i as int).drop_first() =~= ps.skip(i + 1));
            i = i + 1;
        }
        assert(ps.skip(n as int) =~= Seq::<ProfileView>::empty());
        Profile::default()
    }
}

proof fn lemma_find_first(ps: Seq<ProfileView>, name: Seq<char>, i: int)
    requires
        0 <= i < ps.len(),
        ps[i].name == name,
        forall|j: int| 0 <= j < i ==> ps[j].name != name,
    ensures
        find_profile(ps, name) == Some(ps[i]),
    decreases i,
{
    if i > 0 {
        assert(ps[0].name != name);
        let rest = ps.drop_first();
        assert forall|j: int| 0 <= j < i - 1 implies rest[j].name != name by {
            assert(rest[j] == ps[j + 1]);
        }
        assert(rest[i - 1] == ps[i]);
        lemma_find_first(rest, name, i - 1);
    }
}

proof fn lemma_find_none(ps: Seq<ProfileView>, name: Seq<char>)
    requires
        forall|j: int| 0 <= j < ps.len() ==> ps[j].name != name,
    ensures
        find_profile(ps, name) is None,
    decreases ps.len(),
{
    if ps.len() > 0 {
        let rest = ps.drop_first();
        assert forall|j: int| 0 <= j < rest.len() implies rest[j].name != name by {
            assert(rest[j] == ps[j + 1]);
        }
        lemma_find_none(rest, name);
    }
}

/// The active profile is the first profile, anywhere in the list, whose
/// name is `active_profile`.
pub proof fn law_active_profile_is_first_named(c: ConfigView, i: int)
    requires
        0 <= i < c.profiles.len(),
        c.profiles[i].name == c.active_profile,
        forall|j: int| 0 <= j < i ==> c.profiles[j].name != c.active_profile,
    ensures
        active_profile_of(c) == c.profiles[i],
{
    lemma_find_first(c.profiles, c.active_profile, i);
}

/// Where no profile has the active name, the profile in use has no name,
/// types just the transcript and does not press Enter.
pub proof fn law_unknown_active_profile_types_plain_text(c: ConfigView)
    requires
        forall|j: int| 0 <= j < c.profiles.len() ==> c.profiles[j].name != c.active_profile,
    ensures
        active_profile_of(c) == (ProfileView {
            name: Seq::empty(),
            template: "{text}"@,
            press_enter: false,
        }),
{
    lemma_find_none(c.profiles, c.active_profile);
}

/// Without a key in the config, the key is the environment's value where
/// it is set and not empty, and there is none otherwise.
pub proof fn law_environment_key_when_config_has_none(c: ConfigView, env_value: Option<Seq<char>>)
    requires
        c.stt.api_key.len() == 0,
    ensures
        resolved_api_key(c, env_value) == (match env_value {
            Some(v) => if v.len() > 0 {
                Some(v)
            } else {
                None::<Seq<char>>
            },
            None => None,
        }),
{
}

/// Out of the box the biograph profile is active.
pub proof fn law_default_active_profile_is_biograph()
    ensures
        active_profile_of(default_config()) == biograph_profile(),
{
    assert(default_config().profiles[0] == biograph_profile());
}

/// A key written in the config always wins over the environment.
pub proof fn law_config_key_wins(c: ConfigView, env_value: Option<Seq<char>>)
    requires
        c.stt.api_key.len() != 0,
    ensures
        resolved_api_key(c, env_value) == Some(c.stt.api_key),
{
}

/// Name of the environment variable that overrides the config file's path.
pub const CONFIG_PATH_ENV: &'static str = "VOICEWEDGE_CONFIG";

/// File name of the config file.
pub const CONFIG_FILE_NAME: &'static str = "config.toml";

/// Application name under which the platform config directory is looked up.
pub const APP_NAME: &'static str = "voicewedge";

/// Where the config file is looked for.
#[derive(Debug, Clone, PartialEq, Eq)]
pub enum ConfigLocation {
    /// The path given by the override environment variable, as it stands.
    Given(String),
    /// `config.toml` in the working directory.
    Local,
    /// `config.toml` inside this directory (the platform config directory).
    InDir(String),
}

/// Resolves the config file path:
///   1. `env_override`, the value of `$VOICEWEDGE_CONFIG`, where it is set;
///   2. `./config.toml` where `local_exists`;
///   3. `config.toml` in `project_config_dir`, the OS config dir for this app
///      (e.g. `%APPDATA%\voicewedge`), where there is one;
///   4. otherwise `./config.toml`.
pub fn config_path(
    env_override: Option<String>,
    local_exists: bool,
    project_config_dir: Option<String>,
) -> (loc: ConfigLocation)
    ensures
        env_override matches Some(p) ==> loc == ConfigLocation::Given(p),
        env_override is None && local_exists ==> loc == ConfigLocation::Local,
        env_override is None && !local_exists ==> (match project_config_dir {
            Some(d) => loc == ConfigLocation::InDir(d),
            None => loc == ConfigLocation::Local,
        }),
{
    if let Some(p) = env_override {
        return ConfigLocation::Given(p);
    }
    if local_exists {
        return ConfigLocation::Local;
    }
    match project_config_dir {
        Some(d) => ConfigLocation::InDir(d),
        None => ConfigLocation::Local,
    }
}

/// What reading the config file gave.
#[derive(Debug, Clone)]
pub enum ConfigRead {
    /// The file could not be read.
    Missing,
    /// The file was read but is not a valid config.
    Invalid,
    /// The file was read and parsed.
    Parsed(Config),
}

/// The config in effect: the parsed file, or the defaults where the file is
/// missing or invalid.
pub fn load(read: ConfigRead) -> (c: Config)
    ensures
        (match read {
            ConfigRead::Parsed(p) => c@ == p@,
            _ => c@ == default_config(),
        }),
{
    match read {
        ConfigRead::Parsed(c) => c,
        _ => Config::default(),
    }
}

} // verus!
