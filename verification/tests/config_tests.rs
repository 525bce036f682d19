use voicewedge::config::{config_path, load, Config, ConfigLocation, ConfigRead, Profile};

#[test]
fn default_config_values() {
    let c = Config::default();
    assert_eq!(c.hotkey, "Super+Alt+Space");
    assert_eq!(c.mode, "enter_to_stop");
    assert_eq!(c.active_profile, "biograph");
    assert_eq!(c.profiles.len(), 2);
    assert_eq!(c.profiles[0].name, "biograph");
    assert_eq!(c.profiles[0].template, "{text}  /bio:voice {filename}");
    assert!(c.profiles[0].press_enter);
    assert_eq!(c.profiles[1].name, "plain");
    assert_eq!(c.profiles[1].template, "{text}");
    assert!(!c.profiles[1].press_enter);
    assert_eq!(c.stt.provider, "openrouter");
    assert_eq!(c.stt.model, "openai/gpt-4o-transcribe");
    assert_eq!(c.stt.language, "layout");
    assert_eq!(c.stt.api_key_env, "OPENROUTER_API_KEY");
    assert_eq!(c.stt.api_key, "");
    assert_eq!(c.stt.endpoint, "https://openrouter.ai/api/v1/audio/transcriptions");
    assert_eq!(c.stt.timeout_secs, 60);
    assert_eq!(c.inject.method, "type");
    assert!(c.inject.restore_clipboard);
    assert_eq!(c.audio.inbox_dir, "recordings");
    assert_eq!(c.audio.sample_rate, 16000);
    assert_eq!(c.audio.format, "wav");
    assert_eq!(c.audio.max_seconds, 300);
    assert!(c.feedback.overlay && c.feedback.toast && c.feedback.sound);
}

#[test]
fn default_profile_types_text_only() {
    let p = Profile::default();
    assert_eq!(p.name, "");
    assert_eq!(p.template, "{text}");
    assert!(!p.press_enter);
}

#[test]
fn active_profile_default_is_biograph() {
    let c = Config::default();
    let p = c.active_profile();
    assert_eq!(p.name, "biograph");
    assert_eq!(p.template, "{text}  /bio:voice {filename}");
    assert!(p.press_enter);
}

#[test]
fn active_profile_switches_by_name() {
    let mut c = Config::default();
    c.active_profile = "plain".to_string();
    let p = c.active_profile();
    assert_eq!(p.name, "plain");
    assert_eq!(p.template, "{text}");
    assert!(!p.press_enter);
}

#[test]
fn active_profile_first_of_duplicates() {
    let mut c = Config::default();
    c.profiles.push(Profile { name: "plain".to_string(), template: "x {text}".to_string(), press_enter: true });
    c.active_profile = "plain".to_string();
    assert_eq!(c.active_profile().template, "{text}");
}

#[test]
fn active_profile_unknown_falls_back_to_default() {
    let mut c = Config::default();
    c.active_profile = "nope".to_string();
    let p = c.active_profile();
    assert_eq!(p.name, "");
    assert_eq!(p.template, "{text}");
    assert!(!p.press_enter);
    c.profiles.clear();
    c.active_profile = "biograph".to_string();
    assert_eq!(c.active_profile().template, "{text}");
}

#[test]
fn api_key_from_config_wins() {
    let mut c = Config::default();
    c.stt.api_key = "cfg-key".to_string();
    assert_eq!(c.resolve_api_key(Some("env-key".to_string())), Some("cfg-key".to_string()));
    assert_eq!(c.resolve_api_key(None), Some("cfg-key".to_string()));
}

#[test]
fn api_key_from_environment() {
    let c = Config::default();
    assert_eq!(c.resolve_api_key(Some("env-key".to_string())), Some("env-key".to_string()));
    assert_eq!(c.resolve_api_key(Some(String::new())), None);
    assert_eq!(c.resolve_api_key(None), None);
}

#[test]
fn config_path_order() {
    assert_eq!(
        config_path(Some("/etc/vw.toml".to_string()), true, Some("/home/u/.config/voicewedge".to_string())),
        ConfigLocation::Given("/etc/vw.toml".to_string())
    );
    assert_eq!(config_path(None, true, Some("/cfg".to_string())), ConfigLocation::Local);
    assert_eq!(config_path(None, false, Some("/cfg".to_string())), ConfigLocation::InDir("/cfg".to_string()));
    assert_eq!(config_path(None, false, None), ConfigLocation::Local);
}

#[test]
fn load_falls_back_to_defaults() {
    let d = load(ConfigRead::Missing);
    assert_eq!(d.active_profile, "biograph");
    assert_eq!(d.profiles.len(), 2);
    let i = load(ConfigRead::Invalid);
    assert_eq!(i.stt.model, "openai/gpt-4o-transcribe");
    let mut c = Config::default();
    c.hotkey = "Ctrl+Shift+Space".to_string();
    c.stt.timeout_secs = 5;
    let l = load(ConfigRead::Parsed(c));
    assert_eq!(l.hotkey, "Ctrl+Shift+Space");
    assert_eq!(l.stt.timeout_secs, 5);
}
