use whisper_gui::config::{default_beam_size, default_best_of, default_gain_level, default_true, AppConfig, SendMode};
use whisper_gui::settings::{apply_settings, settings_from_config, sync_config_to_ui};

#[test]
fn default_config_values() {
    let c = AppConfig::default();
    assert_eq!(c.model_path, "models/ggml-medium.bin");
    assert_eq!(c.language, "auto");
    assert_eq!(c.send_mode, SendMode::Clipboard);
    assert!(c.gpu_enabled);
    assert_eq!(c.output_dir, "output");
    assert_eq!(f32::from_bits(c.gain_level), 2.0f32);
    assert_eq!(f32::from_bits(c.temperature), 0.0f32);
    assert_eq!(c.beam_size, 5);
    assert_eq!(c.best_of, 5);
    assert_eq!(c.max_len, 0);
    assert!(c.opencc_mode.is_empty());
}

#[test]
fn default_helpers() {
    assert!(default_true());
    assert_eq!(default_beam_size(), 5);
    assert_eq!(default_best_of(), 5);
    assert_eq!(f32::from_bits(default_gain_level()), 2.0f32);
}

#[test]
fn send_mode_names_round_trip() {
    let mut c = AppConfig::default();
    for (name, mode) in [
        ("clipboard", SendMode::Clipboard),
        ("file", SendMode::File),
        ("http-post", SendMode::HttpPost),
        ("active-window", SendMode::ActiveWindow),
    ] {
        c.set_send_mode(name);
        assert_eq!(c.send_mode, mode);
        assert_eq!(c.send_mode_str(), name);
    }
    c.set_send_mode("carrier pigeon");
    assert_eq!(c.send_mode, SendMode::Clipboard);
}

#[test]
fn settings_round_trip() {
    let mut c = AppConfig::default();
    c.set_send_mode("file");
    c.http_url = "http://localhost:9000".to_string();
    c.gpu_enabled = false;
    let s = settings_from_config(&c);
    assert_eq!(s.send_mode, "file");
    assert!(!s.gpu_enabled);
    let mut d = c.clone();
    apply_settings(&mut d, &s);
    assert_eq!(d.send_mode, SendMode::File);
    assert_eq!(d.http_url, "http://localhost:9000");
    assert!(!d.gpu_enabled);
}

#[test]
fn sync_forces_gpu_and_names_model() {
    let mut c = AppConfig::default();
    c.gpu_enabled = false;
    let u = sync_config_to_ui(&c);
    assert!(u.settings.gpu_enabled);
    assert_eq!(u.current_model, "ggml-medium");
    assert_eq!(u.current_language, "auto");
    assert_eq!(u.settings.send_mode, "clipboard");
}

#[test]
fn config_path_ends_in_app_dir() {
    let p = AppConfig::config_path();
    let sep = std::path::MAIN_SEPARATOR;
    assert!(p.ends_with(&format!("whisper-gui{sep}config.json")));
    assert_eq!(whisper_gui::config::config_path_in(None), format!(".{sep}whisper-gui{sep}config.json"));
    assert_eq!(
        whisper_gui::config::config_path_in(Some("/home/a/.local/share/")),
        format!("/home/a/.local/share/whisper-gui{sep}config.json")
    );
}
