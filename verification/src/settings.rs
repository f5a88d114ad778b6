//! The settings form of the window and how it is filled from, and saved
//! into, the configuration.

use vstd::prelude::*;
use crate::config::{AppConfig, AppConfigView, SendMode, send_mode_name, send_mode_of_name};
use crate::models::{extract_model_name, has_portable_file_name, is_infix_of, last_component, stem_of_name};

verus! {

/// The fields of the settings form.
pub struct UiSettings {
    pub model_path: String,
    pub language: String,
    pub send_mode: String,
    pub http_url: String,
    pub gpu_enabled: bool,
    pub hotkey: String,
    pub output_dir: String,
    pub hotkey_toggle_enabled: bool,
    pub hotkey_ptt_enabled: bool,
}

/// The settings form as values.
pub struct UiSettingsView {
    pub model_path: Seq<char>,
    pub language: Seq<char>,
    pub send_mode: Seq<char>,
    pub http_url: Seq<char>,
    pub gpu_enabled: bool,
    pub hotkey: Seq<char>,
    pub output_dir: Seq<char>,
    pub hotkey_toggle_enabled: bool,
    pub hotkey_ptt_enabled: bool,
}

impl View for UiSettings {
    type V = UiSettingsView;

    open spec fn view(&self) -> UiSettingsView {
        UiSettingsView {
            model_path: self.model_path@,
            language: self.language@,
            send_mode: self.send_mode@,
            http_url: self.http_url@,
            gpu_enabled: self.gpu_enabled,
            hotkey: self.hotkey@,
            output_dir: self.output_dir@,
            hotkey_toggle_enabled: self.hotkey_toggle_enabled,
            hotkey_ptt_enabled: self.hotkey_ptt_enabled,
        }
    }
}

/// What the window shows at start-up: the form, the current model's name
/// and the current language.
pub struct UiSync {
    pub settings: UiSettings,
    pub current_model: String,
    pub current_language: String,
}

/// The form filled from a configuration.
pub open spec fn settings_of(c: AppConfigView) -> UiSettingsView {
    UiSettingsView {
        model_path: c.model_path,
        language: c.language,
        send_mode: send_mode_name(c.send_mode),
        http_url: c.http_url,
        gpu_enabled: c.gpu_enabled,
        hotkey: c.hotkey,
        output_dir: c.output_dir,
        hotkey_toggle_enabled: c.hotkey_toggle_enabled,
        hotkey_ptt_enabled: c.hotkey_ptt_enabled,
    }
}

/// The configuration after saving the form `s` into `c`; the settings that
/// the form does not show keep their values.
pub open spec fn with_settings(c: AppConfigView, s: UiSettingsView) -> AppConfigView {
    AppConfigView {
        model_path: s.model_path,
        language: s.language,
        send_mode: send_mode_of_name(s.send_mode),
        http_url: s.http_url,
        gpu_enabled: s.gpu_enabled,
        hotkey: s.hotkey,
        output_dir: s.output_dir,
        hotkey_toggle_enabled: s.hotkey_toggle_enabled,
        hotkey_ptt_enabled: s.hotkey_ptt_enabled,
        ..c
    }
}

/// The form filled from the configuration (when settings are loaded).
pub fn settings_from_config(cfg: &AppConfig) -> (r: UiSettings)
    ensures
        r@ == settings_of(cfg@),
        r.model_path@ == cfg.model_path@,
        r.language@ == cfg.language@,
        r.send_mode@ == send_mode_name(cfg.send_mode),
        r.http_url@ == cfg.http_url@,
        r.gpu_enabled == cfg.gpu_enabled,
        r.hotkey@ == cfg.hotkey@,
        r.output_dir@ == cfg.output_dir@,
        r.hotkey_toggle_enabled == cfg.hotkey_toggle_enabled,
        r.hotkey_ptt_enabled == cfg.hotkey_ptt_enabled,
{
    UiSettings {
        model_path: String::from_str(cfg.model_path.as_str()),
        language: String::from_str(cfg.language.as_str()),
        send_mode: String::from_str(cfg.send_mode_str()),
        http_url: String::from_str(cfg.http_url.as_str()),
        gpu_enabled: cfg.gpu_enabled,
        hotkey: String::from_str(cfg.hotkey.as_str()),
        output_dir: String::from_str(cfg.output_dir.as_str()),
        hotkey_toggle_enabled: cfg.hotkey_toggle_enabled,
        hotkey_ptt_enabled: cfg.hotkey_ptt_enabled,
    }
}

/// What the window shows at start-up: the form filled from the
/// configuration with the GPU always on, the name of the configured model
/// ("tiny" when the path has no file stem) and the configured language.
pub fn sync_config_to_ui(cfg: &AppConfig) -> (r: UiSync)
    ensures
        r.settings@ == (UiSettingsView { gpu_enabled: true, ..settings_of(cfg@) }),
        r.settings.gpu_enabled,
        r.settings.model_path@ == cfg.model_path@,
        r.settings.send_mode@ == send_mode_name(cfg.send_mode),
        r.settings.hotkey_toggle_enabled == cfg.hotkey_toggle_enabled,
        r.settings.hotkey_ptt_enabled == cfg.hotkey_ptt_enabled,
        r.current_language@ == cfg.language@,
        cfg.model_path@.len() == 0 ==> r.current_model@ == "tiny"@,
        r.current_model@ == "tiny"@ || (r.current_model@.len() > 0 && is_infix_of(
            r.current_model@,
            cfg.model_path@,
        )),
        has_portable_file_name(cfg.model_path@) ==> r.current_model@ == stem_of_name(
            last_component(cfg.model_path@),
        ),
{
    let mut settings = settings_from_config(cfg);
    settings.gpu_enabled = true;
    UiSync {
        settings,
        current_model: extract_model_name(cfg.model_path.as_str()),
        current_language: String::from_str(cfg.language.as_str()),
    }
}

/// Saves the form into the configuration.
pub fn apply_settings(cfg: &mut AppConfig, s: &UiSettings)
    ensures
        final(cfg)@ == with_settings(old(cfg)@, s@),
        final(cfg).model_path@ == s.model_path@,
        final(cfg).language@ == s.language@,
        final(cfg).send_mode == send_mode_of_name(s.send_mode@),
        final(cfg).http_url@ == s.http_url@,
        final(cfg).gpu_enabled == s.gpu_enabled,
        final(cfg).hotkey@ == s.hotkey@,
        final(cfg).output_dir@ == s.output_dir@,
        final(cfg).hotkey_toggle_enabled == s.hotkey_toggle_enabled,
        final(cfg).hotkey_ptt_enabled == s.hotkey_ptt_enabled,
        final(cfg).correction_enabled == old(cfg).correction_enabled,
        final(cfg).opencc_mode@ == old(cfg).opencc_mode@,
        final(cfg).languagetool_enabled == old(cfg).languagetool_enabled,
{
    cfg.model_path = String::from_str(s.model_path.as_str());
    cfg.language = String::from_str(s.language.as_str());
    cfg.set_send_mode(s.send_mode.as_str());
    cfg.http_url = String::from_str(s.http_url.as_str());
    cfg.gpu_enabled = s.gpu_enabled;
    cfg.hotkey = String::from_str(s.hotkey.as_str());
    cfg.output_dir = String::from_str(s.output_dir.as_str());
    cfg.hotkey_toggle_enabled = s.hotkey_toggle_enabled;
    cfg.hotkey_ptt_enabled = s.hotkey_ptt_enabled;
}

/// Saving the form as it was loaded from a configuration leaves the
/// configuration as it was.
pub proof fn law_save_loaded_settings(c: AppConfigView)
    ensures
        with_settings(c, settings_of(c)) == c,
{
    crate::config::law_send_mode_round_trip(c.send_mode, Seq::empty());
}

/// Loading the form back from a configuration into which it was saved gives
/// the same form, when its send mode is one of the canonical names.
pub proof fn law_load_saved_settings(c: AppConfigView, s: UiSettingsView)
    requires
        s.send_mode == "clipboard"@ || s.send_mode == "file"@ || s.send_mode == "http-post"@
            || s.send_mode == "active-window"@,
    ensures
        settings_of(with_settings(c, s)) == s,
{
    crate::config::law_send_mode_round_trip(SendMode::Clipboard, s.send_mode);
}

/// Loading fills each field of the form from the configuration's field of
/// the same name (the send mode by its name), and saving writes each field
/// of the form into the configuration's field of the same name (the send
/// mode by the name's mode), leaving every setting the form does not show as
/// it was.
pub proof fn law_settings_fieldwise(c: AppConfigView, s: UiSettingsView)
    ensures
        settings_of(c).model_path == c.model_path,
        settings_of(c).language == c.language,
        settings_of(c).send_mode == send_mode_name(c.send_mode),
        settings_of(c).http_url == c.http_url,
        settings_of(c).gpu_enabled == c.gpu_enabled,
        settings_of(c).hotkey == c.hotkey,
        settings_of(c).output_dir == c.output_dir,
        settings_of(c).hotkey_toggle_enabled == c.hotkey_toggle_enabled,
        settings_of(c).hotkey_ptt_enabled == c.hotkey_ptt_enabled,
        with_settings(c, s).model_path == s.model_path,
        with_settings(c, s).language == s.language,
        with_settings(c, s).send_mode == send_mode_of_name(s.send_mode),
        with_settings(c, s).http_url == s.http_url,
        with_settings(c, s).gpu_enabled == s.gpu_enabled,
        with_settings(c, s).hotkey == s.hotkey,
        with_settings(c, s).output_dir == s.output_dir,
        with_settings(c, s).hotkey_toggle_enabled == s.hotkey_toggle_enabled,
        with_settings(c, s).hotkey_ptt_enabled == s.hotkey_ptt_enabled,
        with_settings(c, s).correction_enabled == c.correction_enabled,
        with_settings(c, s).gain_enabled == c.gain_enabled,
        with_settings(c, s).gain_level == c.gain_level,
        with_settings(c, s).opencc_mode == c.opencc_mode,
        with_settings(c, s).languagetool_enabled == c.languagetool_enabled,
        with_settings(c, s).temperature == c.temperature,
        with_settings(c, s).beam_size == c.beam_size,
        with_settings(c, s).best_of == c.best_of,
        with_settings(c, s).no_context == c.no_context,
        with_settings(c, s).single_segment == c.single_segment,
        with_settings(c, s).word_timestamps == c.word_timestamps,
        with_settings(c, s).initial_prompt == c.initial_prompt,
        with_settings(c, s).max_len == c.max_len,
{
}

} // verus!
