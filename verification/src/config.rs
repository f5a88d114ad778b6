//! Persistent application settings and the send-mode vocabulary.

use vstd::prelude::*;
use crate::text::str_eq;

verus! {

/// Where a finished transcript goes.
#[derive(Debug, Clone, Copy, PartialEq, Eq, Structural)]
pub enum SendMode {
    Clipboard,
    File,
    HttpPost,
    ActiveWindow,
}

/// The persisted settings of the application.
///
/// The two floating-point settings (`gain_level`, `temperature`) are held as
/// their IEEE-754 `f32` bit patterns; the edge of the program turns them back
/// into `f32` with `f32::from_bits`.
#[derive(Debug, Clone)]
pub struct AppConfig {
    pub model_path: String,
    pub language: String,
    pub send_mode: SendMode,
    pub http_url: String,
    pub gpu_enabled: bool,
    pub hotkey: String,
    pub output_dir: String,
    pub hotkey_toggle_enabled: bool,
    pub hotkey_ptt_enabled: bool,
    pub correction_enabled: bool,
    pub gain_enabled: bool,
    /// Bit pattern of the `f32` gain factor.
    pub gain_level: u32,
    /// "" (no conversion), "s2twp" or "t2sp".
    pub opencc_mode: String,
    pub languagetool_enabled: bool,
    /// Bit pattern of the `f32` sampling temperature.
    pub temperature: u32,
    pub beam_size: i32,
    pub best_of: i32,
    pub no_context: bool,
    pub single_segment: bool,
    pub word_timestamps: bool,
    pub initial_prompt: String,
    pub max_len: i32,
}

/// Bit pattern of the `f32` value 2.0.
pub const GAIN_LEVEL_DEFAULT_BITS: u32 = 0x4000_0000u32;

/// Default for boolean settings that are on unless a stored file says otherwise.
pub fn default_true() -> (r: bool)
    ensures
        r,
{
    true
}

/// Default gain factor (2.0), as an `f32` bit pattern.
pub fn default_gain_level() -> (r: u32)
    ensures
        r == GAIN_LEVEL_DEFAULT_BITS,
{
    GAIN_LEVEL_DEFAULT_BITS
}

/// Default beam width of the decoder.
pub fn default_beam_size() -> (r: i32)
    ensures
        r == 5,
{
    5
}

/// Default number of greedy samples.
pub fn default_best_of() -> (r: i32)
    ensures
        r == 5,
{
    5
}

/// The canonical name of a send mode.
pub open spec fn send_mode_name(m: SendMode) -> Seq<char> {
    match m {
        SendMode::Clipboard => "clipboard"@,
        SendMode::File => "file"@,
        SendMode::HttpPost => "http-post"@,
        SendMode::ActiveWindow => "active-window"@,
    }
}

/// The send mode that a name selects; unknown names select the clipboard.
pub open spec fn send_mode_of_name(name: Seq<char>) -> SendMode {
    if name == "file"@ {
        SendMode::File
    } else if name == "http-post"@ {
        SendMode::HttpPost
    } else if name == "active-window"@ {
        SendMode::ActiveWindow
    } else {
        SendMode::Clipboard
    }
}

/// The settings as values.
pub struct AppConfigView {
    pub model_path: Seq<char>,
    pub language: Seq<char>,
    pub send_mode: SendMode,
    pub http_url: Seq<char>,
    pub gpu_enabled: bool,
    pub hotkey: Seq<char>,
    pub output_dir: Seq<char>,
    pub hotkey_toggle_enabled: bool,
    pub hotkey_ptt_enabled: bool,
    pub correction_enabled: bool,
    pub gain_enabled: bool,
    pub gain_level: u32,
    pub opencc_mode: Seq<char>,
    pub languagetool_enabled: bool,
    pub temperature: u32,
    pub beam_size: i32,
    pub best_of: i32,
    pub no_context: bool,
    pub single_segment: bool,
    pub word_timestamps: bool,
    pub initial_prompt: Seq<char>,
    pub max_len: i32,
}

impl View for AppConfig {
    type V = AppConfigView;

    open spec fn view(&self) -> AppConfigView {
        AppConfigView {
            model_path: self.model_path@,
            language: self.language@,
            send_mode: self.send_mode,
            http_url: self.http_url@,
            gpu_enabled: self.gpu_enabled,
            hotkey: self.hotkey@,
            output_dir: self.output_dir@,
            hotkey_toggle_enabled: self.hotkey_toggle_enabled,
            hotkey_ptt_enabled: self.hotkey_ptt_enabled,
            correction_enabled: self.correction_enabled,
            gain_enabled: self.gain_enabled,
            gain_level: self.gain_level,
            opencc_mode: self.opencc_mode@,
            languagetool_enabled: self.languagetool_enabled,
            temperature: self.temperature,
            beam_size: self.beam_size,
            best_of: self.best_of,
            no_context: self.no_context,
            single_segment: self.single_segment,
            word_timestamps: self.word_timestamps,
            initial_prompt: self.initial_prompt@,
            max_len: self.max_len,
        }
    }
}

/// The default configuration.
pub open spec fn default_config() -> AppConfigView {
    AppConfigView {
        model_path: "models/ggml-medium.bin"@,
        language: "auto"@,
        send_mode: SendMode::Clipboard,
        http_url: Seq::empty(),
        gpu_enabled: true,
        hotkey: Seq::empty(),
        output_dir: "output"@,
        hotkey_toggle_enabled: true,
        hotkey_ptt_enabled: true,
        correction_enabled: true,
        gain_enabled: false,
        gain_level: GAIN_LEVEL_DEFAULT_BITS,
        opencc_mode: Seq::empty(),
        languagetool_enabled: true,
        temperature: 0,
        beam_size: 5,
        best_of: 5,
        no_context: false,
        single_segment: false,
        word_timestamps: false,
        initial_prompt: Seq::empty(),
        max_len: 0,
    }
}

impl Default for AppConfig {
    fn default() -> (c: Self)
        ensures
            c@ == default_config(),
    {
        AppConfig {
            model_path: String::from_str("models/ggml-medium.bin"),
            language: String::from_str("auto"),
            send_mode: SendMode::Clipboard,
            http_url: String::new(),
            gpu_enabled: true,
            hotkey: String::new(),
            output_dir: String::from_str("output"),
            hotkey_toggle_enabled: true,
            hotkey_ptt_enabled: true,
            correction_enabled: true,
            gain_enabled: false,
            gain_level: GAIN_LEVEL_DEFAULT_BITS,
            opencc_mode: String::new(),
            languagetool_enabled: true,
            temperature: 0,
            beam_size: 5,
            best_of: 5,
            no_context: false,
            single_segment: false,
            word_timestamps: false,
            initial_prompt: String::new(),
            max_len: 0,
        }
    }
}

impl AppConfig {
    /// The canonical name of the configured send mode.
    pub fn send_mode_str(&self) -> (r: &'static str)
        ensures
            r@ == send_mode_name(self.send_mode),
    {
        match self.send_mode {
            SendMode::Clipboard => "clipboard",
            SendMode::File => "file",
            SendMode::HttpPost => "http-post",
            SendMode::ActiveWindow => "active-window",
        }
    }

    /// Selects the send mode by name; any name but "file", "http-post" and
    /// "active-window" selects the clipboard. Nothing else changes.
    pub fn set_send_mode(&mut self, mode: &str)
        ensures
            final(self)@ == (AppConfigView { send_mode: send_mode_of_name(mode@), ..old(self)@ }),
    {
        self.send_mode = if str_eq(mode, "file") {
            SendMode::File
        } else if str_eq(mode, "http-post") {
            SendMode::HttpPost
        } else if str_eq(mode, "active-window") {
            SendMode::ActiveWindow
        } else {
            SendMode::Clipboard
        };
    }
}

/// The path starts with the Windows verbatim prefix `\\?\`.
pub open spec fn is_verbatim_path(p: Seq<char>) -> bool {
    p.len() >= 4 && p[0] == '\\' && p[1] == '\\' && p[2] == '?' && p[3] == '\\'
}

/// The path is a bare Windows drive such as "C:".
pub open spec fn is_bare_drive(p: Seq<char>) -> bool {
    p.len() == 2 && (('a' <= p[0] && p[0] <= 'z') || ('A' <= p[0] && p[0] <= 'Z')) && p[1] == ':'
}

/// What `PathBuf::push` puts between `base` and a relative name when the
/// platform's separator is `sep`: nothing after an empty base, after a base
/// ending in '/' or in `sep`, or (with '\\' as separator) after a bare
/// drive; `sep` otherwise.
pub open spec fn join_gap(base: Seq<char>, sep: char) -> Seq<char> {
    if base.len() == 0 || base.last() == '/' || base.last() == sep || (sep == '\\' && is_bare_drive(base)) {
        Seq::empty()
    } else {
        seq![sep]
    }
}

/// `first` and then `second` put under `base` with the separator `sep`.
pub open spec fn joined_twice(base: Seq<char>, first: Seq<char>, second: Seq<char>, sep: char) -> Seq<char> {
    base + join_gap(base, sep) + first + seq![sep] + second
}

/// `r` ends with `first`, the separator `sep`, and `second`.
pub open spec fn ends_with_joined(r: Seq<char>, first: Seq<char>, second: Seq<char>, sep: char) -> bool {
    let k = first.len() + 1 + second.len();
    r.len() >= k && r.subrange(r.len() - k, r.len() as int) == first + seq![sep] + second
}

/// `r` is `first` and `second` put under `base` with the platform's
/// separator, '/' or '\\': it always ends with `first`, the separator and
/// `second`, and for a base without a verbatim prefix it is exactly
/// `joined_twice`.
pub open spec fn is_joined_twice(base: Seq<char>, first: Seq<char>, second: Seq<char>, r: Seq<char>) -> bool {
    exists|sep: char|
        (sep == '/' || sep == '\\') && #[trigger] ends_with_joined(r, first, second, sep) && (!is_verbatim_path(base)
            ==> r == joined_twice(base, first, second, sep))
}

/// `dirs::data_dir()`, converted to a `String` (lossily, should the path not
/// be UTF-8). It depends on the platform and the environment, so nothing is
/// stated of it.
#[verifier::external_body]
fn data_dir() -> (r: Option<String>) {
    dirs::data_dir().map(|p| p.to_string_lossy().into_owned())
}

/// `Path::new(base).join(first).join(second)`, as a `String`. For plain
/// relative names each join appends the name, after the platform's
/// separator (`std::path::MAIN_SEPARATOR`, '/' or '\\') unless the path so
/// far is empty, ends in a separator, or is a bare drive (see `join_gap`);
/// the second join always adds one, as `first` ends in neither. A base with
/// a verbatim prefix has its "." and ".." components removed by the join;
/// for it only the end of the result (`first`, separator, `second`) is
/// stated.
#[verifier::external_body]
fn join_path_twice(base: &str, first: &str, second: &str) -> (r: String)
    requires
        crate::models::is_plain_file_name(first@),
        crate::models::is_plain_file_name(second@),
    ensures
        is_joined_twice(base@, first@, second@, r@),
{
    std::path::Path::new(base).join(first).join(second).to_string_lossy().into_owned()
}

/// The base directory of the configuration: the data directory, or the
/// working directory "." when there is none.
pub open spec fn config_base(data_dir: Option<Seq<char>>) -> Seq<char> {
    match data_dir {
        Some(d) => d,
        None => "."@,
    }
}

/// `r` is "whisper-gui/config.json" under the configuration base of
/// `data_dir`, with the platform's separator.
pub open spec fn is_config_path(data_dir: Option<Seq<char>>, r: Seq<char>) -> bool {
    is_joined_twice(config_base(data_dir), "whisper-gui"@, "config.json"@, r)
}

/// Where the configuration is kept under the data directory `data_dir`
/// (the working directory when there is none): "whisper-gui/config.json".
pub fn config_path_in(data_dir: Option<&str>) -> (r: String)
    ensures
        is_config_path(if data_dir is Some { Some(data_dir->0@) } else { None }, r@),
{
    proof {
        reveal_strlit("whisper-gui");
        reveal_strlit("config.json");
        reveal_strlit(".");
        assert("config.json"@.len() == 11);
        assert("whisper-gui"@.len() == 11);
    }
    let base: &str = match data_dir {
        Some(d) => d,
        None => ".",
    };
    join_path_twice(base, "whisper-gui", "config.json")
}

impl AppConfig {
    /// The file the configuration is kept in: "whisper-gui/config.json" under
    /// the user's data directory (or the working directory when there is
    /// none).
    pub fn config_path() -> (r: String)
        ensures
            exists|d: Option<Seq<char>>| #[trigger] is_config_path(d, r@),
            exists|sep: char|
                (sep == '/' || sep == '\\') && #[trigger] ends_with_joined(
                    r@,
                    "whisper-gui"@,
                    "config.json"@,
                    sep,
                ),
    {
        let d = data_dir();
        match d {
            Some(dir) => {
                let r = config_path_in(Some(dir.as_str()));
                assert(is_config_path(Some(dir@), r@));
                r
            },
            None => {
                let r = config_path_in(None);
                assert(is_config_path(None, r@));
                r
            },
        }
    }
}

/// Naming a send mode and selecting by that name gives the mode back; and a
/// name that is one of the four canonical names is the name of what it
/// selects.
pub proof fn law_send_mode_round_trip(m: SendMode, name: Seq<char>)
    ensures
        send_mode_of_name(send_mode_name(m)) == m,
        (name == "clipboard"@ || name == "file"@ || name == "http-post"@ || name == "active-window"@)
            ==> send_mode_name(send_mode_of_name(name)) == name,
{
    reveal_strlit("clipboard");
    reveal_strlit("file");
    reveal_strlit("http-post");
    reveal_strlit("active-window");
    assert("clipboard"@.len() == 9);
    assert("file"@.len() == 4);
    assert("http-post"@.len() == 9);
    assert("active-window"@.len() == 13);
    assert("clipboard"@ != "file"@);
    assert("clipboard"@[0] != "http-post"@[0]);
    assert("clipboard"@ != "http-post"@);
    assert("clipboard"@ != "active-window"@);
    assert("file"@ != "http-post"@);
    assert("file"@ != "active-window"@);
    assert("http-post"@ != "active-window"@);
}

} // verus!
