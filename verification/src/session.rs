//! The recording session as the window drives it: which step each request
//! leads to, the busy flags shown by the window, and the status lines.

use vstd::prelude::*;

verus! {

/// The flags the window shows.
#[derive(Debug, Clone, Copy, PartialEq, Eq, Structural)]
pub struct SessionFlags {
    pub is_recording: bool,
    pub is_processing: bool,
}

/// What happens in the session.
#[derive(Debug, Clone, Copy, PartialEq, Eq, Structural)]
pub enum SessionEvent {
    /// The user asks to start recording; `recorder_active` tells whether the
    /// recorder is already running.
    StartRequested { recorder_active: bool },
    /// The recorder was started (`ok`) or failed to start.
    RecorderStarted { ok: bool },
    /// The user asks to stop; `samples` were captured and `engine_loaded`
    /// tells whether a model is loaded.
    StopRequested { samples: usize, engine_loaded: bool },
    /// A transcription finished; `ok` when it gave a text.
    TranscriptionFinished { ok: bool },
    /// The user asks to load the configured model; `model_exists` tells
    /// whether its file is present.
    LoadRequested { model_exists: bool },
    /// Loading the model finished (well or not).
    LoadFinished,
    /// The model download finished; `ok` when it succeeded (the model is
    /// then asked for again, which looks for its file anew).
    DownloadFinished { ok: bool },
}

/// The step the program takes next.
#[derive(Debug, Clone, Copy, PartialEq, Eq, Structural)]
pub enum SessionStep {
    Nothing,
    StartRecorder,
    /// Show that recording runs, and clear the process log.
    RecordingRunning,
    /// Report that the recorder could not start.
    RecorderFailed,
    /// Report that no audio was captured.
    NoAudio,
    /// Report that no model is loaded.
    NoModel,
    /// Transcribe the captured audio in the background.
    Transcribe,
    /// Load the model file in the background.
    LoadModel,
    /// Ask for the model again: look for its file, then load or download.
    RetryLoad,
    /// Show the transcript and send it to the configured target.
    SendTranscript,
    /// Report that the transcription failed; nothing is sent.
    ReportTranscriptionError,
    /// Download the model, then ask to load it again.
    DownloadModel,
    /// Report that the download failed.
    DownloadFailed,
}

/// The next flags and step for an event.
pub open spec fn session_next(f: SessionFlags, e: SessionEvent) -> (SessionFlags, SessionStep) {
    match e {
        SessionEvent::StartRequested { recorder_active } => if recorder_active {
            (f, SessionStep::Nothing)
        } else {
            (f, SessionStep::StartRecorder)
        },
        SessionEvent::RecorderStarted { ok } => if ok {
            (SessionFlags { is_recording: true, ..f }, SessionStep::RecordingRunning)
        } else {
            (f, SessionStep::RecorderFailed)
        },
        SessionEvent::StopRequested { samples, engine_loaded } => if samples == 0 {
            (SessionFlags { is_recording: false, is_processing: false }, SessionStep::NoAudio)
        } else if !engine_loaded {
            (SessionFlags { is_recording: false, is_processing: false }, SessionStep::NoModel)
        } else {
            (SessionFlags { is_recording: false, is_processing: true }, SessionStep::Transcribe)
        },
        SessionEvent::TranscriptionFinished { ok } => if ok {
            (SessionFlags { is_processing: false, ..f }, SessionStep::SendTranscript)
        } else {
            (SessionFlags { is_processing: false, ..f }, SessionStep::ReportTranscriptionError)
        },
        SessionEvent::LoadRequested { model_exists } => if model_exists {
            (SessionFlags { is_processing: true, ..f }, SessionStep::LoadModel)
        } else {
            (SessionFlags { is_processing: true, ..f }, SessionStep::DownloadModel)
        },
        SessionEvent::LoadFinished => (SessionFlags { is_processing: false, ..f }, SessionStep::Nothing),
        SessionEvent::DownloadFinished { ok } => if ok {
            (f, SessionStep::RetryLoad)
        } else {
            (SessionFlags { is_processing: false, ..f }, SessionStep::DownloadFailed)
        },
    }
}

/// Decides the next flags and step for an event of the session.
pub fn session_step(f: SessionFlags, e: SessionEvent) -> (r: (SessionFlags, SessionStep))
    ensures
        r == session_next(f, e),
        e matches SessionEvent::LoadRequested { model_exists } ==> (r.1 == SessionStep::LoadModel <==> model_exists)
            && (r.1 == SessionStep::DownloadModel <==> !model_exists),
{
    match e {
        SessionEvent::StartRequested { recorder_active } => {
            if recorder_active {
                (f, SessionStep::Nothing)
            } else {
                (f, SessionStep::StartRecorder)
            }
        },
        SessionEvent::RecorderStarted { ok } => {
            if ok {
                (SessionFlags { is_recording: true, is_processing: f.is_processing }, SessionStep::RecordingRunning)
            } else {
                (f, SessionStep::RecorderFailed)
            }
        },
        SessionEvent::StopRequested { samples, engine_loaded } => {
            if samples == 0 {
                (SessionFlags { is_recording: false, is_processing: false }, SessionStep::NoAudio)
            } else if !engine_loaded {
                (SessionFlags { is_recording: false, is_processing: false }, SessionStep::NoModel)
            } else {
                (SessionFlags { is_recording: false, is_processing: true }, SessionStep::Transcribe)
            }
        },
        SessionEvent::TranscriptionFinished { ok } => {
            let g = SessionFlags { is_recording: f.is_recording, is_processing: false };
            if ok {
                (g, SessionStep::SendTranscript)
            } else {
                (g, SessionStep::ReportTranscriptionError)
            }
        },
        SessionEvent::LoadRequested { model_exists } => {
            let g = SessionFlags { is_recording: f.is_recording, is_processing: true };
            if model_exists {
                (g, SessionStep::LoadModel)
            } else {
                (g, SessionStep::DownloadModel)
            }
        },
        SessionEvent::LoadFinished => {
            (SessionFlags { is_recording: f.is_recording, is_processing: false }, SessionStep::Nothing)
        },
        SessionEvent::DownloadFinished { ok } => {
            if ok {
                (f, SessionStep::RetryLoad)
            } else {
                (SessionFlags { is_recording: f.is_recording, is_processing: false }, SessionStep::DownloadFailed)
            }
        },
    }
}

/// A stop request always ends recording; it leaves the session busy only
/// when a transcription was started, and one is started exactly when audio
/// was captured and a model is loaded.
pub proof fn law_stop_ends_recording(f: SessionFlags, samples: usize, engine_loaded: bool)
    ensures
        !session_next(f, SessionEvent::StopRequested { samples, engine_loaded }).0.is_recording,
        session_next(f, SessionEvent::StopRequested { samples, engine_loaded }).0.is_processing
            <==> (samples > 0 && engine_loaded),
        (session_next(f, SessionEvent::StopRequested { samples, engine_loaded }).1 == SessionStep::Transcribe)
            <==> (samples > 0 && engine_loaded),
{
}

/// Every finished background job (transcription, load, failed download)
/// clears the busy flag, a start request never restarts a running recorder,
/// and a transcript is sent exactly when the transcription gave one.
pub proof fn law_jobs_clear_busy(f: SessionFlags, ok: bool)
    ensures
        !session_next(f, SessionEvent::TranscriptionFinished { ok }).0.is_processing,
        (session_next(f, SessionEvent::TranscriptionFinished { ok }).1 == SessionStep::SendTranscript) <==> ok,
        !session_next(f, SessionEvent::LoadFinished).0.is_processing,
        !session_next(f, SessionEvent::DownloadFinished { ok: false }).0.is_processing,
        session_next(f, SessionEvent::StartRequested { recorder_active: true }).1 == SessionStep::Nothing,
{
}

/// A load request loads the model when its file exists and downloads it
/// otherwise, whatever the flags; either way the session becomes busy and
/// recording is left as it was.
pub proof fn law_load_request(f: SessionFlags, model_exists: bool)
    ensures
        model_exists ==> session_next(f, SessionEvent::LoadRequested { model_exists }).1 == SessionStep::LoadModel,
        !model_exists ==> session_next(f, SessionEvent::LoadRequested { model_exists }).1
            == SessionStep::DownloadModel,
        session_next(f, SessionEvent::LoadRequested { model_exists }).0.is_processing,
        session_next(f, SessionEvent::LoadRequested { model_exists }).0.is_recording == f.is_recording,
{
}

/// The step taken for an event depends on the event alone, never on the
/// flags; and only a started recorder or a stop request changes whether
/// recording runs.
pub proof fn law_step_ignores_flags(f: SessionFlags, g: SessionFlags, e: SessionEvent)
    ensures
        session_next(f, e).1 == session_next(g, e).1,
        !(e is RecorderStarted || e is StopRequested) ==> session_next(f, e).0.is_recording == f.is_recording,
{
}

/// A download that succeeded asks for the model again (keeping the session
/// busy), one that failed is reported and ends the busy state; a start
/// request starts the recorder exactly when it is not already running, and a
/// recorder that started marks the session as recording.
pub proof fn law_download_and_start(f: SessionFlags, ok: bool, recorder_active: bool)
    ensures
        ok ==> session_next(f, SessionEvent::DownloadFinished { ok }) == (f, SessionStep::RetryLoad),
        !ok ==> session_next(f, SessionEvent::DownloadFinished { ok }).1 == SessionStep::DownloadFailed,
        (session_next(f, SessionEvent::StartRequested { recorder_active }).1 == SessionStep::StartRecorder)
            <==> !recorder_active,
        session_next(f, SessionEvent::StartRequested { recorder_active }).0 == f,
        ok ==> session_next(f, SessionEvent::RecorderStarted { ok }).0.is_recording,
        ok ==> session_next(f, SessionEvent::RecorderStarted { ok }).1 == SessionStep::RecordingRunning,
        !ok ==> session_next(f, SessionEvent::RecorderStarted { ok }) == (f, SessionStep::RecorderFailed),
{
}

/// The status line when loading a model begins.
pub fn loading_status(model_path: &str) -> (r: String)
    ensures
        r@ == "載入模型中: "@ + model_path@ + "…"@,
{
    let mut s = String::from_str("載入模型中: ");
    s.append(model_path);
    s.append("…");
    s
}

/// The status line when a model download begins.
pub fn downloading_status(model_name: &str) -> (r: String)
    ensures
        r@ == "⬇ 下載 "@ + model_name@ + " 模型中（請稍候）…"@,
{
    let mut s = String::from_str("⬇ 下載 ");
    s.append(model_name);
    s.append(" 模型中（請稍候）…");
    s
}

/// The status line after a model loaded.
pub fn loaded_status(model_name: &str, backend: &str) -> (r: String)
    ensures
        r@ == "模型已載入: "@ + model_name@ + " ["@ + backend@ + "]"@,
{
    let mut s = String::from_str("模型已載入: ");
    s.append(model_name);
    s.append(" [");
    s.append(backend);
    s.append("]");
    s
}

/// A status line made of a fixed prefix and an error's text.
fn prefixed(prefix: &str, detail: &str) -> (r: String)
    ensures
        r@ == prefix@ + detail@,
{
    let mut s = String::from_str(prefix);
    s.append(detail);
    s
}

/// The status line after loading a model failed.
pub fn load_failed_status(error: &str) -> (r: String)
    ensures
        r@ == "載入模型失敗: "@ + error@,
{
    prefixed("載入模型失敗: ", error)
}

/// The status line after a download failed.
pub fn download_failed_status(error: &str) -> (r: String)
    ensures
        r@ == "下載失敗: "@ + error@,
{
    prefixed("下載失敗: ", error)
}

/// The status line when the recorder could not start.
pub fn recorder_error_status(error: &str) -> (r: String)
    ensures
        r@ == "錄音錯誤: "@ + error@,
{
    prefixed("錄音錯誤: ", error)
}

/// The status line while recording.
pub fn recording_status() -> (r: &'static str)
    ensures
        r@ == "錄音中..."@,
{
    "錄音中..."
}

/// The status line when a stop captured no audio.
pub fn no_audio_status() -> (r: &'static str)
    ensures
        r@ == "未錄製到音訊"@,
{
    "未錄製到音訊"
}

/// The status line when no model is loaded.
pub fn no_model_status() -> (r: &'static str)
    ensures
        r@ == "尚未載入模型，請先載入"@,
{
    "尚未載入模型，請先載入"
}

/// The status line when a transcription failed.
pub fn transcription_error_status(error: &str) -> (r: String)
    ensures
        r@ == "辨識錯誤: "@ + error@,
{
    prefixed("辨識錯誤: ", error)
}

/// The message after a send failed.
pub fn send_error_status(error: &str) -> (r: String)
    ensures
        r@ == "傳送錯誤: "@ + error@,
{
    prefixed("傳送錯誤: ", error)
}

/// The status line when the download command starts.
pub fn download_command_status(model_name: &str) -> (r: String)
    ensures
        r@ == "⬇ Downloading "@ + model_name@ + " model..."@,
{
    let mut s = String::from_str("⬇ Downloading ");
    s.append(model_name);
    s.append(" model...");
    s
}

/// The status line after the download command stored a model.
pub fn downloaded_status(path: &str) -> (r: String)
    ensures
        r@ == "Downloaded: "@ + path@,
{
    prefixed("Downloaded: ", path)
}

/// The status line after the download command failed.
pub fn download_command_failed_status(error: &str) -> (r: String)
    ensures
        r@ == "Download failed: "@ + error@,
{
    prefixed("Download failed: ", error)
}

/// The status line after sending the shown text by hand failed.
pub fn manual_send_error_status(error: &str) -> (r: String)
    ensures
        r@ == "Send error: "@ + error@,
{
    prefixed("Send error: ", error)
}

/// The status line while a chosen audio file is transcribed.
pub fn file_transcribing_status() -> (r: &'static str)
    ensures
        r@ == "轉錄檔案中..."@,
{
    "轉錄檔案中..."
}

/// The status line when no audio file was chosen.
pub fn no_file_selected_status() -> (r: &'static str)
    ensures
        r@ == "No file selected"@,
{
    "No file selected"
}

/// The status line after an audio file was transcribed.
pub fn file_transcribed_status() -> (r: &'static str)
    ensures
        r@ == "File transcription complete"@,
{
    "File transcription complete"
}

/// The status line after transcribing an audio file failed.
pub fn file_error_status(error: &str) -> (r: String)
    ensures
        r@ == "Error: "@ + error@,
{
    prefixed("Error: ", error)
}

/// The error for an audio file that does not exist.
pub fn file_not_found_message(path: &str) -> (r: String)
    ensures
        r@ == "File not found: "@ + path@,
{
    prefixed("File not found: ", path)
}

/// The error for an existing audio file: audio files cannot be decoded yet.
pub fn file_decoding_unsupported_message() -> (r: &'static str)
    ensures
        r@ == "File transcription requires audio decoding (ffmpeg/symphonia). Use microphone recording for now, or convert to 16kHz mono WAV externally."@,
{
    "File transcription requires audio decoding (ffmpeg/symphonia). Use microphone recording for now, or convert to 16kHz mono WAV externally."
}

/// Transcribing an audio file: a missing file is reported as not found;
/// an existing one cannot be decoded yet, so this always fails.
/// `file_exists` tells whether the file at `file_path` exists.
pub fn transcribe_file(file_path: &str, file_exists: bool) -> (r: Result<String, String>)
    ensures
        !file_exists ==> r is Err && r->Err_0@ == "File not found: "@ + file_path@,
        file_exists ==> r is Err && r->Err_0@
            == "File transcription requires audio decoding (ffmpeg/symphonia). Use microphone recording for now, or convert to 16kHz mono WAV externally."@,
{
    if !file_exists {
        Err(file_not_found_message(file_path))
    } else {
        Err(String::from_str(file_decoding_unsupported_message()))
    }
}

} // verus!
