use whisper_gui::audio::{recording_path, wav_bytes};
use whisper_gui::config::SendMode;
use whisper_gui::hotkeys::{hotkey_action, HotkeyAction, HotkeyKind, KeyState};
use whisper_gui::models::{
    download_name_from_stem, extract_model_name, extract_model_name_from_path, model_dest_path, model_name_from_stem,
    model_url, preset_model_path,
};
use whisper_gui::opencc::{apply_mode, s2twp, t2sp};
use whisper_gui::send::{send_report, send_text, transcript_file_name, SendError, SendOutcome, SendPlan};
use whisper_gui::session::{
    download_command_status, file_not_found_message, transcribe_file, manual_send_error_status, session_step, SessionEvent,
    SessionFlags, SessionStep,
};
use whisper_gui::text::usize_to_string;
use whisper_gui::whisper::{join_segments, whisper_language, WhisperEngine};

#[test]
fn toggle_hotkey() {
    assert_eq!(hotkey_action(HotkeyKind::Toggle, KeyState::Pressed, true, true, false, false), HotkeyAction::StartRecording);
    assert_eq!(hotkey_action(HotkeyKind::Toggle, KeyState::Pressed, true, true, true, false), HotkeyAction::StopRecording);
    assert_eq!(hotkey_action(HotkeyKind::Toggle, KeyState::Pressed, true, true, false, true), HotkeyAction::Nothing);
    assert_eq!(hotkey_action(HotkeyKind::Toggle, KeyState::Pressed, false, true, true, false), HotkeyAction::Nothing);
    assert_eq!(hotkey_action(HotkeyKind::Toggle, KeyState::Released, true, true, true, false), HotkeyAction::Nothing);
}

#[test]
fn push_to_talk_hotkey() {
    assert_eq!(hotkey_action(HotkeyKind::PushToTalk, KeyState::Pressed, true, true, false, false), HotkeyAction::StartRecording);
    assert_eq!(hotkey_action(HotkeyKind::PushToTalk, KeyState::Released, true, true, true, false), HotkeyAction::StopRecording);
    assert_eq!(hotkey_action(HotkeyKind::PushToTalk, KeyState::Released, true, true, false, false), HotkeyAction::Nothing);
    assert_eq!(hotkey_action(HotkeyKind::PushToTalk, KeyState::Pressed, true, false, false, false), HotkeyAction::Nothing);
    assert_eq!(hotkey_action(HotkeyKind::Other, KeyState::Pressed, true, true, false, false), HotkeyAction::Nothing);
}

#[test]
fn send_plans() {
    assert!(matches!(send_text("hi", &SendMode::Clipboard, "", "out", 0), Ok(SendPlan::Clipboard { .. })));
    match send_text("hi", &SendMode::File, "", "out", 0) {
        Ok(SendPlan::File { text, output_dir }) => {
            assert_eq!(text, "hi");
            assert_eq!(output_dir, "out");
        }
        _ => panic!("expected a file plan"),
    }
    assert_eq!(send_text("hi", &SendMode::HttpPost, "", "out", 0).err(), Some(SendError::HttpUrlEmpty));
    assert!(matches!(send_text("hi", &SendMode::HttpPost, "http://x", "out", 0), Ok(SendPlan::HttpPost { .. })));
    assert!(matches!(send_text("hi", &SendMode::ActiveWindow, "", "out", 0), Ok(SendPlan::CopyOnly { .. })));
    assert!(matches!(
        send_text("hi", &SendMode::ActiveWindow, "", "out", 42),
        Ok(SendPlan::CopyAndPaste { hwnd: 42, .. })
    ));
}

#[test]
fn send_reports() {
    assert_eq!(send_report(&SendOutcome::Copied), "已複製到剪貼簿");
    assert_eq!(send_report(&SendOutcome::Saved { path: "out/t.txt".into() }), "已儲存至 out/t.txt");
    assert_eq!(
        send_report(&SendOutcome::Posted { url: "http://x".into(), status: "200 OK".into() }),
        "已送出至 http://x (HTTP 200 OK)"
    );
    assert_eq!(send_report(&SendOutcome::Pasted), "已貼到目標視窗");
    assert_eq!(transcript_file_name("20250101_120000"), "transcript_20250101_120000.txt");
}

#[test]
fn model_names() {
    assert_eq!(extract_model_name("models/ggml-medium.bin"), "ggml-medium");
    assert_eq!(extract_model_name("ggml-base.en.bin"), "ggml-base.en");
    assert_eq!(extract_model_name(""), "tiny");
    assert_eq!(extract_model_name_from_path("models/ggml-small.bin"), "small");
    assert_eq!(extract_model_name_from_path("models/whisper.bin"), "tiny");
    assert_eq!(extract_model_name_from_path("models/ggml-large-v3.bin"), "large-v3");
    assert_eq!(extract_model_name_from_path(""), "tiny");
    assert_eq!(extract_model_name("a/b.c.bin"), "b.c");
    assert_eq!(extract_model_name("models/a:b.bin"), "a:b");
    assert_eq!(extract_model_name(""), "tiny");
    for m in ["tiny", "base.en", "small-q5_1", "x:y"] {
        assert_eq!(extract_model_name_from_path(&preset_model_path(m)), m);
    }
    assert_eq!(model_name_from_stem(None), "tiny");
    assert_eq!(download_name_from_stem(Some("ggml-large-v3")), "large-v3");
    assert_eq!(download_name_from_stem(Some("gg")), "tiny");
}

#[test]
fn model_locations() {
    assert_eq!(model_url("tiny"), "https://huggingface.co/ggerganov/whisper.cpp/resolve/main/ggml-tiny.bin");
    assert_eq!(model_dest_path("models", "tiny"), "models/ggml-tiny.bin");
    assert_eq!(preset_model_path("base"), "models/ggml-base.bin");
}

#[test]
fn engine_state() {
    let mut e = WhisperEngine::new();
    assert!(!e.is_loaded());
    assert_eq!(e.model_name(), "");
    assert_eq!(e.backend_label(), "CPU");
    e.record_loaded_model("models/ggml-tiny.bin", true);
    assert!(e.is_loaded());
    assert_eq!(e.model_name(), "ggml-tiny");
    assert_eq!(e.model_path(), "models/ggml-tiny.bin");
    assert_eq!(e.backend_label(), "CPU");
}

#[test]
fn segments_and_language() {
    let segs = vec![Some("a".to_string()), None, Some(String::new()), Some("b".to_string())];
    assert_eq!(join_segments(&segs), "a\n\nb");
    let segs = vec![Some(String::new()), Some("x".to_string())];
    assert_eq!(join_segments(&segs), "x");
    assert_eq!(whisper_language("auto"), None);
    assert_eq!(whisper_language("zh"), Some("zh".to_string()));
}

#[test]
fn wav_encoding() {
    let w = wav_bytes(&[0, 1, -1, i16::MAX, i16::MIN]);
    assert_eq!(w.len(), 44 + 10);
    assert_eq!(&w[0..4], b"RIFF");
    assert_eq!(u32::from_le_bytes([w[4], w[5], w[6], w[7]]), 36 + 10);
    assert_eq!(&w[8..16], b"WAVEfmt ");
    assert_eq!(u32::from_le_bytes([w[24], w[25], w[26], w[27]]), 16000);
    assert_eq!(u32::from_le_bytes([w[28], w[29], w[30], w[31]]), 32000);
    assert_eq!(&w[36..40], b"data");
    assert_eq!(u32::from_le_bytes([w[40], w[41], w[42], w[43]]), 10);
    assert_eq!(&w[44..], &[0, 0, 1, 0, 0xff, 0xff, 0xff, 0x7f, 0x00, 0x80]);
    assert_eq!(recording_path("out", "20250101_000000"), "out/recording_20250101_000000.wav");
}

#[test]
fn chinese_conversion() {
    assert_eq!(s2twp("开放中文转换"), "開放中文轉換");
    assert_eq!(t2sp("開放中文轉換"), "开放中文转换");
    assert_eq!(apply_mode("開放中文轉換", "t2sp"), "开放中文转换");
    assert_eq!(apply_mode("开放", ""), "开放");
    assert_eq!(apply_mode("开放中文转换", "s2twp"), "開放中文轉換");
}

#[test]
fn decimal_numbers() {
    assert_eq!(usize_to_string(0), "0");
    assert_eq!(usize_to_string(907), "907");
    assert_eq!(usize_to_string(usize::MAX), usize::MAX.to_string());
}

#[test]
fn session_steps() {
    let idle = SessionFlags { is_recording: false, is_processing: false };
    let rec = SessionFlags { is_recording: true, is_processing: false };
    assert_eq!(session_step(rec, SessionEvent::StopRequested { samples: 0, engine_loaded: true }), (idle, SessionStep::NoAudio));
    assert_eq!(session_step(rec, SessionEvent::StopRequested { samples: 10, engine_loaded: false }), (idle, SessionStep::NoModel));
    assert_eq!(
        session_step(rec, SessionEvent::StopRequested { samples: 10, engine_loaded: true }),
        (SessionFlags { is_recording: false, is_processing: true }, SessionStep::Transcribe)
    );
    assert_eq!(session_step(idle, SessionEvent::RecorderStarted { ok: true }), (rec, SessionStep::RecordingRunning));
    assert_eq!(session_step(idle, SessionEvent::StartRequested { recorder_active: true }), (idle, SessionStep::Nothing));
    let busy = SessionFlags { is_recording: false, is_processing: true };
    assert_eq!(session_step(busy, SessionEvent::TranscriptionFinished { ok: true }), (idle, SessionStep::SendTranscript));
    assert_eq!(
        session_step(busy, SessionEvent::TranscriptionFinished { ok: false }),
        (idle, SessionStep::ReportTranscriptionError)
    );
    assert_eq!(session_step(busy, SessionEvent::DownloadFinished { ok: true }), (busy, SessionStep::RetryLoad));
    assert_eq!(session_step(busy, SessionEvent::DownloadFinished { ok: false }), (idle, SessionStep::DownloadFailed));
    assert_eq!(
        session_step(idle, SessionEvent::LoadRequested { model_exists: false }),
        (SessionFlags { is_recording: false, is_processing: true }, SessionStep::DownloadModel)
    );
}

#[test]
fn command_statuses() {
    assert_eq!(download_command_status("base"), "⬇ Downloading base model...");
    assert_eq!(manual_send_error_status("boom"), "Send error: boom");
    assert_eq!(file_not_found_message("a.wav"), "File not found: a.wav");
}

#[test]
fn file_transcription_always_fails() {
    assert_eq!(transcribe_file("a.wav", false), Err("File not found: a.wav".to_string()));
    assert!(transcribe_file("a.wav", true).unwrap_err().starts_with("File transcription requires audio decoding"));
}
