//! Where a transcript goes: the decisions of sending, and the messages that
//! report how it went. The sending itself (clipboard, files, HTTP, key
//! strokes) is done by the caller.

use vstd::prelude::*;
use crate::config::SendMode;

verus! {

/// What to do with a transcript.
pub enum SendPlan {
    /// Copy the text to the clipboard.
    Clipboard { text: String },
    /// Write the text to a new file in `output_dir`.
    File { text: String, output_dir: String },
    /// POST the text as JSON to `url`.
    HttpPost { text: String, url: String },
    /// Copy the text to the clipboard; there is no window to paste into.
    CopyOnly { text: String },
    /// Copy the text to the clipboard, then paste it into window `hwnd`.
    CopyAndPaste { text: String, hwnd: isize },
}

/// A send that is refused before anything is done.
#[derive(Debug, Clone, Copy, PartialEq, Eq, Structural)]
pub enum SendError {
    /// HTTP mode with an empty URL.
    HttpUrlEmpty,
}

/// How a performed send ended.
pub enum SendOutcome {
    Copied,
    Saved { path: String },
    Posted { url: String, status: String },
    CopiedNoTarget,
    TargetClosed,
    Pasted,
}

/// The plan for sending `text` in mode `mode`.
pub open spec fn send_plan_for(
    text: Seq<char>,
    mode: SendMode,
    http_url: Seq<char>,
    output_dir: Seq<char>,
    target_hwnd: isize,
    r: Result<SendPlan, SendError>,
) -> bool {
    match mode {
        SendMode::Clipboard => r matches Ok(SendPlan::Clipboard { text: t }) && t@ == text,
        SendMode::File => r matches Ok(SendPlan::File { text: t, output_dir: d }) && t@ == text && d@
            == output_dir,
        SendMode::HttpPost => if http_url.len() == 0 {
            r == Err::<SendPlan, SendError>(SendError::HttpUrlEmpty)
        } else {
            r matches Ok(SendPlan::HttpPost { text: t, url: u }) && t@ == text && u@ == http_url
        },
        SendMode::ActiveWindow => if target_hwnd == 0 {
            r matches Ok(SendPlan::CopyOnly { text: t }) && t@ == text
        } else {
            r matches Ok(SendPlan::CopyAndPaste { text: t, hwnd: h }) && t@ == text && h == target_hwnd
        },
    }
}

/// Decides how `text` is sent: the clipboard, a file in `output_dir`, an
/// HTTP POST to `http_url` (refused when the URL is empty), or the clipboard
/// followed by a paste into the remembered window `target_hwnd` (0 when none
/// was remembered).
pub fn send_text(
    text: &str,
    mode: &SendMode,
    http_url: &str,
    output_dir: &str,
    target_hwnd: isize,
) -> (r: Result<SendPlan, SendError>)
    ensures
        send_plan_for(text@, *mode, http_url@, output_dir@, target_hwnd, r),
{
    let t = String::from_str(text);
    match mode {
        SendMode::Clipboard => Ok(SendPlan::Clipboard { text: t }),
        SendMode::File => Ok(SendPlan::File { text: t, output_dir: String::from_str(output_dir) }),
        SendMode::HttpPost => {
            if http_url.unicode_len() == 0 {
                Err(SendError::HttpUrlEmpty)
            } else {
                Ok(SendPlan::HttpPost { text: t, url: String::from_str(http_url) })
            }
        },
        SendMode::ActiveWindow => {
            if target_hwnd == 0 {
                Ok(SendPlan::CopyOnly { text: t })
            } else {
                Ok(SendPlan::CopyAndPaste { text: t, hwnd: target_hwnd })
            }
        },
    }
}

/// The transcript that a plan sends.
pub open spec fn plan_text(p: SendPlan) -> Seq<char> {
    match p {
        SendPlan::Clipboard { text } => text@,
        SendPlan::File { text, .. } => text@,
        SendPlan::HttpPost { text, .. } => text@,
        SendPlan::CopyOnly { text } => text@,
        SendPlan::CopyAndPaste { text, .. } => text@,
    }
}

/// A send is refused only in HTTP mode with an empty URL; every plan sends
/// the transcript unchanged; and in active-window mode the text is pasted
/// exactly when a window was remembered, into that window.
pub proof fn law_send_plan(
    text: Seq<char>,
    mode: SendMode,
    http_url: Seq<char>,
    output_dir: Seq<char>,
    target_hwnd: isize,
    r: Result<SendPlan, SendError>,
)
    requires
        send_plan_for(text, mode, http_url, output_dir, target_hwnd, r),
    ensures
        r is Err <==> (mode is HttpPost && http_url.len() == 0),
        r matches Ok(p) ==> plan_text(p) == text,
        mode is ActiveWindow ==> ((r matches Ok(SendPlan::CopyAndPaste { hwnd, .. })) <==> target_hwnd != 0),
        r matches Ok(SendPlan::CopyAndPaste { hwnd, .. }) ==> hwnd == target_hwnd,
{
}

/// The message of a send error.
pub fn send_error_message(e: SendError) -> (r: &'static str)
    ensures
        r@ == "HTTP URL is empty"@,
{
    match e {
        SendError::HttpUrlEmpty => "HTTP URL is empty",
    }
}

/// The report of a send outcome.
pub open spec fn send_report_text(o: SendOutcome) -> Seq<char> {
    match o {
        SendOutcome::Copied => "已複製到剪貼簿"@,
        SendOutcome::Saved { path } => "已儲存至 "@ + path@,
        SendOutcome::Posted { url, status } => "已送出至 "@ + url@ + " (HTTP "@ + status@ + ")"@,
        SendOutcome::CopiedNoTarget => "已複製到剪貼簿（無記錄目標視窗，請用快捷鍵觸發錄音）"@,
        SendOutcome::TargetClosed => "已複製到剪貼簿（目標視窗已關閉）"@,
        SendOutcome::Pasted => "已貼到目標視窗"@,
    }
}

/// The status message shown after a send.
pub fn send_report(o: &SendOutcome) -> (r: String)
    ensures
        r@ == send_report_text(*o),
{
    match o {
        SendOutcome::Copied => String::from_str("已複製到剪貼簿"),
        SendOutcome::Saved { path } => {
            let mut s = String::from_str("已儲存至 ");
            s.append(path.as_str());
            s
        },
        SendOutcome::Posted { url, status } => {
            let mut s = String::from_str("已送出至 ");
            s.append(url.as_str());
            s.append(" (HTTP ");
            s.append(status.as_str());
            s.append(")");
            s
        },
        SendOutcome::CopiedNoTarget => String::from_str(
            "已複製到剪貼簿（無記錄目標視窗，請用快捷鍵觸發錄音）",
        ),
        SendOutcome::TargetClosed => String::from_str("已複製到剪貼簿（目標視窗已關閉）"),
        SendOutcome::Pasted => String::from_str("已貼到目標視窗"),
    }
}

/// The name of the file a transcript is saved to.
pub fn transcript_file_name(timestamp: &str) -> (r: String)
    ensures
        r@ == "transcript_"@ + timestamp@ + ".txt"@,
{
    let mut s = String::from_str("transcript_");
    s.append(timestamp);
    s.append(".txt");
    s
}

/// The message of an HTTP reply that is not a success.
pub fn http_error_message(status: &str) -> (r: String)
    ensures
        r@ == "HTTP error: "@ + status@,
{
    let mut s = String::from_str("HTTP error: ");
    s.append(status);
    s
}

} // verus!
