use yt_downloader::pipeline::{
    convert_command, converted_path, converter_finished, converter_note, download_command,
    downloader_finished, Invocation,
};
use yt_downloader::session::{diagnostic, save_dialog, Action, Message, YtDownloader};

fn strings(items: &[&str]) -> Vec<String> {
    items.iter().map(|s| s.to_string()).collect()
}

fn fresh() -> YtDownloader {
    let (session, action) = YtDownloader::new();
    assert!(matches!(action, Action::Nothing));
    session
}

fn converter_command_of(action: Action) -> Invocation {
    match action {
        Action::RunConverter { command } => command,
        _ => panic!("expected the converter to be asked for"),
    }
}

#[test]
fn new_session_is_empty() {
    let s = fresh();
    assert_eq!(s.url(), "");
    assert_eq!(s.save_path(), "");
    assert!(!s.downloading());
    assert_eq!(s.logs(), "");
    assert!(s.download_enabled());
}

#[test]
fn field_edits_last_write_wins() {
    let mut s = fresh();
    for m in [
        Message::InputUrl("a".to_string()),
        Message::InputSavePath("/tmp/one.mp4".to_string()),
        Message::InputUrl("ab".to_string()),
        Message::InputUrl("https://example.com/v".to_string()),
        Message::InputSavePath("/tmp/two.mp4".to_string()),
    ] {
        assert!(matches!(s.update(m), Action::Nothing));
    }
    assert_eq!(s.url(), "https://example.com/v");
    assert_eq!(s.save_path(), "/tmp/two.mp4");
    assert!(!s.downloading());
}

#[test]
fn field_edit_leaves_other_field() {
    let mut s = fresh();
    s.update(Message::InputSavePath("/p.mp4".to_string()));
    s.update(Message::InputUrl("x".to_string()));
    s.update(Message::InputUrl("y".to_string()));
    assert_eq!(s.save_path(), "/p.mp4");
    assert_eq!(s.url(), "y");
}

#[test]
fn dialog_request_asks_for_picker() {
    let mut s = fresh();
    s.update(Message::InputSavePath("/keep.mp4".to_string()));
    match s.update(Message::SaveFileDialog) {
        Action::PickSavePath { dialog } => {
            assert_eq!(dialog.title, "Save youtube video");
            assert_eq!(dialog.file_name, "video.mp4");
            assert_eq!(dialog.filter_name, "Video");
            assert_eq!(dialog.extensions, strings(&["mp4"]));
        }
        _ => panic!("expected the save dialog to be asked for"),
    }
    assert_eq!(s.save_path(), "/keep.mp4");
}

#[test]
fn cancelled_dialog_keeps_save_path() {
    let mut s = fresh();
    s.update(Message::InputSavePath("/keep.mp4".to_string()));
    assert!(matches!(s.update(Message::SaveFilePicked(None)), Action::Nothing));
    assert_eq!(s.save_path(), "/keep.mp4");
}

#[test]
fn confirmed_dialog_sets_save_path() {
    let mut s = fresh();
    s.update(Message::InputSavePath("/old.mp4".to_string()));
    s.update(Message::SaveFilePicked(Some("/home/u/video.mp4".to_string())));
    assert_eq!(s.save_path(), "/home/u/video.mp4");
}

#[test]
fn start_marks_downloading_at_once() {
    let mut s = fresh();
    s.update(Message::InputUrl("https://example.com/v".to_string()));
    s.update(Message::InputSavePath("/x/video.mp4".to_string()));
    let action = s.update(Message::DownloadStart);
    assert!(s.downloading());
    assert!(!s.download_enabled());
    match action {
        Action::RunDownloader { save_path, command } => {
            assert_eq!(save_path, "/x/video.mp4");
            assert_eq!(command.program, "yt-dlp");
            assert_eq!(
                command.args,
                strings(&["--merge-output-format", "mp4", "-o", "/x/video.mp4", "https://example.com/v"])
            );
        }
        _ => panic!("expected the downloader to be asked for"),
    }
}

#[test]
fn downloader_failure_ends_without_converter() {
    let mut s = fresh();
    s.update(Message::InputSavePath("/x/video.mp4".to_string()));
    s.update(Message::DownloadStart);
    let m = downloader_finished("/x/video.mp4".to_string(), false);
    assert!(matches!(m, Message::DownloadFirstPartDoneStartingSecond(Err(()))));
    assert!(matches!(s.update(m), Action::Nothing));
    assert!(!s.downloading());
    assert!(s.download_enabled());
}

#[test]
fn converter_failure_still_ends_download() {
    let mut s = fresh();
    s.update(Message::InputSavePath("/x/video.mp4".to_string()));
    s.update(Message::DownloadStart);
    let action = s.update(downloader_finished("/x/video.mp4".to_string(), true));
    assert!(s.downloading());
    assert!(matches!(action, Action::RunConverter { .. }));
    let end = converter_finished(false);
    assert!(matches!(end, Message::DownloadEnd(Ok(()))));
    assert!(matches!(s.update(end), Action::Nothing));
    assert!(!s.downloading());
    assert!(s.download_enabled());
}

#[test]
fn pipeline_success_converts_beside_download() {
    let mut s = fresh();
    s.update(Message::InputUrl("https://example.com/v".to_string()));
    s.update(Message::InputSavePath("/x/video.mp4".to_string()));
    s.update(Message::DownloadStart);
    let m = downloader_finished("/x/video.mp4".to_string(), true);
    assert!(matches!(&m, Message::DownloadFirstPartDoneStartingSecond(Ok(p)) if p == "/x/video.mp4"));
    let command = converter_command_of(s.update(m));
    assert_eq!(command.program, "ffmpeg");
    assert_eq!(command.args, strings(&["-i", "/x/video.mp4", "-f", "mov", "/x/video.mov"]));
    s.update(converter_finished(true));
    assert!(!s.downloading());
}

#[test]
fn download_enabled_follows_flag() {
    let mut s = fresh();
    assert!(s.download_enabled());
    s.update(Message::DownloadStart);
    assert!(!s.download_enabled());
    s.update(Message::DownloadEnd(Err(())));
    assert!(s.download_enabled());
    assert!(!s.downloading());
}

#[test]
fn converted_path_replaces_extension() {
    assert_eq!(converted_path(&"/x/video.mp4".to_string()), "/x/video.mov");
    assert_eq!(converted_path(&"clip.final.webm".to_string()), "clip.final.mov");
}

#[test]
fn converted_path_adds_missing_extension() {
    assert_eq!(converted_path(&"/x/video".to_string()), "/x/video.mov");
}

#[test]
fn converted_path_of_empty_path() {
    assert_eq!(converted_path(&"".to_string()), "");
}

#[test]
fn commands_hold_fixed_arguments() {
    let d = download_command(&"u".to_string(), &"p".to_string());
    assert_eq!(d.program, "yt-dlp");
    assert_eq!(d.args, strings(&["--merge-output-format", "mp4", "-o", "p", "u"]));
    let c = convert_command(&"in.mp4".to_string(), &"out.mov".to_string());
    assert_eq!(c.program, "ffmpeg");
    assert_eq!(c.args, strings(&["-i", "in.mp4", "-f", "mov", "out.mov"]));
}

#[test]
fn diagnostics_per_message() {
    assert_eq!(diagnostic(&Message::DownloadStart), Some("running yt-dlp..."));
    assert_eq!(
        diagnostic(&Message::DownloadFirstPartDoneStartingSecond(Err(()))),
        Some("yt-dlp returned error")
    );
    assert_eq!(
        diagnostic(&Message::DownloadFirstPartDoneStartingSecond(Ok("p".to_string()))),
        Some("running ffmpeg...")
    );
    assert_eq!(diagnostic(&Message::DownloadEnd(Err(()))), Some("ffmpeg returned error"));
    assert_eq!(diagnostic(&Message::DownloadEnd(Ok(()))), Some("download & conversion successful!"));
    assert_eq!(diagnostic(&Message::InputUrl("u".to_string())), None);
    assert_eq!(diagnostic(&Message::SaveFileDialog), None);
}

#[test]
fn converter_note_only_on_failure() {
    assert_eq!(converter_note(true), None);
    assert_eq!(converter_note(false), Some("ffmpeg return error"));
}

#[test]
fn cloned_message_keeps_payload() {
    let m = Message::SaveFilePicked(Some("/a.mp4".to_string()));
    assert!(matches!(m.clone(), Message::SaveFilePicked(Some(p)) if p == "/a.mp4"));
}

#[test]
fn converted_path_of_dot_stem() {
    assert_eq!(converted_path(&"..mp4".to_string()), "..");
}

#[test]
fn save_dialog_settings() {
    let d = save_dialog();
    assert_eq!(d.title, "Save youtube video");
    assert_eq!(d.file_name, "video.mp4");
    assert_eq!(d.filter_name, "Video");
    assert_eq!(d.extensions, strings(&["mp4"]));
}

#[test]
fn download_press_follows_flag() {
    let mut s = fresh();
    assert!(matches!(s.download_press(), Some(Message::DownloadStart)));
    s.update(Message::DownloadStart);
    assert!(s.download_press().is_none());
    s.update(Message::DownloadEnd(Ok(())));
    assert!(matches!(s.download_press(), Some(Message::DownloadStart)));
}
