use yt_downloader::gui_state::{GuiEvent, GuiState, LogEntry, LogType};

fn looks_like_clock(t: &str) -> bool {
    let b = t.as_bytes();
    t.is_empty()
        || (b.len() == 8
            && b[2] == b':'
            && b[5] == b':'
            && [0, 1, 3, 4, 6, 7].iter().all(|&i| b[i].is_ascii_digit()))
}

#[test]
fn default_window_state() {
    let s = GuiState::default();
    assert_eq!(s.format, "best");
    assert_eq!(s.output_dir, "./downloads");
    assert_eq!(s.audio_format, "mp3");
    assert_eq!(s.audio_quality, "320k");
    assert!(!s.download_active);
    assert_eq!(s.log.len(), 1);
    assert_eq!(s.log[0].message, "✨ Welcome! Enter a YouTube URL to get started.");
    assert_eq!(s.log[0].log_type, LogType::Info);
    assert!(looks_like_clock(&s.log[0].timestamp));
    assert!(!s.can_start());
    assert!(s.is_waiting());
}

#[test]
fn log_entries() {
    let e = LogEntry::at("hi".to_string(), LogType::Warning, Some(3723));
    assert_eq!(e.timestamp, "01:02:03");
    assert_eq!(e.icon(), "⚠️");
    assert_eq!(e.color(), (251, 191, 36));
    let e = LogEntry::at("x".to_string(), LogType::Error, None);
    assert_eq!(e.timestamp, "");
    assert_eq!(e.color(), (239, 68, 68));
    assert_eq!(LogEntry::success("s".to_string()).icon(), "✅");
    assert_eq!(LogEntry::progress("p".to_string()).icon(), "⚡");
    assert_eq!(LogEntry::info("i".to_string()).icon(), "ℹ️");
    assert_eq!(LogEntry::error("e".to_string()).log_type, LogType::Error);
    assert!(looks_like_clock(&LogEntry::warning("w".to_string()).timestamp));
}

#[test]
fn download_options_from_window() {
    let mut s = GuiState::default();
    s.url = "https://y.t/v".to_string();
    let o = s.download_options();
    assert_eq!(o.audio_format, None);
    assert_eq!(o.audio_quality, None);
    s.audio_only = true;
    s.audio_quality = String::new();
    let o = s.download_options();
    assert_eq!(o.audio_format.as_deref(), Some("mp3"));
    assert_eq!(o.audio_quality, None);
    assert!(o.audio_only);
}

#[test]
fn a_download_from_start_to_end() {
    let mut s = GuiState::default();
    s.url = "https://y.t/v".to_string();
    assert!(s.can_start());
    s.begin_download();
    assert!(s.download_active);
    assert!(!s.can_start());
    assert_eq!(s.log.last().unwrap().message, "🚀 Download initiated...");

    let over = s.apply_event(GuiEvent::FileStarted("a.mp4".to_string()));
    assert!(!over);
    assert_eq!(s.log.last().unwrap().message, "▶ Starting: a.mp4");

    let n = s.log.len();
    s.apply_event(GuiEvent::Progress { speed: "1MiB/s".to_string(), filename: "a.mp4".to_string(), logged_percent: None });
    assert_eq!(s.log.len(), n);
    assert_eq!(s.current_speed, "1MiB/s");
    s.apply_event(GuiEvent::Progress { speed: "2MiB/s".to_string(), filename: "a.mp4".to_string(), logged_percent: Some(50) });
    assert_eq!(s.log.last().unwrap().message, "a.mp4: 50% @ 2MiB/s");
    assert_eq!(s.log.last().unwrap().log_type, LogType::Progress);

    s.apply_event(GuiEvent::FileCompleted("a.mp4".to_string()));
    assert_eq!(s.completed_files, 1);
    assert_eq!(s.current_filename, "");
    assert_eq!(s.log.last().unwrap().message, "✅ Completed: a.mp4");

    let over = s.apply_event(GuiEvent::Finished { total_files: 1 });
    assert!(over);
    assert!(!s.download_active);
    assert_eq!(s.total_files, Some(1));
    assert_eq!(s.log.last().unwrap().message, "🎉 All done! 1 file(s) downloaded successfully.");
    assert!(s.can_start());
    assert!(!s.is_waiting());
}

#[test]
fn errors_and_cancellation_end_a_download() {
    let mut s = GuiState::default();
    s.url = "u".to_string();
    s.begin_download();
    assert!(s.apply_event(GuiEvent::Error("yt-dlp exited with status 1".to_string())));
    assert!(!s.download_active);
    assert_eq!(s.log.last().unwrap().message, "💥 Error: yt-dlp exited with status 1");
    assert_eq!(s.log.last().unwrap().log_type, LogType::Error);
    s.begin_download();
    s.cancel_download();
    assert!(!s.download_active);
    assert_eq!(s.log.last().unwrap().message, "⚠️ Cancellation requested...");
    s.clear_log();
    assert_eq!(s.log.len(), 1);
    assert_eq!(s.log[0].message, "🧹 Log cleared.");
}

#[test]
fn reset_forgets_progress() {
    let mut s = GuiState::default();
    s.completed_files = 3;
    s.total_files = Some(3);
    s.current_speed = "x".to_string();
    s.reset_progress_state();
    assert_eq!(s.completed_files, 0);
    assert_eq!(s.total_files, None);
    assert_eq!(s.current_speed, "");
}

#[test]
fn progress_caption_counts_files() {
    let mut s = GuiState::default();
    assert_eq!(s.file_caption(40), None);
    s.total_files = Some(3);
    s.completed_files = 1;
    assert_eq!(s.file_caption(40).as_deref(), Some("40% • File 2/3"));
}

#[test]
fn events_leave_other_fields_alone() {
    let mut s = GuiState::default();
    s.url = "u".to_string();
    s.begin_download();
    s.apply_event(GuiEvent::Progress { speed: "1MiB/s".to_string(), filename: "a".to_string(), logged_percent: None });
    s.apply_event(GuiEvent::FileCompleted("a".to_string()));
    assert_eq!(s.current_speed, "1MiB/s");
    s.current_filename = "b".to_string();
    s.apply_event(GuiEvent::Finished { total_files: 1 });
    assert_eq!(s.current_filename, "b");
    s.cancel_download();
    s.clear_log();
    assert_eq!(s.current_speed, "1MiB/s");
    assert_eq!(s.current_filename, "b");
    assert_eq!(s.total_files, Some(1));
}
