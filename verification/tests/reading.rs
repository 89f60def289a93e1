use yt_downloader::cli::{cli_bar_orders, CliEvent};
use yt_downloader::digits::{clock_string, i64_text, u64_text};
use yt_downloader::monitor::{classify_line, exit_failure_message, DownloadMonitor, LineReport, PercentReading, Signal};
use yt_downloader::progress::{scan_line, BarAction, ProgressTracker};

fn progress(p: &str, s: &str, f: &str) -> LineReport {
    LineReport::Progress { percent: p.to_string(), speed: s.to_string(), filename: f.to_string() }
}

fn same(a: &LineReport, b: &LineReport) -> bool {
    format!("{:?}", a) == format!("{:?}", b)
}

#[test]
fn classify_progress_line_trims_fields() {
    let r = classify_line("download:  42.5%| 1.20MiB/s |/tmp/a|b.mp4 ");
    assert!(same(&r, &progress("42.5", "1.20MiB/s", "/tmp/a|b.mp4")));
}

#[test]
fn classify_progress_line_with_too_few_fields() {
    assert!(same(&classify_line("download:50%|1MiB/s"), &LineReport::Other));
    assert!(same(&classify_line("download:50%"), &LineReport::Other));
}

#[test]
fn classify_destination_line() {
    let r = classify_line("[download] Destination: My Video.webm  ");
    assert!(same(&r, &LineReport::Destination("My Video.webm".to_string())));
}

#[test]
fn classify_other_lines() {
    assert!(same(&classify_line("[youtube] abc: Downloading webpage"), &LineReport::Other));
    assert!(same(&classify_line(" download:1|2|3"), &LineReport::Other));
    assert!(same(&classify_line(""), &LineReport::Other));
}

#[test]
fn monitor_counts_completed_files() {
    let mut m = DownloadMonitor::new();
    let p = progress("50.0", "1MiB/s", "a.mp4");
    let s = m.on_line(&p, PercentReading::Partial);
    assert_eq!(s.len(), 1);
    assert!(matches!(&s[0], Signal::Progress { speed, filename } if speed == "1MiB/s" && filename == "a.mp4"));
    assert_eq!(m.completed_files, 0);
    let s = m.on_line(&p, PercentReading::Complete);
    assert_eq!(s.len(), 2);
    assert!(matches!(&s[1], Signal::FileCompleted(f) if f == "a.mp4"));
    assert_eq!(m.completed_files, 1);
    assert!(m.on_line(&p, PercentReading::Unreadable).is_empty());
    let s = m.on_line(&LineReport::Destination("b.mp4".to_string()), PercentReading::Unreadable);
    assert!(matches!(&s[0], Signal::FileStarted(f) if f == "b.mp4"));
    assert!(m.on_line(&LineReport::Other, PercentReading::Complete).is_empty());
    assert_eq!(m.completed_files, 1);
    assert_eq!(m.finish(true, Some(0)), Ok(1));
}

#[test]
fn monitor_reports_exit_status() {
    let m = DownloadMonitor::new();
    assert_eq!(m.finish(false, Some(2)), Err("yt-dlp exited with status 2".to_string()));
    assert_eq!(m.finish(false, None), Err("yt-dlp exited with status -1".to_string()));
    assert_eq!(exit_failure_message(Some(-15)), "yt-dlp exited with status -15");
}

#[test]
fn decimal_texts() {
    assert_eq!(u64_text(0), "0");
    assert_eq!(u64_text(1234567890), "1234567890");
    assert_eq!(u64_text(u64::MAX), u64::MAX.to_string());
    assert_eq!(i64_text(-42), "-42");
    assert_eq!(i64_text(i64::MIN), i64::MIN.to_string());
    assert_eq!(i64_text(7), "7");
}

#[test]
fn clock_texts() {
    assert_eq!(clock_string(0), "00:00:00");
    assert_eq!(clock_string(3661), "01:01:01");
    assert_eq!(clock_string(86399), "23:59:59");
    assert_eq!(clock_string(86400 + 45296), "12:34:56");
}

#[test]
fn scan_finds_destination_speed_and_percent() {
    let s = scan_line("[download] Destination: /tmp/videos/clip.mp4");
    assert_eq!(s.destination.as_deref(), Some("/tmp/videos/clip.mp4"));
    assert_eq!(s.speed, None);
    assert_eq!(s.percent, None);
    let s = scan_line("[download]  45.3% of 10.00MiB at 1.25MiB/s ETA 00:05");
    assert_eq!(s.destination, None);
    assert_eq!(s.speed.as_deref(), Some("1.25MiB/s"));
    assert_eq!(s.percent.as_deref(), Some("45.3"));
    let s = scan_line("at 300 kB/s");
    assert_eq!(s.speed.as_deref(), Some("300 kB/s"));
}

#[test]
fn tracker_orders() {
    let mut t = ProgressTracker::new();
    let s = scan_line("[download] Destination: /tmp/videos/clip.mp4");
    let orders = t.on_scan(&s, None);
    assert_eq!(t.file_count, 1);
    assert_eq!(t.current_file, "/tmp/videos/clip.mp4");
    assert_eq!(orders.len(), 1);
    assert!(matches!(&orders[0], BarAction::Message(m) if m == "📄 clip.mp4"));

    let s = scan_line("[download] 100% of 10.00MiB at 2.00MiB/s");
    let orders = t.on_scan(&s, Some(100));
    assert_eq!(orders.len(), 5);
    assert!(matches!(&orders[0], BarAction::Message(m) if m == "2.00MiB/s"));
    assert!(matches!(&orders[1], BarAction::Position(100)));
    assert!(matches!(&orders[2], BarAction::Print(m) if m == " ✅  File completed: /tmp/videos/clip.mp4"));
    assert!(matches!(&orders[3], BarAction::Reset));
    assert!(matches!(&orders[4], BarAction::Message(m) if m == "Waiting for next file..."));

    let orders = t.on_scan(&scan_line("[download]  10.0%"), Some(10));
    assert_eq!(orders.len(), 1);
    assert_eq!(t.finish(true, Some(0)), Ok(1));
    assert_eq!(t.finish(false, Some(1)), Err("yt-dlp exited with status 1".to_string()));
    let o = t.finish_orders(true);
    assert_eq!(o.len(), 2);
    assert!(matches!(&o[0], BarAction::Finish(m) if m == "✨ Download completed successfully"));
    assert!(matches!(&o[1], BarAction::Summary(m) if m == "1"));
    let o = t.finish_orders(false);
    assert_eq!(o.len(), 1);
    assert!(matches!(&o[0], BarAction::Finish(m) if m == "❌ Download failed"));
}

#[test]
fn tracker_shows_whole_path_without_file_name() {
    let mut t = ProgressTracker::new();
    let orders = t.on_scan(&scan_line("[download] Destination: .."), None);
    assert!(matches!(&orders[0], BarAction::Message(m) if m == "📄 .."));
}

#[test]
fn decimal_text_reads_back() {
    for n in [0u64, 9, 10, 99, 100, 4096, 1_000_000_007, u64::MAX] {
        assert_eq!(u64_text(n).parse::<u64>().unwrap(), n);
    }
}

#[test]
fn template_line_reads_back() {
    let line = format!("download:{}|{}|{}", " 12.5%", "3.00KiB/s", "dir/a|b.m4a");
    assert!(same(&classify_line(&line), &progress("12.5", "3.00KiB/s", "dir/a|b.m4a")));
}

#[test]
fn total_counts_every_completion() {
    let mut m = DownloadMonitor::new();
    let mut completions = 0;
    let lines = [
        ("[download] Destination: a.mp4", PercentReading::Unreadable),
        ("download:50%|1MiB/s|a.mp4", PercentReading::Partial),
        ("download:100%|1MiB/s|a.mp4", PercentReading::Complete),
        ("[download] Destination: b.mp4", PercentReading::Unreadable),
        ("download:100%|2MiB/s|b.mp4", PercentReading::Complete),
        ("download:oops|2MiB/s|b.mp4", PercentReading::Unreadable),
    ];
    for (line, reading) in lines {
        for s in m.on_line(&classify_line(line), reading) {
            if matches!(s, Signal::FileCompleted(_)) {
                completions += 1;
            }
        }
    }
    assert_eq!(m.finish(true, Some(0)), Ok(completions));
    assert_eq!(completions, 2);
}

#[test]
fn percentage_number_without_sign() {
    assert!(same(&classify_line("download: 100.0 | 2.00MiB/s | f"), &progress("100.0", "2.00MiB/s", "f")));
    assert!(same(&classify_line("download:  7.1 %|N/A|f"), &progress("7.1", "N/A", "f")));
    assert!(same(&classify_line("download:\u{3000}45%\u{a0}|s|f"), &progress("45", "s", "f")));
    assert!(same(&classify_line("download:%%|s|f"), &progress("%", "s", "f")));
}

#[test]
fn cli_bar_orders_per_event() {
    let o = cli_bar_orders(&CliEvent::Progress { position: 42, speed: "1MiB/s".to_string(), filename: "/tmp/x/a.mp4".to_string() });
    assert_eq!(o.len(), 2);
    assert!(matches!(&o[0], BarAction::Position(42)));
    assert!(matches!(&o[1], BarAction::Message(m) if m == "📄 a.mp4 @ 1MiB/s"));
    let o = cli_bar_orders(&CliEvent::FileStarted("a.mp4".to_string()));
    assert!(matches!(&o[0], BarAction::Message(m) if m == "Starting: a.mp4"));
    let o = cli_bar_orders(&CliEvent::FileCompleted("a.mp4".to_string()));
    assert_eq!(o.len(), 3);
    assert!(matches!(&o[0], BarAction::Print(m) if m == " ✅  Completed: a.mp4"));
    assert!(matches!(&o[1], BarAction::Reset));
    assert!(matches!(&o[2], BarAction::Message(m) if m == "Waiting for next file..."));
    let o = cli_bar_orders(&CliEvent::Finished { total_files: 3 });
    assert!(matches!(&o[0], BarAction::Finish(m) if m == "✨ Download completed successfully"));
    assert!(matches!(&o[1], BarAction::Summary(m) if m == "3"));
    let o = cli_bar_orders(&CliEvent::Error("boom".to_string()));
    assert!(matches!(&o[0], BarAction::Finish(m) if m == "❌ Download failed"));
    assert!(matches!(&o[1], BarAction::ReportError(m) if m == "boom"));
}
