use yt_downloader::args::{Args, MenuChoice};
use yt_downloader::cli;
use yt_downloader::monitor::{unbuffered_environment, with_progress_reporting};
use yt_downloader::options::{build_command, AudioQualityPreset, CommandLine, DownloadOptions};
use yt_downloader::terminal;

fn texts(cmd: &CommandLine) -> Vec<&str> {
    cmd.args.iter().map(|s| s.as_str()).collect()
}

fn args(url: Option<&str>, playlist: bool, interactive: bool) -> Args {
    Args {
        url: url.map(|u| u.to_string()),
        format: "best".to_string(),
        output_dir: "./downloads".to_string(),
        playlist,
        interactive,
    }
}

#[test]
fn default_options_match_documented_defaults() {
    let o = DownloadOptions::default();
    assert_eq!(o.url, "");
    assert_eq!(o.format, "best");
    assert_eq!(o.output_dir, "./downloads");
    assert!(!o.is_playlist);
    assert!(!o.audio_only);
    assert_eq!(o.audio_format, None);
    assert_eq!(o.audio_quality, None);
}

#[test]
fn build_command_single_video() {
    let o = DownloadOptions {
        url: "https://www.youtube.com/watch?v=dQw4w9WgXcQ".to_string(),
        ..Default::default()
    };
    let cmd = build_command(&o);
    assert_eq!(cmd.program, "yt-dlp");
    assert_eq!(
        texts(&cmd),
        vec![
            "-f",
            "best",
            "-o",
            "./downloads/%(title)s.%(ext)s",
            "--continue",
            "--no-playlist",
            "https://www.youtube.com/watch?v=dQw4w9WgXcQ"
        ]
    );
}

#[test]
fn build_command_playlist_audio() {
    let o = DownloadOptions {
        url: "https://www.youtube.com/playlist?list=PL1".to_string(),
        format: "bestaudio".to_string(),
        output_dir: "/music".to_string(),
        is_playlist: true,
        audio_only: true,
        audio_format: Some("mp3".to_string()),
        audio_quality: Some("320k".to_string()),
    };
    let cmd = build_command(&o);
    assert_eq!(
        texts(&cmd),
        vec![
            "-f",
            "bestaudio",
            "-o",
            "/music/%(title)s.%(ext)s",
            "--continue",
            "--yes-playlist",
            "--extract-audio",
            "--audio-format",
            "mp3",
            "--audio-quality",
            "320k",
            "https://www.youtube.com/playlist?list=PL1"
        ]
    );
}

#[test]
fn build_command_ignores_audio_settings_without_audio_mode() {
    let o = DownloadOptions {
        url: "u".to_string(),
        audio_format: Some("mp3".to_string()),
        audio_quality: Some("128k".to_string()),
        ..Default::default()
    };
    let cmd = build_command(&o);
    assert_eq!(texts(&cmd), vec!["-f", "best", "-o", "./downloads/%(title)s.%(ext)s", "--continue", "--no-playlist", "u"]);
}

#[test]
fn build_command_audio_without_format() {
    let o = DownloadOptions {
        url: "u".to_string(),
        audio_only: true,
        audio_quality: Some("192k".to_string()),
        ..Default::default()
    };
    let cmd = build_command(&o);
    assert_eq!(
        texts(&cmd),
        vec!["-f", "best", "-o", "./downloads/%(title)s.%(ext)s", "--continue", "--no-playlist", "--extract-audio", "--audio-quality", "192k", "u"]
    );
}

#[test]
fn presets_are_offered_in_order() {
    let presets = AudioQualityPreset::options();
    let labels: Vec<&str> = presets.iter().map(|(l, _)| *l).collect();
    assert_eq!(
        labels,
        vec![
            "🎵 Best available audio (auto)",
            "🔊 MP3 320kbps",
            "🔊 MP3 256kbps",
            "🔊 MP3 192kbps",
            "🔊 MP3 128kbps",
            "🎼 M4A (AAC)"
        ]
    );
    assert_eq!(presets[0].1, AudioQualityPreset::BestAuto);
    assert_eq!(presets[5].1, AudioQualityPreset::M4aAac);
}

#[test]
fn preset_options() {
    assert_eq!(AudioQualityPreset::BestAuto.to_opts(), ("bestaudio", None, None));
    assert_eq!(AudioQualityPreset::Mp3_320k.to_opts(), ("bestaudio", Some("mp3"), Some("320k")));
    assert_eq!(AudioQualityPreset::Mp3_256k.to_opts(), ("bestaudio", Some("mp3"), Some("256k")));
    assert_eq!(AudioQualityPreset::Mp3_192k.to_opts(), ("bestaudio", Some("mp3"), Some("192k")));
    assert_eq!(AudioQualityPreset::Mp3_128k.to_opts(), ("bestaudio", Some("mp3"), Some("128k")));
    assert_eq!(AudioQualityPreset::M4aAac.to_opts(), ("bestaudio", Some("m4a"), None));
}

#[test]
fn progress_reporting_arguments_are_appended() {
    let cmd = with_progress_reporting(build_command(&DownloadOptions { url: "u".to_string(), ..Default::default() }));
    let t = texts(&cmd);
    assert_eq!(t.len(), 13);
    assert_eq!(
        &t[7..],
        &[
            "--color",
            "never",
            "--newline",
            "--no-warnings",
            "--progress-template",
            "download:%(progress._percent_str)s|%(progress._speed_str)s|%(info.filename)s"
        ]
    );
    assert_eq!(unbuffered_environment(), ("PYTHONUNBUFFERED", "1"));
}

#[test]
fn automation_mode_needs_url_and_no_forced_questions() {
    assert!(args(Some("u"), false, false).automation_mode());
    assert!(!args(Some("u"), false, true).automation_mode());
    assert!(!args(None, false, false).automation_mode());
}

#[test]
fn terminal_automation_command() {
    let cmd = terminal::run_automation(&args(Some("https://y.t/v"), true, false));
    assert_eq!(
        texts(&cmd),
        vec!["-f", "best", "-o", "./downloads/%(title)s.%(ext)s", "--continue", "--no-part", "--yes-playlist", "https://y.t/v"]
    );
    let mut a = args(Some("v"), false, false);
    a.output_dir = "out/".to_string();
    let cmd = terminal::run_automation(&a);
    assert_eq!(texts(&cmd)[3], "out/%(title)s.%(ext)s");
    assert_eq!(texts(&cmd)[6], "--no-playlist");
}

#[test]
fn terminal_audio_choices() {
    assert_eq!(terminal::audio_choice(0), AudioQualityPreset::BestAuto);
    assert_eq!(terminal::audio_choice(1), AudioQualityPreset::Mp3_320k);
    assert_eq!(terminal::audio_choice(4), AudioQualityPreset::Mp3_128k);
    assert_eq!(terminal::audio_choice(5), AudioQualityPreset::M4aAac);
    assert_eq!(terminal::audio_choice(9), AudioQualityPreset::BestAuto);
}

#[test]
fn terminal_video_commands() {
    let url = "https://y.t/v".to_string();
    let fmt = "18".to_string();
    let dir = "./downloads".to_string();
    let cmd = terminal::video_command(&url, &fmt, &dir, false);
    assert_eq!(
        texts(&cmd),
        vec!["-f", "18", "-o", "./downloads/%(title)s.%(ext)s", "--continue", "--no-part", "--no-playlist", "https://y.t/v"]
    );
    let cmd = terminal::video_command(&url, &fmt, &dir, true);
    assert_eq!(
        texts(&cmd),
        vec!["-f", "18", "-o", "./downloads/%(title)s.%(ext)s", "--continue", "--no-part", "https://y.t/v"]
    );
    let cmd = terminal::format_code_command(&url, &"137+140".to_string(), &dir);
    assert_eq!(
        texts(&cmd),
        vec!["-f", "137+140", "-o", "./downloads/%(title)s.%(ext)s", "--continue", "--no-part", "--no-playlist", "https://y.t/v"]
    );
    let cmd = terminal::list_formats_command(&url);
    assert_eq!(texts(&cmd), vec!["--list-formats", "https://y.t/v"]);
}

#[test]
fn terminal_audio_commands() {
    let url = "U".to_string();
    let dir = "D".to_string();
    let cmd = terminal::audio_command(&url, terminal::audio_choice(1), &dir, false);
    assert_eq!(
        texts(&cmd),
        vec![
            "-f", "bestaudio[ext=mp3]/bestaudio", "-o", "D/%(title)s.%(ext)s", "--continue", "--no-part", "--no-playlist", "U",
            "--extract-audio", "--audio-format", "mp3", "--audio-quality", "320k"
        ]
    );
    let cmd = terminal::audio_command(&url, terminal::audio_choice(5), &dir, true);
    assert_eq!(
        texts(&cmd),
        vec![
            "-f", "bestaudio[ext=m4a]/bestaudio", "-o", "D/%(title)s.%(ext)s", "--continue", "--no-part", "U",
            "--extract-audio", "--audio-quality", "0"
        ]
    );
    let cmd = terminal::audio_command(&url, terminal::audio_choice(0), &dir, false);
    assert_eq!(texts(&cmd)[1], "bestaudio");
    assert_eq!(
        &texts(&cmd)[8..],
        &["--extract-audio", "--audio-quality", "0"]
    );
}

#[test]
fn cli_automation_command() {
    let cmd = cli::run_automation(&args(Some("https://y.t/v"), false, false));
    assert_eq!(
        texts(&cmd),
        vec!["-f", "best", "-o", "./downloads/%(title)s.%(ext)s", "--continue", "--no-playlist", "https://y.t/v"]
    );
    let o = cli::automation_options(&args(Some("w"), true, false));
    assert_eq!(o.url, "w");
    assert!(o.is_playlist);
    assert!(!o.audio_only);
}

#[test]
fn cli_preset_and_format_code() {
    assert_eq!(
        cli::preset_selection(&AudioQualityPreset::Mp3_192k),
        ("bestaudio".to_string(), Some("mp3".to_string()), Some("192k".to_string()))
    );
    assert_eq!(cli::preset_selection(&AudioQualityPreset::BestAuto), ("bestaudio".to_string(), None, None));
    let o = cli::format_code_options("u".to_string(), "137+140".to_string(), "d".to_string());
    assert_eq!((o.url.as_str(), o.format.as_str(), o.output_dir.as_str()), ("u", "137+140", "d"));
    assert!(!o.is_playlist && !o.audio_only && o.audio_format.is_none() && o.audio_quality.is_none());
}

#[test]
fn menu_entries() {
    assert_eq!(MenuChoice::labels().len(), 6);
    assert_eq!(MenuChoice::labels()[0], "📥 Download a single video");
    assert_eq!(MenuChoice::labels()[5], "🚪 Exit");
    assert_eq!(MenuChoice::from_index(0), MenuChoice::DownloadVideo);
    assert_eq!(MenuChoice::from_index(3), MenuChoice::ListFormats);
    assert_eq!(MenuChoice::from_index(5), MenuChoice::Exit);
}
