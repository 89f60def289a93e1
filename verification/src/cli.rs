//! The `cli` program: it builds its downloads from `DownloadOptions`.

use vstd::prelude::*;
use crate::args::Args;
use crate::options::{
    build_command, download_args, output_template, playlist_flag, preset_audio_format, preset_audio_quality,
    AudioQualityPreset, CommandLine, DownloadOptions,
};
use crate::digits::{decimal, u64_text};
use crate::progress::{bar_views, display_name, push_order, BarAction, BarView};
use crate::text::{file_name_text, opt_text};

verus! {

/// The arguments of an automation run of the `cli` program: a video or
/// playlist with the given format into the given directory.
pub open spec fn cli_automation_args(format: Seq<char>, output_dir: Seq<char>, playlist: bool, url: Seq<char>) -> Seq<Seq<char>> {
    seq!["-f"@, format, "-o"@, output_template(output_dir), "--continue"@,
        playlist_flag(playlist), url]
}

/// The options of an automation run: the URL, format, directory and
/// playlist flag of the arguments, the rest as by default.
pub fn automation_options(args: &Args) -> (o: DownloadOptions)
    requires
        args.url is Some,
    ensures
        o.url@ == args.url->Some_0@,
        o.format@ == args.format@,
        o.output_dir@ == args.output_dir@,
        o.is_playlist == args.playlist,
        !o.audio_only,
        o.audio_format is None,
        o.audio_quality is None,
{
    let url = match &args.url {
        Some(u) => u.clone(),
        None => String::new(),
    };
    DownloadOptions {
        url,
        format: args.format.clone(),
        output_dir: args.output_dir.clone(),
        is_playlist: args.playlist,
        ..Default::default()
    }
}

/// The command that automation mode of the `cli` program runs.
pub fn run_automation(args: &Args) -> (cmd: CommandLine)
    requires
        args.url is Some,
    ensures
        cmd.program@ == "yt-dlp"@,
        cmd.arg_texts() == cli_automation_args(
            args.format@,
            args.output_dir@,
            args.playlist,
            args.url->Some_0@,
        ),
{
    let opts = automation_options(args);
    let cmd = build_command(&opts);
    proof {
        assert(cmd.arg_texts() =~= cli_automation_args(
            args.format@,
            args.output_dir@,
            args.playlist,
            args.url->Some_0@,
        ));
    }
    cmd
}

/// The format, audio format and audio quality of an audio preset, owned.
pub fn preset_selection(preset: &AudioQualityPreset) -> (r: (String, Option<String>, Option<String>))
    ensures
        r.0@ == "bestaudio"@,
        opt_text(r.1) == preset_audio_format(*preset),
        opt_text(r.2) == preset_audio_quality(*preset),
{
    let (fmt, af, aq) = preset.to_opts();
    let af_owned = match af {
        Some(s) => Some(String::from_str(s)),
        None => None,
    };
    let aq_owned = match aq {
        Some(s) => Some(String::from_str(s)),
        None => None,
    };
    (String::from_str(fmt), af_owned, aq_owned)
}

/// The options of a download with a chosen format code: one video, the
/// rest as by default.
pub fn format_code_options(url: String, code: String, output_dir: String) -> (o: DownloadOptions)
    ensures
        o.url@ == url@,
        o.format@ == code@,
        o.output_dir@ == output_dir@,
        !o.is_playlist,
        !o.audio_only,
        o.audio_format is None,
        o.audio_quality is None,
{
    DownloadOptions { url, format: code, output_dir, ..Default::default() }
}

/// An event of a download as the `cli` program's progress bar sees it, as
/// text.
pub enum CliEventView {
    Progress { position: u64, speed: Seq<char>, filename: Seq<char> },
    FileStarted(Seq<char>),
    FileCompleted(Seq<char>),
    Finished { total_files: usize },
    Error(Seq<char>),
}

/// An event of a download as the `cli` program's progress bar sees it; the
/// position is the whole percentage of the progress.
#[derive(Debug, Clone)]
pub enum CliEvent {
    Progress { position: u64, speed: String, filename: String },
    FileStarted(String),
    FileCompleted(String),
    Finished { total_files: usize },
    Error(String),
}

impl View for CliEvent {
    type V = CliEventView;

    open spec fn view(&self) -> CliEventView {
        match self {
            CliEvent::Progress { position, speed, filename } => CliEventView::Progress {
                position: *position,
                speed: speed@,
                filename: filename@,
            },
            CliEvent::FileStarted(n) => CliEventView::FileStarted(n@),
            CliEvent::FileCompleted(n) => CliEventView::FileCompleted(n@),
            CliEvent::Finished { total_files } => CliEventView::Finished { total_files: *total_files },
            CliEvent::Error(e) => CliEventView::Error(e@),
        }
    }
}

/// What the progress bar does on an event: progress moves the bar and shows
/// the file's name and the speed; the start of a file is announced; a
/// completed file is printed, the bar started over and the next file
/// awaited; the end of the download stops the bar and prints the summary; an
/// error stops the bar and prints the error.
pub open spec fn cli_orders(e: CliEventView) -> Seq<BarView> {
    match e {
        CliEventView::Progress { position, speed, filename } => seq![
            BarView::Position(position),
            BarView::Message("📄 "@ + display_name(filename) + " @ "@ + speed),
        ],
        CliEventView::FileStarted(name) => seq![BarView::Message("Starting: "@ + name)],
        CliEventView::FileCompleted(name) => seq![
            BarView::Print(" ✅  Completed: "@ + name),
            BarView::Reset,
            BarView::Message("Waiting for next file..."@),
        ],
        CliEventView::Finished { total_files } => seq![
            BarView::Finish("✨ Download completed successfully"@),
            BarView::Summary(decimal(total_files as nat)),
        ],
        CliEventView::Error(e) => seq![
            BarView::Finish("❌ Download failed"@),
            BarView::ReportError(e),
        ],
    }
}

/// The orders for the progress bar of the `cli` program on one event.
pub fn cli_bar_orders(e: &CliEvent) -> (orders: Vec<BarAction>)
    ensures
        bar_views(orders@) == cli_orders(e@),
{
    let mut orders: Vec<BarAction> = Vec::new();
    match e {
        CliEvent::Progress { position, speed, filename } => {
            push_order(&mut orders, BarAction::Position(*position));
            let shown = match file_name_text(filename.as_str()) {
                Some(n) => n,
                None => filename.clone(),
            };
            let mut m = String::from_str("📄 ");
            m.append(shown.as_str());
            m.append(" @ ");
            m.append(speed.as_str());
            push_order(&mut orders, BarAction::Message(m));
        },
        CliEvent::FileStarted(name) => {
            let mut m = String::from_str("Starting: ");
            m.append(name.as_str());
            push_order(&mut orders, BarAction::Message(m));
        },
        CliEvent::FileCompleted(name) => {
            let mut m = String::from_str(" ✅  Completed: ");
            m.append(name.as_str());
            push_order(&mut orders, BarAction::Print(m));
            push_order(&mut orders, BarAction::Reset);
            push_order(&mut orders, BarAction::Message(String::from_str("Waiting for next file...")));
        },
        CliEvent::Finished { total_files } => {
            push_order(&mut orders, BarAction::Finish(String::from_str("✨ Download completed successfully")));
            push_order(&mut orders, BarAction::Summary(u64_text(*total_files as u64)));
        },
        CliEvent::Error(err) => {
            push_order(&mut orders, BarAction::Finish(String::from_str("❌ Download failed")));
            push_order(&mut orders, BarAction::ReportError(err.clone()));
        },
    }
    proof {
        assert(bar_views(orders@) =~= cli_orders(e@));
    }
    orders
}

} // verus!

verus! {

/// The automation command of the `cli` program is the download command of
/// the options that carry its arguments: for options without audio, the
/// arguments of `build_command` are those of the automation command for the
/// same format, directory, playlist flag and URL.
pub proof fn lemma_automation_is_download(o: DownloadOptions)
    requires
        !o.audio_only,
    ensures
        download_args(o) == cli_automation_args(o.format@, o.output_dir@, o.is_playlist, o.url@),
{
    assert(download_args(o) =~= cli_automation_args(o.format@, o.output_dir@, o.is_playlist, o.url@));
}

/// The automation command downloads the whole playlist exactly when asked:
/// its sixth argument is `--yes-playlist` with the playlist flag and
/// `--no-playlist` without it, after the format and the output template,
/// and before the URL, which comes last.
pub proof fn lemma_automation_playlist(format: Seq<char>, output_dir: Seq<char>, playlist: bool, url: Seq<char>)
    ensures
        ({
            let a = cli_automation_args(format, output_dir, playlist, url);
            &&& a.len() == 7
            &&& a[0] == "-f"@ && a[1] == format
            &&& a[2] == "-o"@ && a[3] == output_dir + "/%(title)s.%(ext)s"@
            &&& a[4] == "--continue"@
            &&& playlist ==> a[5] == "--yes-playlist"@
            &&& !playlist ==> a[5] == "--no-playlist"@
            &&& a[6] == url
        }),
{
}

} // verus!
