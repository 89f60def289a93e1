//! The command lines of the terminal program `yt-downloader`: it writes
//! partial files in place (`--no-part`) and builds its own arguments.

use vstd::prelude::*;
use crate::args::Args;
use crate::options::{
    output_template, playlist_flag, preset_audio_format, preset_audio_quality, preset_label, preset_order,
    push_arg, push_str_arg, string_views, AudioQualityPreset, CommandLine,
};
use crate::text::{join_path_text, path_join};

verus! {

/// The file name template that yt-dlp fills in.
pub open spec fn title_template() -> Seq<char> {
    "%(title)s.%(ext)s"@
}

/// The arguments of automation mode: the format, the output directory
/// joined with the file name template, resuming in place, the playlist flag
/// and the URL.
pub open spec fn automation_args(format: Seq<char>, output_dir: Seq<char>, playlist: bool, url: Seq<char>) -> Seq<Seq<char>> {
    seq!["-f"@, format, "-o"@, path_join(output_dir, title_template()), "--continue"@,
        "--no-part"@, playlist_flag(playlist), url]
}

/// The command that automation mode runs for the given arguments.
pub fn run_automation(args: &Args) -> (cmd: CommandLine)
    requires
        args.url is Some,
    ensures
        cmd.program@ == "yt-dlp"@,
        cmd.arg_texts() == automation_args(
            args.format@,
            args.output_dir@,
            args.playlist,
            args.url->Some_0@,
        ),
{
    let url = match &args.url {
        Some(u) => u,
        None => {
            proof {
                assert(false);
            }
            return CommandLine { program: String::new(), args: Vec::new() };
        },
    };
    let mut a: Vec<String> = Vec::new();
    push_str_arg(&mut a, "-f");
    push_arg(&mut a, args.format.clone());
    push_str_arg(&mut a, "-o");
    push_arg(&mut a, join_path_text(args.output_dir.as_str(), "%(title)s.%(ext)s"));
    push_str_arg(&mut a, "--continue");
    push_str_arg(&mut a, "--no-part");
    if args.playlist {
        push_str_arg(&mut a, "--yes-playlist");
    } else {
        push_str_arg(&mut a, "--no-playlist");
    }
    push_arg(&mut a, url.clone());
    proof {
        assert(string_views(a@) =~= automation_args(
            args.format@,
            args.output_dir@,
            args.playlist,
            args.url->Some_0@,
        ));
    }
    CommandLine { program: String::from_str("yt-dlp"), args: a }
}

/// The preset chosen at a position of the audio quality menu; positions
/// past the menu choose the best audio.
pub open spec fn audio_choice_preset(selection: int) -> AudioQualityPreset {
    if 0 <= selection < preset_order().len() {
        preset_order()[selection]
    } else {
        AudioQualityPreset::BestAuto
    }
}

/// The preset chosen at a position of the audio quality menu, whose entries
/// are the presets in the order in which they are offered.
pub fn audio_choice(selection: usize) -> (p: AudioQualityPreset)
    ensures
        p == audio_choice_preset(selection as int),
{
    match selection {
        1 => AudioQualityPreset::Mp3_320k,
        2 => AudioQualityPreset::Mp3_256k,
        3 => AudioQualityPreset::Mp3_192k,
        4 => AudioQualityPreset::Mp3_128k,
        5 => AudioQualityPreset::M4aAac,
        _ => AudioQualityPreset::BestAuto,
    }
}

/// The arguments of a video or playlist download from the menu: the format,
/// `<dir>/<title>.<ext>`, resuming in place, `--no-playlist` for a single
/// video, and the URL.
pub open spec fn video_args(url: Seq<char>, format: Seq<char>, output_dir: Seq<char>, is_playlist: bool) -> Seq<Seq<char>> {
    seq!["-f"@, format, "-o"@, output_template(output_dir), "--continue"@, "--no-part"@]
        + (if is_playlist { Seq::empty() } else { seq!["--no-playlist"@] })
        + seq![url]
}

/// The bitrate a preset asks for, or `0` (the best) when it names none.
pub open spec fn quality_or_best(p: AudioQualityPreset) -> Seq<char> {
    match preset_audio_quality(p) {
        Some(q) => q,
        None => "0"@,
    }
}

/// The stream a preset of the audio menu selects: an MP3 stream if there is
/// one for the MP3 entries, an M4A stream if there is one for the M4A entry,
/// else (and for the first entry) the best audio stream.
pub open spec fn menu_stream(p: AudioQualityPreset) -> Seq<char> {
    match p {
        AudioQualityPreset::BestAuto => "bestaudio"@,
        AudioQualityPreset::M4aAac => "bestaudio[ext=m4a]/bestaudio"@,
        _ => "bestaudio[ext=mp3]/bestaudio"@,
    }
}

/// The arguments that extract the audio track as a preset of the audio menu
/// asks: the extraction, conversion to MP3 for the MP3 entries, and the
/// entry's bitrate or else the best quality.
pub open spec fn extraction_args(p: AudioQualityPreset) -> Seq<Seq<char>> {
    seq!["--extract-audio"@] + (if preset_audio_quality(p) is Some {
        seq!["--audio-format"@, "mp3"@]
    } else {
        Seq::empty()
    }) + seq!["--audio-quality"@, quality_or_best(p)]
}

/// The arguments of an audio download from the menu: the preset's stream,
/// written, resumed and limited to one video as for a video, then the
/// extraction as the preset asks.
pub open spec fn audio_args(url: Seq<char>, preset: AudioQualityPreset, output_dir: Seq<char>, is_playlist: bool) -> Seq<Seq<char>> {
    video_args(url, menu_stream(preset), output_dir, is_playlist) + extraction_args(preset)
}

/// Appends `<dir>/%(title)s.%(ext)s`.
fn push_template(a: &mut Vec<String>, output_dir: &String)
    ensures
        string_views(final(a)@) == string_views(old(a)@).push(output_template(output_dir@)),
{
    let mut t = output_dir.clone();
    t.append("/%(title)s.%(ext)s");
    push_arg(a, t);
}

/// Appends the arguments of a video download from the menu.
fn push_video_args(a: &mut Vec<String>, url: &String, format: &str, output_dir: &String, is_playlist: bool)
    ensures
        string_views(final(a)@) == string_views(old(a)@) + video_args(url@, format@, output_dir@, is_playlist),
{
    let ghost start = string_views(a@);
    push_str_arg(a, "-f");
    push_str_arg(a, format);
    push_str_arg(a, "-o");
    push_template(a, output_dir);
    push_str_arg(a, "--continue");
    push_str_arg(a, "--no-part");
    if !is_playlist {
        push_str_arg(a, "--no-playlist");
    }
    push_arg(a, url.clone());
    proof {
        assert(string_views(a@) =~= start + video_args(url@, format@, output_dir@, is_playlist));
    }
}

/// The command of a video or playlist download from the menu.
pub fn video_command(url: &String, format: &String, output_dir: &String, is_playlist: bool) -> (cmd: CommandLine)
    ensures
        cmd.program@ == "yt-dlp"@,
        cmd.arg_texts() == video_args(url@, format@, output_dir@, is_playlist),
{
    let mut a: Vec<String> = Vec::new();
    push_video_args(&mut a, url, format.as_str(), output_dir, is_playlist);
    proof {
        assert(string_views(a@) =~= video_args(url@, format@, output_dir@, is_playlist));
    }
    CommandLine { program: String::from_str("yt-dlp"), args: a }
}

/// The command of an audio download from the menu with a quality preset.
pub fn audio_command(url: &String, preset: AudioQualityPreset, output_dir: &String, is_playlist: bool) -> (cmd: CommandLine)
    ensures
        cmd.program@ == "yt-dlp"@,
        cmd.arg_texts() == audio_args(url@, preset, output_dir@, is_playlist),
{
    let (_, audio_format, audio_quality) = preset.to_opts();
    let stream = match preset {
        AudioQualityPreset::BestAuto => "bestaudio",
        AudioQualityPreset::M4aAac => "bestaudio[ext=m4a]/bestaudio",
        _ => "bestaudio[ext=mp3]/bestaudio",
    };
    let mut a: Vec<String> = Vec::new();
    push_video_args(&mut a, url, stream, output_dir, is_playlist);
    let ghost head = string_views(a@);
    push_str_arg(&mut a, "--extract-audio");
    match preset {
        AudioQualityPreset::BestAuto | AudioQualityPreset::M4aAac => {},
        _ => {
            push_str_arg(&mut a, "--audio-format");
            push_str_arg(&mut a, "mp3");
        },
    }
    push_str_arg(&mut a, "--audio-quality");
    match audio_quality {
        Some(q) => push_str_arg(&mut a, q),
        None => push_str_arg(&mut a, "0"),
    }
    proof {
        assert(string_views(a@) =~= head + extraction_args(preset));
        assert(string_views(a@) =~= audio_args(url@, preset, output_dir@, is_playlist));
    }
    CommandLine { program: String::from_str("yt-dlp"), args: a }
}

/// The arguments of a download with a chosen format code: the code,
/// `<dir>/<title>.<ext>`, resuming in place, a single video, the URL.
pub open spec fn format_code_args(url: Seq<char>, code: Seq<char>, output_dir: Seq<char>) -> Seq<Seq<char>> {
    seq!["-f"@, code, "-o"@, output_template(output_dir), "--continue"@, "--no-part"@,
        "--no-playlist"@, url]
}

/// The command of a download with a format code chosen from the list.
pub fn format_code_command(url: &String, code: &String, output_dir: &String) -> (cmd: CommandLine)
    ensures
        cmd.program@ == "yt-dlp"@,
        cmd.arg_texts() == format_code_args(url@, code@, output_dir@),
{
    let mut a: Vec<String> = Vec::new();
    push_str_arg(&mut a, "-f");
    push_arg(&mut a, code.clone());
    push_str_arg(&mut a, "-o");
    push_template(&mut a, output_dir);
    push_str_arg(&mut a, "--continue");
    push_str_arg(&mut a, "--no-part");
    push_str_arg(&mut a, "--no-playlist");
    push_arg(&mut a, url.clone());
    proof {
        assert(string_views(a@) =~= format_code_args(url@, code@, output_dir@));
    }
    CommandLine { program: String::from_str("yt-dlp"), args: a }
}

/// The command that lists the formats of a video.
pub fn list_formats_command(url: &String) -> (cmd: CommandLine)
    ensures
        cmd.program@ == "yt-dlp"@,
        cmd.arg_texts() == seq!["--list-formats"@, url@],
{
    let mut a: Vec<String> = Vec::new();
    push_str_arg(&mut a, "--list-formats");
    push_arg(&mut a, url.clone());
    proof {
        assert(string_views(a@) =~= seq!["--list-formats"@, url@]);
    }
    CommandLine { program: String::from_str("yt-dlp"), args: a }
}

} // verus!

verus! {

/// An MP3 entry of the audio menu selects an MP3 stream where there is one
/// and ends its arguments with the extraction to MP3 at the entry's bitrate,
/// each flag and value an argument of its own; the M4A entry selects an M4A
/// stream where there is one and extracts it at the best quality; the first
/// entry extracts the best stream at the best quality in its own format.
pub proof fn lemma_audio_menu_args(url: Seq<char>, output_dir: Seq<char>, is_playlist: bool, selection: int)
    ensures
        ({
            let a = audio_args(url, audio_choice_preset(selection), output_dir, is_playlist);
            &&& a[0] == "-f"@
            &&& 1 <= selection <= 4 ==> a[1] == "bestaudio[ext=mp3]/bestaudio"@ && a.skip(a.len() - 5)
                == seq!["--extract-audio"@, "--audio-format"@, "mp3"@, "--audio-quality"@,
                preset_audio_quality(audio_choice_preset(selection))->Some_0]
            &&& selection == 5 ==> a[1] == "bestaudio[ext=m4a]/bestaudio"@ && a.skip(a.len() - 3)
                == seq!["--extract-audio"@, "--audio-quality"@, "0"@]
            &&& (selection <= 0 || selection > 5) ==> a[1] == "bestaudio"@ && a.skip(a.len() - 3)
                == seq!["--extract-audio"@, "--audio-quality"@, "0"@]
        }),
{
    let p = audio_choice_preset(selection);
    let v = video_args(url, menu_stream(p), output_dir, is_playlist);
    let a = audio_args(url, p, output_dir, is_playlist);
    assert(a == v + extraction_args(p));
    assert(a[0] == v[0]);
    assert(a[1] == v[1]);
    if 1 <= selection <= 4 {
        assert(a.skip(a.len() - 5) =~= extraction_args(p));
    } else {
        assert(a.skip(a.len() - 3) =~= extraction_args(p));
    }
}

} // verus!

verus! {

/// Each position of the audio menu chooses the preset offered at that
/// position (the entries shown are the presets in the order in which they
/// are offered, with their labels), and positions past the menu choose the
/// best audio.
pub proof fn lemma_audio_choice_is_offered(selection: int)
    ensures
        0 <= selection < preset_order().len() ==> audio_choice_preset(selection)
            == preset_order()[selection],
        0 <= selection < preset_order().len() ==> preset_label(audio_choice_preset(selection))
            == preset_label(preset_order()[selection]),
        !(0 <= selection < preset_order().len()) ==> audio_choice_preset(selection)
            == AudioQualityPreset::BestAuto,
{
}

} // verus!
