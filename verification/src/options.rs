//! Download options, the audio presets and the yt-dlp command line built from them.

use vstd::prelude::*;
use crate::text::opt_str;

verus! {

/// What to download and how.
#[derive(Debug, Clone)]
pub struct DownloadOptions {
    pub url: String,
    pub format: String,
    pub output_dir: String,
    pub is_playlist: bool,
    pub audio_only: bool,
    pub audio_format: Option<String>,
    pub audio_quality: Option<String>,
}

impl Default for DownloadOptions {
    /// No URL, format `best`, directory `./downloads`, a single video with
    /// its picture, and no audio settings.
    fn default() -> (r: Self)
        ensures
            r.url@ == Seq::<char>::empty(),
            r.format@ == "best"@,
            r.output_dir@ == "./downloads"@,
            !r.is_playlist,
            !r.audio_only,
            r.audio_format is None,
            r.audio_quality is None,
    {
        DownloadOptions {
            url: String::new(),
            format: String::from_str("best"),
            output_dir: String::from_str("./downloads"),
            is_playlist: false,
            audio_only: false,
            audio_format: None,
            audio_quality: None,
        }
    }
}

/// A program and the arguments to start it with.
#[derive(Debug, Clone)]
pub struct CommandLine {
    pub program: String,
    pub args: Vec<String>,
}

impl CommandLine {
    /// The arguments as texts.
    pub open spec fn arg_texts(&self) -> Seq<Seq<char>> {
        string_views(self.args@)
    }
}

/// The views of a sequence of strings.
pub open spec fn string_views(v: Seq<String>) -> Seq<Seq<char>> {
    v.map_values(|s: String| s@)
}

/// Where yt-dlp writes each file: `<dir>/<title>.<ext>`.
pub open spec fn output_template(dir: Seq<char>) -> Seq<char> {
    dir + "/%(title)s.%(ext)s"@
}

/// The flag that turns playlist handling on or off.
pub open spec fn playlist_flag(is_playlist: bool) -> Seq<char> {
    if is_playlist {
        "--yes-playlist"@
    } else {
        "--no-playlist"@
    }
}

/// A flag and its value when the value is there, else nothing.
pub open spec fn optional_pair(flag: Seq<char>, value: Option<String>) -> Seq<Seq<char>> {
    match value {
        Some(v) => seq![flag, v@],
        None => Seq::empty(),
    }
}

/// The arguments that ask for the audio track only.
pub open spec fn audio_args(o: DownloadOptions) -> Seq<Seq<char>> {
    if o.audio_only {
        seq!["--extract-audio"@] + optional_pair("--audio-format"@, o.audio_format)
            + optional_pair("--audio-quality"@, o.audio_quality)
    } else {
        Seq::empty()
    }
}

/// The arguments of yt-dlp for a download: the format, the output template,
/// resuming of partial downloads, the playlist flag, the audio settings,
/// and last the URL.
pub open spec fn download_args(o: DownloadOptions) -> Seq<Seq<char>> {
    seq!["-f"@, o.format@, "-o"@, output_template(o.output_dir@), "--continue"@,
        playlist_flag(o.is_playlist)] + audio_args(o) + seq![o.url@]
}

/// Appends one argument.
pub fn push_arg(args: &mut Vec<String>, arg: String)
    ensures
        string_views(final(args)@) == string_views(old(args)@).push(arg@),
{
    let ghost before = args@;
    args.push(arg);
    proof {
        assert(string_views(args@) =~= string_views(before).push(arg@));
    }
}

/// Appends one argument given as a literal.
pub fn push_str_arg(args: &mut Vec<String>, arg: &str)
    ensures
        string_views(final(args)@) == string_views(old(args)@).push(arg@),
{
    push_arg(args, String::from_str(arg));
}

/// The yt-dlp command line for the options: always resuming partial
/// downloads, writing each file as `<dir>/<title>.<ext>`.
pub fn build_command(opts: &DownloadOptions) -> (cmd: CommandLine)
    ensures
        cmd.program@ == "yt-dlp"@,
        cmd.arg_texts() == download_args(*opts),
{
    let mut args: Vec<String> = Vec::new();
    push_str_arg(&mut args, "-f");
    push_arg(&mut args, opts.format.clone());
    push_str_arg(&mut args, "-o");
    let mut template = opts.output_dir.clone();
    template.append("/%(title)s.%(ext)s");
    push_arg(&mut args, template);
    push_str_arg(&mut args, "--continue");
    if opts.is_playlist {
        push_str_arg(&mut args, "--yes-playlist");
    } else {
        push_str_arg(&mut args, "--no-playlist");
    }
    let ghost before_audio = string_views(args@);
    if opts.audio_only {
        push_str_arg(&mut args, "--extract-audio");
        if let Some(af) = &opts.audio_format {
            push_str_arg(&mut args, "--audio-format");
            push_arg(&mut args, af.clone());
        }
        if let Some(aq) = &opts.audio_quality {
            push_str_arg(&mut args, "--audio-quality");
            push_arg(&mut args, aq.clone());
        }
    }
    proof {
        assert(string_views(args@) =~= before_audio + audio_args(*opts));
    }
    push_arg(&mut args, opts.url.clone());
    proof {
        assert(string_views(args@) =~= download_args(*opts));
    }
    CommandLine { program: String::from_str("yt-dlp"), args }
}

/// Quality presets offered for audio-only downloads.
#[derive(Debug, Clone, Copy, PartialEq, Eq, Structural)]
pub enum AudioQualityPreset {
    BestAuto,
    Mp3_320k,
    Mp3_256k,
    Mp3_192k,
    Mp3_128k,
    M4aAac,
}

/// The presets in the order in which they are offered.
pub open spec fn preset_order() -> Seq<AudioQualityPreset> {
    seq![
        AudioQualityPreset::BestAuto,
        AudioQualityPreset::Mp3_320k,
        AudioQualityPreset::Mp3_256k,
        AudioQualityPreset::Mp3_192k,
        AudioQualityPreset::Mp3_128k,
        AudioQualityPreset::M4aAac,
    ]
}

/// The label under which a preset is offered.
pub open spec fn preset_label(p: AudioQualityPreset) -> Seq<char> {
    match p {
        AudioQualityPreset::BestAuto => "🎵 Best available audio (auto)"@,
        AudioQualityPreset::Mp3_320k => "🔊 MP3 320kbps"@,
        AudioQualityPreset::Mp3_256k => "🔊 MP3 256kbps"@,
        AudioQualityPreset::Mp3_192k => "🔊 MP3 192kbps"@,
        AudioQualityPreset::Mp3_128k => "🔊 MP3 128kbps"@,
        AudioQualityPreset::M4aAac => "🎼 M4A (AAC)"@,
    }
}

/// The audio container a preset converts to, if any.
pub open spec fn preset_audio_format(p: AudioQualityPreset) -> Option<Seq<char>> {
    match p {
        AudioQualityPreset::BestAuto => None,
        AudioQualityPreset::M4aAac => Some("m4a"@),
        _ => Some("mp3"@),
    }
}

/// The bitrate a preset asks for, if any.
pub open spec fn preset_audio_quality(p: AudioQualityPreset) -> Option<Seq<char>> {
    match p {
        AudioQualityPreset::Mp3_320k => Some("320k"@),
        AudioQualityPreset::Mp3_256k => Some("256k"@),
        AudioQualityPreset::Mp3_192k => Some("192k"@),
        AudioQualityPreset::Mp3_128k => Some("128k"@),
        _ => None,
    }
}

impl AudioQualityPreset {
    /// The presets with their labels, in the order in which they are offered.
    pub fn options() -> (r: &'static [(&'static str, Self)])
        ensures
            r@.len() == preset_order().len(),
            forall|i: int|
                0 <= i < r@.len() ==> (#[trigger] r@[i]).1 == preset_order()[i] && r@[i].0@
                    == preset_label(preset_order()[i]),
    {
        &[
            ("🎵 Best available audio (auto)", Self::BestAuto),
            ("🔊 MP3 320kbps", Self::Mp3_320k),
            ("🔊 MP3 256kbps", Self::Mp3_256k),
            ("🔊 MP3 192kbps", Self::Mp3_192k),
            ("🔊 MP3 128kbps", Self::Mp3_128k),
            ("🎼 M4A (AAC)", Self::M4aAac),
        ]
    }

    /// The yt-dlp format, audio format and audio quality of this preset.
    pub fn to_opts(&self) -> (r: (&'static str, Option<&'static str>, Option<&'static str>))
        ensures
            r.0@ == "bestaudio"@,
            opt_str(r.1) == preset_audio_format(*self),
            opt_str(r.2) == preset_audio_quality(*self),
    {
        match self {
            Self::BestAuto => ("bestaudio", None, None),
            Self::Mp3_320k => ("bestaudio", Some("mp3"), Some("320k")),
            Self::Mp3_256k => ("bestaudio", Some("mp3"), Some("256k")),
            Self::Mp3_192k => ("bestaudio", Some("mp3"), Some("192k")),
            Self::Mp3_128k => ("bestaudio", Some("mp3"), Some("128k")),
            Self::M4aAac => ("bestaudio", Some("m4a"), None),
        }
    }
}

} // verus!

verus! {

/// Every download command resumes partial files, names the format and the
/// output template first, carries exactly the playlist flag that the
/// options ask for, extracts audio exactly when audio only is asked for, and
/// ends with the URL.
pub proof fn lemma_download_args_shape(o: DownloadOptions)
    ensures
        download_args(o).len() >= 7,
        download_args(o)[0] == "-f"@,
        download_args(o)[1] == o.format@,
        download_args(o)[2] == "-o"@,
        download_args(o)[3] == output_template(o.output_dir@),
        download_args(o)[4] == "--continue"@,
        download_args(o)[5] == (if o.is_playlist { "--yes-playlist"@ } else { "--no-playlist"@ }),
        download_args(o).last() == o.url@,
        o.audio_only <==> download_args(o).len() > 7,
        o.audio_only ==> download_args(o)[6] == "--extract-audio"@,
{
    let a = download_args(o);
    assert(a[0] == "-f"@);
    if o.audio_only {
        assert(audio_args(o).len() >= 1);
        assert(audio_args(o)[0] == "--extract-audio"@);
        assert(a[6] == audio_args(o)[0]);
    }
}

/// Each preset is offered exactly once.
pub proof fn lemma_preset_offered_once(p: AudioQualityPreset)
    ensures
        exists|i: int| 0 <= i < preset_order().len() && preset_order()[i] == p,
        forall|i: int, j: int|
            0 <= i < preset_order().len() && 0 <= j < preset_order().len()
                && preset_order()[i] == p && preset_order()[j] == p ==> i == j,
{
    let order = preset_order();
    let i: int = match p {
        AudioQualityPreset::BestAuto => 0,
        AudioQualityPreset::Mp3_320k => 1,
        AudioQualityPreset::Mp3_256k => 2,
        AudioQualityPreset::Mp3_192k => 3,
        AudioQualityPreset::Mp3_128k => 4,
        AudioQualityPreset::M4aAac => 5,
    };
    assert(order[i] == p);
}

/// Every preset downloads the best audio stream, and a preset that names a
/// bitrate converts to MP3.
pub proof fn lemma_presets_audio(p: AudioQualityPreset)
    ensures
        preset_audio_quality(p) is Some ==> preset_audio_format(p) == Some("mp3"@),
        p == AudioQualityPreset::BestAuto <==> preset_audio_format(p) is None,
{
}

} // verus!

verus! {

/// Each preset's label names what the preset asks for: an MP3 label
/// `🔊 MP3 {N}kbps` goes with MP3 at `{N}k`, the M4A label with M4A, and the
/// automatic label with neither a format nor a bitrate.
pub proof fn lemma_labels_name_requests(p: AudioQualityPreset)
    ensures
        preset_audio_quality(p) is Some ==> (exists|n: Seq<char>|
            preset_audio_quality(p) == Some(n + "k"@) && #[trigger] preset_label(p) == "🔊 MP3 "@ + n + "kbps"@)
            && preset_audio_format(p) == Some("mp3"@),
        preset_audio_format(p) == Some("m4a"@) <==> preset_label(p) == "🎼 M4A (AAC)"@,
        preset_audio_format(p) is None <==> preset_label(p) == "🎵 Best available audio (auto)"@,
        preset_audio_format(p) is None ==> preset_audio_quality(p) is None,
{
    reveal_strlit("🔊 MP3 ");
    reveal_strlit("kbps");
    reveal_strlit("k");
    reveal_strlit("mp3");
    reveal_strlit("m4a");
    reveal_strlit("🎵 Best available audio (auto)");
    reveal_strlit("🔊 MP3 320kbps");
    reveal_strlit("🔊 MP3 256kbps");
    reveal_strlit("🔊 MP3 192kbps");
    reveal_strlit("🔊 MP3 128kbps");
    reveal_strlit("🎼 M4A (AAC)");
    reveal_strlit("320k");
    reveal_strlit("256k");
    reveal_strlit("192k");
    reveal_strlit("128k");
    reveal_strlit("320");
    reveal_strlit("256");
    reveal_strlit("192");
    reveal_strlit("128");
    match p {
        AudioQualityPreset::Mp3_320k => {
            assert(preset_audio_quality(p) == Some("320"@ + "k"@));
            assert(preset_label(p) =~= "🔊 MP3 "@ + "320"@ + "kbps"@);
        },
        AudioQualityPreset::Mp3_256k => {
            assert(preset_audio_quality(p) == Some("256"@ + "k"@));
            assert(preset_label(p) =~= "🔊 MP3 "@ + "256"@ + "kbps"@);
        },
        AudioQualityPreset::Mp3_192k => {
            assert(preset_audio_quality(p) == Some("192"@ + "k"@));
            assert(preset_label(p) =~= "🔊 MP3 "@ + "192"@ + "kbps"@);
        },
        AudioQualityPreset::Mp3_128k => {
            assert(preset_audio_quality(p) == Some("128"@ + "k"@));
            assert(preset_label(p) =~= "🔊 MP3 "@ + "128"@ + "kbps"@);
        },
        AudioQualityPreset::M4aAac => {
            assert("m4a"@ != "mp3"@) by { assert("m4a"@[1] != "mp3"@[1]); }
            assert(preset_label(p) != "🎵 Best available audio (auto)"@) by {
                assert(preset_label(p).len() != "🎵 Best available audio (auto)"@.len());
            }
        },
        AudioQualityPreset::BestAuto => {
            assert(preset_label(p) != "🎼 M4A (AAC)"@) by {
                assert(preset_label(p).len() != "🎼 M4A (AAC)"@.len());
            }
        },
    }
}

} // verus!

verus! {

/// Whether `needle` occurs in `hay`.
pub open spec fn text_contains(hay: Seq<char>, needle: Seq<char>) -> bool {
    exists|i: int| 0 <= i && i + needle.len() <= hay.len() && #[trigger] hay.subrange(i, i + needle.len()) == needle
}

/// A position below thirty is one of the first thirty.
proof fn lemma_small_index(i: int)
    requires
        0 <= i < 30,
    ensures
        i == 0 || i == 1 || i == 2 || i == 3 || i == 4 || i == 5 || i == 6 || i == 7 || i == 8
            || i == 9 || i == 10 || i == 11 || i == 12 || i == 13 || i == 14 || i == 15 || i == 16
            || i == 17 || i == 18 || i == 19 || i == 20 || i == 21 || i == 22 || i == 23 || i == 24
            || i == 25 || i == 26 || i == 27 || i == 28 || i == 29,
{
}

/// A text that does not hold the first character of `needle` does not hold
/// `needle`.
proof fn lemma_absent_first(hay: Seq<char>, needle: Seq<char>)
    requires
        needle.len() > 0,
        !hay.contains(needle[0]),
    ensures
        !text_contains(hay, needle),
{
    if text_contains(hay, needle) {
        let i = choose|i: int|
            0 <= i && i + needle.len() <= hay.len() && #[trigger] hay.subrange(i, i + needle.len()) == needle;
        assert(hay[i] == hay.subrange(i, i + needle.len())[0]);
    }
}

/// In an MP3 label `🔊 MP3 {b}kbps` with a three-character bitrate free of
/// `M` and `k`, the only bitrate that `MP3 {n}kbps` finds is `b`.
proof fn lemma_mp3_label_bitrate(b: Seq<char>, n: Seq<char>)
    requires
        b.len() == 3,
        !b.contains('M'),
        !b.contains('k'),
        text_contains("🔊 MP3 "@ + b + "kbps"@, "MP3 "@ + n + "kbps"@),
    ensures
        n == b,
{
    reveal_strlit("🔊 MP3 ");
    reveal_strlit("MP3 ");
    reveal_strlit("kbps");
    let hay = "🔊 MP3 "@ + b + "kbps"@;
    let needle = "MP3 "@ + n + "kbps"@;
    let i = choose|i: int|
        0 <= i && i + needle.len() <= hay.len() && #[trigger] hay.subrange(i, i + needle.len()) == needle;
    assert(hay.len() == 13);
    assert(hay[i] == needle[0]);
    assert(i == 2) by {
        lemma_small_index(i);
        if 6 <= i < 9 {
            assert(b[i - 6] == hay[i]);
            assert(b.contains(b[i - 6]));
        }
    }
    let k: int = 4 + n.len() as int;
    assert(needle[k] == 'k');
    assert(hay[2 + k] == needle[k]);
    assert(2 + k == 9) by {
        lemma_small_index(2 + k);
        if 6 <= 2 + k < 9 {
            assert(b[2 + k - 6] == hay[2 + k]);
            assert(b.contains(b[2 + k - 6]));
        }
    }
    assert forall|t: int| 0 <= t < 3 implies n[t] == b[t] by {
        assert(needle[4 + t] == n[t]);
        assert(hay[6 + t] == needle[4 + t]);
    }
    assert(n =~= b);
}

/// A label names what its preset asks for: a label holding `MP3 {N}kbps`
/// belongs to a preset that converts to MP3 at `{N}k`, a label holding `M4A`
/// to one that converts to M4A, and a label holding `(auto)` to one that
/// names neither a format nor a bitrate. With `options` (which pairs each
/// label with its preset) and `to_opts` (which gives these values), this is
/// what each offered entry requests.
pub proof fn lemma_labels_say_requests(p: AudioQualityPreset, n: Seq<char>)
    ensures
        text_contains(preset_label(p), "MP3 "@ + n + "kbps"@) ==> preset_audio_format(p) == Some(
            "mp3"@,
        ) && preset_audio_quality(p) == Some(n + "k"@),
        text_contains(preset_label(p), "M4A"@) ==> preset_audio_format(p) == Some("m4a"@),
        text_contains(preset_label(p), "(auto)"@) ==> preset_audio_format(p) is None
            && preset_audio_quality(p) is None,
{
    reveal_strlit("🔊 MP3 ");
    reveal_strlit("kbps");
    reveal_strlit("k");
    reveal_strlit("MP3 ");
    reveal_strlit("M4A");
    reveal_strlit("(auto)");
    reveal_strlit("🔊 MP3 320kbps");
    reveal_strlit("🔊 MP3 256kbps");
    reveal_strlit("🔊 MP3 192kbps");
    reveal_strlit("🔊 MP3 128kbps");
    reveal_strlit("🎼 M4A (AAC)");
    reveal_strlit("🎵 Best available audio (auto)");
    reveal_strlit("320k");
    reveal_strlit("256k");
    reveal_strlit("192k");
    reveal_strlit("128k");
    reveal_strlit("320");
    reveal_strlit("256");
    reveal_strlit("192");
    reveal_strlit("128");
    let label = preset_label(p);
    let mp3 = "MP3 "@ + n + "kbps"@;
    assert(mp3[0] == 'M');
    assert("M4A"@[0] == 'M');
    assert("(auto)"@[0] == '(');
    match p {
        AudioQualityPreset::BestAuto => {
            assert(!label.contains('M')) by {
                if label.contains('M') {
                    let j = choose|j: int| 0 <= j < label.len() && label[j] == 'M';
                    lemma_small_index(j);
                }
            }
            lemma_absent_first(label, mp3);
            lemma_absent_first(label, "M4A"@);
        },
        AudioQualityPreset::M4aAac => {
            assert(!label.contains('(') ==> !text_contains(label, "(auto)"@)) by {
                if !label.contains('(') {
                    lemma_absent_first(label, "(auto)"@);
                }
            }
            if text_contains(label, mp3) {
                let i = choose|i: int|
                    0 <= i && i + mp3.len() <= label.len() && #[trigger] label.subrange(i, i + mp3.len()) == mp3;
                assert(label[i] == mp3[0]);
                assert(label[i + 1] == mp3[1]);
                lemma_small_index(i);
            }
            if text_contains(label, "(auto)"@) {
                let a = "(auto)"@;
                let i = choose|i: int|
                    0 <= i && i + a.len() <= label.len() && #[trigger] label.subrange(i, i + a.len()) == a;
                assert(label[i] == a[0]);
                assert(label[i + 1] == a[1]);
                lemma_small_index(i);
            }
        },
        _ => {
            let b = match p {
                AudioQualityPreset::Mp3_320k => "320"@,
                AudioQualityPreset::Mp3_256k => "256"@,
                AudioQualityPreset::Mp3_192k => "192"@,
                _ => "128"@,
            };
            assert(label =~= "🔊 MP3 "@ + b + "kbps"@);
            assert(!b.contains('M') && !b.contains('k')) by {
                if b.contains('M') || b.contains('k') {
                    let j = choose|j: int| 0 <= j < b.len() && (b[j] == 'M' || b[j] == 'k');
                    lemma_small_index(j);
                }
            }
            if text_contains(label, mp3) {
                lemma_mp3_label_bitrate(b, n);
                assert(preset_audio_quality(p) == Some(b + "k"@));
            }
            assert(!label.contains('(')) by {
                if label.contains('(') {
                    let j = choose|j: int| 0 <= j < label.len() && label[j] == '(';
                    lemma_small_index(j);
                }
            }
            lemma_absent_first(label, "(auto)"@);
            if text_contains(label, "M4A"@) {
                let a = "M4A"@;
                let i = choose|i: int|
                    0 <= i && i + a.len() <= label.len() && #[trigger] label.subrange(i, i + a.len()) == a;
                assert(label[i] == a[0]);
                assert(label[i + 1] == a[1]);
                lemma_small_index(i);
            }
        },
    }
}

} // verus!

verus! {

/// With audio only, the arguments after the playlist flag are the
/// extraction, then `--audio-format` and the given format when one is given,
/// then `--audio-quality` and the given quality when one is given, each
/// independently of the other, and last the URL; without audio only nothing
/// comes between the playlist flag and the URL.
pub proof fn lemma_audio_flags_follow_options(o: DownloadOptions)
    ensures
        ({
            let a = download_args(o);
            let nf: int = if o.audio_format is Some { 2 } else { 0 };
            let nq: int = if o.audio_quality is Some { 2 } else { 0 };
            &&& !o.audio_only ==> a.len() == 7 && a[6] == o.url@
            &&& o.audio_only ==> {
                &&& a.len() == 8 + nf + nq
                &&& a[6] == "--extract-audio"@
                &&& (o.audio_format matches Some(f) ==> a[7] == "--audio-format"@ && a[8] == f@)
                &&& (o.audio_quality matches Some(q) ==> a[7 + nf] == "--audio-quality"@ && a[8
                    + nf] == q@)
                &&& a[7 + nf + nq] == o.url@
            }
        }),
{
    let a = download_args(o);
    let head = seq!["-f"@, o.format@, "-o"@, output_template(o.output_dir@), "--continue"@,
        playlist_flag(o.is_playlist)];
    assert(a == head + audio_args(o) + seq![o.url@]);
    if o.audio_only {
        let fp = optional_pair("--audio-format"@, o.audio_format);
        let qp = optional_pair("--audio-quality"@, o.audio_quality);
        assert(audio_args(o) == seq!["--extract-audio"@] + fp + qp);
        assert(a =~= head + seq!["--extract-audio"@] + fp + qp + seq![o.url@]);
        assert(a[6] == "--extract-audio"@);
    } else {
        assert(a =~= head + seq![o.url@]);
    }
}

} // verus!
