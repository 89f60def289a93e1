//! Reading the progress lines that yt-dlp writes, and the events that a
//! download reports from them.

use vstd::prelude::*;
use crate::digits::{i64_text, signed_decimal};
use crate::options::{push_str_arg, string_views, CommandLine};
use crate::text::{
    split_text_three, split_three, str_views, strip_prefix_text, trim_text, trimmed, white_space,
};

verus! {

/// The progress template: each progress line is `download:` followed by the
/// percentage, the speed and the file name, separated by `|`.
pub open spec fn progress_template() -> Seq<char> {
    "download:%(progress._percent_str)s|%(progress._speed_str)s|%(info.filename)s"@
}

/// The arguments that make yt-dlp report progress in lines that
/// [`classify_line`] reads: no colours, one line per update, no warnings,
/// and the progress template.
pub open spec fn reporting_args() -> Seq<Seq<char>> {
    seq!["--color"@, "never"@, "--newline"@, "--no-warnings"@, "--progress-template"@,
        progress_template()]
}

/// The command with the arguments that make its progress readable appended.
pub fn with_progress_reporting(cmd: CommandLine) -> (r: CommandLine)
    ensures
        r.program == cmd.program,
        r.arg_texts() == cmd.arg_texts() + reporting_args(),
{
    let mut cmd = cmd;
    let ghost before = cmd.arg_texts();
    push_str_arg(&mut cmd.args, "--color");
    push_str_arg(&mut cmd.args, "never");
    push_str_arg(&mut cmd.args, "--newline");
    push_str_arg(&mut cmd.args, "--no-warnings");
    push_str_arg(&mut cmd.args, "--progress-template");
    push_str_arg(
        &mut cmd.args,
        "download:%(progress._percent_str)s|%(progress._speed_str)s|%(info.filename)s",
    );
    proof {
        assert(string_views(cmd.args@) =~= before + reporting_args());
    }
    cmd
}

/// The environment variable that keeps yt-dlp from buffering its output,
/// and its value.
pub fn unbuffered_environment() -> (r: (&'static str, &'static str))
    ensures
        r.0@ == "PYTHONUNBUFFERED"@,
        r.1@ == "1"@,
{
    ("PYTHONUNBUFFERED", "1")
}

/// The prefix of the progress lines that the progress template asks yt-dlp for.
pub open spec fn progress_prefix() -> Seq<char> {
    "download:"@
}

/// The prefix of the line in which yt-dlp names the file it writes.
pub open spec fn destination_prefix() -> Seq<char> {
    "[download] Destination: "@
}

/// What one line of yt-dlp's output says, as text.
pub enum LineView {
    Progress { percent: Seq<char>, speed: Seq<char>, filename: Seq<char> },
    Destination(Seq<char>),
    Other,
}

/// What one line of yt-dlp's output says.
#[derive(Debug, Clone)]
pub enum LineReport {
    /// A progress line: the number of the percentage, and the speed and file
    /// name, trimmed.
    Progress { percent: String, speed: String, filename: String },
    /// The file that yt-dlp starts to write, trimmed.
    Destination(String),
    /// Anything else.
    Other,
}

impl View for LineReport {
    type V = LineView;

    open spec fn view(&self) -> LineView {
        match self {
            LineReport::Progress { percent, speed, filename } => LineView::Progress {
                percent: percent@,
                speed: speed@,
                filename: filename@,
            },
            LineReport::Destination(name) => LineView::Destination(name@),
            LineReport::Other => LineView::Other,
        }
    }
}

/// `s` without one trailing percent sign.
pub open spec fn without_percent_sign(s: Seq<char>) -> Seq<char> {
    if s.len() > 0 && s.last() == '%' {
        s.drop_last()
    } else {
        s
    }
}

/// The number of a percentage field such as ` 45.3%`: the field trimmed,
/// without its percent sign, trimmed again.
pub open spec fn percent_number(field: Seq<char>) -> Seq<char> {
    trimmed(without_percent_sign(trimmed(field)))
}

/// The meaning of a line: after `download:` three fields separated by `|`
/// (the last may hold further `|`): the number of the percentage, and the
/// speed and file name trimmed; after
/// `[download] Destination: ` a file name, trimmed; nothing else counts.
pub open spec fn classify(line: Seq<char>) -> LineView {
    if progress_prefix().is_prefix_of(line) {
        let parts = split_three(line.skip(progress_prefix().len() as int), '|');
        if parts.len() == 3 {
            LineView::Progress {
                percent: percent_number(parts[0]),
                speed: trimmed(parts[1]),
                filename: trimmed(parts[2]),
            }
        } else {
            LineView::Other
        }
    } else if destination_prefix().is_prefix_of(line) {
        LineView::Destination(trimmed(line.skip(destination_prefix().len() as int)))
    } else {
        LineView::Other
    }
}

/// The trimmed text of a slice, owned.
fn trimmed_string(s: &str) -> (r: String)
    ensures
        r@ == trimmed(s@),
{
    String::from_str(trim_text(s))
}

/// The number of a percentage field, owned.
fn percent_number_string(field: &str) -> (r: String)
    ensures
        r@ == percent_number(field@),
{
    let t = trim_text(field);
    let n = t.unicode_len();
    if n > 0 && t.get_char(n - 1) == '%' {
        let inner = t.substring_char(0, n - 1);
        proof {
            assert(inner@ =~= t@.drop_last());
        }
        String::from_str(trim_text(inner))
    } else {
        String::from_str(trim_text(t))
    }
}

/// Reads one line of yt-dlp's output.
pub fn classify_line(line: &str) -> (r: LineReport)
    ensures
        r@ == classify(line@),
{
    if let Some(data) = strip_prefix_text(line, "download:") {
        let parts = split_text_three(data, '|');
        if parts.len() == 3 {
            proof {
                assert(str_views(parts@)[0] == parts@[0]@);
                assert(str_views(parts@)[1] == parts@[1]@);
                assert(str_views(parts@)[2] == parts@[2]@);
            }
            let percent = percent_number_string(parts[0]);
            let speed = trimmed_string(parts[1]);
            let filename = trimmed_string(parts[2]);
            LineReport::Progress { percent, speed, filename }
        } else {
            LineReport::Other
        }
    } else if let Some(name) = strip_prefix_text(line, "[download] Destination: ") {
        LineReport::Destination(trimmed_string(name))
    } else {
        LineReport::Other
    }
}

/// How the percentage of a progress line reads as a number: not at all, below
/// one hundred once held to `0..=100`, or at one hundred.
#[derive(Debug, Clone, Copy, PartialEq, Eq, Structural)]
pub enum PercentReading {
    Unreadable,
    Partial,
    Complete,
}

/// An event of a download, as text; the percentage of a progress event is
/// carried beside it by the caller.
pub enum SignalView {
    Progress { speed: Seq<char>, filename: Seq<char> },
    FileStarted(Seq<char>),
    FileCompleted(Seq<char>),
}

/// An event of a download.
#[derive(Debug, Clone)]
pub enum Signal {
    /// Progress on a file at some speed.
    Progress { speed: String, filename: String },
    /// yt-dlp started to write a file.
    FileStarted(String),
    /// A file reached one hundred percent.
    FileCompleted(String),
}

impl View for Signal {
    type V = SignalView;

    open spec fn view(&self) -> SignalView {
        match self {
            Signal::Progress { speed, filename } => SignalView::Progress {
                speed: speed@,
                filename: filename@,
            },
            Signal::FileStarted(n) => SignalView::FileStarted(n@),
            Signal::FileCompleted(n) => SignalView::FileCompleted(n@),
        }
    }
}

/// The views of a sequence of signals.
pub open spec fn signal_views(s: Seq<Signal>) -> Seq<SignalView> {
    s.map_values(|x: Signal| x@)
}

/// The events that one line gives: a readable progress line gives a
/// progress event, followed by a completion when it is at one hundred
/// percent; a destination line gives the start of a file.
pub open spec fn line_signals(l: LineView, reading: PercentReading) -> Seq<SignalView> {
    match l {
        LineView::Progress { percent, speed, filename } => match reading {
            PercentReading::Unreadable => Seq::empty(),
            PercentReading::Partial => seq![SignalView::Progress { speed, filename }],
            PercentReading::Complete => seq![
                SignalView::Progress { speed, filename },
                SignalView::FileCompleted(filename),
            ],
        },
        LineView::Destination(name) => seq![SignalView::FileStarted(name)],
        LineView::Other => Seq::empty(),
    }
}

/// How many completions a sequence of events holds.
pub open spec fn completions(s: Seq<SignalView>) -> nat
    decreases s.len(),
{
    if s.len() == 0 {
        0
    } else {
        completions(s.drop_last()) + if s.last() is FileCompleted {
            1nat
        } else {
            0nat
        }
    }
}

/// The message of a yt-dlp run that failed with the given exit code.
pub open spec fn exit_failure_text(code: Option<i32>) -> Seq<char> {
    "yt-dlp exited with status "@ + signed_decimal(
        match code {
            Some(c) => c as int,
            None => -1,
        },
    )
}

/// The message of a yt-dlp run that failed; `-1` stands for a run that
/// ended without an exit code.
pub fn exit_failure_message(code: Option<i32>) -> (m: String)
    ensures
        m@ == exit_failure_text(code),
{
    let c: i32 = match code {
        Some(c) => c,
        None => -1,
    };
    let mut m = String::from_str("yt-dlp exited with status ");
    let digits = i64_text(c as i64);
    m.append(digits.as_str());
    m
}

/// The count of completed files while one yt-dlp run is read.
#[derive(Debug)]
pub struct DownloadMonitor {
    pub completed_files: usize,
}

impl DownloadMonitor {
    /// Nothing read yet.
    pub fn new() -> (m: Self)
        ensures
            m.completed_files == 0,
    {
        DownloadMonitor { completed_files: 0 }
    }

    /// The events of one line, counting a completed file.
    pub fn on_line(&mut self, report: &LineReport, reading: PercentReading) -> (signals: Vec<Signal>)
        requires
            report@ is Progress && reading == PercentReading::Complete ==> old(self).completed_files
                < usize::MAX,
        ensures
            signal_views(signals@) == line_signals(report@, reading),
            final(self).completed_files == old(self).completed_files + completions(
                signal_views(signals@),
            ),
    {
        let mut signals: Vec<Signal> = Vec::new();
        match report {
            LineReport::Progress { percent: _, speed, filename } => {
                match reading {
                    PercentReading::Unreadable => {},
                    PercentReading::Partial => {
                        signals.push(Signal::Progress { speed: speed.clone(), filename: filename.clone() });
                    },
                    PercentReading::Complete => {
                        signals.push(Signal::Progress { speed: speed.clone(), filename: filename.clone() });
                        signals.push(Signal::FileCompleted(filename.clone()));
                        self.completed_files = self.completed_files + 1;
                    },
                }
            },
            LineReport::Destination(name) => {
                signals.push(Signal::FileStarted(name.clone()));
            },
            LineReport::Other => {},
        }
        proof {
            let v = signal_views(signals@);
            assert(v =~= line_signals(report@, reading));
            reveal_with_fuel(completions, 3);
            if v.len() == 2 {
                assert(v.drop_last().drop_last() =~= Seq::<SignalView>::empty());
            } else if v.len() == 1 {
                assert(v.drop_last() =~= Seq::<SignalView>::empty());
            }
        }
        signals
    }

    /// The end of a run: the number of completed files when yt-dlp succeeded,
    /// else the message of its exit status.
    pub fn finish(&self, success: bool, exit_code: Option<i32>) -> (r: Result<usize, String>)
        ensures
            success ==> r == Ok::<usize, String>(self.completed_files),
            !success ==> (r matches Err(m) && m@ == exit_failure_text(exit_code)),
    {
        if success {
            Ok(self.completed_files)
        } else {
            Err(exit_failure_message(exit_code))
        }
    }
}

} // verus!

verus! {

/// The events of a run of lines, in order.
pub open spec fn run_signals(steps: Seq<(LineView, PercentReading)>) -> Seq<SignalView>
    decreases steps.len(),
{
    if steps.len() == 0 {
        Seq::empty()
    } else {
        run_signals(steps.drop_last()) + line_signals(steps.last().0, steps.last().1)
    }
}

/// What the monitor's count adds up to over a run of lines, one line at a time.
pub open spec fn run_count(steps: Seq<(LineView, PercentReading)>) -> nat
    decreases steps.len(),
{
    if steps.len() == 0 {
        0
    } else {
        run_count(steps.drop_last()) + completions(line_signals(steps.last().0, steps.last().1))
    }
}

/// Completions of two runs of events add up.
pub proof fn lemma_completions_concat(a: Seq<SignalView>, b: Seq<SignalView>)
    ensures
        completions(a + b) == completions(a) + completions(b),
    decreases b.len(),
{
    if b.len() == 0 {
        assert(a + b =~= a);
    } else {
        lemma_completions_concat(a, b.drop_last());
        assert((a + b).drop_last() =~= a + b.drop_last());
    }
}

/// The number of files that a run reports at its end is the number of
/// completion events sent during the run.
pub proof fn lemma_total_is_completions(steps: Seq<(LineView, PercentReading)>)
    ensures
        run_count(steps) == completions(run_signals(steps)),
    decreases steps.len(),
{
    if steps.len() > 0 {
        lemma_total_is_completions(steps.drop_last());
        lemma_completions_concat(
            run_signals(steps.drop_last()),
            line_signals(steps.last().0, steps.last().1),
        );
    }
}

/// A file completes only in a line that also reports its progress, and the
/// completion names the file of that progress.
pub proof fn lemma_completion_follows_progress(l: LineView, r: PercentReading)
    ensures
        completions(line_signals(l, r)) <= 1,
        completions(line_signals(l, r)) == 1 ==> (l matches LineView::Progress { filename, .. }
            && line_signals(l, r)
            =~= seq![
            SignalView::Progress { speed: l->speed, filename },
            SignalView::FileCompleted(filename),
        ]),
{
    reveal_with_fuel(completions, 3);
    let s = line_signals(l, r);
    if s.len() == 2 {
        assert(s.drop_last().drop_last() =~= Seq::<SignalView>::empty());
    } else if s.len() == 1 {
        assert(s.drop_last() =~= Seq::<SignalView>::empty());
    }
}

} // verus!

verus! {

/// A text that neither starts nor ends with white space is its own trim.
pub proof fn lemma_trimmed_unchanged(s: Seq<char>)
    requires
        s.len() > 0,
        !white_space(s[0]),
        !white_space(s.last()),
    ensures
        trimmed(s) == s,
{
}

/// A percentage written as a number and a percent sign reads as the number.
pub proof fn lemma_percent_number_of_sign(n: Seq<char>)
    requires
        n.len() > 0,
        !white_space(n[0]),
        !white_space(n.last()),
    ensures
        percent_number(n + seq!['%']) == n,
{
    let s = n + seq!['%'];
    assert(s[0] == n[0]);
    assert(!white_space('%'));
    lemma_trimmed_unchanged(s);
    assert(s.drop_last() =~= n);
    lemma_trimmed_unchanged(n);
}

/// A line that the progress template yields, with a percentage and speed
/// free of `|`, reads back as a progress report of the number of its
/// percentage and its speed and file name, trimmed; the file name may hold
/// `|`.
pub proof fn lemma_template_line_reads_back(percent: Seq<char>, speed: Seq<char>, filename: Seq<char>)
    requires
        !percent.contains('|'),
        !speed.contains('|'),
    ensures
        classify(progress_prefix() + percent + seq!['|'] + speed + seq!['|'] + filename)
            == (LineView::Progress {
            percent: percent_number(percent),
            speed: trimmed(speed),
            filename: trimmed(filename),
        }),
{
    let data = percent + seq!['|'] + speed + seq!['|'] + filename;
    let line = progress_prefix() + data;
    assert(line =~= progress_prefix() + percent + seq!['|'] + speed + seq!['|'] + filename);
    assert(progress_prefix().is_prefix_of(line)) by {
        assert(line.subrange(0, progress_prefix().len() as int) =~= progress_prefix());
    }
    assert(line.skip(progress_prefix().len() as int) =~= data);
    crate::text::lemma_split_three_joined(percent, speed, filename, '|');
}

} // verus!
