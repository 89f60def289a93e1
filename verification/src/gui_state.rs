//! The state of the desktop window: its settings, the progress of the
//! running download and its activity log.

use vstd::prelude::*;
use crate::clock::unix_seconds;
use crate::digits::{clock_string, clock_text, decimal, i64_text, signed_decimal, u64_text};
use crate::options::DownloadOptions;

verus! {

/// The kinds of lines in the activity log.
#[derive(Debug, Clone, Copy, PartialEq, Eq, Structural)]
pub enum LogType {
    Info,
    Success,
    Warning,
    Error,
    Progress,
}

/// One line of the activity log.
#[derive(Debug, Clone)]
pub struct LogEntry {
    pub message: String,
    pub log_type: LogType,
    /// The time of day `hh:mm:ss` at which it was written, or empty when the
    /// clock could not be read.
    pub timestamp: String,
}

/// The timestamp of an entry written at a clock reading.
pub open spec fn timestamp_text(secs: Option<u64>) -> Seq<char> {
    match secs {
        Some(s) => clock_text(s as nat),
        None => Seq::empty(),
    }
}

/// Whether a timestamp is one that some clock reading gives.
pub open spec fn is_timestamp(t: Seq<char>) -> bool {
    exists|secs: Option<u64>| t == timestamp_text(secs)
}

/// The colour of a kind of line, as red, green and blue.
pub open spec fn log_color(t: LogType) -> (u8, u8, u8) {
    match t {
        LogType::Info => (200, 210, 230),
        LogType::Success => (34, 197, 94),
        LogType::Warning => (251, 191, 36),
        LogType::Error => (239, 68, 68),
        LogType::Progress => (102, 126, 234),
    }
}

/// The icon of a kind of line.
pub open spec fn log_icon(t: LogType) -> Seq<char> {
    match t {
        LogType::Info => "ℹ️"@,
        LogType::Success => "✅"@,
        LogType::Warning => "⚠️"@,
        LogType::Error => "❌"@,
        LogType::Progress => "⚡"@,
    }
}

impl LogEntry {
    /// An entry written at the given clock reading.
    pub fn at(message: String, log_type: LogType, secs: Option<u64>) -> (e: Self)
        ensures
            e.message@ == message@,
            e.log_type == log_type,
            e.timestamp@ == timestamp_text(secs),
    {
        let timestamp = match secs {
            Some(s) => clock_string(s),
            None => String::new(),
        };
        LogEntry { message, log_type, timestamp }
    }

    /// An entry written now.
    pub fn new(message: String, log_type: LogType) -> (e: Self)
        ensures
            e.message@ == message@,
            e.log_type == log_type,
            is_timestamp(e.timestamp@),
    {
        let secs = unix_seconds();
        let e = Self::at(message, log_type, secs);
        assert(e.timestamp@ == timestamp_text(secs));
        e
    }

    /// A piece of information.
    pub fn info(msg: String) -> (e: Self)
        ensures
            e.message@ == msg@,
            e.log_type == LogType::Info,
            is_timestamp(e.timestamp@),
    {
        Self::new(msg, LogType::Info)
    }

    /// Something that went well.
    pub fn success(msg: String) -> (e: Self)
        ensures
            e.message@ == msg@,
            e.log_type == LogType::Success,
            is_timestamp(e.timestamp@),
    {
        Self::new(msg, LogType::Success)
    }

    /// Something to beware of.
    pub fn warning(msg: String) -> (e: Self)
        ensures
            e.message@ == msg@,
            e.log_type == LogType::Warning,
            is_timestamp(e.timestamp@),
    {
        Self::new(msg, LogType::Warning)
    }

    /// Something that failed.
    pub fn error(msg: String) -> (e: Self)
        ensures
            e.message@ == msg@,
            e.log_type == LogType::Error,
            is_timestamp(e.timestamp@),
    {
        Self::new(msg, LogType::Error)
    }

    /// A step of the download.
    pub fn progress(msg: String) -> (e: Self)
        ensures
            e.message@ == msg@,
            e.log_type == LogType::Progress,
            is_timestamp(e.timestamp@),
    {
        Self::new(msg, LogType::Progress)
    }

    /// The colour in which the entry is shown, as red, green and blue.
    pub fn color(&self) -> (c: (u8, u8, u8))
        ensures
            c == log_color(self.log_type),
    {
        match self.log_type {
            LogType::Info => (200, 210, 230),
            LogType::Success => (34, 197, 94),
            LogType::Warning => (251, 191, 36),
            LogType::Error => (239, 68, 68),
            LogType::Progress => (102, 126, 234),
        }
    }

    /// The icon shown before the entry.
    pub fn icon(&self) -> (i: &'static str)
        ensures
            i@ == log_icon(self.log_type),
    {
        match self.log_type {
            LogType::Info => "ℹ️",
            LogType::Success => "✅",
            LogType::Warning => "⚠️",
            LogType::Error => "❌",
            LogType::Progress => "⚡",
        }
    }
}

/// Whether `after` is `before` with one more entry of the given message and
/// kind, written at some clock reading.
pub open spec fn appended(before: Seq<LogEntry>, after: Seq<LogEntry>, msg: Seq<char>, t: LogType) -> bool {
    &&& after.len() == before.len() + 1
    &&& after.take(before.len() as int) == before
    &&& after.last().message@ == msg
    &&& after.last().log_type == t
    &&& is_timestamp(after.last().timestamp@)
}

/// An event of a download as the window sees it; the percentage itself stays
/// with the window.
#[derive(Debug, Clone)]
pub enum GuiEvent {
    /// Progress on a file; `logged_percent` is the whole percentage when the
    /// progress is worth a log line (a positive percentage within a tenth
    /// above a multiple of 25).
    Progress { speed: String, filename: String, logged_percent: Option<i32> },
    FileStarted(String),
    FileCompleted(String),
    Finished { total_files: usize },
    Error(String),
}

/// The log line of a progress event worth logging.
pub open spec fn progress_line(filename: Seq<char>, percent: i32, speed: Seq<char>) -> Seq<char> {
    filename + ": "@ + signed_decimal(percent as int) + "% @ "@ + speed
}

/// The log line of the end of a successful download.
pub open spec fn finished_line(total: usize) -> Seq<char> {
    "🎉 All done! "@ + decimal(total as nat) + " file(s) downloaded successfully."@
}

/// The state of the window apart from the percentage of the current file.
#[derive(Debug)]
pub struct GuiState {
    pub url: String,
    pub format: String,
    pub output_dir: String,
    pub is_playlist: bool,
    pub audio_only: bool,
    pub audio_format: String,
    pub audio_quality: String,
    pub download_active: bool,
    pub current_speed: String,
    pub current_filename: String,
    pub completed_files: usize,
    pub total_files: Option<usize>,
    pub log: Vec<LogEntry>,
}

/// Whether two states have the same settings.
pub open spec fn same_settings(a: GuiState, b: GuiState) -> bool {
    &&& a.url == b.url
    &&& a.format == b.format
    &&& a.output_dir == b.output_dir
    &&& a.is_playlist == b.is_playlist
    &&& a.audio_only == b.audio_only
    &&& a.audio_format == b.audio_format
    &&& a.audio_quality == b.audio_quality
}

/// What taking in one event does to the window's state: the settings stay;
/// a progress event shows its speed and file and may add a log line; the
/// start of a file adds a log line; a completed file is counted, logged and
/// no longer shown; the end of the download records the total, logs it and
/// stops the download; an error logs it and stops the download. Nothing
/// else changes.
pub open spec fn event_step(before: GuiState, event: GuiEvent, after: GuiState) -> bool {
    &&& same_settings(before, after)
    &&& match event {
        GuiEvent::Progress { speed, filename, logged_percent } => {
            &&& after.current_speed@ == speed@
            &&& after.current_filename@ == filename@
            &&& after.download_active == before.download_active
            &&& after.completed_files == before.completed_files
            &&& after.total_files == before.total_files
            &&& match logged_percent {
                Some(p) => appended(before.log@, after.log@,
                    progress_line(filename@, p, speed@), LogType::Progress),
                None => after.log == before.log,
            }
        },
        GuiEvent::FileStarted(name) => {
            &&& appended(before.log@, after.log@, "▶ Starting: "@ + name@, LogType::Info)
            &&& after.download_active == before.download_active
            &&& after.completed_files == before.completed_files
            &&& after.current_filename == before.current_filename
            &&& after.current_speed == before.current_speed
            &&& after.total_files == before.total_files
        },
        GuiEvent::FileCompleted(name) => {
            &&& appended(before.log@, after.log@, "✅ Completed: "@ + name@, LogType::Success)
            &&& after.completed_files == before.completed_files + 1
            &&& after.current_filename@ == Seq::<char>::empty()
            &&& after.current_speed == before.current_speed
            &&& after.download_active == before.download_active
            &&& after.total_files == before.total_files
        },
        GuiEvent::Finished { total_files } => {
            &&& after.total_files == Some(total_files)
            &&& appended(before.log@, after.log@, finished_line(total_files), LogType::Success)
            &&& !after.download_active
            &&& after.completed_files == before.completed_files
            &&& after.current_speed == before.current_speed
            &&& after.current_filename == before.current_filename
        },
        GuiEvent::Error(e) => {
            &&& appended(before.log@, after.log@, "💥 Error: "@ + e@, LogType::Error)
            &&& !after.download_active
            &&& after.completed_files == before.completed_files
            &&& after.total_files == before.total_files
            &&& after.current_speed == before.current_speed
            &&& after.current_filename == before.current_filename
        },
    }
}

/// How many files a run of events completes.
pub open spec fn completed_events(events: Seq<GuiEvent>) -> nat
    decreases events.len(),
{
    if events.len() == 0 {
        0
    } else {
        completed_events(events.drop_last()) + if events.last() is FileCompleted {
            1nat
        } else {
            0nat
        }
    }
}

/// The total of the last end-of-download event of a run, if any.
pub open spec fn last_total(events: Seq<GuiEvent>) -> Option<usize>
    decreases events.len(),
{
    if events.len() == 0 {
        None
    } else {
        match events.last() {
            GuiEvent::Finished { total_files } => Some(total_files),
            _ => last_total(events.drop_last()),
        }
    }
}

/// Whether a run of events holds the end of the download or an error.
pub open spec fn run_ended(events: Seq<GuiEvent>) -> bool
    decreases events.len(),
{
    events.len() > 0 && (events.last() is Finished || events.last() is Error || run_ended(
        events.drop_last(),
    ))
}

/// From the start of a download on, through any run of events: the count of
/// completed files is the number of completions taken in, the total is that
/// of the last end-of-download event (none before one), and the download runs
/// until the end or an error is taken in.
pub proof fn lemma_window_run(states: Seq<GuiState>, events: Seq<GuiEvent>)
    requires
        states.len() == events.len() + 1,
        states[0].download_active,
        states[0].completed_files == 0,
        states[0].total_files is None,
        forall|i: int|
            #![trigger events[i]]
            0 <= i < events.len() ==> event_step(states[i], events[i], states[i + 1]),
    ensures
        states.last().completed_files == completed_events(events),
        states.last().total_files == last_total(events),
        states.last().download_active == !run_ended(events),
    decreases events.len(),
{
    if events.len() > 0 {
        let n = events.len() - 1;
        let earlier = states.drop_last();
        let taken = events.drop_last();
        assert forall|i: int| #![trigger taken[i]] 0 <= i < taken.len() implies event_step(
            earlier[i],
            taken[i],
            earlier[i + 1],
        ) by {
            assert(events[i] == taken[i]);
        }
        lemma_window_run(earlier, taken);
        assert(event_step(states[n], events[n], states[n + 1]));
        assert(earlier.last() == states[n]);
        assert(states.last() == states[n + 1]);
    }
}

impl Default for GuiState {
    /// Empty URL, format `best`, directory `./downloads`, MP3 at 320k for
    /// audio, nothing running, and a welcome line in the log.
    fn default() -> (s: Self)
        ensures
            s.url@ == Seq::<char>::empty(),
            s.format@ == "best"@,
            s.output_dir@ == "./downloads"@,
            !s.is_playlist,
            !s.audio_only,
            s.audio_format@ == "mp3"@,
            s.audio_quality@ == "320k"@,
            !s.download_active,
            s.current_speed@ == Seq::<char>::empty(),
            s.current_filename@ == Seq::<char>::empty(),
            s.completed_files == 0,
            s.total_files is None,
            s.log@.len() == 1,
            s.log@[0].message@ == "✨ Welcome! Enter a YouTube URL to get started."@,
            s.log@[0].log_type == LogType::Info,
    {
        let mut log: Vec<LogEntry> = Vec::new();
        log.push(LogEntry::info(String::from_str("✨ Welcome! Enter a YouTube URL to get started.")));
        GuiState {
            url: String::new(),
            format: String::from_str("best"),
            output_dir: String::from_str("./downloads"),
            is_playlist: false,
            audio_only: false,
            audio_format: String::from_str("mp3"),
            audio_quality: String::from_str("320k"),
            download_active: false,
            current_speed: String::new(),
            current_filename: String::new(),
            completed_files: 0,
            total_files: None,
            log,
        }
    }
}

/// Whether a download may be started: none is running and a URL is entered.
pub open spec fn start_allowed(s: GuiState) -> bool {
    !s.download_active && s.url@.len() > 0
}

/// While a download runs no other can be started, and once it is over
/// (finished, failed or cancelled) one can again as soon as a URL is entered.
pub proof fn lemma_one_download_at_a_time(s: GuiState)
    ensures
        s.download_active ==> !start_allowed(s),
        !s.download_active && s.url@.len() > 0 ==> start_allowed(s),
{
}

impl GuiState {
    /// Adds one line to the log.
    fn push_log(&mut self, msg: String, t: LogType)
        ensures
            appended(old(self).log@, final(self).log@, msg@, t),
            same_settings(*old(self), *final(self)),
            final(self).download_active == old(self).download_active,
            final(self).current_speed == old(self).current_speed,
            final(self).current_filename == old(self).current_filename,
            final(self).completed_files == old(self).completed_files,
            final(self).total_files == old(self).total_files,
    {
        let ghost before = self.log@;
        self.log.push(LogEntry::new(msg, t));
        proof {
            assert(self.log@.take(before.len() as int) =~= before);
        }
    }

    /// Forgets the progress of the last download.
    pub fn reset_progress_state(&mut self)
        ensures
            final(self).current_speed@ == Seq::<char>::empty(),
            final(self).current_filename@ == Seq::<char>::empty(),
            final(self).completed_files == 0,
            final(self).total_files is None,
            final(self).download_active == old(self).download_active,
            final(self).log == old(self).log,
            same_settings(*old(self), *final(self)),
    {
        self.current_speed = String::new();
        self.current_filename = String::new();
        self.completed_files = 0;
        self.total_files = None;
    }

    /// Whether a download can be started: none is running and a URL is
    /// entered.
    pub fn can_start(&self) -> (b: bool)
        ensures
            b == start_allowed(*self),
    {
        !self.download_active && !self.url.as_str().is_empty()
    }

    /// Whether the window waits for a first download: none is running and
    /// no file was completed.
    pub fn is_waiting(&self) -> (b: bool)
        ensures
            b == (!self.download_active && self.completed_files == 0),
    {
        !self.download_active && self.completed_files == 0
    }

    /// The caption of the progress bar once the number of files is known:
    /// the whole percentage, the number of the current file and the total.
    pub fn file_caption(&self, percent: i32) -> (c: Option<String>)
        requires
            self.total_files is Some ==> self.completed_files < usize::MAX,
        ensures
            match self.total_files {
                Some(total) => c matches Some(t) && t@ == signed_decimal(percent as int) + "% • File "@
                    + decimal((self.completed_files + 1) as nat) + "/"@ + decimal(total as nat),
                None => c is None,
            },
    {
        match self.total_files {
            Some(total) => {
                let mut t = i64_text(percent as i64);
                t.append("% • File ");
                t.append(u64_text((self.completed_files + 1) as u64).as_str());
                t.append("/");
                t.append(u64_text(total as u64).as_str());
                Some(t)
            },
            None => None,
        }
    }

    /// The options of a download with the current settings; the audio format
    /// and quality are given only in audio mode and when not empty.
    pub fn download_options(&self) -> (o: DownloadOptions)
        ensures
            o.url@ == self.url@,
            o.format@ == self.format@,
            o.output_dir@ == self.output_dir@,
            o.is_playlist == self.is_playlist,
            o.audio_only == self.audio_only,
            (o.audio_format matches Some(f) && f@ == self.audio_format@) == (self.audio_only
                && self.audio_format@.len() > 0),
            o.audio_format is None == !(self.audio_only && self.audio_format@.len() > 0),
            (o.audio_quality matches Some(q) && q@ == self.audio_quality@) == (self.audio_only
                && self.audio_quality@.len() > 0),
            o.audio_quality is None == !(self.audio_only && self.audio_quality@.len() > 0),
    {
        let audio_format = if self.audio_only && !self.audio_format.as_str().is_empty() {
            Some(self.audio_format.clone())
        } else {
            None
        };
        let audio_quality = if self.audio_only && !self.audio_quality.as_str().is_empty() {
            Some(self.audio_quality.clone())
        } else {
            None
        };
        DownloadOptions {
            url: self.url.clone(),
            format: self.format.clone(),
            output_dir: self.output_dir.clone(),
            is_playlist: self.is_playlist,
            audio_only: self.audio_only,
            audio_format,
            audio_quality,
        }
    }

    /// Marks a download as started: running, progress forgotten, and a line
    /// in the log.
    pub fn begin_download(&mut self)
        ensures
            final(self).download_active,
            final(self).current_speed@ == Seq::<char>::empty(),
            final(self).current_filename@ == Seq::<char>::empty(),
            final(self).completed_files == 0,
            final(self).total_files is None,
            appended(old(self).log@, final(self).log@, "🚀 Download initiated..."@, LogType::Progress),
            same_settings(*old(self), *final(self)),
    {
        self.download_active = true;
        self.reset_progress_state();
        self.push_log(String::from_str("🚀 Download initiated..."), LogType::Progress);
    }

    /// Marks the download as cancelled, with a line in the log.
    pub fn cancel_download(&mut self)
        ensures
            !final(self).download_active,
            appended(old(self).log@, final(self).log@, "⚠️ Cancellation requested..."@, LogType::Warning),
            final(self).completed_files == old(self).completed_files,
            final(self).total_files == old(self).total_files,
            final(self).current_speed == old(self).current_speed,
            final(self).current_filename == old(self).current_filename,
            same_settings(*old(self), *final(self)),
    {
        self.push_log(String::from_str("⚠️ Cancellation requested..."), LogType::Warning);
        self.download_active = false;
    }

    /// Empties the log but for a line that says so.
    pub fn clear_log(&mut self)
        ensures
            final(self).log@.len() == 1,
            final(self).log@[0].message@ == "🧹 Log cleared."@,
            final(self).log@[0].log_type == LogType::Info,
            final(self).download_active == old(self).download_active,
            final(self).completed_files == old(self).completed_files,
            final(self).total_files == old(self).total_files,
            final(self).current_speed == old(self).current_speed,
            final(self).current_filename == old(self).current_filename,
            same_settings(*old(self), *final(self)),
    {
        let mut log: Vec<LogEntry> = Vec::new();
        log.push(LogEntry::info(String::from_str("🧹 Log cleared.")));
        self.log = log;
    }

    /// Takes in one event of the running download; the result tells whether
    /// the download is over (finished or failed), after which no more events
    /// are awaited.
    pub fn apply_event(&mut self, event: GuiEvent) -> (over: bool)
        requires
            event is FileCompleted ==> old(self).completed_files < usize::MAX,
        ensures
            over == (event is Finished || event is Error),
            event_step(*old(self), event, *final(self)),
    {
        match event {
            GuiEvent::Progress { speed, filename, logged_percent } => {
                self.current_speed = speed.clone();
                self.current_filename = filename.clone();
                if let Some(p) = logged_percent {
                    let mut m = filename.clone();
                    m.append(": ");
                    m.append(i64_text(p as i64).as_str());
                    m.append("% @ ");
                    m.append(speed.as_str());
                    self.push_log(m, LogType::Progress);
                }
                false
            },
            GuiEvent::FileStarted(name) => {
                let mut m = String::from_str("▶ Starting: ");
                m.append(name.as_str());
                self.push_log(m, LogType::Info);
                false
            },
            GuiEvent::FileCompleted(name) => {
                let mut m = String::from_str("✅ Completed: ");
                m.append(name.as_str());
                self.push_log(m, LogType::Success);
                self.completed_files = self.completed_files + 1;
                self.current_filename = String::new();
                false
            },
            GuiEvent::Finished { total_files } => {
                self.total_files = Some(total_files);
                let mut m = String::from_str("🎉 All done! ");
                m.append(u64_text(total_files as u64).as_str());
                m.append(" file(s) downloaded successfully.");
                self.push_log(m, LogType::Success);
                self.download_active = false;
                true
            },
            GuiEvent::Error(e) => {
                let mut m = String::from_str("💥 Error: ");
                m.append(e.as_str());
                self.push_log(m, LogType::Error);
                self.download_active = false;
                true
            },
        }
    }
}

} // verus!
