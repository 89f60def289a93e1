//! The progress bar of the terminal program: what each line of yt-dlp's
//! output does to it.

use vstd::prelude::*;
use crate::digits::{i64_text, signed_decimal};
use crate::monitor::{exit_failure_message, exit_failure_text};
use crate::pattern::{first_group, regex_group};
use crate::text::{file_name_text, opt_text, path_file_name};

verus! {

/// A percentage such as `42.5%`; the group is the number.
pub const PERCENT_PATTERN: &'static str = r"(\d+\.?\d*)%";

/// A download speed such as `1.5MiB/s` or `300kB/s`.
pub const SPEED_PATTERN: &'static str = r"(\d+\.?\d*\s*[KM]iB/s|\d+\.?\d*\s*[kK]B/s)";

/// The line that names the file being written; the group is the name.
pub const DESTINATION_PATTERN: &'static str = r"\[download\] Destination: (.+)";

/// What the three patterns find in one line.
pub struct ScanView {
    pub destination: Option<Seq<char>>,
    pub speed: Option<Seq<char>>,
    pub percent: Option<Seq<char>>,
}

/// What the three patterns find in one line.
#[derive(Debug, Clone)]
pub struct ProgressScan {
    pub destination: Option<String>,
    pub speed: Option<String>,
    pub percent: Option<String>,
}

impl View for ProgressScan {
    type V = ScanView;

    open spec fn view(&self) -> ScanView {
        ScanView {
            destination: opt_text(self.destination),
            speed: opt_text(self.speed),
            percent: opt_text(self.percent),
        }
    }
}

/// The captures of the destination, speed and percentage patterns in `line`.
pub open spec fn scan(line: Seq<char>) -> ScanView {
    ScanView {
        destination: regex_group(DESTINATION_PATTERN@, line),
        speed: regex_group(SPEED_PATTERN@, line),
        percent: regex_group(PERCENT_PATTERN@, line),
    }
}

/// Searches one line for a destination, a speed and a percentage.
pub fn scan_line(line: &str) -> (r: ProgressScan)
    ensures
        r@ == scan(line@),
{
    ProgressScan {
        destination: first_group(DESTINATION_PATTERN, line),
        speed: first_group(SPEED_PATTERN, line),
        percent: first_group(PERCENT_PATTERN, line),
    }
}

/// An order for the progress bar, as text.
pub enum BarView {
    Message(Seq<char>),
    Position(u64),
    Print(Seq<char>),
    Reset,
    Finish(Seq<char>),
    Summary(Seq<char>),
    ReportError(Seq<char>),
}

/// An order for the progress bar.
#[derive(Debug, Clone)]
pub enum BarAction {
    /// Show this message beside the bar.
    Message(String),
    /// Move the bar to this percentage.
    Position(u64),
    /// Print this line above the bar.
    Print(String),
    /// Start the bar over.
    Reset,
    /// Stop the bar, leaving this message.
    Finish(String),
    /// Print the summary of a finished download: the number of files, given
    /// as text, and the time taken.
    Summary(String),
    /// Print this error below the bar.
    ReportError(String),
}

impl View for BarAction {
    type V = BarView;

    open spec fn view(&self) -> BarView {
        match self {
            BarAction::Message(m) => BarView::Message(m@),
            BarAction::Position(p) => BarView::Position(*p),
            BarAction::Print(m) => BarView::Print(m@),
            BarAction::Reset => BarView::Reset,
            BarAction::Finish(m) => BarView::Finish(m@),
            BarAction::Summary(n) => BarView::Summary(n@),
            BarAction::ReportError(m) => BarView::ReportError(m@),
        }
    }
}

/// The views of a sequence of bar orders.
pub open spec fn bar_views(s: Seq<BarAction>) -> Seq<BarView> {
    s.map_values(|a: BarAction| a@)
}

/// The name to show for a path: its last component, or the whole path when
/// it has none.
pub open spec fn display_name(path: Seq<char>) -> Seq<char> {
    match path_file_name(path) {
        Some(n) => n,
        None => path,
    }
}

/// The orders of one scanned line, given the file being written after the
/// line and the position read from the percentage: the file's name, then
/// the speed, then the position, and at one hundred percent the completion
/// notice, a reset and the wait message.
pub open spec fn bar_orders(s: ScanView, current: Seq<char>, position: Option<u64>) -> Seq<BarView> {
    (match s.destination {
        Some(d) => seq![BarView::Message("📄 "@ + display_name(d))],
        None => Seq::empty(),
    }) + (match s.speed {
        Some(v) => seq![BarView::Message(v)],
        None => Seq::empty(),
    }) + (match position {
        Some(p) => seq![BarView::Position(p)] + if p >= 100 {
            seq![
                BarView::Print(" ✅  File completed: "@ + current),
                BarView::Reset,
                BarView::Message("Waiting for next file..."@),
            ]
        } else {
            Seq::empty()
        },
        None => Seq::empty(),
    })
}

/// The files seen while one yt-dlp run is read.
#[derive(Debug)]
pub struct ProgressTracker {
    /// How many destination lines were read.
    pub file_count: i32,
    /// The file named by the last destination line.
    pub current_file: String,
}

/// Appends one order.
pub fn push_order(orders: &mut Vec<BarAction>, a: BarAction)
    ensures
        bar_views(final(orders)@) == bar_views(old(orders)@).push(a@),
{
    let ghost before = orders@;
    orders.push(a);
    proof {
        assert(bar_views(orders@) =~= bar_views(before).push(a@));
    }
}

impl ProgressTracker {
    /// No file seen yet.
    pub fn new() -> (t: Self)
        ensures
            t.file_count == 0,
            t.current_file@ == Seq::<char>::empty(),
    {
        ProgressTracker { file_count: 0, current_file: String::new() }
    }

    /// The orders for one scanned line; `position` is the percentage that
    /// the line's percentage capture reads as, held to `0..=100`, if it
    /// reads as a number.
    pub fn on_scan(&mut self, s: &ProgressScan, position: Option<u64>) -> (orders: Vec<BarAction>)
        requires
            s.destination is Some ==> old(self).file_count < i32::MAX,
        ensures
            final(self).file_count == old(self).file_count + if s.destination is Some {
                1int
            } else {
                0int
            },
            final(self).current_file@ == (match s@.destination {
                Some(d) => d,
                None => old(self).current_file@,
            }),
            bar_views(orders@) == bar_orders(s@, final(self).current_file@, position),
    {
        let mut orders: Vec<BarAction> = Vec::new();
        if let Some(fname) = &s.destination {
            self.current_file = fname.clone();
            self.file_count = self.file_count + 1;
            let shown = match file_name_text(fname.as_str()) {
                Some(n) => n,
                None => fname.clone(),
            };
            let mut m = String::from_str("📄 ");
            m.append(shown.as_str());
            push_order(&mut orders, BarAction::Message(m));
        }
        let ghost after_dest = bar_views(orders@);
        if let Some(speed) = &s.speed {
            push_order(&mut orders, BarAction::Message(speed.clone()));
        }
        let ghost after_speed = bar_views(orders@);
        if let Some(p) = position {
            push_order(&mut orders, BarAction::Position(p));
            if p >= 100 {
                let mut m = String::from_str(" ✅  File completed: ");
                m.append(self.current_file.as_str());
                push_order(&mut orders, BarAction::Print(m));
                push_order(&mut orders, BarAction::Reset);
                push_order(&mut orders, BarAction::Message(String::from_str("Waiting for next file...")));
            }
        }
        proof {
            assert(bar_views(orders@) =~= bar_orders(s@, self.current_file@, position));
        }
        orders
    }

    /// The orders that close the bar at the end of a run: on success the
    /// bar stops with the success message and the summary gives the number of
    /// files; on failure it stops with the failure message.
    pub fn finish_orders(&self, success: bool) -> (orders: Vec<BarAction>)
        ensures
            bar_views(orders@) == if success {
                seq![
                    BarView::Finish("✨ Download completed successfully"@),
                    BarView::Summary(signed_decimal(self.file_count as int)),
                ]
            } else {
                seq![BarView::Finish("❌ Download failed"@)]
            },
    {
        let mut orders: Vec<BarAction> = Vec::new();
        if success {
            push_order(&mut orders, BarAction::Finish(String::from_str("✨ Download completed successfully")));
            push_order(&mut orders, BarAction::Summary(i64_text(self.file_count as i64)));
        } else {
            push_order(&mut orders, BarAction::Finish(String::from_str("❌ Download failed")));
        }
        proof {
            assert(bar_views(orders@) =~= (if success {
                seq![
                    BarView::Finish("✨ Download completed successfully"@),
                    BarView::Summary(signed_decimal(self.file_count as int)),
                ]
            } else {
                seq![BarView::Finish("❌ Download failed"@)]
            }));
        }
        orders
    }

    /// The end of a run: the number of files when yt-dlp succeeded, else the
    /// message of its exit status.
    pub fn finish(&self, success: bool, exit_code: Option<i32>) -> (r: Result<i32, String>)
        ensures
            success ==> r == Ok::<i32, String>(self.file_count),
            !success ==> (r matches Err(m) && m@ == exit_failure_text(exit_code)),
    {
        if success {
            Ok(self.file_count)
        } else {
            Err(exit_failure_message(exit_code))
        }
    }
}

} // verus!

verus! {

/// Only a position of one hundred announces a completed file: the
/// completion notice and the reset come only with such a position; below
/// one hundred the percentage gives nothing but the position, which is the
/// last order; at one hundred the notice names the file being written; and
/// without a position the bar neither moves nor resets.
pub proof fn lemma_completion_only_at_full(s: ScanView, current: Seq<char>, position: Option<u64>)
    ensures
        ({
            let o = bar_orders(s, current, position);
            &&& forall|i: int|
                0 <= i < o.len() && (o[i] is Print || o[i] is Reset) ==> position is Some
                    && position->Some_0 >= 100
            &&& position is Some && position->Some_0 < 100 ==> o.last() == BarView::Position(
                position->Some_0,
            )
            &&& position is Some && position->Some_0 >= 100 ==> o.contains(
                BarView::Print(" ✅  File completed: "@ + current),
            ) && o.contains(BarView::Reset)
            &&& position is None ==> forall|i: int|
                0 <= i < o.len() ==> !(o[i] is Position || o[i] is Print || o[i] is Reset)
        }),
{
    let o = bar_orders(s, current, position);
    let d: Seq<BarView> = match s.destination {
        Some(x) => seq![BarView::Message("📄 "@ + display_name(x))],
        None => Seq::empty(),
    };
    let v: Seq<BarView> = match s.speed {
        Some(x) => seq![BarView::Message(x)],
        None => Seq::empty(),
    };
    let dv = d + v;
    assert(forall|i: int| 0 <= i < dv.len() ==> (#[trigger] dv[i]) is Message);
    match position {
        Some(p) => {
            let tail = seq![BarView::Position(p)] + if p >= 100 {
                seq![
                    BarView::Print(" ✅  File completed: "@ + current),
                    BarView::Reset,
                    BarView::Message("Waiting for next file..."@),
                ]
            } else {
                Seq::empty()
            };
            assert(o =~= dv + tail);
            if p >= 100 {
                assert(o[dv.len() as int + 1] == BarView::Print(" ✅  File completed: "@ + current));
                assert(o[dv.len() as int + 2] == BarView::Reset);
            } else {
                assert forall|i: int| 0 <= i < o.len() implies !(o[i] is Print || o[i] is Reset) by {
                    if i < dv.len() {
                        assert(o[i] == dv[i]);
                    }
                }
            }
        },
        None => {
            assert(o =~= dv);
        },
    }
}

} // verus!
