//! The refresh cycle of the front end: what it shows, and what it does
//! next when a message arrives.
//!
//! The cycle itself runs outside this crate. It performs each [`Command`]
//! and hands the outcome back as a [`Message`].

use vstd::prelude::*;
use vstd::string::*;
use crate::text::{begins_with, strip_prefix};

verus! {

/// Seconds between the end of one cycle and the start of the next.
pub const REFRESH_SECONDS: u64 = 30;

/// What precedes the cause in the text that is shown for a failure.
pub const ERROR_BANNER: &'static str = "Error (will retry shortly): ";

/// The heading above the reports.
pub const HEADING: &'static str = "EFIN Metars";

/// What a report may begin with and is shown without.
pub const REPORT_LABEL: &'static str = "METAR ";

/// Messages that drive the cycle.
#[derive(Debug, Clone, PartialEq, Eq)]
pub enum Message {
    /// Start a cycle.
    LoadMetars,
    /// A cycle ended with these reports.
    UpdateMetars(Vec<String>),
    /// A cycle failed for this cause.
    SetError(String),
}

/// What the front end is to do after a message.
#[derive(Debug, Clone, Copy, PartialEq, Eq, Structural)]
pub enum Command {
    /// Fetch both feeds, correlate them, and hand the outcome back.
    Fetch,
    /// Wait this many seconds, then send [`Message::LoadMetars`].
    ReloadAfter(u64),
}

/// What the front end shows.
#[derive(Debug, Clone, PartialEq, Eq)]
pub struct AppModel {
    /// The reports of the last cycle that succeeded.
    pub metars: Vec<String>,
    /// The failure of the last cycle, if it failed.
    pub error: Option<String>,
}

/// A report as it is shown: without its label, where it has one.
pub open spec fn spec_display(report: Seq<char>) -> Seq<char> {
    if begins_with(report, REPORT_LABEL@) {
        report.subrange(REPORT_LABEL@.len() as int, report.len() as int)
    } else {
        report
    }
}

/// A report as it is shown.
pub fn display(report: &String) -> (r: String)
    ensures
        r@ == spec_display(report@),
{
    match strip_prefix(report.as_str(), REPORT_LABEL) {
        Some(rest) => rest,
        None => report.clone(),
    }
}

/// The message that ends a cycle with the given outcome.
pub fn settle(outcome: Result<Vec<String>, String>) -> (r: Message)
    ensures
        match outcome {
            Ok(reports) => r == Message::UpdateMetars(reports),
            Err(cause) => r == Message::SetError(cause),
        },
{
    match outcome {
        Ok(reports) => Message::UpdateMetars(reports),
        Err(cause) => Message::SetError(cause),
    }
}

impl AppModel {
    /// The lines that are shown.
    pub open spec fn spec_lines(self) -> Seq<Seq<char>> {
        match self.error {
            Some(text) => seq![text@],
            None => seq![HEADING@] + self.metars.deep_view().map_values(
                |report: Seq<char>| spec_display(report),
            ),
        }
    }

    /// The model at the start, with nothing to show, and the command that
    /// starts the first cycle.
    pub fn init() -> (r: (AppModel, Command))
        ensures
            r.0.metars@.len() == 0,
            r.0.error is None,
            r.1 == Command::Fetch,
    {
        (AppModel { metars: Vec::new(), error: None }, Command::Fetch)
    }

    /// Takes a message in and says what is to be done next.
    ///
    /// A request to load changes nothing and asks for a fetch. New reports
    /// replace the old ones and clear the failure. A failure is kept with
    /// the banner before its cause, and leaves the reports as they are.
    /// After either outcome the next cycle is due after
    /// [`REFRESH_SECONDS`].
    pub fn update(&mut self, message: Message) -> (r: Command)
        ensures
            match message {
                Message::LoadMetars => *final(self) == *old(self) && r == Command::Fetch,
                Message::UpdateMetars(reports) => {
                    &&& final(self).metars == reports
                    &&& final(self).error is None
                    &&& r == Command::ReloadAfter(REFRESH_SECONDS)
                },
                Message::SetError(cause) => {
                    &&& final(self).metars == old(self).metars
                    &&& final(self).error is Some
                    &&& final(self).error->0@ == ERROR_BANNER@ + cause@
                    &&& r == Command::ReloadAfter(REFRESH_SECONDS)
                },
            },
    {
        match message {
            Message::LoadMetars => Command::Fetch,
            Message::UpdateMetars(reports) => {
                self.metars = reports;
                self.error = None;
                Command::ReloadAfter(REFRESH_SECONDS)
            },
            Message::SetError(cause) => {
                let text = ERROR_BANNER.to_owned().concat(cause.as_str());
                self.error = Some(text);
                Command::ReloadAfter(REFRESH_SECONDS)
            },
        }
    }

    /// The lines that are shown: the failure alone where there is one, else
    /// the heading and under it each report without its label.
    pub fn lines(&self) -> (r: Vec<String>)
        ensures
            r.deep_view() == self.spec_lines(),
    {
        match &self.error {
            Some(text) => {
                let mut out: Vec<String> = Vec::new();
                out.push(text.clone());
                assert(out.deep_view() =~= seq![text@]);
                out
            },
            None => {
                let mut out: Vec<String> = Vec::new();
                out.push(HEADING.to_owned());
                let ghost shown = |report: Seq<char>| spec_display(report);
                let mut i: usize = 0;
                assert(out.deep_view() =~= seq![HEADING@] + self.metars.deep_view().take(
                    0,
                ).map_values(shown));
                while i < self.metars.len()
                    invariant
                        i <= self.metars.len(),
                        shown == |report: Seq<char>| spec_display(report),
                        out.deep_view() == seq![HEADING@] + self.metars.deep_view().take(
                            i as int,
                        ).map_values(shown),
                    decreases self.metars.len() - i,
                {
                    let ghost before = out.deep_view();
                    let line = display(&self.metars[i]);
                    out.push(line);
                    assert(out.deep_view() =~= before.push(line@));
                    assert(out.deep_view() =~= seq![HEADING@] + self.metars.deep_view().take(
                        i as int + 1,
                    ).map_values(shown));
                    i += 1;
                }
                assert(self.metars.deep_view().take(self.metars.len() as int)
                    =~= self.metars.deep_view());
                out
            },
        }
    }
}

} // verus!
