use vstd::prelude::*;
use crate::outcome::CheckOutcome;
use crate::report::{fatal_message, fatal_text, report_line, report_text};
use crate::target::{url_accepted, Target};

verus! {

/// Where the polling loop stands.
#[derive(Clone, Copy, Debug, PartialEq, Eq, Structural)]
pub enum Phase {
    /// Nothing has happened yet.
    Start,
    /// A request is out; its outcome is awaited.
    Checking,
    /// A report line is being printed.
    Reporting,
    /// The loop waits out the interval.
    Sleeping,
    /// The target was refused; the process ends.
    Stopped,
}

/// What the loop's driver tells the monitor happened.
#[derive(Clone, Copy, Debug, PartialEq, Eq, Structural)]
pub enum Event {
    /// The loop has begun.
    Started,
    /// The request finished with this outcome.
    Checked(CheckOutcome),
    /// The report line was printed.
    Printed,
    /// The interval has passed.
    Slept,
}

/// What the monitor asks its driver to do next.
pub enum Action {
    /// Check this target once.
    Check(Target),
    /// Print this line on standard output.
    Print(String),
    /// Sleep this many seconds.
    Sleep(u64),
    /// Print this message and end the process with a non-zero status.
    Exit(String),
}

/// The abstract form of an [`Action`].
pub enum Command {
    /// Check the target with this text.
    Check(Seq<char>),
    /// Print this line.
    Print(Seq<char>),
    /// Sleep this many seconds.
    Sleep(u64),
    /// Print this message and stop.
    Exit(Seq<char>),
}

impl View for Action {
    type V = Command;

    open spec fn view(&self) -> Command {
        match self {
            Action::Check(t) => Command::Check(t.text()),
            Action::Print(s) => Command::Print(s@),
            Action::Sleep(secs) => Command::Sleep(*secs),
            Action::Exit(s) => Command::Exit(s@),
        }
    }
}

/// Whether `event` is the one awaited in `phase`.
pub open spec fn expects(phase: Phase, event: Event) -> bool {
    match (phase, event) {
        (Phase::Start, Event::Started) => true,
        (Phase::Checking, Event::Checked(_)) => true,
        (Phase::Reporting, Event::Printed) => true,
        (Phase::Sleeping, Event::Slept) => true,
        _ => false,
    }
}

/// The step taken on an awaited event, for a loop that checks `url` every
/// `interval` seconds: the target is parsed before each check, and a
/// refused target stops the loop.
pub open spec fn step_spec(interval: u64, url: Seq<char>, phase: Phase, event: Event) -> (Phase, Command)
    recommends
        expects(phase, event),
{
    match event {
        Event::Checked(o) => (Phase::Reporting, Command::Print(report_text(url, o))),
        Event::Printed => (Phase::Sleeping, Command::Sleep(interval)),
        _ => if url_accepted(url) {
            (Phase::Checking, Command::Check(url))
        } else {
            (Phase::Stopped, Command::Exit(fatal_text()))
        },
    }
}

/// The decisions of a loop that checks one URL at a fixed interval.
pub struct Monitor {
    interval: u64,
    url: String,
}

impl Monitor {
    /// The seconds between the end of one check and the start of the next.
    pub closed spec fn interval_spec(&self) -> u64 {
        self.interval
    }

    /// The configured target text.
    pub closed spec fn url_spec(&self) -> Seq<char> {
        self.url@
    }

    /// A monitor for `url`, checked every `interval` seconds.
    pub fn new(interval: u64, url: &str) -> (r: Monitor)
        ensures
            r.interval_spec() == interval,
            r.url_spec() == url@,
    {
        Monitor { interval, url: String::from_str(url) }
    }

    /// The seconds between checks.
    pub fn interval(&self) -> (r: u64)
        ensures
            r == self.interval_spec(),
    {
        self.interval
    }

    /// The configured target text.
    pub fn url(&self) -> (r: &str)
        ensures
            r@ == self.url_spec(),
    {
        self.url.as_str()
    }

    /// Tells whether `event` is the one awaited in `phase`.
    pub fn expects(&self, phase: Phase, event: Event) -> (r: bool)
        ensures
            r == expects(phase, event),
    {
        match (phase, event) {
            (Phase::Start, Event::Started) => true,
            (Phase::Checking, Event::Checked(_)) => true,
            (Phase::Reporting, Event::Printed) => true,
            (Phase::Sleeping, Event::Slept) => true,
            _ => false,
        }
    }

    /// The next phase and the action to perform, on the event awaited in
    /// `phase`.
    pub fn step(&self, phase: Phase, event: Event) -> (r: (Phase, Action))
        requires
            expects(phase, event),
        ensures
            (r.0, r.1@) == step_spec(self.interval_spec(), self.url_spec(), phase, event),
    {
        match event {
            Event::Checked(o) => (Phase::Reporting, Action::Print(report_line(self.url.as_str(), o))),
            Event::Printed => (Phase::Sleeping, Action::Sleep(self.interval)),
            _ => match Target::parse(self.url.as_str()) {
                Some(t) => (Phase::Checking, Action::Check(t)),
                None => (Phase::Stopped, Action::Exit(fatal_message())),
            },
        }
    }
}

/// A target that is not an HTTP or HTTPS URL ends the loop on its first
/// step, before any request, and a stopped loop awaits nothing more.
pub proof fn lemma_refused_target_stops_at_once(interval: u64, url: Seq<char>)
    requires
        !url_accepted(url),
    ensures
        step_spec(interval, url, Phase::Start, Event::Started)
            == (Phase::Stopped, Command::Exit(fatal_text())),
        forall|e: Event| !expects(Phase::Stopped, e),
{
}

/// A check that ends in a transport error is reported, followed by a
/// sleep of the interval, and the loop then checks again: it does not stop.
pub proof fn lemma_transport_error_continues(interval: u64, url: Seq<char>)
    requires
        url_accepted(url),
    ensures
        step_spec(interval, url, Phase::Checking, Event::Checked(CheckOutcome::TransportError))
            == (Phase::Reporting, Command::Print(report_text(url, CheckOutcome::TransportError))),
        step_spec(interval, url, Phase::Reporting, Event::Printed)
            == (Phase::Sleeping, Command::Sleep(interval)),
        step_spec(interval, url, Phase::Sleeping, Event::Slept)
            == (Phase::Checking, Command::Check(url)),
{
}

/// Every check but the first comes right after the loop waited: a step
/// that asks for a check leaves the start or the sleeping phase, and every
/// step into the sleeping phase asks to sleep for the full interval.
pub proof fn lemma_checks_spaced_by_interval(interval: u64, url: Seq<char>, phase: Phase, event: Event)
    requires
        expects(phase, event),
    ensures
        step_spec(interval, url, phase, event).1 is Check
            ==> phase == Phase::Start || (phase == Phase::Sleeping && event == Event::Slept),
        step_spec(interval, url, phase, event).0 == Phase::Sleeping
            ==> step_spec(interval, url, phase, event).1 == Command::Sleep(interval),
        step_spec(interval, url, phase, event).1 is Sleep
            ==> phase == Phase::Reporting,
{
}

} // verus!
