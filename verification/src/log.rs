//! Session-typed build logging.
//!
//! The log moves through not-started, started, in-section and stopped; each
//! state offers only the operations valid in it, and a transition consumes
//! the handle and returns one typed to the next state. Each transition also
//! returns the line to emit, so the host that owns the terminal prints while
//! the state machine stays pure. Time is carried as milliseconds of the host
//! clock.

use vstd::prelude::*;
use vstd::string::StringExecFns;
use crate::fmt::{details_spec, header_spec, section_spec, step_spec};
use crate::fmt::time::{human, human_spec};

verus! {

/// No output yet.
pub struct NotStarted;

/// The buildpack announced itself; sections may open.
pub struct Started;

/// Inside a section; steps may be emitted.
pub struct InSection;

/// Logging is finished.
pub struct Stopped;

/// A build log handle, typed by the state it is in.
pub struct BuildLog<T> {
    pub state: T,
    pub started_millis: u64,
}

impl BuildLog<NotStarted> {
    /// A fresh log, started at the given host-clock instant.
    pub fn new(started_millis: u64) -> (r: Self)
        ensures
            r.started_millis == started_millis,
    {
        BuildLog { state: NotStarted, started_millis }
    }

    /// Announces the buildpack: the header line, followed by a blank line.
    pub fn buildpack_name(self, buildpack_name: &str) -> (r: (BuildLog<Started>, String))
        ensures
            r.0.started_millis == self.started_millis,
            r.1@ == header_spec(buildpack_name@) + "\n\n"@,
    {
        let mut line = crate::fmt::header(buildpack_name);
        line.append("\n\n");
        (BuildLog { state: Started, started_millis: self.started_millis }, line)
    }

    /// Starts without announcing anything.
    pub fn without_buildpack_name(self) -> (r: BuildLog<Started>)
        ensures
            r.started_millis == self.started_millis,
    {
        BuildLog { state: Started, started_millis: self.started_millis }
    }
}

impl BuildLog<Started> {
    /// Opens a section under a topic.
    pub fn section(self, topic: &str) -> (r: (BuildLog<InSection>, String))
        ensures
            r.0.started_millis == self.started_millis,
            r.1@ == section_spec(topic@) + "\n"@,
    {
        let mut line = crate::fmt::section(topic);
        line.append("\n");
        (BuildLog { state: InSection, started_millis: self.started_millis }, line)
    }

    /// Closes the log with the total build time.
    pub fn finish_logging(self, now_millis: u64) -> (r: (BuildLog<Stopped>, String))
        requires
            self.started_millis <= now_millis,
        ensures
            r.0.started_millis == self.started_millis,
            r.1@ == section_spec(
                "Done "@ + details_spec(
                    "finished in "@ + human_spec((now_millis - self.started_millis) as nat),
                ),
            ) + "\n"@,
    {
        let elapsed = human(now_millis - self.started_millis);
        let mut finished = String::new();
        finished.append("finished in ");
        finished.append(elapsed.as_str());
        proof {
            assert(Seq::<char>::empty() + "finished in "@ == "finished in "@);
        }
        let detail = crate::fmt::details(finished.as_str());
        let mut topic = String::new();
        topic.append("Done ");
        topic.append(detail.as_str());
        proof {
            assert(Seq::<char>::empty() + "Done "@ == "Done "@);
        }
        let mut line = crate::fmt::section(topic.as_str());
        line.append("\n");
        (BuildLog { state: Stopped, started_millis: self.started_millis }, line)
    }
}

impl BuildLog<InSection> {
    /// The line for one step inside the open section.
    pub fn step(&self, contents: &str) -> (r: String)
        ensures
            r@ == step_spec(contents@) + "\n"@,
    {
        let mut line = crate::fmt::step(contents);
        line.append("\n");
        line
    }

    /// One step, keeping the section open.
    pub fn step_and(self, contents: &str) -> (r: (BuildLog<InSection>, String))
        ensures
            r.0.started_millis == self.started_millis,
            r.1@ == step_spec(contents@) + "\n"@,
    {
        let line = self.step(contents);
        (self, line)
    }

    /// Closes the section.
    pub fn end_section(self) -> (r: BuildLog<Started>)
        ensures
            r.started_millis == self.started_millis,
    {
        BuildLog { state: Started, started_millis: self.started_millis }
    }
}

} // verus!
