//! Build output building blocks.
//!
//! A build announces itself, works in sections, and times itself; the lines
//! it emits are computed here, and the host that owns the terminal prints
//! them.

use vstd::prelude::*;
use crate::fmt::{details_spec, help_spec, step_spec};
use vstd::string::StringExecFns;

pub mod paragraph;

verus! {

/// Times the entire buildpack execution, carried as the milliseconds that
/// passed since the buildpack announced itself.
pub struct BuildpackDuration {
    pub elapsed_millis: u64,
}

impl BuildpackDuration {
    /// Finish without announcing anything.
    pub fn done_silently(self) {
    }
}

/// One section of build output, announced under a topic; the steps inside it
/// are indented under the section line.
#[derive(Debug, Clone, PartialEq, Eq)]
pub struct Section {
    pub topic: String,
}

impl Section {
    /// The line for one step inside this section.
    pub fn step(&self, contents: &str) -> (r: String)
        ensures
            r@ == step_spec(contents@),
    {
        crate::fmt::step(contents)
    }

    /// The line for one step with parenthesized details after it.
    pub fn step_with_details(&self, contents: &str, details: &str) -> (r: String)
        ensures
            r@ == step_spec(contents@ + " "@ + details_spec(details@)),
    {
        let decorated = crate::fmt::details(details);
        let mut message = String::new();
        message.append(contents);
        message.append(" ");
        message.append(decorated.as_str());
        proof {
            assert(Seq::<char>::empty() + contents@ == contents@);
        }
        crate::fmt::step(message.as_str())
    }

    /// The inline help block for this section, with a `Help:` label.
    pub fn help(&self, contents: &str) -> (r: String)
        ensures
            r@ == step_spec(help_spec(contents@)),
    {
        let block = crate::fmt::help(contents);
        crate::fmt::step(block.as_str())
    }
}

} // verus!
