//! Triage of the output of a command: every line is echoed under a label,
//! and a line that holds a tolerated text turns a failing exit status into a
//! success.
//!
//! The command itself is run elsewhere. What is decided here is decided
//! from the lines it wrote and the status it ended with.

use crate::error::ReleaseError;
use crate::text::{chars_of, contains_chars, is_substring};
use vstd::prelude::*;
use vstd::string::*;

verus! {

/// A command to run: the program and its arguments, the directory to run it
/// in (the caller's own where there is none), the label under which its
/// output is echoed, and the texts that excuse a failing exit status.
#[derive(Debug, PartialEq, Eq)]
pub struct CommandInvocation {
    pub program: String,
    pub arguments: Vec<String>,
    pub working_dir: Option<String>,
    pub label: String,
    pub tolerated: Vec<String>,
}

impl CommandInvocation {
    /// The triage of this command's output: under its label, and with its
    /// tolerated texts.
    pub fn triage(&self) -> (triage: LineTriage)
        ensures
            triage.label() == self.label@,
            triage.tolerated() == self.tolerated.deep_view(),
            !triage.seen(),
    {
        LineTriage::new(self.label.as_str(), &self.tolerated)
    }
}

/// How a command ended.
#[derive(Clone, Copy, Debug, PartialEq, Eq, Structural)]
pub struct ExecutionOutcome {
    /// The exit code; 1 where the command ended without one.
    pub exit_code: i32,
    /// Whether the command counts as having succeeded.
    pub success: bool,
    /// Whether some line of the output held a tolerated text.
    pub tolerated_seen: bool,
}

/// The exit code that stands for `status`: 1 where there is none.
pub open spec fn exit_code_of(status: Option<i32>) -> i32 {
    match status {
        Some(code) => code,
        None => 1,
    }
}

/// The outcome of a command that ended with `status`, given whether a
/// tolerated text was seen in its output.
pub open spec fn outcome_of(status: Option<i32>, tolerated_seen: bool) -> ExecutionOutcome {
    ExecutionOutcome {
        exit_code: exit_code_of(status),
        success: exit_code_of(status) == 0 || tolerated_seen,
        tolerated_seen,
    }
}

/// What a caller gets for `outcome`: the outcome itself where the command
/// succeeded, else the failure with its exit code.
pub open spec fn verdict_of(outcome: ExecutionOutcome) -> Result<ExecutionOutcome, ReleaseError> {
    if outcome.success {
        Ok(outcome)
    } else {
        Err(ReleaseError::CommandFailed { exit_code: outcome.exit_code })
    }
}

impl ExecutionOutcome {
    /// The outcome where the command succeeded, else the failure with its
    /// exit code.
    pub fn verdict(self) -> (verdict: Result<ExecutionOutcome, ReleaseError>)
        ensures
            verdict == verdict_of(self),
    {
        if self.success {
            Ok(self)
        } else {
            Err(ReleaseError::CommandFailed { exit_code: self.exit_code })
        }
    }
}

/// The line that is echoed for `line` under `label`.
pub open spec fn echoed(label: Seq<char>, line: Seq<char>) -> Seq<char> {
    label + ": "@ + line
}

/// Some tolerated text stands in `line`.
pub open spec fn is_tolerated(line: Seq<char>, tolerated: Seq<Seq<char>>) -> bool {
    exists|k: int| 0 <= k < tolerated.len() && is_substring(#[trigger] tolerated[k], line)
}

/// Some tolerated text stands in some of `lines`.
pub open spec fn any_tolerated(lines: Seq<Seq<char>>, tolerated: Seq<Seq<char>>) -> bool {
    exists|i: int| 0 <= i < lines.len() && is_tolerated(#[trigger] lines[i], tolerated)
}

/// The triage of one command's output while it arrives, line by line.
pub struct LineTriage {
    label: String,
    patterns: Vec<Vec<char>>,
    tolerated_seen: bool,
}

impl LineTriage {
    /// The label under which lines are echoed.
    pub closed spec fn label(&self) -> Seq<char> {
        self.label@
    }

    /// The tolerated texts.
    pub closed spec fn tolerated(&self) -> Seq<Seq<char>> {
        self.patterns@.map_values(|pattern: Vec<char>| pattern@)
    }

    /// Whether a line seen so far held a tolerated text.
    pub closed spec fn seen(&self) -> bool {
        self.tolerated_seen
    }

    /// The triage of a command of which no line has been seen yet.
    pub fn new(label: &str, tolerated: &Vec<String>) -> (triage: LineTriage)
        ensures
            triage.label() == label@,
            triage.tolerated() == tolerated.deep_view(),
            !triage.seen(),
    {
        let mut patterns: Vec<Vec<char>> = Vec::new();
        let mut k: usize = 0;
        while k < tolerated.len()
            invariant
                k <= tolerated.len(),
                patterns.len() == k,
                forall|j: int| 0 <= j < k ==> (#[trigger] patterns[j])@ == tolerated[j]@,
            decreases tolerated.len() - k,
        {
            patterns.push(chars_of(tolerated[k].as_str()));
            k += 1;
        }
        assert(patterns@.map_values(|pattern: Vec<char>| pattern@) =~= tolerated.deep_view());
        LineTriage { label: label.to_owned(), patterns, tolerated_seen: false }
    }

    /// Whether some tolerated text stands in `line`.
    pub fn tolerates(&self, line: &str) -> (found: bool)
        ensures
            found == is_tolerated(line@, self.tolerated()),
    {
        let line_chars = chars_of(line);
        let mut k: usize = 0;
        while k < self.patterns.len()
            invariant
                k <= self.patterns.len(),
                line_chars@ == line@,
                forall|j: int| 0 <= j < k ==> !is_substring(#[trigger] self.tolerated()[j], line@),
            decreases self.patterns.len() - k,
        {
            if contains_chars(&line_chars, &self.patterns[k]) {
                assert(is_substring(self.tolerated()[k as int], line@));
                return true;
            }
            k += 1;
        }
        false
    }

    /// Takes the next line of the output, and gives the line to echo for it.
    /// Every line is echoed, a tolerated one too.
    pub fn observe(&mut self, line: &str) -> (echo: String)
        ensures
            final(self).label() == old(self).label(),
            final(self).tolerated() == old(self).tolerated(),
            final(self).seen() == (old(self).seen() || is_tolerated(line@, old(self).tolerated())),
            echo@ == echoed(old(self).label(), line@),
    {
        if self.tolerates(line) {
            self.tolerated_seen = true;
        }
        let mut echo = self.label.clone();
        echo.append(": ");
        echo.append(line);
        echo
    }

    /// Whether a line seen so far held a tolerated text.
    pub fn tolerated_seen(&self) -> (seen: bool)
        ensures
            seen == self.seen(),
    {
        self.tolerated_seen
    }

    /// The outcome, once the output has ended and the command has ended with
    /// `status`.
    pub fn conclude(&self, status: Option<i32>) -> (outcome: ExecutionOutcome)
        ensures
            outcome == outcome_of(status, self.seen()),
    {
        let exit_code = match status {
            Some(code) => code,
            None => 1,
        };
        ExecutionOutcome {
            exit_code,
            success: exit_code == 0 || self.tolerated_seen,
            tolerated_seen: self.tolerated_seen,
        }
    }
}

/// A tolerated text, once seen, stays seen: after one more line a tolerated
/// text has been seen exactly if one had been seen before or stands in that
/// line.
pub proof fn lemma_tolerance_accumulates(lines: Seq<Seq<char>>, line: Seq<char>, tolerated: Seq<Seq<char>>)
    ensures
        any_tolerated(lines.push(line), tolerated) == (any_tolerated(lines, tolerated) || is_tolerated(
            line,
            tolerated,
        )),
{
    let longer = lines.push(line);
    if any_tolerated(lines, tolerated) {
        let at = choose|at: int| 0 <= at < lines.len() && is_tolerated(#[trigger] lines[at], tolerated);
        assert(longer[at] == lines[at]);
    }
    if is_tolerated(line, tolerated) {
        assert(longer[lines.len() as int] == line);
    }
    if any_tolerated(longer, tolerated) && !is_tolerated(line, tolerated) {
        let at = choose|at: int| 0 <= at < longer.len() && is_tolerated(#[trigger] longer[at], tolerated);
        assert(lines[at] == longer[at]);
    }
}

/// Triages the whole output of a command that has ended: `lines` is what it
/// wrote, in order, and `status` its exit code, if it had one.
///
/// Gives the lines to echo, one for each line of the output and in the same
/// order. The command counts as a success where its exit code is zero or a
/// line held one of `ignore_errors`; else the failure carries the exit code.
pub fn run_cmd(package: &str, lines: &Vec<String>, status: Option<i32>, ignore_errors: &Vec<String>) -> (run: (
    Vec<String>,
    Result<ExecutionOutcome, ReleaseError>,
))
    ensures
        run.0.len() == lines.len(),
        forall|i: int| 0 <= i < lines.len() ==> (#[trigger] run.0[i])@ == echoed(package@, lines[i]@),
        run.1 == verdict_of(
            outcome_of(status, any_tolerated(lines.deep_view(), ignore_errors.deep_view())),
        ),
        any_tolerated(lines.deep_view(), ignore_errors.deep_view()) ==> run.1 is Ok,
        !any_tolerated(lines.deep_view(), ignore_errors.deep_view()) && exit_code_of(status) != 0
            ==> run.1 == Err::<ExecutionOutcome, ReleaseError>(
            ReleaseError::CommandFailed { exit_code: exit_code_of(status) },
        ),
{
    let mut triage = LineTriage::new(package, ignore_errors);
    let mut sink: Vec<String> = Vec::new();
    let ghost all = lines.deep_view();
    let ghost tolerated = ignore_errors.deep_view();
    let mut i: usize = 0;
    while i < lines.len()
        invariant
            i <= lines.len(),
            all == lines.deep_view(),
            triage.label() == package@,
            triage.tolerated() == tolerated,
            triage.seen() == any_tolerated(all.take(i as int), tolerated),
            sink.len() == i,
            forall|j: int| 0 <= j < i ==> (#[trigger] sink[j])@ == echoed(package@, lines[j]@),
        decreases lines.len() - i,
    {
        let echo = triage.observe(lines[i].as_str());
        proof {
            assert(all.take(i + 1) =~= all.take(i as int).push(lines[i as int]@));
            lemma_tolerance_accumulates(all.take(i as int), lines[i as int]@, tolerated);
        }
        sink.push(echo);
        i += 1;
    }
    assert(all.take(lines.len() as int) =~= all);
    (sink, triage.conclude(status).verdict())
}

} // verus!
