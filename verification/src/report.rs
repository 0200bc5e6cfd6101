//! The lines that a scan prints, and the stream each one goes to.

use crate::probe::{ProbeResult, ProbeResultView, ProbeTarget, ProbeTargetView};
use crate::text::{decimal, decimal_string};
use vstd::prelude::*;
use vstd::string::StringExecFns;

verus! {

pub const OPEN_PORT_PREFIX: &'static str = "Open port found: ";

pub const RESOLUTION_FAILED_PREFIX: &'static str = "Failed to resolve address ";

pub const SKIPPED_PREFIX: &'static str = "Skipping invalid subdomain: ";

pub const SUMMARY_PREFIX: &'static str = "Found ";

pub const SUMMARY_SUFFIX: &'static str = " unique subdomains";

pub const PORT_SEPARATOR: &'static str = ":";

pub const CAUSE_SEPARATOR: &'static str = ": ";

/// Where a line is printed.
#[derive(Clone, Copy, Debug, PartialEq, Eq, Structural)]
pub enum Stream {
    /// The standard output stream: findings.
    Standard,
    /// The diagnostic stream: skipped hosts and failed resolutions.
    Diagnostic,
}

/// One line of output, without its line break.
#[derive(Clone, Debug, PartialEq, Eq)]
pub struct Line {
    pub stream: Stream,
    pub text: String,
}

/// What contracts say of a `Line`.
pub struct LineView {
    pub stream: Stream,
    pub text: Seq<char>,
}

impl View for Line {
    type V = LineView;

    open spec fn view(&self) -> LineView {
        LineView { stream: self.stream, text: self.text@ }
    }
}

/// `<host>:<port>`, the port in decimal.
pub open spec fn address_text(host: Seq<char>, port: u16) -> Seq<char> {
    host + PORT_SEPARATOR@ + decimal(port as nat)
}

/// The line for an open port.
pub open spec fn open_port_text(host: Seq<char>, port: u16) -> Seq<char> {
    OPEN_PORT_PREFIX@ + address_text(host, port)
}

/// The line for a target that could not be resolved.
pub open spec fn resolution_failed_text(host: Seq<char>, port: u16, cause: Seq<char>) -> Seq<char> {
    RESOLUTION_FAILED_PREFIX@ + address_text(host, port) + CAUSE_SEPARATOR@ + cause
}

/// The line for a host that is not probed.
pub open spec fn skipped_text(host: Seq<char>) -> Seq<char> {
    SKIPPED_PREFIX@ + host
}

/// The line that gives the number of unique hostnames.
pub open spec fn summary_text(count: nat) -> Seq<char> {
    SUMMARY_PREFIX@ + decimal(count) + SUMMARY_SUFFIX@
}

/// What is printed for the outcome of probing `target`: an open port on the
/// standard stream, a failed resolution and a skipped host on the
/// diagnostic stream, and nothing for a closed port.
pub open spec fn report_spec(target: ProbeTargetView, result: ProbeResultView) -> Option<LineView> {
    match result {
        ProbeResultView::Open => Some(
            LineView { stream: Stream::Standard, text: open_port_text(target.host, target.port) },
        ),
        ProbeResultView::Closed => None,
        ProbeResultView::ResolutionFailed(failure) => Some(
            LineView {
                stream: Stream::Diagnostic,
                text: resolution_failed_text(failure.host, failure.port, failure.cause),
            },
        ),
        ProbeResultView::Skipped(_) => Some(
            LineView { stream: Stream::Diagnostic, text: skipped_text(target.host) },
        ),
    }
}

/// Writes `<host>:<port>`.
pub fn address_string(host: &str, port: u16) -> (text: String)
    ensures
        text@ == address_text(host@, port),
{
    let mut text = String::from_str(host);
    text.append(PORT_SEPARATOR);
    let digits = decimal_string(port as u64);
    text.append(digits.as_str());
    text
}

/// The line that gives the number of unique hostnames.
pub fn summary_line(count: usize) -> (line: Line)
    ensures
        line@ == (LineView { stream: Stream::Standard, text: summary_text(count as nat) }),
{
    let mut text = String::from_str(SUMMARY_PREFIX);
    let digits = decimal_string(count as u64);
    text.append(digits.as_str());
    text.append(SUMMARY_SUFFIX);
    Line { stream: Stream::Standard, text }
}

/// The line to print for the outcome of probing `target`, if any.
pub fn report(target: &ProbeTarget, result: &ProbeResult) -> (line: Option<Line>)
    ensures
        match report_spec(target@, result@) {
            Some(expected) => line is Some && line->Some_0@ == expected,
            None => line is None,
        },
{
    match result {
        ProbeResult::Open => {
            let mut text = String::from_str(OPEN_PORT_PREFIX);
            let address = address_string(target.host.as_str(), target.port);
            text.append(address.as_str());
            Some(Line { stream: Stream::Standard, text })
        },
        ProbeResult::Closed => None,
        ProbeResult::ResolutionFailed(failure) => {
            let mut text = String::from_str(RESOLUTION_FAILED_PREFIX);
            let address = address_string(failure.host.as_str(), failure.port);
            text.append(address.as_str());
            text.append(CAUSE_SEPARATOR);
            text.append(failure.cause.as_str());
            Some(Line { stream: Stream::Diagnostic, text })
        },
        ProbeResult::Skipped(_) => {
            let mut text = String::from_str(SKIPPED_PREFIX);
            text.append(target.host.as_str());
            Some(Line { stream: Stream::Diagnostic, text })
        },
    }
}

} // verus!
