//! A whole scan: the summary line and one sweep for every unique hostname.

use crate::report::{summary_line, summary_text, Line, LineView, Stream};
use crate::sweep::{start_spec, Step, StepView, Sweep, SweepView};
use crate::working_set::SubdomainSet;
use vstd::prelude::*;

verus! {

/// A scan at its beginning.
pub struct Scan {
    /// The line that gives the number of unique hostnames. It is printed
    /// once, before any sweep is driven.
    pub summary: Line,
    /// Every host's sweep with its first answer. The sweeps share nothing:
    /// they may be driven in any order, or at the same time.
    pub sweeps: Vec<(Sweep, Step)>,
}

/// Where the sweeps of `names` begin, in order.
pub open spec fn starts_spec(names: Seq<Seq<char>>) -> Seq<(SweepView, StepView)> {
    names.map_values(|name: Seq<char>| start_spec(name))
}

/// The views of begun sweeps, in order.
pub open spec fn started_views(sweeps: Seq<(Sweep, Step)>) -> Seq<(SweepView, StepView)> {
    sweeps.map_values(|started: (Sweep, Step)| (started.0@, started.1@))
}

/// Begins the scan of `set`: counts its hostnames and begins a sweep for
/// each of them, hosts with a wildcard included, whose sweeps are over at
/// once with their diagnostic.
pub fn begin_scan(set: &SubdomainSet) -> (scan: Scan)
    ensures
        scan.summary@ == (LineView { stream: Stream::Standard, text: summary_text(set@.len()) }),
        started_views(scan.sweeps@) == starts_spec(set.listing()),
        scan.sweeps@.len() == set@.len(),
{
    let count = set.len();
    let hosts = set.hosts();
    let mut sweeps: Vec<(Sweep, Step)> = Vec::new();
    let mut i: usize = 0;
    while i < hosts.len()
        invariant
            i <= hosts.len(),
            sweeps.len() == i,
            crate::working_set::names_of(hosts@) == set.listing(),
            forall|j: int|
                0 <= j < i ==> started_views(sweeps@)[j] == #[trigger] starts_spec(set.listing())[j],
        decreases hosts.len() - i,
    {
        let ghost before = sweeps@;
        let started = Sweep::start(hosts[i].duplicate());
        sweeps.push(started);
        assert forall|j: int| 0 <= j < i + 1 implies started_views(sweeps@)[j] == #[trigger] starts_spec(
            set.listing(),
        )[j] by {
            if j < i {
                assert(sweeps@[j] == before[j]);
                assert(started_views(before)[j] == starts_spec(set.listing())[j]);
            }
        }
        i += 1;
    }
    assert(started_views(sweeps@) =~= starts_spec(set.listing()));
    Scan { summary: summary_line(count), sweeps }
}

} // verus!
