//! What holds of every run of a sweep, whatever the driver reports back.

use crate::hostname::is_wildcard;
use crate::ports::{lemma_ports_distinct, popular_ports_spec, PORT_COUNT};
use crate::probe::ProbeTargetView;
use crate::report::{skipped_text, LineView, Stream};
use crate::sweep::{accepts, start_spec, step_spec, ActionView, EventView, Phase, SweepView};
use vstd::prelude::*;

verus! {

/// The state after `event` was handed to a sweep in `state`: an event that
/// the sweep does not accept changes nothing.
pub open spec fn feed(state: SweepView, event: EventView) -> SweepView {
    if accepts(state, event) {
        step_spec(state, event).0
    } else {
        state
    }
}

/// The state after `events` were handed to a sweep in `state`, in order.
pub open spec fn run(state: SweepView, events: Seq<EventView>) -> SweepView
    decreases events.len(),
{
    if events.len() == 0 {
        state
    } else {
        feed(run(state, events.drop_last()), events.last())
    }
}

/// The actions that a sweep in `state` hands out in answer to `events`.
pub open spec fn issued(state: SweepView, events: Seq<EventView>) -> Seq<ActionView>
    decreases events.len(),
{
    if events.len() == 0 {
        Seq::empty()
    } else {
        let before = run(state, events.drop_last());
        let earlier = issued(state, events.drop_last());
        if accepts(before, events.last()) {
            earlier.push(step_spec(before, events.last()).1.action)
        } else {
            earlier
        }
    }
}

/// Every action of the sweep for `host` when the driver reports `events`:
/// the one it begins with, then its answers.
pub open spec fn sweep_actions(host: Seq<char>, events: Seq<EventView>) -> Seq<ActionView> {
    seq![start_spec(host).1.action] + issued(start_spec(host).0, events)
}

/// The targets of the resolutions among `actions`, in order. Every probe
/// begins with one, so these are the targets that were attempted.
pub open spec fn resolve_targets(actions: Seq<ActionView>) -> Seq<ProbeTargetView>
    decreases actions.len(),
{
    if actions.len() == 0 {
        Seq::empty()
    } else {
        let earlier = resolve_targets(actions.drop_last());
        match actions.last() {
            ActionView::Resolve(target) => earlier.push(target),
            _ => earlier,
        }
    }
}

/// How many connection attempts are among `actions`.
pub open spec fn connect_count(actions: Seq<ActionView>) -> nat
    decreases actions.len(),
{
    if actions.len() == 0 {
        0
    } else {
        let earlier = connect_count(actions.drop_last());
        match actions.last() {
            ActionView::Connect { .. } => earlier + 1,
            _ => earlier,
        }
    }
}

/// The targets attempted by the sweep for `host` when the driver reports
/// `events`.
pub open spec fn attempted(host: Seq<char>, events: Seq<EventView>) -> Seq<ProbeTargetView> {
    resolve_targets(sweep_actions(host, events))
}

/// The targets that a scan owes to `host`: none for a host with a wildcard,
/// and for any other host one per port, in the order of the port list.
pub open spec fn targets_spec(host: Seq<char>) -> Seq<ProbeTargetView> {
    if is_wildcard(host) {
        Seq::empty()
    } else {
        Seq::new(
            PORT_COUNT as nat,
            |i: int| ProbeTargetView { host, port: popular_ports_spec()[i] },
        )
    }
}

/// The ports of `targets`, in order.
pub open spec fn ports_of(targets: Seq<ProbeTargetView>) -> Seq<u16> {
    targets.map_values(|target: ProbeTargetView| target.port)
}

/// How far a sweep in `state` is from its end, in accepted events.
pub open spec fn remaining_events(state: SweepView) -> nat {
    match state.phase {
        Phase::Finished => 0,
        Phase::Resolving => (2 * (PORT_COUNT - state.index)) as nat,
        Phase::Connecting => (2 * (PORT_COUNT - state.index) - 1) as nat,
    }
}

spec fn on_track(host: Seq<char>, state: SweepView, actions: Seq<ActionView>) -> bool {
    &&& state.host == host
    &&& if is_wildcard(host) {
        state.phase == Phase::Finished && actions == seq![ActionView::Finish]
    } else if state.phase == Phase::Finished {
        state.index == PORT_COUNT && resolve_targets(actions) == targets_spec(host)
    } else {
        state.index < PORT_COUNT && resolve_targets(actions) == targets_spec(host).take(
            state.index as int + 1,
        )
    }
    &&& connect_count(actions) <= state.index + if state.phase == Phase::Connecting {
        1nat
    } else {
        0nat
    }
}

proof fn lemma_on_track(host: Seq<char>, events: Seq<EventView>)
    ensures
        on_track(host, run(start_spec(host).0, events), sweep_actions(host, events)),
    decreases events.len(),
{
    let begin = start_spec(host).0;
    let first = start_spec(host).1.action;
    if events.len() == 0 {
        let actions = sweep_actions(host, events);
        assert(actions =~= seq![first]);
        assert(actions.drop_last() =~= Seq::<ActionView>::empty());
        assert(resolve_targets(actions.drop_last()) =~= Seq::<ProbeTargetView>::empty());
        assert(connect_count(actions.drop_last()) == 0);
        if !is_wildcard(host) {
            assert(resolve_targets(actions) =~= targets_spec(host).take(1));
        }
    } else {
        let earlier = events.drop_last();
        lemma_on_track(host, earlier);
        let before = run(begin, earlier);
        let actions_before = sweep_actions(host, earlier);
        let actions = sweep_actions(host, events);
        let event = events.last();
        if accepts(before, event) {
            let answer = step_spec(before, event);
            assert(actions =~= actions_before.push(answer.1.action));
            assert(actions.drop_last() =~= actions_before);
            if answer.0.phase == Phase::Resolving {
                assert(resolve_targets(actions) =~= targets_spec(host).take(answer.0.index as int + 1));
            } else if answer.0.phase == Phase::Finished {
                assert(targets_spec(host).take(PORT_COUNT as int) =~= targets_spec(host));
            }
        } else {
            assert(actions =~= actions_before);
        }
    }
}

/// A host with a wildcard is skipped with a diagnostic that names it, and
/// contributes no probe: whatever the driver reports, its sweep hands out
/// neither a resolution nor a connection attempt.
pub proof fn lemma_wildcard_contributes_no_probe(host: Seq<char>, events: Seq<EventView>)
    requires
        is_wildcard(host),
    ensures
        start_spec(host).0.phase == Phase::Finished,
        start_spec(host).1.line == Some(
            LineView { stream: Stream::Diagnostic, text: skipped_text(host) },
        ),
        sweep_actions(host, events) == seq![ActionView::Finish],
        attempted(host, events) == Seq::<ProbeTargetView>::empty(),
        connect_count(sweep_actions(host, events)) == 0,
        targets_spec(host) == Seq::<ProbeTargetView>::empty(),
{
    lemma_on_track(host, events);
    let actions = sweep_actions(host, events);
    assert(actions.drop_last() =~= Seq::<ActionView>::empty());
    assert(resolve_targets(actions.drop_last()) =~= Seq::<ProbeTargetView>::empty());
    assert(connect_count(actions.drop_last()) == 0);
}

/// A finished sweep of an admitted host has attempted every port of the
/// list exactly once, in the order of the list.
pub proof fn lemma_finished_sweep_is_complete(host: Seq<char>, events: Seq<EventView>)
    requires
        !is_wildcard(host),
        run(start_spec(host).0, events).phase == Phase::Finished,
    ensures
        attempted(host, events) == targets_spec(host),
        ports_of(attempted(host, events)) == popular_ports_spec(),
        ports_of(attempted(host, events)).no_duplicates(),
        forall|i: int|
            0 <= i < attempted(host, events).len() ==> (#[trigger] attempted(host, events)[i]).host
                == host,
{
    lemma_on_track(host, events);
    lemma_ports_distinct();
    assert(ports_of(targets_spec(host)) =~= popular_ports_spec());
}

/// At every moment of a sweep, the targets attempted so far are the first
/// ones of the list that the host is owed: their number is all that the
/// driver's reports can change, never which ports are tried nor their order.
pub proof fn lemma_attempted_is_prefix(host: Seq<char>, events: Seq<EventView>)
    ensures
        attempted(host, events).len() <= targets_spec(host).len(),
        attempted(host, events) == targets_spec(host).take(attempted(host, events).len() as int),
        connect_count(sweep_actions(host, events)) <= attempted(host, events).len(),
{
    lemma_on_track(host, events);
    let state = run(start_spec(host).0, events);
    if is_wildcard(host) {
        lemma_wildcard_contributes_no_probe(host, events);
        assert(targets_spec(host).take(0) =~= Seq::<ProbeTargetView>::empty());
    } else if state.phase == Phase::Finished {
        assert(targets_spec(host).take(PORT_COUNT as int) =~= targets_spec(host));
    }
}

/// The outcomes of the probes do not change what is attempted: two finished
/// sweeps of one host have attempted the same targets, whatever the driver
/// reported in each.
pub proof fn lemma_attempts_ignore_outcomes(
    host: Seq<char>,
    first: Seq<EventView>,
    second: Seq<EventView>,
)
    requires
        run(start_spec(host).0, first).phase == Phase::Finished,
        run(start_spec(host).0, second).phase == Phase::Finished,
    ensures
        attempted(host, first) == attempted(host, second),
        attempted(host, first) == targets_spec(host),
{
    if is_wildcard(host) {
        lemma_wildcard_contributes_no_probe(host, first);
        lemma_wildcard_contributes_no_probe(host, second);
    } else {
        lemma_finished_sweep_is_complete(host, first);
        lemma_finished_sweep_is_complete(host, second);
    }
}

/// A sweep that is not over accepts an event, and every event that it
/// accepts brings it closer to its end: a sweep is over after at most two
/// events for each port.
pub proof fn lemma_step_makes_progress(host: Seq<char>, events: Seq<EventView>, event: EventView)
    requires
        accepts(run(start_spec(host).0, events), event),
    ensures
        remaining_events(run(start_spec(host).0, events.push(event))) < remaining_events(
            run(start_spec(host).0, events),
        ),
        remaining_events(start_spec(host).0) <= 2 * PORT_COUNT,
{
    lemma_on_track(host, events);
    assert(events.push(event).drop_last() =~= events);
}

} // verus!
