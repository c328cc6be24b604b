use crate::launch::{initial, next_action, next_state, ActionView, Event, Launch, Phase, PLUGIN_COUNT};
use crate::plugins::{plugin_order, Plugin};
use vstd::prelude::*;

verus! {

/// The state reached and the actions called for when a launch in state `s`
/// takes in the events `es`, in order.
pub open spec fn run_events(s: Launch, es: Seq<Event>) -> (Launch, Seq<ActionView>)
    decreases es.len(),
{
    if es.len() == 0 {
        (s, Seq::empty())
    } else {
        let (t, acts) = run_events(s, es.drop_last());
        (next_state(t, es.last()), acts.push(next_action(t, es.last())))
    }
}

/// How many setup lines a run of actions prints.
pub open spec fn print_count(acts: Seq<ActionView>) -> nat
    decreases acts.len(),
{
    if acts.len() == 0 {
        0
    } else {
        print_count(acts.drop_last()) + if acts.last() is Print { 1nat } else { 0nat }
    }
}

/// The plugins that a run of actions registers, in order.
pub open spec fn registrations(acts: Seq<ActionView>) -> Seq<Plugin>
    decreases acts.len(),
{
    if acts.len() == 0 {
        Seq::empty()
    } else {
        let rest = registrations(acts.drop_last());
        match acts.last() {
            ActionView::Register(p) => rest.push(p),
            _ => rest,
        }
    }
}

/// How many registrations have been asked for in a state reached from the
/// initial one.
pub open spec fn asked(s: Launch) -> nat {
    match s.phase {
        Phase::Idle => 0,
        Phase::Registering => (s.registered + 1) as nat,
        _ => PLUGIN_COUNT as nat,
    }
}

/// Whether the run loop has been started in a state.
pub open spec fn past_registration(s: Launch) -> bool {
    s.phase != Phase::Idle && s.phase != Phase::Registering
}

/// What holds of every state and run of actions reached from the initial
/// state.
pub open spec fn trace_inv(s: Launch, acts: Seq<ActionView>) -> bool {
    &&& s.phase == Phase::Registering ==> s.registered < PLUGIN_COUNT
    &&& registrations(acts) == plugin_order().take(asked(s) as int)
    &&& acts.contains(ActionView::StartRunLoop) <==> past_registration(s)
    &&& print_count(acts) <= 1
    &&& (s.phase == Phase::Idle || s.phase == Phase::Registering || s.phase == Phase::Starting)
        ==> print_count(acts) == 0
    &&& s.phase == Phase::Running ==> print_count(acts) == 1
}

proof fn lemma_trace_inv(es: Seq<Event>)
    ensures
        trace_inv(run_events(initial(), es).0, run_events(initial(), es).1),
    decreases es.len(),
{
    if es.len() > 0 {
        lemma_trace_inv(es.drop_last());
        let (t, acts) = run_events(initial(), es.drop_last());
        let e = es.last();
        let s = next_state(t, e);
        let a = next_action(t, e);
        let acts2 = acts.push(a);
        assert(acts2.drop_last() =~= acts);
        assert(plugin_order().len() == 8);
        if acts2.contains(ActionView::StartRunLoop) && !acts.contains(ActionView::StartRunLoop) {
            let i = choose|i: int| 0 <= i < acts2.len() && acts2[i] == ActionView::StartRunLoop;
            if i < acts.len() {
                assert(acts[i] == ActionView::StartRunLoop);
            }
        }
        if acts.contains(ActionView::StartRunLoop) {
            let i = choose|i: int| 0 <= i < acts.len() && acts[i] == ActionView::StartRunLoop;
            assert(acts2[i] == ActionView::StartRunLoop);
        }
        if a == ActionView::StartRunLoop {
            assert(acts2[acts.len() as int] == ActionView::StartRunLoop);
        }
        assert(registrations(acts2) =~= plugin_order().take(asked(s) as int));
    } else {
        assert(plugin_order().take(0) =~= Seq::<Plugin>::empty());
    }
}

/// Running one sequence of events and then another is running the two
/// joined.
pub proof fn lemma_run_events_append(s: Launch, es1: Seq<Event>, es2: Seq<Event>)
    ensures
        run_events(s, es1 + es2).0 == run_events(run_events(s, es1).0, es2).0,
        run_events(s, es1 + es2).1 == run_events(s, es1).1 + run_events(run_events(s, es1).0, es2).1,
    decreases es2.len(),
{
    if es2.len() == 0 {
        assert(es1 + es2 =~= es1);
        assert(run_events(s, es1).1 + Seq::<ActionView>::empty() =~= run_events(s, es1).1);
    } else {
        assert((es1 + es2).drop_last() =~= es1 + es2.drop_last());
        assert((es1 + es2).last() == es2.last());
        lemma_run_events_append(s, es1, es2.drop_last());
        let mid = run_events(s, es1);
        let (t, acts) = run_events(mid.0, es2.drop_last());
        assert((mid.1 + acts).push(next_action(t, es2.last())) =~= mid.1 + acts.push(
            next_action(t, es2.last()),
        ));
    }
}

/// The setup line is printed at most once in any launch, only after the run
/// loop was started, and exactly once while the run loop is live after setup.
pub proof fn lemma_setup_line_once(es: Seq<Event>)
    ensures
        print_count(run_events(initial(), es).1) <= 1,
        print_count(run_events(initial(), es).1) > 0 ==> run_events(initial(), es).1.contains(
            ActionView::StartRunLoop,
        ),
        run_events(initial(), es).0.phase == Phase::Running ==> print_count(
            run_events(initial(), es).1,
        ) == 1,
{
    lemma_trace_inv(es);
}

/// Every launch registers the plugins in the fixed order with none left out:
/// what it registered so far is a prefix of the plan, and the whole plan once
/// the run loop is started.
pub proof fn lemma_all_plugins_before_run_loop(es: Seq<Event>)
    ensures
        plugin_order().take(registrations(run_events(initial(), es).1).len() as int)
            == registrations(run_events(initial(), es).1),
        run_events(initial(), es).1.contains(ActionView::StartRunLoop) ==> registrations(
            run_events(initial(), es).1,
        ) == plugin_order(),
{
    lemma_trace_inv(es);
    let s = run_events(initial(), es).0;
    assert(plugin_order().len() == 8);
    assert(plugin_order().take(8) =~= plugin_order());
    let r = registrations(run_events(initial(), es).1);
    assert(plugin_order().take(r.len() as int) =~= r);
}

/// The plan holds each of the eight plugins exactly once.
pub proof fn lemma_plan_complete(p: Plugin)
    ensures
        plugin_order().len() == PLUGIN_COUNT,
        plugin_order().contains(p),
        plugin_order().no_duplicates(),
{
    let o = plugin_order();
    let i: int = match p {
        Plugin::Opener => 0,
        Plugin::Fs => 1,
        Plugin::Dialog => 2,
        Plugin::Store => 3,
        Plugin::Sql => 4,
        Plugin::Notification => 5,
        Plugin::DeepLink => 6,
        Plugin::Http => 7,
    };
    assert(o[i] == p);
}

/// Once a launch has aborted, no event changes its state or calls for any
/// action, so nothing more is printed.
pub proof fn lemma_aborted_is_silent(s: Launch, es: Seq<Event>)
    requires
        s.phase == Phase::Aborted,
    ensures
        run_events(s, es).0 == s,
        forall|i: int| 0 <= i < es.len() ==> run_events(s, es).1[i] == ActionView::Idle,
        run_events(s, es).1.len() == es.len(),
    decreases es.len(),
{
    if es.len() > 0 {
        lemma_aborted_is_silent(s, es.drop_last());
    }
}

/// A failure of the run loop aborts the launch with the fixed message, and
/// no event after it prints anything.
pub proof fn lemma_failure_aborts(es: Seq<Event>, later: Seq<Event>)
    requires
        past_registration(run_events(initial(), es).0),
        !(run_events(initial(), es).0.phase == Phase::Exited),
        !(run_events(initial(), es).0.phase == Phase::Aborted),
    ensures
        ({
            let all = es.push(Event::RunReturned(false)) + later;
            let (s, acts) = run_events(initial(), all);
            &&& s.phase == Phase::Aborted
            &&& acts[es.len() as int] == ActionView::Abort(crate::launch::failure_message())
            &&& forall|i: int| es.len() < i < acts.len() ==> acts[i] == ActionView::Idle
            &&& print_count(acts) == print_count(run_events(initial(), es).1)
        }),
{
    let first = es.push(Event::RunReturned(false));
    assert(first.drop_last() =~= es);
    let mid = run_events(initial(), first);
    lemma_run_events_append(initial(), first, later);
    lemma_aborted_is_silent(mid.0, later);
    let tail = run_events(mid.0, later).1;
    lemma_print_count_idle(mid.1, tail);
    lemma_run_events_len(initial(), first);
    assert(mid.1.drop_last() =~= run_events(initial(), es).1);
    assert(mid.1.last() == ActionView::Abort(crate::launch::failure_message()));
    assert((mid.1 + tail)[es.len() as int] == mid.1.last());
}

proof fn lemma_run_events_len(s: Launch, es: Seq<Event>)
    ensures
        run_events(s, es).1.len() == es.len(),
    decreases es.len(),
{
    if es.len() > 0 {
        lemma_run_events_len(s, es.drop_last());
    }
}

proof fn lemma_print_count_idle(acts: Seq<ActionView>, tail: Seq<ActionView>)
    requires
        forall|i: int| 0 <= i < tail.len() ==> tail[i] == ActionView::Idle,
    ensures
        print_count(acts + tail) == print_count(acts),
    decreases tail.len(),
{
    if tail.len() == 0 {
        assert(acts + tail =~= acts);
    } else {
        assert((acts + tail).drop_last() =~= acts + tail.drop_last());
        lemma_print_count_idle(acts, tail.drop_last());
    }
}

} // verus!
