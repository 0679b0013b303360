use vstd::prelude::*;

use crate::alert::Alert;
use crate::alert::alert_messages;
use crate::error::FeedError;

verus! {

/// The capability set every feed's accumulator provides: apply one event
/// (`update`) and render the current value as one line (`display`).
///
/// `update` is deterministic in the previous state and the incoming event: a
/// successful update moves to `next_spec` and raises the alerts described by
/// `alerts_spec`; an event the state cannot represent (`!accepts`) is
/// reported as an error and leaves the state untouched.  `display` is pure:
/// its output is fixed by the state alone, so two calls with no update in
/// between render byte-identical lines.
pub trait State: Sized {
    type Event: Copy;

    /// Internal invariant of the accumulator.
    spec fn wf(&self) -> bool;

    /// Whether the state can represent this event (`update` succeeds).
    spec fn accepts(&self, e: Self::Event) -> bool;

    /// The state after a successful update with `e`.
    spec fn next_spec(&self, e: Self::Event) -> Self;

    /// The messages of the alerts a successful update with `e` raises.
    spec fn alerts_spec(&self, e: Self::Event) -> Seq<Seq<char>>;

    /// The single line the current state renders to, newline included.
    spec fn render_spec(&self) -> Seq<char>;

    fn update(&mut self, e: Self::Event) -> (r: Result<Option<Vec<Alert>>, FeedError>)
        requires
            old(self).wf(),
        ensures
            final(self).wf(),
            (r is Ok) <==> old(self).accepts(e),
            (r is Ok) ==> *final(self) == old(self).next_spec(e),
            (r is Err) ==> *final(self) == *old(self),
            (match r {
                Ok(Some(alerts)) => alert_messages(alerts@) == old(self).alerts_spec(e),
                Ok(None) => old(self).alerts_spec(e) == Seq::<Seq<char>>::empty(),
                Err(_) => true,
            }),
    ;

    fn display(&self) -> (line: String)
        requires
            self.wf(),
        ensures
            line@ == self.render_spec(),
    ;
}

/// Outcome of one pipeline cycle: the line to print, if the update succeeded,
/// and the alerts to forward to the notification sink.
pub struct StepOutput {
    pub line: Option<String>,
    pub alerts: Vec<Alert>,
}

/// One pipeline cycle: feed the event to the state; on success render the new
/// state; on an invariant violation keep the previous state — and therefore
/// the previously rendered output — intact.
pub fn step<S: State>(state: &mut S, e: S::Event) -> (out: StepOutput)
    requires
        old(state).wf(),
    ensures
        final(state).wf(),
        old(state).accepts(e) ==> *final(state) == old(state).next_spec(e),
        old(state).accepts(e) ==> (out.line matches Some(l)
            && l@ == old(state).next_spec(e).render_spec()),
        old(state).accepts(e) ==> alert_messages(out.alerts@) == old(state).alerts_spec(e),
        !old(state).accepts(e) ==> *final(state) == *old(state),
        !old(state).accepts(e) ==> out.line is None,
        !old(state).accepts(e) ==> out.alerts@ == Seq::<Alert>::empty(),
{
    match state.update(e) {
        Ok(alerts_opt) => {
            let line = state.display();
            let alerts = match alerts_opt {
                Some(v) => v,
                None => Vec::new(),
            };
            StepOutput { line: Some(line), alerts }
        }
        Err(_) => StepOutput { line: None, alerts: Vec::new() },
    }
}

/// The state after feeding `events` in order; a rejected event leaves the
/// state unchanged.
pub open spec fn fold_events<S: State>(init: S, events: Seq<S::Event>) -> S
    decreases events.len(),
{
    if events.len() == 0 {
        init
    } else {
        let prev = fold_events(init, events.drop_last());
        if prev.accepts(events.last()) {
            prev.next_spec(events.last())
        } else {
            prev
        }
    }
}

/// The lines rendered while feeding `events` in order: one line per accepted
/// event, rendered from the state right after that event; a rejected event
/// renders nothing.
pub open spec fn lines_of<S: State>(init: S, events: Seq<S::Event>) -> Seq<Seq<char>>
    decreases events.len(),
{
    if events.len() == 0 {
        Seq::empty()
    } else {
        let prev = fold_events(init, events.drop_last());
        let rest = lines_of(init, events.drop_last());
        if prev.accepts(events.last()) {
            rest.push(prev.next_spec(events.last()).render_spec())
        } else {
            rest
        }
    }
}

/// The alert messages raised while feeding `events` in order.
pub open spec fn alerts_of<S: State>(init: S, events: Seq<S::Event>) -> Seq<Seq<char>>
    decreases events.len(),
{
    if events.len() == 0 {
        Seq::empty()
    } else {
        let prev = fold_events(init, events.drop_last());
        let rest = alerts_of(init, events.drop_last());
        if prev.accepts(events.last()) {
            rest + prev.alerts_spec(events.last())
        } else {
            rest
        }
    }
}

/// The views of a batch of rendered lines.
pub open spec fn line_views(lines: Seq<String>) -> Seq<Seq<char>> {
    lines.map(|i: int, l: String| l@)
}

/// Everything a finite pipeline run produced: the rendered lines for the
/// output stream and the alerts for the notification sink.
pub struct RunOutput {
    pub lines: Vec<String>,
    pub alerts: Vec<Alert>,
}

/// Drives the pipeline over a finite trace of events: each event goes through
/// `update`, each successful update renders one line, and an invariant
/// violation skips its cycle with the previous state intact (fail-forward,
/// never exit on a fault internal to the state).
pub fn run<S: State>(state: &mut S, events: &Vec<S::Event>) -> (out: RunOutput)
    requires
        old(state).wf(),
    ensures
        final(state).wf(),
        *final(state) == fold_events(*old(state), events@),
        line_views(out.lines@) == lines_of(*old(state), events@),
        alert_messages(out.alerts@) == alerts_of(*old(state), events@),
{
    let mut lines: Vec<String> = Vec::new();
    let mut alerts: Vec<Alert> = Vec::new();
    let mut i: usize = 0;
    while i < events.len()
        invariant
            0 <= i <= events@.len(),
            state.wf(),
            *state == fold_events(*old(state), events@.take(i as int)),
            line_views(lines@) == lines_of(*old(state), events@.take(i as int)),
            alert_messages(alerts@) == alerts_of(*old(state), events@.take(i as int)),
        decreases events@.len() - i,
    {
        let ghost done = events@.take(i as int);
        let ghost prev = *state;
        let e = events[i];
        let out = step(state, e);
        proof {
            assert(events@.take(i as int + 1).drop_last() =~= events@.take(i as int));
            assert(events@.take(i as int + 1).last() == events@[i as int]);
        }
        match out.line {
            Some(l) => {
                let ghost lines0 = lines@;
                lines.push(l);
                proof {
                    assert(line_views(lines0.push(l)) =~= line_views(lines0).push(l@));
                }
            }
            None => {}
        }
        let mut step_alerts = out.alerts;
        let ghost alerts0 = alerts@;
        let ghost step_alerts0 = step_alerts@;
        alerts.append(&mut step_alerts);
        proof {
            assert(alert_messages(alerts0 + step_alerts0)
                =~= alert_messages(alerts0) + alert_messages(step_alerts0));
            assert(alerts0 + Seq::<Alert>::empty() =~= alerts0);
        }
        i = i + 1;
    }
    proof {
        assert(events@.take(events@.len() as int) =~= events@);
    }
    RunOutput { lines, alerts }
}

/// Output depends only on past events: when one event trace is a prefix of
/// another, the lines rendered along the shorter trace are exactly the first
/// lines rendered along the longer one.  In particular, the line rendered
/// after any event is a function of the events up to and including it, and
/// replaying one trace twice from the same initial state yields identical
/// output sequences.
pub proof fn lemma_output_depends_only_on_past<S: State>(init: S, events: Seq<S::Event>, n: int)
    requires
        0 <= n <= events.len(),
    ensures
        lines_of(init, events.take(n)).len() <= lines_of(init, events).len(),
        lines_of(init, events).take(lines_of(init, events.take(n)).len() as int)
            == lines_of(init, events.take(n)),
    decreases events.len(),
{
    if n == events.len() {
        assert(events.take(n) =~= events);
        assert(lines_of(init, events).take(lines_of(init, events).len() as int)
            =~= lines_of(init, events));
    } else {
        let shorter = events.drop_last();
        assert(shorter.take(n) =~= events.take(n));
        lemma_output_depends_only_on_past(init, shorter, n);
        let k = lines_of(init, events.take(n)).len() as int;
        let rest = lines_of(init, shorter);
        assert(rest.take(k) == lines_of(init, events.take(n)));
        let prev = fold_events(init, shorter);
        if prev.accepts(events.last()) {
            let pushed = rest.push(prev.next_spec(events.last()).render_spec());
            assert(pushed.take(k) =~= rest.take(k));
        }
    }
}

} // verus!
