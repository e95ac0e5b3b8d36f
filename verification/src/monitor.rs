//! The staleness predicate and the alert state machine driven by the
//! periodic monitor tick.

use crate::template::brace_free;
use crate::template::render_spec;
use crate::template::substitute_datetime;
use crate::template::MAX_RENDERABLE_MS;
use vstd::prelude::*;

verus! {

/// A stream is stale when at least `threshold` milliseconds have passed
/// since the last observed activity: `now - threshold >= seen`, with the
/// boundary inclusive on the stale side.
pub open spec fn is_stale_spec(now: int, last_seen: int, delay: int) -> bool {
    now - delay >= last_seen
}

/// Decides whether a stream whose last activity was at `last_seen` is
/// stale at `now`, given a grace period of `delay` milliseconds.
///
/// The boundary is inclusive: `now - delay == last_seen` counts as stale.
/// When less than one grace period has passed since the epoch
/// (`now < delay`), nothing can be stale yet, so the result is false
/// rather than an underflowing subtraction.
pub fn is_stale(now: u128, last_seen: u128, delay: u128) -> (r: bool)
    ensures
        r == is_stale_spec(now as int, last_seen as int, delay as int),
{
    now >= delay && now - delay >= last_seen
}

/// At the exact boundary, `now - delay == last_seen`, the stream counts
/// as stale: the boundary is inclusive on the stale side.
pub proof fn lemma_stale_boundary_inclusive(now: int, last_seen: int, delay: int)
    requires
        now - delay == last_seen,
    ensures
        is_stale_spec(now, last_seen, delay),
{
}

/// Strictly within the grace period, `now - delay < last_seen`, the
/// stream is not stale.
pub proof fn lemma_fresh_within_grace(now: int, last_seen: int, delay: int)
    requires
        now - delay < last_seen,
    ensures
        !is_stale_spec(now, last_seen, delay),
{
}

/// Whether a tick that observes `now` and `last_seen` fires an alert: the
/// stream must be stale and the latch still armed.
pub open spec fn tick_fires(armed: bool, now: int, last_seen: int, delay: int) -> bool {
    armed && is_stale_spec(now, last_seen, delay)
}

/// The latch after a tick: it stays armed unless this tick fired under a
/// no-rearm policy, and once disarmed it can never return to armed.
pub open spec fn next_armed(no_rearm: bool, armed: bool, fired: bool) -> bool {
    armed && !(fired && no_rearm)
}

/// What one monitor tick asks of the embedding program: an alert line to
/// emit, if any, and an exit status to terminate with, if any.
pub struct TickAction {
    /// The rendered alert message, when this tick fired.
    pub alert: Option<String>,
    /// The configured exit status, when this tick fired and one is
    /// configured.
    pub exit: Option<i32>,
}

/// The staleness monitor's state: the immutable configuration and the
/// alert latch. The periodic tick is the only thing that touches it.
pub struct Monitor {
    threshold_ms: u128,
    template: String,
    no_rearm: bool,
    exit_code: Option<i32>,
    armed: bool,
}

impl Monitor {
    /// The grace period in milliseconds.
    pub closed spec fn threshold(&self) -> u128 {
        self.threshold_ms
    }

    /// The alert message template.
    pub closed spec fn template(&self) -> Seq<char> {
        self.template@
    }

    /// Whether the latch disarms after the first alert.
    pub closed spec fn no_rearm(&self) -> bool {
        self.no_rearm
    }

    /// The exit status to request when an alert fires, if one is
    /// configured.
    pub closed spec fn exit_code(&self) -> Option<i32> {
        self.exit_code
    }

    /// Whether the alert latch is armed.
    pub closed spec fn armed(&self) -> bool {
        self.armed
    }

    /// A fresh monitor holds the given configuration and starts armed.
    pub fn new(threshold_ms: u128, template: String, no_rearm: bool, exit_code: Option<i32>) -> (m:
        Monitor)
        ensures
            m.threshold() == threshold_ms,
            m.template() == template@,
            m.no_rearm() == no_rearm,
            m.exit_code() == exit_code,
            m.armed(),
    {
        Monitor { threshold_ms, template, no_rearm, exit_code, armed: true }
    }

    /// One tick of the staleness monitor, given the current time and the
    /// tracker's snapshot, both in milliseconds since the epoch.
    ///
    /// The tick fires exactly when the stream is stale and the latch is
    /// armed. A firing tick renders the alert message from the template —
    /// each token replaced by a non-empty, brace-free rendering — and
    /// requests the configured exit status; under a no-rearm policy it
    /// also disarms the latch. A silent tick has no effect at all. The
    /// bound on the timestamps is chrono's renderable range.
    pub fn tick(&mut self, now: u128, seen: u128) -> (a: TickAction)
        requires
            now <= MAX_RENDERABLE_MS,
            seen <= MAX_RENDERABLE_MS,
        ensures
            ({
                let fired = tick_fires(
                    old(self).armed(),
                    now as int,
                    seen as int,
                    old(self).threshold() as int,
                );
                &&& (a.alert is Some) == fired
                &&& (a.alert matches Some(m) ==> exists|n: Seq<char>, s: Seq<char>|
                    m@ == render_spec(old(self).template(), n, s) && n.len() > 0 && s.len() > 0
                        && brace_free(n) && brace_free(s))
                &&& a.exit == (if fired {
                    old(self).exit_code()
                } else {
                    None::<i32>
                })
                &&& final(self).armed() == next_armed(old(self).no_rearm(), old(self).armed(), fired)
                &&& final(self).threshold() == old(self).threshold()
                &&& final(self).template() == old(self).template()
                &&& final(self).no_rearm() == old(self).no_rearm()
                &&& final(self).exit_code() == old(self).exit_code()
            }),
    {
        if is_stale(now, seen, self.threshold_ms) && self.armed {
            let message = substitute_datetime(self.template.as_str(), now, seen);
            proof {
                let (n0, s0) = choose|n: Seq<char>, s: Seq<char>|
                    message@ == render_spec(self.template@, n, s) && n.len() > 0 && s.len() > 0
                        && brace_free(n) && brace_free(s);
                assert(message@ == render_spec(old(self).template(), n0, s0) && n0.len() > 0
                    && s0.len() > 0 && brace_free(n0) && brace_free(s0));
            }
            if self.no_rearm {
                self.armed = false;
            }
            TickAction { alert: Some(message), exit: self.exit_code }
        } else {
            TickAction { alert: None, exit: None }
        }
    }
}

/// How many of the ticks described by `events` fire, starting from a
/// latch state `armed`: each event is the `(now, seen)` pair one tick
/// observes, and the latch evolves by `next_armed` from tick to tick.
pub open spec fn run_alert_count(
    no_rearm: bool,
    armed: bool,
    delay: int,
    events: Seq<(u128, u128)>,
) -> nat
    decreases events.len(),
{
    if events.len() == 0 {
        0
    } else {
        let fired = tick_fires(armed, events[0].0 as int, events[0].1 as int, delay);
        (if fired {
            1nat
        } else {
            0nat
        }) + run_alert_count(no_rearm, next_armed(no_rearm, armed, fired), delay, events.skip(1))
    }
}

/// Once the latch is disarmed, no later tick produces an alert, whatever
/// the ticks observe: disarmed is terminal.
pub proof fn lemma_disarmed_stays_silent(no_rearm: bool, delay: int, events: Seq<(u128, u128)>)
    ensures
        run_alert_count(no_rearm, false, delay, events) == 0,
    decreases events.len(),
{
    if events.len() > 0 {
        lemma_disarmed_stays_silent(no_rearm, delay, events.skip(1));
    }
}

/// With rearming allowed (the default) and the latch armed, staleness that
/// persists across N consecutive ticks produces exactly N alerts, one per
/// tick.
pub proof fn lemma_rearm_alerts_every_stale_tick(delay: int, events: Seq<(u128, u128)>)
    requires
        forall|k: int|
            0 <= k < events.len() ==> is_stale_spec(
                #[trigger] events[k].0 as int,
                events[k].1 as int,
                delay,
            ),
    ensures
        run_alert_count(false, true, delay, events) == events.len(),
    decreases events.len(),
{
    if events.len() > 0 {
        let rest = events.skip(1);
        assert forall|k: int| 0 <= k < rest.len() implies is_stale_spec(
            #[trigger] rest[k].0 as int,
            rest[k].1 as int,
            delay,
        ) by {
            assert(rest[k] == events[k + 1]);
        }
        lemma_rearm_alerts_every_stale_tick(delay, rest);
    }
}

} // verus!
