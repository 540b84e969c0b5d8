//! Decisions of the planet's life cycle: when to generate a planet, and
//! what to do with the result of an attempt.
//!
//! The owner reports each tick, with whether the configuration changed
//! since it was last read, and the outcome of each generation attempt; it
//! carries out the action it gets back. A planet is built first and swapped
//! in afterwards, so a failed attempt leaves the previous planet in place.
use vstd::prelude::*;

verus! {

/// The manager's state.
#[derive(Clone, Copy, Debug, PartialEq, Eq, Structural)]
pub struct Lifecycle {
    /// A generation has been asked for at least once.
    pub started: bool,
    /// A planet (mesh, collider and body) is in the world.
    pub live: bool,
}

/// What the owner does on a tick.
#[derive(Clone, Copy, Debug, PartialEq, Eq, Structural)]
pub enum TickAction {
    /// Nothing: the planet in place matches the configuration.
    Idle,
    /// Build a new mesh, collider and body from the configuration, then
    /// report the outcome with `on_built`.
    Generate,
}

/// What the owner does with the outcome of a generation attempt.
#[derive(Clone, Copy, Debug, PartialEq, Eq, Structural)]
pub enum BuildAction {
    /// Insert the new planet; there was none before.
    Spawn,
    /// Remove the old planet and its body and insert the new one, in one
    /// step, so that never both are subject to gravity.
    Replace,
    /// Drop the failed attempt, keep the previous planet if any, and report
    /// the error.
    Reject,
}

/// One observation handed to the manager.
#[derive(Clone, Copy, Debug, PartialEq, Eq, Structural)]
pub enum LifeEvent {
    /// A tick; the flag says whether the configuration changed.
    Tick(bool),
    /// The outcome of a generation attempt.
    Built(bool),
}

/// The state before anything happened.
pub open spec fn initial() -> Lifecycle {
    Lifecycle { started: false, live: false }
}

/// Next state and action on a tick.
pub open spec fn tick_step(s: Lifecycle, changed: bool) -> (Lifecycle, TickAction) {
    if !s.started || changed {
        (Lifecycle { started: true, live: s.live }, TickAction::Generate)
    } else {
        (s, TickAction::Idle)
    }
}

/// Next state and action on the outcome of a generation attempt.
pub open spec fn built_step(s: Lifecycle, ok: bool) -> (Lifecycle, BuildAction) {
    if ok {
        (
            Lifecycle { started: s.started, live: true },
            if s.live {
                BuildAction::Replace
            } else {
                BuildAction::Spawn
            },
        )
    } else {
        (s, BuildAction::Reject)
    }
}

/// The state after one event.
pub open spec fn step(s: Lifecycle, e: LifeEvent) -> Lifecycle {
    match e {
        LifeEvent::Tick(changed) => tick_step(s, changed).0,
        LifeEvent::Built(ok) => built_step(s, ok).0,
    }
}

/// How many generations a run of events asks for, from state `s`.
pub open spec fn generations(s: Lifecycle, events: Seq<LifeEvent>) -> nat
    decreases events.len(),
{
    if events.len() == 0 {
        0
    } else {
        let e = events[0];
        let here: nat = match e {
            LifeEvent::Tick(changed) => if tick_step(s, changed).1 == TickAction::Generate {
                1
            } else {
                0
            },
            LifeEvent::Built(_) => 0,
        };
        here + generations(step(s, e), events.drop_first())
    }
}

/// No tick of the run reports a changed configuration.
pub open spec fn unchanged_run(events: Seq<LifeEvent>) -> bool {
    forall|k: int| 0 <= k < events.len() ==> events[k] != LifeEvent::Tick(true)
}

impl Lifecycle {
    /// No planet yet, and none asked for.
    pub fn new() -> (r: Lifecycle)
        ensures
            r == initial(),
    {
        Lifecycle { started: false, live: false }
    }

    /// A tick: generation is asked for on the first tick and on every tick
    /// whose configuration changed, and on no other.
    pub fn on_tick(&mut self, config_changed: bool) -> (r: TickAction)
        ensures
            (*final(self), r) == tick_step(*old(self), config_changed),
    {
        if !self.started || config_changed {
            self.started = true;
            TickAction::Generate
        } else {
            TickAction::Idle
        }
    }

    /// The outcome of a generation attempt: a success spawns or replaces
    /// the planet, a failure keeps what is there.
    pub fn on_built(&mut self, ok: bool) -> (r: BuildAction)
        ensures
            (*final(self), r) == built_step(*old(self), ok),
    {
        if ok {
            let was_live = self.live;
            self.live = true;
            if was_live {
                BuildAction::Replace
            } else {
                BuildAction::Spawn
            }
        } else {
            BuildAction::Reject
        }
    }

    /// A planet is in the world.
    pub fn has_planet(&self) -> (r: bool)
        ensures
            r == self.live,
    {
        self.live
    }
}

/// Once a generation has been asked for, a run of events whose ticks all
/// report an unchanged configuration asks for no generation at all.
pub proof fn lemma_started_unchanged_idle(s: Lifecycle, events: Seq<LifeEvent>)
    requires
        s.started,
        unchanged_run(events),
    ensures
        generations(s, events) == 0,
    decreases events.len(),
{
    if events.len() > 0 {
        let rest = events.drop_first();
        assert(unchanged_run(rest)) by {
            assert forall|k: int| 0 <= k < rest.len() implies rest[k] != LifeEvent::Tick(true) by {
                assert(rest[k] == events[k + 1]);
            }
        }
        assert(events[0] != LifeEvent::Tick(true));
        lemma_started_unchanged_idle(step(s, events[0]), rest);
    }
}

/// From the start, a run of events whose ticks all report an unchanged
/// configuration asks for at most one generation: the first one.
pub proof fn lemma_unchanged_generates_at_most_once(events: Seq<LifeEvent>)
    requires
        unchanged_run(events),
    ensures
        generations(initial(), events) <= 1,
{
    lemma_generations_from_unstarted(initial(), events);
}

/// Before any generation was asked for, a run whose ticks all report an
/// unchanged configuration asks for at most one.
pub proof fn lemma_generations_from_unstarted(s: Lifecycle, events: Seq<LifeEvent>)
    requires
        !s.started,
        unchanged_run(events),
    ensures
        generations(s, events) <= 1,
    decreases events.len(),
{
    if events.len() > 0 {
        let rest = events.drop_first();
        assert(unchanged_run(rest)) by {
            assert forall|k: int| 0 <= k < rest.len() implies rest[k] != LifeEvent::Tick(true) by {
                assert(rest[k] == events[k + 1]);
            }
        }
        let next = step(s, events[0]);
        if next.started {
            lemma_started_unchanged_idle(next, rest);
        } else {
            lemma_generations_from_unstarted(next, rest);
        }
    }
}

} // verus!
